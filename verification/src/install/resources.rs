//! What the installer writes: the launchd job plists and the shell completions.

use vstd::prelude::*;

verus! {

/// The root daemon's job.
pub const DAEMON_PLIST: &'static str =
    "<?xml version=\"1.0\" encoding=\"UTF-8\"?>\n<!DOCTYPE plist PUBLIC \"-//Apple//DTD PLIST 1.0//EN\" \"http://www.apple.com/DTDs/PropertyList-1.0.dtd\">\n<plist version=\"1.0\">\n<dict>\n  <key>Label</key><string>io.github.ibimal.kanatabar.daemon</string>\n  <key>ProgramArguments</key>\n  <array>\n    <string>/usr/local/bin/kanatad</string>\n    <string>run</string>\n  </array>\n  <key>RunAtLoad</key><true/>\n  <key>KeepAlive</key><true/>\n  <key>ProcessType</key><string>Interactive</string>\n  <key>StandardOutPath</key><string>/Library/Logs/KanataBar/kanatad.out.log</string>\n  <key>StandardErrorPath</key><string>/Library/Logs/KanataBar/kanatad.err.log</string>\n</dict>\n</plist>\n";

/// The per-user tray job; `__HOME__` and `__TRAY_BIN__` are filled in.
pub const AGENT_PLIST_TEMPLATE: &'static str =
    "<?xml version=\"1.0\" encoding=\"UTF-8\"?>\n<!DOCTYPE plist PUBLIC \"-//Apple//DTD PLIST 1.0//EN\" \"http://www.apple.com/DTDs/PropertyList-1.0.dtd\">\n<plist version=\"1.0\">\n<dict>\n  <key>Label</key><string>io.github.ibimal.kanatabar.agent</string>\n  <key>ProgramArguments</key>\n  <array>\n    <string>__TRAY_BIN__</string>\n  </array>\n  <key>RunAtLoad</key><true/>\n  <key>ProcessType</key><string>Interactive</string>\n  <key>StandardOutPath</key><string>__HOME__/Library/Logs/KanataBar/tray.out.log</string>\n  <key>StandardErrorPath</key><string>__HOME__/Library/Logs/KanataBar/tray.err.log</string>\n</dict>\n</plist>\n";

/// The job that keeps the Karabiner VirtualHIDDevice daemon running.
pub const VHIDD_PLIST: &'static str =
    "<?xml version=\"1.0\" encoding=\"UTF-8\"?>\n<!DOCTYPE plist PUBLIC \"-//Apple//DTD PLIST 1.0//EN\" \"http://www.apple.com/DTDs/PropertyList-1.0.dtd\">\n<plist version=\"1.0\">\n<dict>\n  <key>Label</key><string>io.github.ibimal.kanatabar.vhidd</string>\n  <key>ProgramArguments</key>\n  <array>\n    <string>/Library/Application Support/org.pqrs/Karabiner-DriverKit-VirtualHIDDevice/Applications/Karabiner-VirtualHIDDevice-Daemon.app/Contents/MacOS/Karabiner-VirtualHIDDevice-Daemon</string>\n  </array>\n  <key>RunAtLoad</key><true/>\n  <key>KeepAlive</key><true/>\n  <key>ProcessType</key><string>Interactive</string>\n  <key>StandardOutPath</key><string>/Library/Logs/KanataBar/vhidd.out.log</string>\n  <key>StandardErrorPath</key><string>/Library/Logs/KanataBar/vhidd.err.log</string>\n</dict>\n</plist>\n";

/// Completion of `kanatactl`'s subcommands in bash.
pub const BASH_COMPLETION: &'static str =
    "_kanatactl() {\n  COMPREPLY=( $(compgen -W \"status start stop restart pause resume watch preset config logs devices autostart doctor install uninstall\" -- \"${COMP_WORDS[COMP_CWORD]}\") )\n}\ncomplete -F _kanatactl kanatactl\n";

/// Completion of `kanatactl`'s subcommands in zsh.
pub const ZSH_COMPLETION: &'static str =
    "#compdef kanatactl\n_arguments '1:command:(status start stop restart pause resume watch preset config logs devices autostart doctor install uninstall)' '*::arg:_files'\n";

/// Completion of `kanatactl`'s subcommands in fish.
pub const FISH_COMPLETION: &'static str =
    "complete -c kanatactl -n __fish_use_subcommand -a 'status start stop restart pause resume watch preset config logs devices autostart doctor install uninstall'\n";

} // verus!
