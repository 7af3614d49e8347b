# KanataBar

KanataBar supervises [kanata](https://github.com/jtroo/kanata) on macOS: a root
daemon keeps it running, `kanatactl` controls the daemon, and a menu-bar app
shows what is going on.

This crate holds the project's logic as a library whose behaviour is stated in
contracts and proved with Verus:

- supervision: `machine`, `backoff`, `debounce`, `device`, `logring`, `state`;
- what other tools print: `kanata`, `driver`, `vhidd`;
- configuration and the control protocol: `config`, `pathsafety`, `ipc`,
  `client`;
- diagnostics and onboarding: `doctor`, `wizard`;
- the menu-bar app: `model`, `session`, `conn`, `reconnect`, `menu`, `tray`,
  `devwin`, `healthwin`, `wizardwin`, `pages`, `ui_shell`, `icons`, `notify`,
  `login`, `single_instance`;
- the command line and the installer: `cli`, `install`;
- text and paths, on which the rest is built: `text`, `paths`.

`app/` is the code around it: sockets, files, `launchctl`, and the macOS
frameworks. It asks the library what to do and does it.

`tests/` runs the library on concrete values.
