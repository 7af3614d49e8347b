//! Config data model: presets, daemon-wide defaults and the parsed
//! `config.toml`.

use vstd::prelude::*;

use crate::backoff::BackoffConfig;
use crate::text::order::{self, comes_before};
use crate::text::same;

verus! {

broadcast use vstd::string::group_string_axioms;

/// Built-in transparent-passthrough config: the final fallback when even the
/// last-known-good backup is broken. Materialized to disk by the daemon and
/// loaded like any other preset.
pub const SAFE_CONFIG: &'static str =
    ";; KanataBar safe fallback config — transparent passthrough, remaps nothing.\n;; [VERIFY] against the installed kanata version.\n(defcfg process-unmapped-keys no)\n(defsrc)\n(deflayer base)\n";

/// Current `config.toml` schema version.
pub const CONFIG_SCHEMA: u32 = 1;

/// The default kanata TCP port.
pub const DEFAULT_TCP_PORT: u16 = 5829;

/// Daemon-wide defaults from `[defaults]` in `config.toml`.
#[derive(Debug, Clone, PartialEq, Eq)]
pub struct Defaults {
    /// kanata binary; empty string means `/usr/local/bin/kanata` then `PATH`.
    pub kanata_bin: String,
    /// kanata TCP port for the layer-event client.
    pub tcp_port: u16,
    /// Extra arguments appended to every kanata invocation.
    pub extra_args: Vec<String>,
    /// Coalescing window for device/config events.
    pub debounce_ms: u64,
    /// Backoff tuning.
    pub backoff: BackoffConfig,
}

impl Defaults {
    /// The built-in defaults.
    pub open spec fn built_in(self) -> bool {
        &&& self.kanata_bin@ == Seq::<char>::empty()
        &&& self.tcp_port == DEFAULT_TCP_PORT
        &&& self.extra_args.deep_view() == seq!["--nodelay"@]
        &&& self.debounce_ms == 500
        &&& self.backoff == (BackoffConfig {
            base_ms: 1000,
            cap_ms: 30_000,
            budget: 5,
            reset_after_s: 60,
        })
    }
}

impl Default for Defaults {
    fn default() -> (r: Self)
        ensures
            r.built_in(),
    {
        let r = Defaults {
            kanata_bin: String::new(),
            tcp_port: DEFAULT_TCP_PORT,
            extra_args: vec!["--nodelay".to_owned()],
            debounce_ms: 500,
            backoff: BackoffConfig::default(),
        };
        assert(r.extra_args.deep_view() =~= seq!["--nodelay"@]);
        assert(r.kanata_bin@ =~= Seq::<char>::empty());
        r
    }
}

/// Whether `config.toml` was loaded, absent, or present-but-broken. The daemon
/// tracks this so a parse failure is *surfaced* (doctor, logs) instead of the
/// file being silently discarded.
#[derive(Debug, Clone, PartialEq, Eq)]
pub enum ConfigStatus {
    /// No `config.toml` on disk: running on built-in defaults (normal).
    Missing,
    /// Parsed successfully; carries the preset count for a friendly detail.
    Loaded {
        /// Number of presets the file defines.
        presets: usize,
    },
    /// Present but failed to parse; its presets and defaults are ignored and
    /// the daemon runs on built-in defaults until it is fixed. Carries the
    /// human-readable parse error.
    Invalid {
        /// The parse/read error, rendered for display.
        error: String,
    },
}

impl ConfigStatus {
    /// True when the file is present but could not be parsed (the actionable
    /// failure doctor should flag).
    pub fn is_invalid(&self) -> (r: bool)
        ensures
            r == (self is Invalid),
    {
        matches!(self, ConfigStatus::Invalid { .. })
    }
}

/// One named preset: a `.kbd` config plus optional per-preset overrides.
#[derive(Debug, Clone, PartialEq, Eq)]
pub struct PresetDef {
    /// Path to the preset's `.kbd` file.
    pub config: String,
    /// Start this preset automatically when the daemon boots.
    pub autostart: bool,
    /// Override the kanata binary for this preset; `None` uses the default.
    pub kanata_bin: Option<String>,
    /// Extra arguments appended for this preset.
    pub extra_args: Vec<String>,
}

/// One entry of a [`PresetMap`].
#[derive(Debug, Clone, PartialEq, Eq)]
pub struct NamedPreset {
    /// Preset name.
    pub name: String,
    /// The preset.
    pub def: PresetDef,
}

/// Presets keyed by name, kept in the order of their names.
#[derive(Debug, Clone, PartialEq, Eq)]
pub struct PresetMap {
    entries: Vec<NamedPreset>,
}

/// The names are in strictly increasing order.
pub open spec fn in_name_order(entries: Seq<NamedPreset>) -> bool {
    forall|i: int, j: int|
        0 <= i < j < entries.len() ==> order::precedes(
            #[trigger] entries[i].name@,
            #[trigger] entries[j].name@,
        )
}

/// Entry `i` has the name.
pub open spec fn named_at(entries: Seq<NamedPreset>, name: Seq<char>, i: int) -> bool {
    0 <= i < entries.len() && entries[i].name@ == name
}

impl View for PresetMap {
    type V = Map<Seq<char>, PresetDef>;

    /// Each name's preset.
    closed spec fn view(&self) -> Map<Seq<char>, PresetDef> {
        let e = self.entries@;
        Map::new(
            |name: Seq<char>| exists|i: int| named_at(e, name, i),
            |name: Seq<char>| e[choose|i: int| named_at(e, name, i)].def,
        )
    }
}

impl PresetMap {
    /// Every name occurs once, in order.
    pub closed spec fn wf(self) -> bool {
        in_name_order(self.entries@)
    }

    /// The names in order.
    pub closed spec fn names(self) -> Seq<Seq<char>> {
        self.entries@.map_values(|e: NamedPreset| e.name@)
    }

    /// The entry with a name is unique.
    proof fn only_entry(self, name: Seq<char>, i: int)
        requires
            self.wf(),
            named_at(self.entries@, name, i),
        ensures
            self@.dom().contains(name),
            self@[name] == self.entries@[i].def,
    {
        let j = choose|j: int| named_at(self.entries@, name, j);
        assert(named_at(self.entries@, name, j));
        order::precedes_irreflexive(name);
        if i < j {
            assert(order::precedes(self.entries@[i].name@, self.entries@[j].name@));
        }
        if j < i {
            assert(order::precedes(self.entries@[j].name@, self.entries@[i].name@));
        }
    }

    /// The names are exactly the keys, each once, in increasing order.
    pub proof fn names_are_keys(self)
        requires
            self.wf(),
        ensures
            forall|k: Seq<char>| #[trigger] self@.dom().contains(k) <==> self.names().contains(k),
            forall|i: int, j: int|
                0 <= i < j < self.names().len() ==> order::precedes(
                    #[trigger] self.names()[i],
                    #[trigger] self.names()[j],
                ),
    {
        let names = self.names();
        assert forall|k: Seq<char>| #[trigger] self@.dom().contains(k) implies names.contains(
            k,
        ) by {
            let i = choose|i: int| named_at(self.entries@, k, i);
            assert(names[i] == k);
        }
        assert forall|k: Seq<char>| names.contains(k) implies #[trigger] self@.dom().contains(
            k,
        ) by {
            let i = choose|i: int| 0 <= i < names.len() && names[i] == k;
            assert(named_at(self.entries@, k, i));
        }
    }

    /// No presets.
    pub fn new() -> (r: Self)
        ensures
            r.wf(),
            r@ == Map::<Seq<char>, PresetDef>::empty(),
            r.names() == Seq::<Seq<char>>::empty(),
    {
        let r = PresetMap { entries: Vec::new() };
        assert(r@ =~= Map::<Seq<char>, PresetDef>::empty());
        assert(r.names() =~= Seq::<Seq<char>>::empty());
        r
    }

    /// How many presets there are.
    pub fn len(&self) -> (n: usize)
        ensures
            n == self.names().len(),
    {
        self.entries.len()
    }

    /// The `i`-th preset in the order of names.
    pub fn at(&self, i: usize) -> (r: &NamedPreset)
        requires
            self.wf(),
            i < self.names().len(),
        ensures
            r.name@ == self.names()[i as int],
            self@.dom().contains(r.name@),
            self@[r.name@] == r.def,
    {
        proof {
            assert(named_at(self.entries@, self.entries@[i as int].name@, i as int));
            self.only_entry(self.entries@[i as int].name@, i as int);
        }
        &self.entries[i]
    }

    /// Add a preset, or replace the one of that name.
    pub fn insert(&mut self, name: String, def: PresetDef)
        requires
            old(self).wf(),
        ensures
            final(self).wf(),
            final(self)@ == old(self)@.insert(name@, def),
    {
        let mut i: usize = 0;
        let ghost e = self.entries@;
        while i < self.entries.len() && comes_before(
            self.entries[i].name.as_str(),
            name.as_str(),
        )
            invariant
                i <= self.entries@.len(),
                self.entries@ == e,
                forall|k: int| 0 <= k < i ==> order::precedes(#[trigger] e[k].name@, name@),
            ensures
                i <= self.entries@.len(),
                self.entries@ == e,
                forall|k: int| 0 <= k < i ==> order::precedes(#[trigger] e[k].name@, name@),
                i < e.len() ==> !order::precedes(e[i as int].name@, name@),
            decreases self.entries@.len() - i,
        {
            i += 1;
        }
        let ghost old_map = *self;
        if i < self.entries.len() && same(self.entries[i].name.as_str(), name.as_str()) {
            let ghost n = name@;
            self.entries.set(i, NamedPreset { name, def });
            proof {
                assert forall|a: int, b: int|
                    0 <= a < b < self.entries@.len() implies order::precedes(
                    #[trigger] self.entries@[a].name@,
                    #[trigger] self.entries@[b].name@,
                ) by {
                    assert(order::precedes(e[a].name@, e[b].name@));
                }
                assert(named_at(self.entries@, n, i as int));
                assert forall|k: Seq<char>| #[trigger] self@.dom().contains(k)
                    == old_map@.insert(n, def).dom().contains(k) by {
                    if exists|j: int| named_at(e, k, j) {
                        let j = choose|j: int| named_at(e, k, j);
                        assert(named_at(self.entries@, k, j));
                    }
                    if exists|j: int| named_at(self.entries@, k, j) {
                        let j = choose|j: int| named_at(self.entries@, k, j);
                        assert(named_at(e, k, j));
                    }
                }
                assert forall|k: Seq<char>| #[trigger] self@.dom().contains(k) implies self@[k]
                    == old_map@.insert(n, def)[k] by {
                    let j = choose|j: int| named_at(self.entries@, k, j);
                    self.only_entry(k, j);
                    if j != i {
                        old_map.only_entry(k, j);
                        order::precedes_irreflexive(k);
                    }
                }
                assert(self@ =~= old_map@.insert(n, def));
            }
        } else {
            let ghost n = name@;
            self.entries.insert(i, NamedPreset { name, def });
            proof {
                let f = self.entries@;
                if i < e.len() {
                    order::precedes_total(e[i as int].name@, n);
                }
                assert forall|b: int| i <= b < e.len() implies order::precedes(
                    n,
                    #[trigger] e[b].name@,
                ) by {
                    if b > i {
                        order::precedes_transitive(n, e[i as int].name@, e[b].name@);
                    }
                }
                assert forall|a: int, b: int| 0 <= a < b < f.len() implies order::precedes(
                    #[trigger] f[a].name@,
                    #[trigger] f[b].name@,
                ) by {
                    if a < i && b < i {
                        assert(order::precedes(e[a].name@, e[b].name@));
                    } else if a < i && b > i {
                        assert(order::precedes(e[a].name@, e[b - 1].name@));
                    } else if a == i {
                        assert(f[b] == e[b - 1]);
                    } else if a > i {
                        assert(order::precedes(e[a - 1].name@, e[b - 1].name@));
                    }
                }
                assert(self.wf());
                assert forall|k: Seq<char>| #[trigger] self@.dom().contains(k)
                    == old_map@.insert(n, def).dom().contains(k) by {
                    if exists|j: int| named_at(e, k, j) {
                        let j = choose|j: int| named_at(e, k, j);
                        assert(named_at(f, k, if j < i {
                            j
                        } else {
                            j + 1
                        }));
                    }
                    if k == n {
                        assert(named_at(f, k, i as int));
                    }
                    if exists|j: int| named_at(f, k, j) {
                        let j = choose|j: int| named_at(f, k, j);
                        if j < i {
                            assert(named_at(e, k, j));
                        } else if j > i {
                            assert(named_at(e, k, j - 1));
                        }
                    }
                }
                assert forall|k: Seq<char>| #[trigger] self@.dom().contains(k) implies self@[k]
                    == old_map@.insert(n, def)[k] by {
                    let j = choose|j: int| named_at(f, k, j);
                    self.only_entry(k, j);
                    if k == n {
                        self.only_entry(k, i as int);
                    } else if j < i {
                        old_map.only_entry(k, j);
                    } else {
                        assert(j > i);
                        old_map.only_entry(k, j - 1);
                    }
                }
                assert(self@ =~= old_map@.insert(n, def));
            }
        }
    }
}

/// The parsed `config.toml`: schema, defaults, presets.
///
/// Modified only via IPC (`SetPresetList`) or sudo; preset `.kbd` files
/// themselves live wherever the user likes.
#[derive(Debug, Clone, PartialEq, Eq)]
pub struct ConfigFile {
    /// Schema version.
    pub schema: u32,
    /// Daemon-wide defaults.
    pub defaults: Defaults,
    /// Named presets.
    pub presets: PresetMap,
}

impl Default for ConfigFile {
    fn default() -> (r: Self)
        ensures
            r.schema == CONFIG_SCHEMA,
            r.defaults.built_in(),
            r.presets.wf(),
            r.presets@ == Map::<Seq<char>, PresetDef>::empty(),
    {
        ConfigFile {
            schema: CONFIG_SCHEMA,
            defaults: Defaults::default(),
            presets: PresetMap::new(),
        }
    }
}

impl ConfigFile {
    /// The preset of this name is marked `autostart`.
    pub open spec fn autostarts(self, name: Seq<char>) -> bool {
        self.presets@.dom().contains(name) && self.presets@[name].autostart
    }

    /// The preset marked `autostart`, if any (first by name for determinism).
    pub fn autostart_preset(&self) -> (r: Option<(&str, &PresetDef)>)
        requires
            self.presets.wf(),
        ensures
            match r {
                Some((name, def)) => {
                    &&& self.autostarts(name@)
                    &&& *def == self.presets@[name@]
                    &&& forall|other: Seq<char>| #[trigger]
                        self.autostarts(other) && other != name@ ==> order::precedes(
                            name@,
                            other,
                        )
                },
                None => forall|name: Seq<char>| !#[trigger] self.autostarts(name),
            },
    {
        let mut i: usize = 0;
        let ghost names = self.presets.names();
        proof {
            self.presets.names_are_keys();
        }
        while i < self.presets.len()
            invariant
                self.presets.wf(),
                i <= names.len(),
                names == self.presets.names(),
                forall|k: Seq<char>| #[trigger]
                    self.presets@.dom().contains(k) <==> names.contains(k),
                forall|a: int, b: int|
                    0 <= a < b < names.len() ==> order::precedes(
                        #[trigger] names[a],
                        #[trigger] names[b],
                    ),
                forall|k: int| 0 <= k < i ==> !self.autostarts(#[trigger] names[k]),
            decreases names.len() - i,
        {
            let entry = self.presets.at(i);
            if entry.def.autostart {
                proof {
                    assert forall|other: Seq<char>| #[trigger]
                        self.autostarts(other) && other != entry.name@ implies order::precedes(
                        entry.name@,
                        other,
                    ) by {
                        assert(names.contains(other));
                        let j = choose|j: int| 0 <= j < names.len() && names[j] == other;
                        assert(!self.autostarts(names[j]) || j >= i);
                    }
                }
                return Some((entry.name.as_str(), &entry.def));
            }
            i += 1;
        }
        proof {
            assert forall|name: Seq<char>| !#[trigger] self.autostarts(name) by {
                if self.autostarts(name) {
                    assert(names.contains(name));
                    let j = choose|j: int| 0 <= j < names.len() && names[j] == name;
                    assert(!self.autostarts(names[j]));
                }
            }
        }
        None
    }
}

/// A full set of named presets: the payload of `SetPresetList`.
#[derive(Debug, Clone, PartialEq, Eq)]
pub struct PresetList {
    /// Presets keyed by name (ordered for stable output).
    pub presets: PresetMap,
}

impl Default for PresetList {
    fn default() -> (r: Self)
        ensures
            r.presets.wf(),
            r.presets@ == Map::<Seq<char>, PresetDef>::empty(),
    {
        PresetList { presets: PresetMap::new() }
    }
}

/// A preset autostarts exactly when it is configured and marked so.
pub proof fn marked_presets_autostart(config: ConfigFile, name: Seq<char>)
    ensures
        config.autostarts(name) <==> config.presets@.dom().contains(name)
            && config.presets@[name].autostart,
{
}

} // verus!
