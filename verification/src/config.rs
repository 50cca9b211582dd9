//! Persisted application state and first-run detection.
//!
//! State lives in `%APPDATA%\brightvol\config.json` on Windows. A missing or
//! corrupt file is treated as "use defaults" so the app always starts, and a
//! file that lacks some settings takes the default for each of them.
use vstd::prelude::*;

verus! {

/// The application's persisted settings.
#[derive(Debug, Clone, Copy, PartialEq, Eq, Structural)]
pub struct Config {
    /// Whether the first-run autostart prompt has already been shown.
    pub first_run_complete: bool,
    /// Whether the volume keys are currently remapped to brightness.
    pub intercept_enabled: bool,
    /// Whether brightvol is registered to start on login.
    pub autostart: bool,
}

/// The settings used when none are stored: prompt not yet shown,
/// interception on, no autostart.
pub open spec fn default_config() -> Config {
    Config { first_run_complete: false, intercept_enabled: true, autostart: false }
}

impl Default for Config {
    fn default() -> (config: Self)
        ensures
            config == default_config(),
    {
        Config { first_run_complete: false, intercept_enabled: true, autostart: false }
    }
}

/// The settings a well-formed config file holds; a setting the file does not
/// mention is `None`.
#[derive(Debug, Clone, Copy, PartialEq, Eq, Structural)]
pub struct StoredConfig {
    pub first_run_complete: Option<bool>,
    pub intercept_enabled: Option<bool>,
    pub autostart: Option<bool>,
}

/// `setting`, or `default` when it is absent.
pub open spec fn or_default(setting: Option<bool>, default: bool) -> bool {
    match setting {
        Some(b) => b,
        None => default,
    }
}

/// The settings loaded from what the config file gave: the defaults when
/// there was no usable file, and otherwise each stored setting, with the
/// default for each one the file lacks.
pub open spec fn loaded_config(stored: Option<StoredConfig>) -> Config {
    match stored {
        None => default_config(),
        Some(s) => Config {
            first_run_complete: or_default(
                s.first_run_complete,
                default_config().first_run_complete,
            ),
            intercept_enabled: or_default(s.intercept_enabled, default_config().intercept_enabled),
            autostart: or_default(s.autostart, default_config().autostart),
        },
    }
}

/// The view of path components as strings.
pub open spec fn component_names(components: Seq<&str>) -> Seq<Seq<char>> {
    components.map_values(|c: &str| c@)
}

/// A location below one of the base directories: the base, then the
/// components to join to it in order.
pub struct ConfigLocation<P> {
    pub base: P,
    pub components: Vec<&'static str>,
}

/// The components of the config directory below the chosen base: `brightvol`
/// below `%APPDATA%` or the temporary directory, `.config/brightvol` below the
/// home directory.
pub open spec fn config_dir_names(from_home: bool) -> Seq<Seq<char>> {
    if from_home {
        seq![".config"@, "brightvol"@]
    } else {
        seq!["brightvol"@]
    }
}

/// The directory that holds the config file: below `%APPDATA%` when it is
/// set, else below `$HOME`, else below the temporary directory.
fn config_dir<P>(appdata: Option<P>, home: Option<P>, temp: P) -> (dir: ConfigLocation<P>)
    ensures
        dir.base == (match appdata {
            Some(a) => a,
            None => match home {
                Some(h) => h,
                None => temp,
            },
        }),
        component_names(dir.components@) == config_dir_names(appdata is None && home is Some),
{
    let mut components: Vec<&'static str> = Vec::new();
    match appdata {
        Some(a) => {
            components.push("brightvol");
            assert(component_names(components@) =~= config_dir_names(false));
            ConfigLocation { base: a, components }
        },
        None => match home {
            Some(h) => {
                components.push(".config");
                components.push("brightvol");
                assert(component_names(components@) =~= config_dir_names(true));
                ConfigLocation { base: h, components }
            },
            None => {
                components.push("brightvol");
                assert(component_names(components@) =~= config_dir_names(false));
                ConfigLocation { base: temp, components }
            },
        },
    }
}

impl Config {
    /// Path to the config file: `config.json` in the config directory, which
    /// is `%APPDATA%\brightvol` when `appdata` is given, else
    /// `$HOME/.config/brightvol` when `home` is given, else `brightvol` in the
    /// temporary directory `temp`.
    pub fn config_path<P>(appdata: Option<P>, home: Option<P>, temp: P) -> (path: ConfigLocation<
        P,
    >)
        ensures
            path.base == (match appdata {
                Some(a) => a,
                None => match home {
                    Some(h) => h,
                    None => temp,
                },
            }),
            component_names(path.components@) == config_dir_names(
                appdata is None && home is Some,
            ).push("config.json"@),
    {
        let mut path = config_dir(appdata, home, temp);
        let ghost before = path.components@;
        path.components.push("config.json");
        assert(component_names(path.components@) =~= component_names(before).push(
            "config.json"@,
        ));
        path
    }

    /// Settings from what reading and parsing the config file gave: `None`
    /// (missing file or parse error) yields [`Config::default`]; a file that
    /// lacks some settings takes the default for each of them.
    pub fn load(stored: Option<StoredConfig>) -> (config: Config)
        ensures
            config == loaded_config(stored),
    {
        let defaults = Config::default();
        match stored {
            None => defaults,
            Some(s) => Config {
                first_run_complete: match s.first_run_complete {
                    Some(b) => b,
                    None => defaults.first_run_complete,
                },
                intercept_enabled: match s.intercept_enabled {
                    Some(b) => b,
                    None => defaults.intercept_enabled,
                },
                autostart: match s.autostart {
                    Some(b) => b,
                    None => defaults.autostart,
                },
            },
        }
    }

    /// What saving these settings writes: every setting, explicitly.
    pub fn to_stored(&self) -> (stored: StoredConfig)
        ensures
            stored == (StoredConfig {
                first_run_complete: Some(self.first_run_complete),
                intercept_enabled: Some(self.intercept_enabled),
                autostart: Some(self.autostart),
            }),
    {
        StoredConfig {
            first_run_complete: Some(self.first_run_complete),
            intercept_enabled: Some(self.intercept_enabled),
            autostart: Some(self.autostart),
        }
    }
}

/// Saving settings and loading what was saved gives the same settings back.
pub proof fn law_save_then_load_round_trips(config: Config)
    ensures
        loaded_config(
            Some(
                StoredConfig {
                    first_run_complete: Some(config.first_run_complete),
                    intercept_enabled: Some(config.intercept_enabled),
                    autostart: Some(config.autostart),
                },
            ),
        ) == config,
{
}

/// A missing or unreadable file loads as the defaults.
pub proof fn law_missing_file_yields_defaults()
    ensures
        loaded_config(None) == default_config(),
{
}

/// A file that mentions only some settings keeps those and takes the default
/// for the others.
pub proof fn law_partial_file_fills_defaults(stored: StoredConfig)
    ensures
        stored.first_run_complete is Some ==> loaded_config(Some(stored)).first_run_complete
            == stored.first_run_complete->0,
        stored.first_run_complete is None ==> loaded_config(Some(stored)).first_run_complete
            == default_config().first_run_complete,
        stored.intercept_enabled is Some ==> loaded_config(Some(stored)).intercept_enabled
            == stored.intercept_enabled->0,
        stored.intercept_enabled is None ==> loaded_config(Some(stored)).intercept_enabled
            == default_config().intercept_enabled,
        stored.autostart is Some ==> loaded_config(Some(stored)).autostart
            == stored.autostart->0,
        stored.autostart is None ==> loaded_config(Some(stored)).autostart
            == default_config().autostart,
{
}

} // verus!
