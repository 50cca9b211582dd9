use brightvol::config::{Config, StoredConfig};

#[test]
fn default_has_expected_values() {
    let c = Config::default();
    assert!(!c.first_run_complete);
    assert!(c.intercept_enabled);
    assert!(!c.autostart);
}

#[test]
fn stored_settings_round_trip() {
    let original = Config {
        first_run_complete: true,
        intercept_enabled: false,
        autostart: true,
    };
    let loaded = Config::load(Some(original.to_stored()));
    assert_eq!(original, loaded);
}

#[test]
fn every_config_round_trips() {
    for bits in 0u8..8 {
        let c = Config {
            first_run_complete: bits & 1 != 0,
            intercept_enabled: bits & 2 != 0,
            autostart: bits & 4 != 0,
        };
        assert_eq!(Config::load(Some(c.to_stored())), c);
    }
}

#[test]
fn no_usable_file_yields_defaults() {
    assert_eq!(Config::load(None), Config::default());
}

#[test]
fn partial_settings_fill_missing_with_defaults() {
    let stored = StoredConfig {
        first_run_complete: None,
        intercept_enabled: None,
        autostart: Some(true),
    };
    let loaded = Config::load(Some(stored));
    assert!(loaded.autostart);
    assert!(loaded.intercept_enabled);
    assert!(!loaded.first_run_complete);
}

#[test]
fn empty_file_object_yields_defaults() {
    let stored = StoredConfig {
        first_run_complete: None,
        intercept_enabled: None,
        autostart: None,
    };
    assert_eq!(Config::load(Some(stored)), Config::default());
}

#[test]
fn saved_settings_name_every_field() {
    let c = Config::default();
    let s = c.to_stored();
    assert_eq!(s.first_run_complete, Some(false));
    assert_eq!(s.intercept_enabled, Some(true));
    assert_eq!(s.autostart, Some(false));
}

#[test]
fn config_path_prefers_appdata() {
    let p = Config::config_path(Some("C:\\Users\\u\\AppData\\Roaming"), Some("/home/u"), "/tmp");
    assert_eq!(p.base, "C:\\Users\\u\\AppData\\Roaming");
    assert_eq!(p.components, vec!["brightvol", "config.json"]);
}

#[test]
fn config_path_falls_back_to_home_config() {
    let p = Config::config_path(None, Some("/home/u"), "/tmp");
    assert_eq!(p.base, "/home/u");
    assert_eq!(p.components, vec![".config", "brightvol", "config.json"]);
}

#[test]
fn config_path_falls_back_to_temp() {
    let p = Config::config_path(None::<&str>, None, "/tmp");
    assert_eq!(p.base, "/tmp");
    assert_eq!(p.components, vec!["brightvol", "config.json"]);
}
