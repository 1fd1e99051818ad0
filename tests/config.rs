use janus_sqlite_events::{parse_yesno, settle, Config, ConfigError};

#[test]
fn yesno_accepts_only_yes() {
    assert!(parse_yesno(&"yes".to_string()));
    assert!(!parse_yesno(&"no".to_string()));
    assert!(!parse_yesno(&"YES".to_string()));
    assert!(!parse_yesno(&"".to_string()));
}

#[test]
fn default_config_is_enabled_with_events_db() {
    let c = Config::default();
    assert!(c.enabled);
    assert_eq!(c.db_path, "events.db");
}

#[test]
fn values_fall_back_to_defaults() {
    let c = Config::from_values(None, None);
    assert!(c.enabled);
    assert_eq!(c.db_path, "events.db");
    let c = Config::from_values(Some("maybe".to_string()), Some(String::new()));
    assert!(!c.enabled);
    assert_eq!(c.db_path, "events.db");
    let c = Config::from_values(Some("yes".to_string()), Some("/var/lib/ev.db".to_string()));
    assert!(c.enabled);
    assert_eq!(c.db_path, "/var/lib/ev.db");
}

#[test]
fn missing_general_section_falls_back_to_default() {
    let r = Config::from_ini_str("[other]\nenabled = no\n");
    assert!(matches!(r, Err(ConfigError::MissingSection)));
    let c = settle(r);
    assert!(c.enabled);
    assert_eq!(c.db_path, "events.db");
}

#[test]
fn unreadable_text_is_an_error() {
    let r = Config::from_ini_str("[general\nenabled = yes\n");
    assert!(matches!(r, Err(ConfigError::Unreadable)));
}

#[test]
fn general_section_is_read() {
    let c = Config::from_ini_str("[general]\nenabled = no\ndb_path = /tmp/x.db\n").unwrap();
    assert!(!c.enabled);
    assert_eq!(c.db_path, "/tmp/x.db");
    let c = Config::from_ini_str("[general]\n").unwrap();
    assert!(c.enabled);
    assert_eq!(c.db_path, "events.db");
}

#[test]
fn settle_keeps_a_loaded_config() {
    let loaded = Config { enabled: false, db_path: "a.db".to_string() };
    let c = settle(Ok(loaded));
    assert!(!c.enabled);
    assert_eq!(c.db_path, "a.db");
}

#[test]
fn general_section_with_other_keys_is_accepted() {
    let c = Config::from_ini_str("[general]\ncolour = blue\n[extra]\nenabled = no\n").unwrap();
    assert!(c.enabled);
    assert_eq!(c.db_path, "events.db");
}
