use hyouga_chess::settings::EngineSettings;

#[test]
fn settings_start_empty_with_debug_off() {
    let s = EngineSettings::default();
    assert!(!s.debug());
    assert_eq!(s.option_count(), 0);
    assert_eq!(s.get_option("Hash"), None);
}

#[test]
fn option_overwrite_keeps_last_value() {
    let mut s = EngineSettings::new();
    s.set_option("Hash".to_string(), "16".to_string());
    assert_eq!(s.option_count(), 1);
    s.set_option("Hash".to_string(), "32".to_string());
    assert_eq!(s.get_option("Hash"), Some("32".to_string()));
    assert_eq!(s.option_count(), 1);
}

#[test]
fn distinct_options_are_kept_apart() {
    let mut s = EngineSettings::new();
    s.set_option("Hash".to_string(), "16".to_string());
    s.set_option("Threads".to_string(), "4".to_string());
    assert_eq!(s.option_count(), 2);
    assert_eq!(s.get_option("Hash"), Some("16".to_string()));
    assert_eq!(s.get_option("Threads"), Some("4".to_string()));
    assert_eq!(s.get_option("Ponder"), None);
}

#[test]
fn debug_toggle_keeps_last_value() {
    let mut s = EngineSettings::new();
    s.set_debug(true);
    s.set_option("Hash".to_string(), "16".to_string());
    s.set_debug(false);
    assert!(!s.debug());
    s.set_option("Hash".to_string(), "32".to_string());
    s.set_debug(true);
    assert!(s.debug());
    assert_eq!(s.get_option("Hash"), Some("32".to_string()));
}
