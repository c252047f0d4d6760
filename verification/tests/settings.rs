use signalui::settings::{default_true, Settings, SettingsFile, Theme};

#[test]
fn defaults_are_privacy_neutral() {
    let s = Settings::default();
    assert!(s.read_receipts);
    assert!(s.typing_indicators);
    assert_eq!(s.theme, Theme::Auto);
}

#[test]
fn round_trip_through_disk() {
    let mut s = Settings::default();
    s.read_receipts = false;
    s.theme = Theme::Dark;
    let loaded = Settings::resolve(Some(s.to_file()));
    assert!(!loaded.read_receipts);
    assert_eq!(loaded.theme, Theme::Dark);
}

#[test]
fn missing_file_returns_defaults() {
    let s = Settings::resolve(None);
    assert!(s.read_receipts);
}

#[test]
fn missing_fields_get_defaults_forward_compat() {
    let f = SettingsFile { read_receipts: None, typing_indicators: None, theme: Some("dark".to_string()) };
    let s = Settings::resolve(Some(f));
    assert!(s.read_receipts);
    assert!(s.typing_indicators);
    assert_eq!(s.theme, Theme::Dark);
}

#[test]
fn unknown_theme_makes_the_file_invalid() {
    let f = SettingsFile { read_receipts: Some(false), typing_indicators: Some(false), theme: Some("neon".to_string()) };
    assert_eq!(Settings::from_file(&f), None);
    assert_eq!(Settings::resolve(Some(f)), Settings::default());
}

#[test]
fn theme_names() {
    for t in [Theme::Light, Theme::Dark, Theme::Auto] {
        assert_eq!(Theme::from_name(t.name()), Some(t));
    }
    assert_eq!(Theme::from_name("Dark"), None);
    assert_eq!(Theme::default(), Theme::Auto);
    assert!(default_true());
}
