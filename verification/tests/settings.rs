use omnichat::settings::{default_theme, AppSettings};

#[test]
fn default_settings() {
    let s = AppSettings::default();
    assert!(s.show_tray_icon && s.enable_system_tray && s.global_hibernation_enabled);
    assert!(!s.minimize_to_tray && !s.close_to_tray && !s.start_minimized && !s.enable_dnd);
    assert_eq!(s.theme, "auto");
    assert_eq!(default_theme(), "auto");
}

#[test]
fn stored_rows_list_every_setting() {
    let mut s = AppSettings::default();
    s.enable_dnd = true;
    s.theme = "dark".into();
    let rows = s.stored_rows();
    let expected: Vec<(&str, &str)> = vec![
        ("show_tray_icon", "true"),
        ("enable_system_tray", "true"),
        ("minimize_to_tray", "false"),
        ("close_to_tray", "false"),
        ("start_minimized", "false"),
        ("enable_dnd", "true"),
        ("global_hibernation_enabled", "true"),
        ("theme", "dark"),
    ];
    let got: Vec<(&str, &str)> = rows.iter().map(|(k, v)| (k.as_str(), v.as_str())).collect();
    assert_eq!(got, expected);
}

#[test]
fn settings_round_trip_keeps_every_setting() {
    let mut s = AppSettings::default();
    s.show_tray_icon = false;
    s.minimize_to_tray = true;
    s.enable_dnd = true;
    s.global_hibernation_enabled = false;
    s.theme = "light".into();
    let back = AppSettings::from_stored_rows(&s.stored_rows());
    assert_eq!(back.show_tray_icon, false);
    assert_eq!(back.minimize_to_tray, true);
    assert_eq!(back.enable_dnd, true);
    assert_eq!(back.global_hibernation_enabled, false);
    assert_eq!(back.close_to_tray, false);
    assert_eq!(back.theme, "light");
}

#[test]
fn loading_treats_anything_but_true_as_false() {
    let rows = vec![("enable_dnd".to_string(), "TRUE".to_string()), ("show_tray_icon".to_string(), "0".to_string())];
    let s = AppSettings::from_stored_rows(&rows);
    assert!(!s.enable_dnd);
    assert!(!s.show_tray_icon);
    assert!(s.enable_system_tray);
    assert_eq!(s.theme, "auto");
    let s = AppSettings::from_stored_rows(&vec![("theme".to_string(), "dark".to_string())]);
    assert_eq!(s.theme, "dark");
}
