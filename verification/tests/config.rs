use annoying_break_timer::Settings;

#[test]
fn default_focus_minutes_is_25() {
    assert_eq!(Settings::default().focus_minutes, 25);
}

#[test]
fn settings_read_back_are_kept() {
    let loaded = Settings { focus_minutes: 42 };
    assert_eq!(Settings::or_default(Some(loaded)).focus_minutes, 42);
}

#[test]
fn nothing_read_back_gives_the_defaults() {
    assert_eq!(Settings::or_default(None), Settings::default());
}
