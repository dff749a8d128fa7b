use rdr2_config::inputs::KeyCode;
use rdr2_config::menu::{
    adjust, append_setting_type, decimal_string, handle_key, pad_with_spaces, render_settings,
    settings_string_capacity, slider_value, Direction, MenuOutcome, VramChange,
};
use rdr2_config::settings::{get_settings, Setting, SettingType, XMLSection};

const NONE: VramChange = VramChange { grows: true, megabytes: 0, pixels: 0 };

#[test]
fn decimal_numerals() {
    assert_eq!(decimal_string(0), "0");
    assert_eq!(decimal_string(7), "7");
    assert_eq!(decimal_string(10), "10");
    assert_eq!(decimal_string(1024), "1024");
    assert_eq!(decimal_string(usize::MAX), usize::MAX.to_string());
}

fn shown(t: &SettingType) -> String {
    let mut s = String::from(">");
    append_setting_type(&mut s, t);
    s
}

#[test]
fn setting_values_as_shown() {
    let s = Setting::low_medium_high(XMLSection::Video, "w", "Water", 1, 2);
    assert_eq!(shown(&s.setting_type), ">Low\n");
    assert_eq!(shown(&SettingType::OnOff(true)), ">ON\n");
    assert_eq!(shown(&SettingType::OnOff(false)), ">OFF\n");
    assert_eq!(shown(&SettingType::Multiplier(0, 16)), ">OFF\n");
    assert_eq!(shown(&SettingType::Multiplier(4, 16)), ">X4\n");
    assert_eq!(shown(&SettingType::OnHalfOff(0)), ">OFF\n");
    assert_eq!(shown(&SettingType::OnHalfOff(1)), ">ON\n");
    assert_eq!(shown(&SettingType::OnHalfOff(2)), ">HALF\n");
    assert_eq!(shown(&SettingType::OnHalfOff(3)), ">\n");
    assert_eq!(shown(&SettingType::Slider(768, 8, false)), ">768\n");
}

#[test]
fn padding() {
    let mut s = String::from("ab");
    pad_with_spaces(&mut s, 3);
    assert_eq!(s, "ab   ");
    pad_with_spaces(&mut s, 0);
    assert_eq!(s, "ab   ");
}

#[test]
fn capacity_counts_name_bytes() {
    let s = get_settings();
    let expected: usize = s.iter().map(|x| x.nice_name.len()).sum();
    assert_eq!(settings_string_capacity(&s), expected);
    assert_eq!(settings_string_capacity(&s), 570);
    assert_eq!(settings_string_capacity(&[]), 0);
}

#[test]
fn capacity_of_multibyte_name() {
    let s = vec![Setting::on_off(XMLSection::Video, "e", "\u{e9}", true)];
    assert_eq!(settings_string_capacity(&s), 2);
}

#[test]
fn rendered_rows() {
    let s = vec![
        Setting::on_off(XMLSection::Video, "a", "Alpha", true),
        Setting::multiplier(XMLSection::Graphics, "m", "MSAA", 8),
    ];
    let mut out = String::new();
    render_settings(&mut out, &s, 1);
    let expected = format!("   Alpha{}ON\n > MSAA{}OFF\n", " ".repeat(35), " ".repeat(36));
    assert_eq!(out, expected);
}

#[test]
fn long_names_get_no_padding() {
    let name = "N".repeat(45);
    let s = vec![Setting::on_off(XMLSection::Video, "a", &name, false)];
    let mut out = String::new();
    render_settings(&mut out, &s, 0);
    assert_eq!(out, format!(" > {}OFF\n", name));
}

#[test]
fn level_steps_and_costs() {
    let mut s = Setting::low_medium_high_ultra(XMLSection::Graphics, "t", "T", 164, 185, 726);
    let t = &mut s.setting_type;
    assert_eq!(adjust(t, Direction::Lower, 1024, 768), NONE);
    assert_eq!(adjust(t, Direction::Raise, 1024, 768), VramChange { grows: true, megabytes: 164, pixels: 0 });
    assert_eq!(adjust(t, Direction::Raise, 1024, 768), VramChange { grows: true, megabytes: 185, pixels: 0 });
    assert_eq!(adjust(t, Direction::Raise, 1024, 768), VramChange { grows: true, megabytes: 726, pixels: 0 });
    assert_eq!(adjust(t, Direction::Raise, 1024, 768), NONE);
    assert!(matches!(t, SettingType::Level(3, _, _)));
    assert_eq!(adjust(t, Direction::Lower, 1024, 768), VramChange { grows: false, megabytes: 726, pixels: 0 });
    assert!(matches!(t, SettingType::Level(2, _, _)));
}

#[test]
fn multiplier_steps() {
    let mut t = SettingType::Multiplier(0, 16);
    adjust(&mut t, Direction::Raise, 0, 0);
    assert!(matches!(t, SettingType::Multiplier(2, 16)));
    adjust(&mut t, Direction::Raise, 0, 0);
    adjust(&mut t, Direction::Raise, 0, 0);
    adjust(&mut t, Direction::Raise, 0, 0);
    assert!(matches!(t, SettingType::Multiplier(16, 16)));
    adjust(&mut t, Direction::Raise, 0, 0);
    assert!(matches!(t, SettingType::Multiplier(16, 16)));
    adjust(&mut t, Direction::Lower, 0, 0);
    assert!(matches!(t, SettingType::Multiplier(8, 16)));
    let mut two = SettingType::Multiplier(2, 16);
    adjust(&mut two, Direction::Lower, 0, 0);
    assert!(matches!(two, SettingType::Multiplier(0, 16)));
    let mut big = SettingType::Multiplier(usize::MAX / 2 + 1, usize::MAX);
    adjust(&mut big, Direction::Raise, 0, 0);
    assert!(matches!(big, SettingType::Multiplier(v, _) if v == usize::MAX / 2 + 1));
}

#[test]
fn on_half_off_cycles() {
    let mut t = SettingType::OnHalfOff(0);
    adjust(&mut t, Direction::Raise, 0, 0);
    assert!(matches!(t, SettingType::OnHalfOff(1)));
    adjust(&mut t, Direction::Raise, 0, 0);
    assert!(matches!(t, SettingType::OnHalfOff(2)));
    adjust(&mut t, Direction::Raise, 0, 0);
    assert!(matches!(t, SettingType::OnHalfOff(0)));
    adjust(&mut t, Direction::Lower, 0, 0);
    assert!(matches!(t, SettingType::OnHalfOff(2)));
    let mut b = SettingType::OnOff(false);
    adjust(&mut b, Direction::Lower, 0, 0);
    assert!(matches!(b, SettingType::OnOff(true)));
}

#[test]
fn slider_steps_and_pixels() {
    let mut w = SettingType::Slider(1024, 8, true);
    assert_eq!(adjust(&mut w, Direction::Raise, 1024, 768), VramChange { grows: true, megabytes: 0, pixels: 768 * 8 });
    assert!(matches!(w, SettingType::Slider(1032, 8, true)));
    let mut h = SettingType::Slider(768, 8, false);
    assert_eq!(adjust(&mut h, Direction::Lower, 1024, 768), VramChange { grows: false, megabytes: 0, pixels: 1024 * 8 });
    assert!(matches!(h, SettingType::Slider(760, 8, false)));
    let mut low = SettingType::Slider(15, 8, false);
    assert_eq!(adjust(&mut low, Direction::Lower, 1024, 768), NONE);
    assert!(matches!(low, SettingType::Slider(15, 8, false)));
    let mut top = SettingType::Slider(usize::MAX - 3, 8, false);
    assert_eq!(adjust(&mut top, Direction::Raise, 1024, 768), NONE);
}

#[test]
fn keys_move_the_cursor_and_end_the_menu() {
    let mut s = get_settings();
    assert_eq!(handle_key(&mut s, 0, 1024, 768, KeyCode::ArrowUp), (0, MenuOutcome::Continue, NONE));
    assert_eq!(handle_key(&mut s, 3, 1024, 768, KeyCode::Char('w')), (2, MenuOutcome::Continue, NONE));
    assert_eq!(handle_key(&mut s, 3, 1024, 768, KeyCode::Char('S')), (4, MenuOutcome::Continue, NONE));
    assert_eq!(handle_key(&mut s, 36, 1024, 768, KeyCode::ArrowDown), (36, MenuOutcome::Continue, NONE));
    assert_eq!(handle_key(&mut s, 5, 1024, 768, KeyCode::Backspace), (5, MenuOutcome::Quit, NONE));
    assert_eq!(handle_key(&mut s, 5, 1024, 768, KeyCode::Enter), (5, MenuOutcome::Commit, NONE));
    assert_eq!(handle_key(&mut s, 5, 1024, 768, KeyCode::Space), (5, MenuOutcome::Continue, NONE));
    assert_eq!(handle_key(&mut s, 5, 1024, 768, KeyCode::Other(3)), (5, MenuOutcome::Continue, NONE));
}

#[test]
fn keys_change_the_selected_setting() {
    let mut s = get_settings();
    let r = handle_key(&mut s, 0, 1024, 768, KeyCode::Char('d'));
    assert_eq!(r, (0, MenuOutcome::Continue, VramChange { grows: true, megabytes: 0, pixels: 768 * 8 }));
    assert_eq!(slider_value(&s, 0), Some(1032));
    let r = handle_key(&mut s, 4, 1032, 768, KeyCode::ArrowRight);
    assert_eq!(r, (4, MenuOutcome::Continue, VramChange { grows: true, megabytes: 164, pixels: 0 }));
    let r = handle_key(&mut s, 4, 1032, 768, KeyCode::Char('A'));
    assert_eq!(r, (4, MenuOutcome::Continue, VramChange { grows: false, megabytes: 164, pixels: 0 }));
    handle_key(&mut s, 2, 1032, 768, KeyCode::ArrowLeft);
    assert!(matches!(s[2].setting_type, SettingType::OnOff(false)));
    assert!(matches!(s[3].setting_type, SettingType::OnHalfOff(0)));
}

#[test]
fn slider_lookup() {
    let s = get_settings();
    assert_eq!(slider_value(&s, 0), Some(1024));
    assert_eq!(slider_value(&s, 1), Some(768));
    assert_eq!(slider_value(&s, 2), None);
    assert_eq!(slider_value(&s, 100), None);
}
