use langswitch::theme::{get_system_theme, SystemTheme};

#[test]
fn defaults_when_nothing_could_be_read() {
    let t = get_system_theme(None, None);
    assert_eq!(t, SystemTheme { is_light: false, accent_r: 162, accent_g: 57, accent_b: 202 });
}

#[test]
fn light_only_for_one() {
    assert!(get_system_theme(Some(1), None).is_light);
    assert!(!get_system_theme(Some(0), None).is_light);
    assert!(!get_system_theme(Some(2), None).is_light);
}

#[test]
fn accent_from_argb_colour() {
    let t = get_system_theme(Some(0), Some(0xC40078D4));
    assert_eq!((t.accent_r, t.accent_g, t.accent_b), (0x00, 0x78, 0xD4));
    let t = get_system_theme(None, Some(0x00FF8001));
    assert_eq!((t.accent_r, t.accent_g, t.accent_b), (0xFF, 0x80, 0x01));
    let t = get_system_theme(None, Some(0));
    assert_eq!((t.accent_r, t.accent_g, t.accent_b), (0, 0, 0));
}
