use langswitch::caret::ScreenPoint;
use langswitch::osd::{
    clamp_to_work_area, get_monitor_bounds, osd_anchor, osd_palette, osd_window_ex_style, Argb,
    WorkArea,
};
use langswitch::theme::SystemTheme;

const SCREEN: WorkArea = WorkArea { left: 0, top: 0, right: 1920, bottom: 1040 };

fn pt(x: i32, y: i32) -> ScreenPoint {
    ScreenPoint { x, y }
}

#[test]
fn palette_follows_theme() {
    let dark = osd_palette(SystemTheme { is_light: false, accent_r: 1, accent_g: 2, accent_b: 3 });
    assert_eq!(dark.background, Argb { a: 215, r: 18, g: 16, b: 38 });
    assert_eq!(dark.accent, Argb { a: 200, r: 1, g: 2, b: 3 });
    assert!(!dark.is_light);
    let light = osd_palette(SystemTheme { is_light: true, accent_r: 9, accent_g: 8, accent_b: 7 });
    assert_eq!(light.background, Argb { a: 215, r: 240, g: 240, b: 245 });
    assert_eq!(light.accent, Argb { a: 200, r: 9, g: 8, b: 7 });
    assert!(light.is_light);
}

#[test]
fn anchor_is_offset_from_caret() {
    assert_eq!(osd_anchor(Some(pt(100, 200))), pt(110, 225));
    assert_eq!(osd_anchor(Some(pt(-50, -30))), pt(-40, -5));
    assert_eq!(osd_anchor(None), pt(0, 0));
}

#[test]
fn monitor_fallback_is_full_hd() {
    assert_eq!(get_monitor_bounds(None), WorkArea { left: 0, top: 0, right: 1920, bottom: 1080 });
    let second = WorkArea { left: 1920, top: 0, right: 3840, bottom: 1040 };
    assert_eq!(get_monitor_bounds(Some(second)), second);
}

#[test]
fn window_inside_stays() {
    assert_eq!(clamp_to_work_area(pt(100, 100), 220, 140, SCREEN), pt(100, 100));
    assert_eq!(clamp_to_work_area(pt(1700, 900), 220, 140, SCREEN), pt(1700, 900));
}

#[test]
fn window_past_right_and_bottom_moves_back() {
    assert_eq!(clamp_to_work_area(pt(1900, 1030), 220, 140, SCREEN), pt(1700, 900));
}

#[test]
fn window_past_left_and_top_moves_in() {
    let area = WorkArea { left: -1280, top: 40, right: 0, bottom: 1024 };
    assert_eq!(clamp_to_work_area(pt(-2000, 0), 220, 140, area), pt(-1280, 40));
}

#[test]
fn oversized_window_sticks_to_left_top() {
    let small = WorkArea { left: 10, top: 20, right: 110, bottom: 70 };
    assert_eq!(clamp_to_work_area(pt(500, 500), 220, 140, small), pt(10, 20));
}

#[test]
fn clamping_twice_is_clamping_once() {
    let once = clamp_to_work_area(pt(5000, -300), 220, 140, SCREEN);
    assert_eq!(clamp_to_work_area(once, 220, 140, SCREEN), once);
}

#[test]
fn style_bits() {
    assert_eq!(osd_window_ex_style(0x0004_0000), 0xA0);
    assert_eq!(osd_window_ex_style(0), 0xA0);
    assert_eq!(osd_window_ex_style(0x0000_0100), 0x1A0);
    assert_eq!(osd_window_ex_style(-1), -1 & !0x0004_0000);
    let s = osd_window_ex_style(0x0004_0108);
    assert_eq!(osd_window_ex_style(s), s);
}
