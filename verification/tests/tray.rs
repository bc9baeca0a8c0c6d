use langswitch::tray::{load_icon, AppTray, TrayCommand};
use std::io::Cursor;

fn tray() -> AppTray {
    AppTray::new("1001".to_string(), "1002".to_string())
}

#[test]
fn quit_item_quits() {
    assert_eq!(tray().check_events(Some("1002".to_string()), true), TrayCommand::Quit);
}

#[test]
fn toggle_item_flips_interception() {
    let t = tray();
    assert_eq!(t.check_events(Some("1001".to_string()), true), TrayCommand::SetHookEnabled(false));
    assert_eq!(t.check_events(Some("1001".to_string()), false), TrayCommand::SetHookEnabled(true));
}

#[test]
fn other_or_no_click_does_nothing() {
    let t = tray();
    assert_eq!(t.check_events(Some("7".to_string()), true), TrayCommand::Nothing);
    assert_eq!(t.check_events(None, false), TrayCommand::Nothing);
}

#[test]
fn quit_wins_when_ids_coincide() {
    let t = AppTray::new("5".to_string(), "5".to_string());
    assert_eq!(t.check_events(Some("5".to_string()), true), TrayCommand::Quit);
}

fn png(width: u32, height: u32, rgb: bool) -> Vec<u8> {
    let mut out = Cursor::new(Vec::new());
    if rgb {
        let img = image::RgbImage::from_pixel(width, height, image::Rgb([10, 20, 30]));
        img.write_to(&mut out, image::ImageFormat::Png).unwrap();
    } else {
        let img = image::RgbaImage::from_pixel(width, height, image::Rgba([1, 2, 3, 4]));
        img.write_to(&mut out, image::ImageFormat::Png).unwrap();
    }
    out.into_inner()
}

#[test]
fn icon_decodes_to_rgba_pixels() {
    let bytes = png(3, 2, false);
    let icon = load_icon(&bytes).unwrap();
    assert_eq!((icon.width, icon.height), (3, 2));
    assert_eq!(icon.rgba.len(), 24);
    assert_eq!(&icon.rgba[0..4], &[1, 2, 3, 4]);
}

#[test]
fn rgb_icon_gains_opaque_alpha() {
    let bytes = png(2, 2, true);
    let icon = load_icon(&bytes).unwrap();
    assert_eq!((icon.width, icon.height), (2, 2));
    assert_eq!(icon.rgba.len(), 16);
    assert_eq!(&icon.rgba[0..4], &[10, 20, 30, 255]);
}

#[test]
fn garbage_is_no_icon() {
    assert!(load_icon(&[1, 2, 3, 4, 5]).is_none());
    assert!(load_icon(&[]).is_none());
}
