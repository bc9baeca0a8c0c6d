use vstd::prelude::*;

verus! {

/// The identifiers of the tray menu's items.
pub struct AppTray {
    /// The "Intercept keys" check item.
    pub toggle_id: String,
    /// The "Quit" item.
    pub quit_id: String,
}

/// What a click in the tray menu asks for.
#[derive(Clone, Copy, Debug, PartialEq, Eq, Structural)]
pub enum TrayCommand {
    /// Leave the application.
    Quit,
    /// Turn key interception on (`true`) or off (`false`).
    SetHookEnabled(bool),
    /// Nothing to do.
    Nothing,
}

/// The command for a menu click on the item `event_id` (none when no click
/// is pending) while interception is `hook_enabled`.
pub open spec fn tray_command(
    toggle_id: Seq<char>,
    quit_id: Seq<char>,
    event_id: Option<Seq<char>>,
    hook_enabled: bool,
) -> TrayCommand {
    match event_id {
        Some(id) => if id == quit_id {
            TrayCommand::Quit
        } else if id == toggle_id {
            TrayCommand::SetHookEnabled(!hook_enabled)
        } else {
            TrayCommand::Nothing
        },
        None => TrayCommand::Nothing,
    }
}

impl AppTray {
    /// Remembers the identifiers of the menu's items.
    pub fn new(toggle_id: String, quit_id: String) -> (tray: AppTray)
        ensures
            tray.toggle_id@ == toggle_id@,
            tray.quit_id@ == quit_id@,
    {
        AppTray { toggle_id, quit_id }
    }

    /// Handles the pending menu click, if any: Quit asks to leave, the check
    /// item flips interception, any other item does nothing.
    pub fn check_events(&self, event_id: Option<String>, hook_enabled: bool) -> (command: TrayCommand)
        ensures
            command == tray_command(
                self.toggle_id@,
                self.quit_id@,
                match event_id {
                    Some(id) => Some(id@),
                    None => None,
                },
                hook_enabled,
            ),
    {
        match event_id {
            Some(id) => {
                if id == self.quit_id {
                    return TrayCommand::Quit;
                }
                if id == self.toggle_id {
                    return TrayCommand::SetHookEnabled(!hook_enabled);
                }
                TrayCommand::Nothing
            },
            None => TrayCommand::Nothing,
        }
    }
}

/// Clicking the check item twice leaves interception as it was.
pub proof fn lemma_toggle_twice_restores(toggle_id: Seq<char>, quit_id: Seq<char>, hook_enabled: bool)
    requires
        toggle_id != quit_id,
    ensures
        tray_command(toggle_id, quit_id, Some(toggle_id), hook_enabled) == TrayCommand::SetHookEnabled(!hook_enabled),
        tray_command(toggle_id, quit_id, Some(toggle_id), !hook_enabled) == TrayCommand::SetHookEnabled(hook_enabled),
{
}

/// The pixels a PNG file decodes to, as 8-bit RGBA rows with the image's
/// width and height; `None` when the bytes are not a PNG image.
pub uninterp spec fn decoded_png_rgba8(bytes: Seq<u8>) -> Option<(Seq<u8>, u32, u32)>;

/// Calls `image::load_from_memory_with_format` with the PNG format, which uses
/// the crate's own PNG decoder and no registered hooks, and converts the image
/// with `DynamicImage::into_rgba8`. Claims that the pixels depend on the bytes
/// alone (named `decoded_png_rgba8`), that decoding fails exactly when that
/// name is `None`, and that the buffer holds four bytes for each of the
/// width x height pixels, as the crate's PNG decoder buffer and
/// `ImageBuffer::new` allocate it.
#[verifier::external_body]
fn decode_png_rgba8(bytes: &[u8]) -> (decoded: Option<(Vec<u8>, u32, u32)>)
    ensures
        match decoded {
            Some((rgba, width, height)) => decoded_png_rgba8(bytes@) == Some((rgba@, width, height))
                && rgba@.len() == 4 * width * height,
            None => decoded_png_rgba8(bytes@) is None,
        },
{
    match image::load_from_memory_with_format(bytes, image::ImageFormat::Png) {
        Ok(img) => {
            let rgba = img.into_rgba8();
            let (width, height) = rgba.dimensions();
            Some((rgba.into_raw(), width, height))
        },
        Err(_) => None,
    }
}

/// The tray icon's pixels: 8-bit RGBA rows of `width` x `height`.
pub struct IconRgba {
    pub rgba: Vec<u8>,
    pub width: u32,
    pub height: u32,
}

/// Decodes the tray icon, a PNG image; `None` when the bytes are not a PNG image. The
/// pixels come in whole RGBA groups, one per pixel of the stated size.
pub fn load_icon(bytes: &[u8]) -> (icon: Option<IconRgba>)
    ensures
        match icon {
            Some(i) => decoded_png_rgba8(bytes@) == Some((i.rgba@, i.width, i.height))
                && i.rgba@.len() % 4 == 0 && i.rgba@.len() / 4 == i.width * i.height,
            None => decoded_png_rgba8(bytes@) is None,
        },
{
    match decode_png_rgba8(bytes) {
        Some((rgba, width, height)) => {
            proof {
                let len = rgba@.len() as int;
                let w = width as int;
                let h = height as int;
                vstd::arithmetic::mul::lemma_mul_is_associative(4, w, h);
                vstd::arithmetic::div_mod::lemma_div_multiples_vanish(w * h, 4);
                vstd::arithmetic::div_mod::lemma_mod_multiples_basic(w * h, 4);
            }
            Some(IconRgba { rgba, width, height })
        },
        None => None,
    }
}

/// A click on Quit always asks to leave; a click on the check item (when it is
/// not also Quit) flips interception; no click, or a click on another item,
/// does nothing.
pub proof fn lemma_menu_clicks(
    toggle_id: Seq<char>,
    quit_id: Seq<char>,
    other: Seq<char>,
    hook_enabled: bool,
)
    ensures
        tray_command(toggle_id, quit_id, Some(quit_id), hook_enabled) == TrayCommand::Quit,
        toggle_id != quit_id ==> tray_command(toggle_id, quit_id, Some(toggle_id), hook_enabled)
            == TrayCommand::SetHookEnabled(!hook_enabled),
        other != toggle_id && other != quit_id ==> tray_command(
            toggle_id,
            quit_id,
            Some(other),
            hook_enabled,
        ) == TrayCommand::Nothing,
        tray_command(toggle_id, quit_id, None, hook_enabled) == TrayCommand::Nothing,
{
}

} // verus!
