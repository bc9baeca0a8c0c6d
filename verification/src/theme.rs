use vstd::prelude::*;

verus! {

/// The colours of the system theme the indicator follows.
#[derive(Clone, Copy, Debug, PartialEq, Eq, Structural)]
pub struct SystemTheme {
    /// Applications use the light theme.
    pub is_light: bool,
    pub accent_r: u8,
    pub accent_g: u8,
    pub accent_b: u8,
}

/// Red part of the accent used when the system reports none.
pub const DEFAULT_ACCENT_R: u8 = 162;
/// Green part of the accent used when the system reports none.
pub const DEFAULT_ACCENT_G: u8 = 57;
/// Blue part of the accent used when the system reports none.
pub const DEFAULT_ACCENT_B: u8 = 202;

/// The theme described by the two settings read from the registry:
/// `AppsUseLightTheme` (light exactly when it is 1) and the window-manager
/// colour `ColorizationColor` in 0xAARRGGBB form, whose red, green and blue
/// give the accent; a missing setting counts as dark, or as the default accent.
pub open spec fn theme_from_settings(
    apps_use_light_theme: Option<u32>,
    colorization_color: Option<u32>,
) -> SystemTheme {
    SystemTheme {
        is_light: apps_use_light_theme == Some(1u32),
        accent_r: match colorization_color {
            Some(c) => ((c as int / 0x10000) % 0x100) as u8,
            None => DEFAULT_ACCENT_R,
        },
        accent_g: match colorization_color {
            Some(c) => ((c as int / 0x100) % 0x100) as u8,
            None => DEFAULT_ACCENT_G,
        },
        accent_b: match colorization_color {
            Some(c) => (c as int % 0x100) as u8,
            None => DEFAULT_ACCENT_B,
        },
    }
}

/// Builds the theme from the registry settings, each `None` when it could not be read.
pub fn get_system_theme(apps_use_light_theme: Option<u32>, colorization_color: Option<u32>) -> (theme: SystemTheme)
    ensures
        theme == theme_from_settings(apps_use_light_theme, colorization_color),
{
    let mut is_light = false;
    if let Some(apps_use_light) = apps_use_light_theme {
        is_light = apps_use_light == 1;
    }
    let mut accent_r: u8 = DEFAULT_ACCENT_R;
    let mut accent_g: u8 = DEFAULT_ACCENT_G;
    let mut accent_b: u8 = DEFAULT_ACCENT_B;
    if let Some(color) = colorization_color {
        proof {
            assert((color >> 16) & 0xFF == (color / 0x10000) % 0x100) by (bit_vector);
            assert((color >> 8) & 0xFF == (color / 0x100) % 0x100) by (bit_vector);
            assert(color & 0xFF == color % 0x100) by (bit_vector);
        }
        accent_r = ((color >> 16) & 0xFF) as u8;
        accent_g = ((color >> 8) & 0xFF) as u8;
        accent_b = (color & 0xFF) as u8;
    }
    SystemTheme { is_light, accent_r, accent_g, accent_b }
}

/// The accent is the red, green and blue of the colour the system stores as
/// 0xAARRGGBB, whatever its alpha.
pub proof fn lemma_accent_from_argb(a: u8, r: u8, g: u8, b: u8, apps_use_light_theme: Option<u32>)
    ensures
        ({
            let color = (a as int * 0x1000000 + r as int * 0x10000 + g as int * 0x100 + b as int) as u32;
            let theme = theme_from_settings(apps_use_light_theme, Some(color));
            theme.accent_r == r && theme.accent_g == g && theme.accent_b == b
        }),
{
    let color = (a as int * 0x1000000 + r as int * 0x10000 + g as int * 0x100 + b as int) as u32;
    assert(color as int == a as int * 0x1000000 + r as int * 0x10000 + g as int * 0x100 + b as int);
    assert((color as int / 0x10000) % 0x100 == r as int) by (nonlinear_arith)
        requires
            color as int == a as int * 0x1000000 + r as int * 0x10000 + g as int * 0x100 + b as int,
            0 <= a < 256,
            0 <= r < 256,
            0 <= g < 256,
            0 <= b < 256,
    ;
    assert((color as int / 0x100) % 0x100 == g as int) by (nonlinear_arith)
        requires
            color as int == a as int * 0x1000000 + r as int * 0x10000 + g as int * 0x100 + b as int,
            0 <= a < 256,
            0 <= r < 256,
            0 <= g < 256,
            0 <= b < 256,
    ;
    assert(color as int % 0x100 == b as int) by (nonlinear_arith)
        requires
            color as int == a as int * 0x1000000 + r as int * 0x10000 + g as int * 0x100 + b as int,
            0 <= a < 256,
            0 <= r < 256,
            0 <= g < 256,
            0 <= b < 256,
    ;
}

/// The two settings are read independently: lightness comes from
/// `AppsUseLightTheme` alone (light exactly when it is 1), and the accent from
/// `ColorizationColor` alone, the default 162/57/202 when it is missing.
pub proof fn lemma_settings_independent(
    a1: Option<u32>,
    a2: Option<u32>,
    c1: Option<u32>,
    c2: Option<u32>,
)
    ensures
        theme_from_settings(a1, c1).is_light == (a1 == Some(1u32)),
        theme_from_settings(a1, c1).accent_r == theme_from_settings(a2, c1).accent_r,
        theme_from_settings(a1, c1).accent_g == theme_from_settings(a2, c1).accent_g,
        theme_from_settings(a1, c1).accent_b == theme_from_settings(a2, c1).accent_b,
        theme_from_settings(a1, c1).is_light == theme_from_settings(a1, c2).is_light,
        c1 is None ==> theme_from_settings(a1, c1).accent_r == 162 && theme_from_settings(
            a1,
            c1,
        ).accent_g == 57 && theme_from_settings(a1, c1).accent_b == 202,
{
}

} // verus!
