use vstd::prelude::*;
use crate::caret::ScreenPoint;
use crate::theme::SystemTheme;

verus! {

/// A colour with alpha, red, green and blue bytes.
#[derive(Clone, Copy, Debug, PartialEq, Eq, Structural)]
pub struct Argb {
    pub a: u8,
    pub r: u8,
    pub g: u8,
    pub b: u8,
}

/// The colours of the indicator.
#[derive(Clone, Copy, Debug, PartialEq, Eq, Structural)]
pub struct OsdPalette {
    pub background: Argb,
    pub accent: Argb,
    pub is_light: bool,
}

/// The work area of a monitor: the screen rectangle without the taskbar.
#[derive(Clone, Copy, Debug, PartialEq, Eq, Structural)]
pub struct WorkArea {
    pub left: i32,
    pub top: i32,
    pub right: i32,
    pub bottom: i32,
}

/// Distance of the indicator from the caret, to the right.
pub const CARET_OFFSET_X: i32 = 10;
/// Distance of the indicator from the caret, downwards.
pub const CARET_OFFSET_Y: i32 = 25;

/// Extended window style bit that puts a window on the taskbar.
pub const WS_EX_APPWINDOW: i32 = 0x0004_0000;
/// Extended window style bit that lets mouse clicks through.
pub const WS_EX_TRANSPARENT: i32 = 0x0000_0020;
/// Extended window style bit of a tool window, kept off the taskbar.
pub const WS_EX_TOOLWINDOW: i32 = 0x0000_0080;

/// The indicator's colours for a theme: a light or a dark translucent
/// background, and the theme's accent at a fixed alpha.
pub open spec fn palette_for(theme: SystemTheme) -> OsdPalette {
    OsdPalette {
        background: if theme.is_light {
            Argb { a: 215, r: 240, g: 240, b: 245 }
        } else {
            Argb { a: 215, r: 18, g: 16, b: 38 }
        },
        accent: Argb { a: 200, r: theme.accent_r, g: theme.accent_g, b: theme.accent_b },
        is_light: theme.is_light,
    }
}

/// Chooses the indicator's colours from the system theme.
pub fn osd_palette(theme: SystemTheme) -> (palette: OsdPalette)
    ensures
        palette == palette_for(theme),
{
    let background = if theme.is_light {
        Argb { a: 215, r: 240, g: 240, b: 245 }
    } else {
        Argb { a: 215, r: 18, g: 16, b: 38 }
    };
    let accent = Argb { a: 200, r: theme.accent_r, g: theme.accent_g, b: theme.accent_b };
    OsdPalette { background, accent, is_light: theme.is_light }
}

/// The caret position can be shifted by the indicator's offset without overflow.
pub open spec fn anchor_fits(caret: Option<ScreenPoint>) -> bool {
    caret matches Some(p) ==> p.x + CARET_OFFSET_X <= i32::MAX && p.y + CARET_OFFSET_Y <= i32::MAX
}

/// Where the indicator goes before it is fitted to the screen: a little right of
/// and below the caret, or the origin when no caret was found.
pub fn osd_anchor(caret: Option<ScreenPoint>) -> (pos: ScreenPoint)
    requires
        anchor_fits(caret),
    ensures
        match caret {
            Some(p) => pos.x == p.x + CARET_OFFSET_X && pos.y == p.y + CARET_OFFSET_Y,
            None => pos.x == 0 && pos.y == 0,
        },
{
    match caret {
        Some(p) => ScreenPoint { x: p.x + CARET_OFFSET_X, y: p.y + CARET_OFFSET_Y },
        None => ScreenPoint { x: 0, y: 0 },
    }
}

/// The work area of the monitor under the indicator, or a 1920x1080 screen at
/// the origin when the monitor could not be asked.
pub fn get_monitor_bounds(monitor_work_area: Option<WorkArea>) -> (area: WorkArea)
    ensures
        match monitor_work_area {
            Some(a) => area == a,
            None => area == (WorkArea { left: 0, top: 0, right: 1920, bottom: 1080 }),
        },
{
    match monitor_work_area {
        Some(a) => a,
        None => WorkArea { left: 0, top: 0, right: 1920, bottom: 1080 },
    }
}

/// One coordinate fitted into `[lo, hi]`: pulled back so that the far edge is
/// not past `hi`, then pushed forward so that the near edge is not before `lo`
/// (the near edge wins when the window is larger than the range).
pub open spec fn clamp_axis(p: int, size: int, lo: int, hi: int) -> int {
    let pulled = if p + size > hi {
        hi - size
    } else {
        p
    };
    if pulled < lo {
        lo
    } else {
        pulled
    }
}

/// The sums that fitting a window of `width` x `height` at `pos` into `area`
/// computes stay in range: the far edges always, and the edge of the area less
/// the size only where the window crosses that edge.
pub open spec fn clamp_fits(pos: ScreenPoint, width: i32, height: i32, area: WorkArea) -> bool {
    &&& i32::MIN <= pos.x + width <= i32::MAX
    &&& i32::MIN <= pos.y + height <= i32::MAX
    &&& pos.x + width > area.right ==> i32::MIN <= area.right - width <= i32::MAX
    &&& pos.y + height > area.bottom ==> i32::MIN <= area.bottom - height <= i32::MAX
}

/// Fits a `width` x `height` window at `pos` into the work area: moved left and
/// up so that it does not cross the right or bottom edge, then right and down so
/// that it does not cross the left or top edge.
pub fn clamp_to_work_area(pos: ScreenPoint, width: i32, height: i32, area: WorkArea) -> (fitted: ScreenPoint)
    requires
        clamp_fits(pos, width, height, area),
    ensures
        fitted.x == clamp_axis(pos.x as int, width as int, area.left as int, area.right as int),
        fitted.y == clamp_axis(pos.y as int, height as int, area.top as int, area.bottom as int),
{
    let mut px = pos.x;
    let mut py = pos.y;
    if px + width > area.right {
        px = area.right - width;
    }
    if py + height > area.bottom {
        py = area.bottom - height;
    }
    if px < area.left {
        px = area.left;
    }
    if py < area.top {
        py = area.top;
    }
    ScreenPoint { x: px, y: py }
}

/// A window no wider than the range ends up wholly inside it; a wider one
/// starts at the range's near edge.
pub proof fn lemma_clamp_inside(p: int, size: int, lo: int, hi: int)
    requires
        0 <= size,
    ensures
        size <= hi - lo ==> lo <= clamp_axis(p, size, lo, hi) && clamp_axis(p, size, lo, hi) + size
            <= hi,
        size > hi - lo ==> clamp_axis(p, size, lo, hi) == lo,
{
}

/// A window already inside the range does not move.
pub proof fn lemma_clamp_keeps_inside(p: int, size: int, lo: int, hi: int)
    requires
        lo <= p,
        p + size <= hi,
    ensures
        clamp_axis(p, size, lo, hi) == p,
{
}

/// Fitting a fitted position changes nothing.
pub proof fn lemma_clamp_idempotent(p: int, size: int, lo: int, hi: int)
    requires
        0 <= size,
    ensures
        clamp_axis(clamp_axis(p, size, lo, hi), size, lo, hi) == clamp_axis(p, size, lo, hi),
{
}

/// The indicator's extended window style: off the taskbar, a tool window, and
/// transparent to the mouse, every other bit as it was.
pub open spec fn osd_style_of(style: i32) -> i32 {
    (style & !WS_EX_APPWINDOW) | WS_EX_TRANSPARENT | WS_EX_TOOLWINDOW
}

/// Computes the extended window style the indicator window gets.
pub fn osd_window_ex_style(style: i32) -> (new_style: i32)
    ensures
        new_style == osd_style_of(style),
{
    let mut s = style;
    s &= !WS_EX_APPWINDOW;
    s |= WS_EX_TRANSPARENT | WS_EX_TOOLWINDOW;
    proof {
        assert(((style & !0x0004_0000i32) | (0x20i32 | 0x80i32)) == ((style & !0x0004_0000i32)
            | 0x20i32 | 0x80i32)) by (bit_vector);
    }
    s
}

/// The indicator's style has the tool-window and transparent bits and not the
/// taskbar bit, keeps every other bit, and is its own style again.
pub proof fn lemma_osd_style_bits(style: i32)
    ensures
        osd_style_of(style) & WS_EX_TOOLWINDOW == WS_EX_TOOLWINDOW,
        osd_style_of(style) & WS_EX_TRANSPARENT == WS_EX_TRANSPARENT,
        osd_style_of(style) & WS_EX_APPWINDOW == 0,
        osd_style_of(style) & !(WS_EX_APPWINDOW | WS_EX_TRANSPARENT | WS_EX_TOOLWINDOW) == style
            & !(WS_EX_APPWINDOW | WS_EX_TRANSPARENT | WS_EX_TOOLWINDOW),
        osd_style_of(osd_style_of(style)) == osd_style_of(style),
{
    assert(((style & !0x0004_0000i32) | 0x20i32 | 0x80i32) & 0x80i32 == 0x80i32) by (bit_vector);
    assert(((style & !0x0004_0000i32) | 0x20i32 | 0x80i32) & 0x20i32 == 0x20i32) by (bit_vector);
    assert(((style & !0x0004_0000i32) | 0x20i32 | 0x80i32) & 0x0004_0000i32 == 0) by (bit_vector);
    assert(((style & !0x0004_0000i32) | 0x20i32 | 0x80i32) & !(0x0004_0000i32 | 0x20i32 | 0x80i32)
        == style & !(0x0004_0000i32 | 0x20i32 | 0x80i32)) by (bit_vector);
    let t = (style & !0x0004_0000i32) | 0x20i32 | 0x80i32;
    assert(((t & !0x0004_0000i32) | 0x20i32 | 0x80i32) == t) by (bit_vector)
        requires
            t == (style & !0x0004_0000i32) | 0x20i32 | 0x80i32,
    ;
}

/// A window that fits the range is placed as close to where it was as the
/// range allows: unmoved when inside, flush with the far edge when it crossed
/// it, flush with the near edge when it crossed that one.
pub proof fn lemma_clamp_moves_least(p: int, size: int, lo: int, hi: int)
    requires
        0 <= size <= hi - lo,
    ensures
        lo <= p && p + size <= hi ==> clamp_axis(p, size, lo, hi) == p,
        p + size > hi ==> clamp_axis(p, size, lo, hi) == hi - size,
        p < lo ==> clamp_axis(p, size, lo, hi) == lo,
{
}

/// The indicator's colours: the accent is the theme's accent colour unchanged
/// at alpha 200; the background is (215, 240, 240, 245) for a light theme and
/// (215, 18, 16, 38) for a dark one, chosen by the theme's lightness alone,
/// which the palette passes on.
pub proof fn lemma_palette_colours(theme: SystemTheme)
    ensures
        palette_for(theme).accent.a == 200,
        palette_for(theme).accent.r == theme.accent_r,
        palette_for(theme).accent.g == theme.accent_g,
        palette_for(theme).accent.b == theme.accent_b,
        palette_for(theme).is_light == theme.is_light,
        theme.is_light ==> palette_for(theme).background.a == 215 && palette_for(theme).background.r
            == 240 && palette_for(theme).background.g == 240 && palette_for(theme).background.b == 245,
        !theme.is_light ==> palette_for(theme).background.a == 215 && palette_for(theme).background.r
            == 18 && palette_for(theme).background.g == 16 && palette_for(theme).background.b == 38,
{
}

/// In numbers: the indicator's style always has bits 0x80 and 0x20 set and
/// bit 0x40000 clear, and every other bit is the one the window had.
pub proof fn lemma_osd_style_numbers(style: i32)
    ensures
        osd_style_of(style) & 0xA0 == 0xA0,
        osd_style_of(style) & 0x0004_0000 == 0,
        osd_style_of(style) & !0x0004_00A0i32 == style & !0x0004_00A0i32,
{
    assert(((style & !0x0004_0000i32) | 0x20i32 | 0x80i32) & 0xA0i32 == 0xA0i32) by (bit_vector);
    assert(((style & !0x0004_0000i32) | 0x20i32 | 0x80i32) & 0x0004_0000i32 == 0) by (bit_vector);
    assert(((style & !0x0004_0000i32) | 0x20i32 | 0x80i32) & !0x0004_00A0i32 == style
        & !0x0004_00A0i32) by (bit_vector);
}

} // verus!
