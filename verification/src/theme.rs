//! The overlay's static visual constants: colors, the frame styling of the
//! borderless surface, and the fixed layout distances. None of these depend
//! on state; they are read each frame by whoever draws.

use vstd::prelude::*;
use crate::progress::Rgb;

verus! {

/// Vertical space reserved above the logo, in points.
pub const LOGO_TOP_SPACE: u32 = 137;

/// Vertical space between the logo and the status panel, in points.
pub const LOGO_PANEL_SPACE: u32 = 34;

/// Vertical space between stacked panel items, in points.
pub const PANEL_ITEM_SPACE: u32 = 16;

/// Text size of the informational panel lines, in points.
pub const TEXT_SIZE: u32 = 14;

/// Text size of the `Loaded` panel's close button label, in points.
pub const CLOSE_TEXT_SIZE: u32 = 20;

/// Layout width of each progress bar, in points.
pub const BAR_WIDTH: u32 = 400;

/// Layout height of each progress bar, in points.
pub const BAR_HEIGHT: u32 = 8;

/// The accent color: progress-bar fills and the `Loaded` close button.
pub open spec fn accent() -> Rgb {
    Rgb { r: 0, g: 90, b: 72 }
}

/// The neutral tint of a progress bar's track.
pub open spec fn track_tint() -> Rgb {
    Rgb { r: 40, g: 40, b: 40 }
}

/// The fill of the window-chrome buttons.
pub open spec fn chrome_fill() -> Rgb {
    Rgb { r: 30, g: 30, b: 30 }
}

/// The background fill of the surface.
pub open spec fn surface_fill() -> Rgb {
    Rgb { r: 25, g: 25, b: 25 }
}

/// The border stroke color of the surface.
pub open spec fn surface_stroke() -> Rgb {
    Rgb { r: 35, g: 35, b: 35 }
}

/// The accent color as a value.
pub fn accent_value() -> (c: Rgb)
    ensures
        c == accent(),
{
    Rgb { r: 0, g: 90, b: 72 }
}

/// The track tint as a value.
pub fn track_tint_value() -> (c: Rgb)
    ensures
        c == track_tint(),
{
    Rgb { r: 40, g: 40, b: 40 }
}

/// The chrome-button fill as a value.
pub fn chrome_fill_value() -> (c: Rgb)
    ensures
        c == chrome_fill(),
{
    Rgb { r: 30, g: 30, b: 30 }
}

/// How the borderless surface is framed each frame: background fill, border
/// stroke, margins and corner rounding, all in points.
#[derive(Clone, Copy, Debug, PartialEq, Eq, Structural)]
pub struct FrameStyle {
    pub fill: Rgb,
    pub stroke_color: Rgb,
    pub stroke_width: u32,
    pub inner_margin: u32,
    pub outer_margin: u32,
    pub rounding: u32,
}

/// The one frame style the overlay uses: a dark fill, a slightly lighter
/// border three points wide, ten-point margins and ten-point rounding.
pub fn frame_style() -> (s: FrameStyle)
    ensures
        s == (FrameStyle {
            fill: surface_fill(),
            stroke_color: surface_stroke(),
            stroke_width: 3u32,
            inner_margin: 10u32,
            outer_margin: 10u32,
            rounding: 10u32,
        }),
{
    FrameStyle {
        fill: Rgb { r: 25, g: 25, b: 25 },
        stroke_color: Rgb { r: 35, g: 35, b: 35 },
        stroke_width: 3,
        inner_margin: 10,
        outer_margin: 10,
        rounding: 10,
    }
}

} // verus!
