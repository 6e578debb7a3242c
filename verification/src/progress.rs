//! The progress-bar widget: a stateless primitive that, for a fraction and a
//! desired size, yields a track rectangle and a proportionally filled
//! sub-rectangle. Fractions are carried in thousandths of the unit interval so
//! that the fill width is exact integer geometry; out-of-range fractions are
//! clamped to the interval before any width is derived.

use vstd::prelude::*;

verus! {

/// An opaque sRGB color.
#[derive(Clone, Copy, Debug, PartialEq, Eq, Structural)]
pub struct Rgb {
    pub r: u8,
    pub g: u8,
    pub b: u8,
}

/// An axis-aligned rectangle in whole surface points.
#[derive(Clone, Copy, Debug, PartialEq, Eq, Structural)]
pub struct RectPx {
    pub x: u32,
    pub y: u32,
    pub width: u32,
    pub height: u32,
}

/// One render call of the widget: a fraction in thousandths (clamped on use,
/// so any value is tolerated), the layout size the bar asks for, and the fill
/// color. The track behind the fill takes its tint from the theme.
#[derive(Clone, Copy, Debug, PartialEq, Eq, Structural)]
pub struct ProgressBar {
    pub fraction_milli: i64,
    pub desired_width: u32,
    pub desired_height: u32,
    pub fill: Rgb,
}

/// The drawing the widget emits: the full-width track, the left-aligned fill
/// on top of it, and the corner rounding shared by both.
#[derive(Clone, Copy, Debug, PartialEq, Eq, Structural)]
pub struct BarGeometry {
    pub track: RectPx,
    pub track_color: Rgb,
    pub fill: RectPx,
    pub fill_color: Rgb,
    pub rounding: u32,
}

/// A fraction in thousandths forced into the unit interval.
pub open spec fn clamp_milli(f: int) -> int {
    if f < 0 {
        0
    } else if f > 1000 {
        1000
    } else {
        f
    }
}

/// Fill width of a track `w` points wide at fraction `f` thousandths: the
/// clamped proportion of the width, rounded to the nearest point.
pub open spec fn fill_width_spec(w: int, f: int) -> int {
    (w * clamp_milli(f) + 500) / 1000
}

/// The fill never leaves the track: its width lies between zero and the track
/// width, whatever fraction was asked for.
pub proof fn lemma_fill_within_track(w: int, f: int)
    requires
        w >= 0,
    ensures
        0 <= fill_width_spec(w, f) <= w,
{
    let c = clamp_milli(f);
    assert(0 <= c <= 1000);
    assert(w * c >= 0) by (nonlinear_arith)
        requires
            w >= 0 && c >= 0,
    ;
    assert(w * c <= w * 1000) by (nonlinear_arith)
        requires
            w >= 0 && c <= 1000,
    ;
    assert((w * 1000 + 500) / 1000 == w) by (nonlinear_arith)
        requires
            w >= 0,
    ;
}

/// Clamping law: a fraction below the interval fills exactly as a zero
/// fraction does, and one above it exactly as a full fraction does.
pub proof fn lemma_fill_clamped(w: int, f: int)
    ensures
        f < 0 ==> fill_width_spec(w, f) == fill_width_spec(w, 0),
        f > 1000 ==> fill_width_spec(w, f) == fill_width_spec(w, 1000),
{
}

/// An empty fraction draws no fill, and a full fraction fills the whole
/// track.
pub proof fn lemma_fill_endpoints(w: int)
    requires
        w >= 0,
    ensures
        fill_width_spec(w, 0) == 0,
        fill_width_spec(w, 1000) == w,
{
    assert(w * 0 == 0) by (nonlinear_arith);
    assert((w * 1000 + 500) / 1000 == w) by (nonlinear_arith)
        requires
            w >= 0,
    ;
}

impl ProgressBar {
    /// A bar at the given fraction (in thousandths) with no layout size yet
    /// and a neutral fill; the size and fill are then chosen builder-style.
    pub fn new(fraction_milli: i64) -> (r: ProgressBar)
        ensures
            r == (ProgressBar {
                fraction_milli,
                desired_width: 0u32,
                desired_height: 0u32,
                fill: Rgb { r: 128u8, g: 128u8, b: 128u8 },
            }),
    {
        ProgressBar {
            fraction_milli,
            desired_width: 0,
            desired_height: 0,
            fill: Rgb { r: 128, g: 128, b: 128 },
        }
    }

    /// The same bar asking for the given layout width.
    pub fn desired_width(self, desired_width: u32) -> (r: ProgressBar)
        ensures
            r == (ProgressBar { desired_width, ..self }),
    {
        ProgressBar { desired_width, ..self }
    }

    /// The same bar asking for the given layout height.
    pub fn desired_height(self, desired_height: u32) -> (r: ProgressBar)
        ensures
            r == (ProgressBar { desired_height, ..self }),
    {
        ProgressBar { desired_height, ..self }
    }

    /// The same bar filled with the given color.
    pub fn fill(self, fill: Rgb) -> (r: ProgressBar)
        ensures
            r == (ProgressBar { fill, ..self }),
    {
        ProgressBar { fill, ..self }
    }

    /// The fraction forced into the unit interval, in thousandths.
    pub fn clamped_fraction_milli(&self) -> (r: u32)
        ensures
            r == clamp_milli(self.fraction_milli as int),
    {
        if self.fraction_milli < 0 {
            0
        } else if self.fraction_milli > 1000 {
            1000
        } else {
            self.fraction_milli as u32
        }
    }

    /// Width of the filled part, in points.
    pub fn fill_width(&self) -> (r: u32)
        ensures
            r == fill_width_spec(self.desired_width as int, self.fraction_milli as int),
            r <= self.desired_width,
    {
        let f: u64 = self.clamped_fraction_milli() as u64;
        let w: u64 = self.desired_width as u64;
        proof {
            lemma_fill_within_track(w as int, self.fraction_milli as int);
            assert(w * f <= w * 1000) by (nonlinear_arith)
                requires
                    f <= 1000,
            ;
        }
        ((w * f + 500) / 1000) as u32
    }

    /// The track and fill rectangles for a bar laid out with its top-left
    /// corner at the given origin: the track spans the full desired size, the
    /// fill shares the track's origin, height and pill rounding, and its
    /// width is the rounded proportion of the track width.
    pub fn geometry(&self, origin_x: u32, origin_y: u32) -> (g: BarGeometry)
        requires
            origin_x + self.desired_width <= u32::MAX,
            origin_y + self.desired_height <= u32::MAX,
        ensures
            g.track == (RectPx {
                x: origin_x,
                y: origin_y,
                width: self.desired_width,
                height: self.desired_height,
            }),
            g.track_color == crate::theme::track_tint(),
            g.fill.x == origin_x,
            g.fill.y == origin_y,
            g.fill.width == fill_width_spec(
                self.desired_width as int,
                self.fraction_milli as int,
            ),
            g.fill.width <= g.track.width,
            g.fill.height == self.desired_height,
            g.fill_color == self.fill,
            g.rounding == self.desired_height / 2,
    {
        let fill_w: u32 = self.fill_width();
        BarGeometry {
            track: RectPx {
                x: origin_x,
                y: origin_y,
                width: self.desired_width,
                height: self.desired_height,
            },
            track_color: crate::theme::track_tint_value(),
            fill: RectPx { x: origin_x, y: origin_y, width: fill_w, height: self.desired_height },
            fill_color: self.fill,
            rounding: self.desired_height / 2,
        }
    }
}

} // verus!
