//! The screen controller: owns the current status, advances it on a logo
//! click, chooses the one panel drawn for the current status, and accounts
//! for the window-chrome signals (terminate, minimize) that clicks issue.

use vstd::prelude::*;
use crate::progress::{ProgressBar, Rgb};
use crate::status::Status;
use crate::theme;

verus! {

/// Per-corner rounding radii of a chrome button, in points.
#[derive(Clone, Copy, Debug, PartialEq, Eq, Structural)]
pub struct CornerRounding {
    pub nw: u32,
    pub ne: u32,
    pub sw: u32,
    pub se: u32,
}

/// A window-chrome button: its glyph, fill and corner rounding. The chrome
/// row is laid out right to left, the close button rightmost.
#[derive(Clone, Copy, Debug)]
pub struct ChromeButton {
    pub label: &'static str,
    pub fill: Rgb,
    pub rounding: CornerRounding,
}

/// The close button: rightmost, rounded only on its outer (right) corners.
pub fn exit_button() -> (b: ChromeButton)
    ensures
        b.label@ == "\u{274c}"@,
        b.fill == theme::chrome_fill(),
        b.rounding == (CornerRounding { nw: 0u32, ne: 10u32, sw: 0u32, se: 10u32 }),
{
    ChromeButton {
        label: "\u{274c}",
        fill: theme::chrome_fill_value(),
        rounding: CornerRounding { nw: 0, ne: 10, sw: 0, se: 10 },
    }
}

/// The minimize button: left of the close button, rounded only on its outer
/// (left) corners.
pub fn minimize_button() -> (b: ChromeButton)
    ensures
        b.label@ == "\u{2796}"@,
        b.fill == theme::chrome_fill(),
        b.rounding == (CornerRounding { nw: 10u32, ne: 0u32, sw: 10u32, se: 0u32 }),
{
    ChromeButton {
        label: "\u{2796}",
        fill: theme::chrome_fill_value(),
        rounding: CornerRounding { nw: 10, ne: 0, sw: 10, se: 0 },
    }
}

/// What the status panel shows this frame: exactly one of the three screens,
/// with everything its renderer needs.
#[derive(Clone, Copy, Debug)]
pub enum Panel {
    NotFound { line1: &'static str, line2: &'static str, text_size: u32 },
    Loading { primary: ProgressBar, secondary: ProgressBar, spacing: u32 },
    Loaded {
        line1: &'static str,
        line2: &'static str,
        text_size: u32,
        close_label: &'static str,
        close_text_size: u32,
        close_fill: Rgb,
        spacing: u32,
    },
}

impl Panel {
    /// The status this panel belongs to.
    pub open spec fn kind(self) -> Status {
        match self {
            Panel::NotFound { .. } => Status::NotFound,
            Panel::Loading { .. } => Status::Loading,
            Panel::Loaded { .. } => Status::Loaded,
        }
    }
}

/// What the `NotFound` screen shows: the two generic informational lines at
/// the panel text size.
pub open spec fn shows_not_found(p: Panel) -> bool {
    p matches Panel::NotFound { line1, line2, text_size }
        && line1@ == "target application not found"@
        && line2@ == "open the target application to continue"@
        && text_size == theme::TEXT_SIZE
}

/// What the `Loading` screen shows: two stacked progress bars at the fixed
/// fractions, both of the fixed bar size and accent fill, with the fixed
/// spacing between them.
pub open spec fn shows_loading(p: Panel) -> bool {
    p matches Panel::Loading { primary, secondary, spacing }
        && primary == (ProgressBar {
            fraction_milli: 450i64,
            desired_width: theme::BAR_WIDTH,
            desired_height: theme::BAR_HEIGHT,
            fill: theme::accent(),
        })
        && secondary == (ProgressBar {
            fraction_milli: 750i64,
            desired_width: theme::BAR_WIDTH,
            desired_height: theme::BAR_HEIGHT,
            fill: theme::accent(),
        })
        && spacing == theme::PANEL_ITEM_SPACE
}

/// What the `Loaded` screen shows: its two informational lines and the
/// accent close button.
pub open spec fn shows_loaded(p: Panel) -> bool {
    p matches Panel::Loaded {
        line1,
        line2,
        text_size,
        close_label,
        close_text_size,
        close_fill,
        spacing,
    } && line1@ == "Vape has finished loading"@
        && line2@ == "Press RIGHT SHIFT while in game to open the GUI"@
        && text_size == theme::TEXT_SIZE
        && close_label@ == "Close Window"@
        && close_text_size == theme::CLOSE_TEXT_SIZE
        && close_fill == theme::accent()
        && spacing == theme::PANEL_ITEM_SPACE
}

/// The full contents the panel of a given status shows.
pub open spec fn shows_status(p: Panel, s: Status) -> bool {
    match s {
        Status::NotFound => shows_not_found(p),
        Status::Loading => shows_loading(p),
        Status::Loaded => shows_loaded(p),
    }
}

/// The `NotFound` screen: two lines of static informational text.
pub fn not_found() -> (p: Panel)
    ensures
        shows_not_found(p),
{
    Panel::NotFound {
        line1: "target application not found",
        line2: "open the target application to continue",
        text_size: theme::TEXT_SIZE,
    }
}

/// The `Loading` screen: two stacked progress bars at fixed fractions, both
/// of the fixed bar size and accent fill, separated by fixed spacing.
pub fn loading() -> (p: Panel)
    ensures
        shows_loading(p),
{
    let primary = ProgressBar::new(450)
        .desired_width(theme::BAR_WIDTH)
        .desired_height(theme::BAR_HEIGHT)
        .fill(theme::accent_value());
    let secondary = ProgressBar::new(750)
        .desired_width(theme::BAR_WIDTH)
        .desired_height(theme::BAR_HEIGHT)
        .fill(theme::accent_value());
    Panel::Loading { primary, secondary, spacing: theme::PANEL_ITEM_SPACE }
}

/// The `Loaded` screen: two lines of static text and a close button that
/// issues the same terminate signal as the chrome close control.
pub fn loaded() -> (p: Panel)
    ensures
        shows_loaded(p),
{
    Panel::Loaded {
        line1: "Vape has finished loading",
        line2: "Press RIGHT SHIFT while in game to open the GUI",
        text_size: theme::TEXT_SIZE,
        close_label: "Close Window",
        close_text_size: theme::CLOSE_TEXT_SIZE,
        close_fill: theme::accent_value(),
        spacing: theme::PANEL_ITEM_SPACE,
    }
}

/// The screen controller. It is the sole owner of the current status: screens
/// are rendered from the value it hands out, never through shared mutable
/// access.
#[derive(Clone, Copy, Debug)]
pub struct Vape {
    pub status: Status,
}

impl Vape {
    /// A fresh controller; the overlay starts on the `Loading` screen.
    pub fn new() -> (r: Vape)
        ensures
            r.status == Status::Loading,
    {
        Vape { status: Status::Loading }
    }

    /// Rotate to the next screen, one step along the fixed cycle.
    pub fn swap_between_screens(&mut self)
        ensures
            final (self).status == old(self).status.next(),
    {
        self.status = self.status.advanced();
    }

    /// One frame of the status area: if the logo was clicked the status
    /// advances one step first, and the panel returned is exactly the one
    /// that matches the status the frame ends in, its full contents
    /// included. A click anywhere else leaves the status untouched.
    pub fn loader(&mut self, logo_clicked: bool) -> (p: Panel)
        ensures
            final (self).status == (if logo_clicked {
                old(self).status.next()
            } else {
                old(self).status
            }),
            p.kind() == final (self).status,
            shows_status(p, final (self).status),
    {
        if logo_clicked {
            self.swap_between_screens();
        }
        match self.status {
            Status::NotFound => not_found(),
            Status::Loading => loading(),
            Status::Loaded => loaded(),
        }
    }
}

/// How many terminate requests one frame's close clicks issue: one for the
/// chrome close button, and one for the `Loaded` panel's close button, which
/// exists only while the `Loaded` screen is shown.
pub open spec fn close_request_count(status: Status, chrome_close: bool, panel_close: bool) -> int {
    (if chrome_close {
        1int
    } else {
        0int
    }) + (if status == Status::Loaded && panel_close {
        1int
    } else {
        0int
    })
}

/// The window-manager signals one frame issues.
#[derive(Clone, Copy, Debug, PartialEq, Eq, Structural)]
pub struct FrameSignals {
    pub terminate_requests: u32,
    pub minimize_requests: u32,
}

/// Turn the frame's chrome and panel clicks into window-manager signals.
/// `status` is the status whose panel was shown this frame; a click reported
/// on the panel close button counts only while that panel is `Loaded`.
pub fn window_signals(status: Status, chrome_close: bool, minimize: bool, panel_close: bool) -> (s:
    FrameSignals)
    ensures
        s.terminate_requests == close_request_count(status, chrome_close, panel_close),
        s.minimize_requests == (if minimize {
            1int
        } else {
            0int
        }),
{
    let chrome_count: u32 = if chrome_close {
        1
    } else {
        0
    };
    let panel_count: u32 = if matches!(status, Status::Loaded) && panel_close {
        1
    } else {
        0
    };
    FrameSignals {
        terminate_requests: chrome_count + panel_count,
        minimize_requests: if minimize {
            1
        } else {
            0
        },
    }
}

/// A close click issues exactly one terminate request, never zero and never
/// more than one: one click on the chrome close button alone, or one click on
/// the `Loaded` panel's close button alone, each count for exactly one
/// request, and a frame with no close click issues none.
pub proof fn lemma_single_terminate(status: Status, chrome_close: bool, panel_close: bool)
    ensures
        chrome_close && !(status == Status::Loaded && panel_close) ==> close_request_count(
            status,
            chrome_close,
            panel_close,
        ) == 1,
        !chrome_close && status == Status::Loaded && panel_close ==> close_request_count(
            status,
            chrome_close,
            panel_close,
        ) == 1,
        !chrome_close && !panel_close ==> close_request_count(status, chrome_close, panel_close)
            == 0,
{
}

} // verus!
