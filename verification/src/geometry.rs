//! Placement of the transient popup windows.
//!
//! Coordinates are logical pixels.  The popup is anchored to an estimated
//! tray-icon position and then clamped so that it never leaves the screen,
//! even when the anchor estimate is wrong.

use vstd::prelude::*;

verus! {

/// Gap kept between a popup and the screen edges.
pub const MARGIN: i64 = 8;

/// Height of the menu bar that the popup sits under.
pub const MENU_BAR_HEIGHT: i64 = 24;

/// Largest coordinate or dimension the geometry functions accept.
pub const MAX_COORD: i64 = 1_000_000_000;

/// Width of both popup windows.
pub const POPUP_WIDTH: i64 = 420;

/// Height the tray popup is first created with; the content then adapts.
pub const TRAY_POPUP_INITIAL_HEIGHT: i64 = 400;

/// Height used when re-showing the existing tray popup.
pub const TRAY_POPUP_HEIGHT: i64 = 600;

/// Height of the high-CPU alert popup.
pub const ALERT_HEIGHT: i64 = 200;

/// Vertical offset that keeps the alert popup from covering the tray popup.
pub const ALERT_Y_OFFSET: i64 = 10;

/// `v` forced into `[lo, hi]`; the upper bound wins when `hi < lo`.
pub open spec fn clamped(v: int, lo: int, hi: int) -> int {
    let raised = if v < lo {
        lo
    } else {
        v
    };
    if raised > hi {
        hi
    } else {
        raised
    }
}

/// The anchor x actually used: the estimate if one is available, otherwise
/// a point 50 pixels from the right screen edge.
pub open spec fn anchor_x_or_fallback(screen_w: int, anchor: Option<(i64, i64)>) -> int {
    match anchor {
        Some(a) => a.0 as int,
        None => screen_w - 50,
    }
}

/// The popup x position: left-aligned to the anchor when the popup fits to
/// its right, else right-aligned to the screen edge; then clamped on screen.
pub open spec fn place_x(screen_w: int, popup_w: int, anchor: Option<(i64, i64)>) -> int {
    let ax = anchor_x_or_fallback(screen_w, anchor);
    let raw = if ax + popup_w + MARGIN <= screen_w {
        ax
    } else {
        screen_w - popup_w - MARGIN
    };
    clamped(raw, MARGIN as int, screen_w - popup_w - MARGIN)
}

/// The popup y position: right under the menu bar, clamped on screen.
pub open spec fn place_y(screen_h: int, popup_h: int) -> int {
    clamped(MENU_BAR_HEIGHT + MARGIN, MARGIN as int, screen_h - popup_h - MARGIN)
}

/// [`place_x`] as the pixel value the functions actually return.
pub open spec fn place_x_px(screen_w: int, popup_w: int, anchor: Option<(i64, i64)>) -> i64 {
    place_x(screen_w, popup_w, anchor) as i64
}

/// [`place_y`] as the pixel value the functions actually return.
pub open spec fn place_y_px(screen_h: int, popup_h: int) -> i64 {
    place_y(screen_h, popup_h) as i64
}

/// The y position of the alert popup: slightly below the tray popup's spot,
/// so the two do not cover each other.
pub open spec fn alert_y_px(screen_h: int) -> i64 {
    (place_y(screen_h, ALERT_HEIGHT as int) + ALERT_Y_OFFSET) as i64
}

/// The tray-icon anchor estimate for the primary display: a little left of
/// the right screen edge, vertically centred in the menu bar.
pub fn estimate_tray_anchor(screen_w: i64) -> (a: (i64, i64))
    requires
        0 <= screen_w <= MAX_COORD,
    ensures
        a.0 == screen_w - 100,
        a.1 == MENU_BAR_HEIGHT / 2,
{
    (screen_w - 100, MENU_BAR_HEIGHT / 2)
}

/// Places a popup of the given size on the screen, relative to the anchor.
///
/// The result is exactly `(place_x, place_y)`: anchor-aligned when possible,
/// edge-aligned otherwise, and always clamped into the screen bounds.
pub fn place(
    screen_w: i64,
    screen_h: i64,
    popup_w: i64,
    popup_h: i64,
    anchor: Option<(i64, i64)>,
) -> (pos: (i64, i64))
    requires
        0 <= screen_w <= MAX_COORD,
        0 <= screen_h <= MAX_COORD,
        0 <= popup_w <= MAX_COORD,
        0 <= popup_h <= MAX_COORD,
        anchor matches Some(a) ==> -MAX_COORD <= a.0 <= MAX_COORD,
    ensures
        pos.0 == place_x(screen_w as int, popup_w as int, anchor),
        pos.1 == place_y(screen_h as int, popup_h as int),
        pos.0 == place_x_px(screen_w as int, popup_w as int, anchor),
        pos.1 == place_y_px(screen_h as int, popup_h as int),
{
    let ax: i64 = match anchor {
        Some(a) => a.0,
        None => screen_w - 50,
    };
    let raw_x: i64 = if ax + popup_w + MARGIN <= screen_w {
        ax
    } else {
        screen_w - popup_w - MARGIN
    };
    let hi_x: i64 = screen_w - popup_w - MARGIN;
    let x0: i64 = if raw_x < MARGIN {
        MARGIN
    } else {
        raw_x
    };
    let x: i64 = if x0 > hi_x {
        hi_x
    } else {
        x0
    };
    let raw_y: i64 = MENU_BAR_HEIGHT + MARGIN;
    let hi_y: i64 = screen_h - popup_h - MARGIN;
    let y0: i64 = if raw_y < MARGIN {
        MARGIN
    } else {
        raw_y
    };
    let y: i64 = if y0 > hi_y {
        hi_y
    } else {
        y0
    };
    (x, y)
}

/// Places the high-CPU alert popup: the tray popup's x, and a y just below
/// where the alert-sized popup would sit, per [`alert_y_px`].
pub fn alert_position(screen_w: i64, screen_h: i64, anchor: Option<(i64, i64)>) -> (pos: (
    i64,
    i64,
))
    requires
        0 <= screen_w <= MAX_COORD,
        0 <= screen_h <= MAX_COORD,
        anchor matches Some(a) ==> -MAX_COORD <= a.0 <= MAX_COORD,
    ensures
        pos.0 == place_x_px(screen_w as int, POPUP_WIDTH as int, anchor),
        pos.1 == alert_y_px(screen_h as int),
{
    let (x, y) = place(screen_w, screen_h, POPUP_WIDTH, ALERT_HEIGHT, anchor);
    (x, y + ALERT_Y_OFFSET)
}

} // verus!
