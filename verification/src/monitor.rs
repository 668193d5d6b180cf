//! Which monitor the overlays belong on.

use vstd::prelude::*;

verus! {

/// How far a window may exceed its monitor and still count as fitting.
pub const FIT_SLOP: i32 = 96;

/// A rectangle in screen coordinates.
#[derive(Clone, Copy, Debug, PartialEq, Eq, Structural)]
pub struct ScreenRect {
    pub left: i32,
    pub top: i32,
    pub right: i32,
    pub bottom: i32,
}

pub open spec fn width(r: ScreenRect) -> int {
    r.right - r.left
}

pub open spec fn height(r: ScreenRect) -> int {
    r.bottom - r.top
}

pub open spec fn max(a: int, b: int) -> int {
    if a >= b {
        a
    } else {
        b
    }
}

pub open spec fn min(a: int, b: int) -> int {
    if a <= b {
        a
    } else {
        b
    }
}

/// The length that two intervals share.
pub open spec fn overlap(a_from: int, a_to: int, b_from: int, b_to: int) -> int {
    max(min(a_to, b_to) - max(a_from, b_from), 0)
}

/// The area that two rectangles share.
pub open spec fn shared_area(a: ScreenRect, b: ScreenRect) -> int {
    overlap(a.left as int, a.right as int, b.left as int, b.right as int) * overlap(
        a.top as int,
        a.bottom as int,
        b.top as int,
        b.bottom as int,
    )
}

/// Whether a window belongs to a monitor: both have an area, the window is not
/// larger than the monitor by more than the slop, and at least half of it is on
/// the monitor.
pub open spec fn fits(window: ScreenRect, monitor: ScreenRect) -> bool {
    &&& width(window) > 0 && height(window) > 0 && width(monitor) > 0 && height(monitor) > 0
    &&& width(window) <= width(monitor) + FIT_SLOP
    &&& height(window) <= height(monitor) + FIT_SLOP
    &&& shared_area(window, monitor) * 2 >= width(window) * height(window)
}

/// The length that two intervals share.
fn shared_length(a_from: i32, a_to: i32, b_from: i32, b_to: i32) -> (n: i64)
    ensures
        n == overlap(a_from as int, a_to as int, b_from as int, b_to as int),
        0 <= n <= 0xffff_ffff,
{
    let from: i32 = if a_from >= b_from {
        a_from
    } else {
        b_from
    };
    let to: i32 = if a_to <= b_to {
        a_to
    } else {
        b_to
    };
    let n: i64 = to as i64 - from as i64;
    if n >= 0 {
        n
    } else {
        0
    }
}

/// The area that two rectangles share.
pub fn intersection_area(a: ScreenRect, b: ScreenRect) -> (area: i128)
    ensures
        area == shared_area(a, b),
        0 <= area <= 0xffff_ffff * 0xffff_ffff,
{
    let w: i64 = shared_length(a.left, a.right, b.left, b.right);
    let h: i64 = shared_length(a.top, a.bottom, b.top, b.bottom);
    assert(0 <= w * h <= 0xffff_ffff * 0xffff_ffff) by (nonlinear_arith)
        requires
            0 <= w <= 0xffff_ffff,
            0 <= h <= 0xffff_ffff,
    ;
    w as i128 * h as i128
}

/// Whether the foreground window belongs to the monitor it was found on, rather
/// than spanning several.
pub fn foreground_fits_monitor(window: ScreenRect, monitor: ScreenRect) -> (r: bool)
    ensures
        r == fits(window, monitor),
{
    let ww: i64 = window.right as i64 - window.left as i64;
    let wh: i64 = window.bottom as i64 - window.top as i64;
    let mw: i64 = monitor.right as i64 - monitor.left as i64;
    let mh: i64 = monitor.bottom as i64 - monitor.top as i64;
    if ww <= 0 || wh <= 0 || mw <= 0 || mh <= 0 {
        return false;
    }
    if ww > mw + FIT_SLOP as i64 || wh > mh + FIT_SLOP as i64 {
        return false;
    }
    assert(0 <= ww * wh <= 0x1_0000_0000 * 0x1_0000_0000) by (nonlinear_arith)
        requires
            0 < ww <= 0x1_0000_0000,
            0 < wh <= 0x1_0000_0000,
    ;
    let area: i128 = ww as i128 * wh as i128;
    intersection_area(window, monitor) * 2 >= area
}

/// The monitor to use: the foreground window's where it fits, else the cursor's,
/// else the primary one.
pub open spec fn chosen_monitor(
    foreground_window: Option<ScreenRect>,
    foreground_monitor: Option<ScreenRect>,
    cursor_monitor: Option<ScreenRect>,
    primary: ScreenRect,
) -> ScreenRect {
    match (foreground_window, foreground_monitor) {
        (Some(window), Some(monitor)) if fits(window, monitor) => monitor,
        _ => match cursor_monitor {
            Some(m) => m,
            None => primary,
        },
    }
}

/// `chosen_monitor`, computed.
pub fn choose_monitor(
    foreground_window: Option<ScreenRect>,
    foreground_monitor: Option<ScreenRect>,
    cursor_monitor: Option<ScreenRect>,
    primary: ScreenRect,
) -> (m: ScreenRect)
    ensures
        m == chosen_monitor(foreground_window, foreground_monitor, cursor_monitor, primary),
{
    if let Some(window) = foreground_window {
        if let Some(monitor) = foreground_monitor {
            if foreground_fits_monitor(window, monitor) {
                return monitor;
            }
        }
    }
    match cursor_monitor {
        Some(m) => m,
        None => primary,
    }
}

/// Where a choice of monitor came from.
#[derive(Clone, Copy, Debug, PartialEq, Eq, Structural)]
pub enum MonitorSource {
    Foreground,
    Cursor,
    Primary,
}

/// The monitor in use and where it was found, so that the caller can hold on to
/// the matching handle.
pub fn active_monitor(
    foreground_window: Option<ScreenRect>,
    foreground_monitor: Option<ScreenRect>,
    cursor_monitor: Option<ScreenRect>,
    primary: ScreenRect,
) -> (r: (MonitorSource, ScreenRect))
    ensures
        r.1 == chosen_monitor(foreground_window, foreground_monitor, cursor_monitor, primary),
        match r.0 {
            MonitorSource::Foreground => foreground_monitor == Some(r.1)
                && (foreground_window matches Some(w) && fits(w, r.1)),
            MonitorSource::Cursor => cursor_monitor == Some(r.1),
            MonitorSource::Primary => cursor_monitor is None && r.1 == primary,
        },
        r.0 == MonitorSource::Foreground <==> (foreground_window matches Some(w) && (
        foreground_monitor matches Some(m) && fits(w, m))),
{
    let rect = choose_monitor(foreground_window, foreground_monitor, cursor_monitor, primary);
    if let Some(window) = foreground_window {
        if let Some(monitor) = foreground_monitor {
            if foreground_fits_monitor(window, monitor) {
                return (MonitorSource::Foreground, rect);
            }
        }
    }
    if cursor_monitor.is_some() {
        (MonitorSource::Cursor, rect)
    } else {
        (MonitorSource::Primary, rect)
    }
}

/// The screen to assume when no primary monitor is found: at the origin, with
/// the reported size but at least one pixel each way.
pub fn fallback_screen(width_px: i32, height_px: i32) -> (r: ScreenRect)
    ensures
        r.left == 0,
        r.top == 0,
        r.right == max(width_px as int, 1),
        r.bottom == max(height_px as int, 1),
{
    ScreenRect {
        left: 0,
        top: 0,
        right: if width_px >= 1 {
            width_px
        } else {
            1
        },
        bottom: if height_px >= 1 {
            height_px
        } else {
            1
        },
    }
}

/// A window that lies within its monitor fits it.
pub proof fn contained_window_fits(window: ScreenRect, monitor: ScreenRect)
    requires
        width(window) > 0,
        height(window) > 0,
        monitor.left <= window.left,
        monitor.top <= window.top,
        window.right <= monitor.right,
        window.bottom <= monitor.bottom,
    ensures
        fits(window, monitor),
{
    assert(shared_area(window, monitor) == width(window) * height(window));
    assert(width(window) * height(window) >= 0) by (nonlinear_arith)
        requires
            width(window) > 0,
            height(window) > 0,
    ;
}

/// The choice is always one of the monitors that were offered.
pub proof fn choice_is_offered(
    foreground_window: Option<ScreenRect>,
    foreground_monitor: Option<ScreenRect>,
    cursor_monitor: Option<ScreenRect>,
    primary: ScreenRect,
)
    ensures
        ({
            let m = chosen_monitor(foreground_window, foreground_monitor, cursor_monitor, primary);
            Some(m) == foreground_monitor || Some(m) == cursor_monitor || m == primary
        }),
{
}

/// The monitor of a foreground window that fits it comes first, wherever the cursor is;
/// without one the cursor's, and without that the primary one.
pub proof fn the_foreground_comes_first(
    window: ScreenRect,
    monitor: ScreenRect,
    cursor: ScreenRect,
    primary: ScreenRect,
    offered: Option<ScreenRect>,
)
    ensures
        fits(window, monitor) ==> chosen_monitor(Some(window), Some(monitor), offered, primary)
            == monitor,
        !fits(window, monitor) ==> chosen_monitor(
            Some(window),
            Some(monitor),
            Some(cursor),
            primary,
        ) == cursor,
        chosen_monitor(None, offered, Some(cursor), primary) == cursor,
        chosen_monitor(offered, None, Some(cursor), primary) == cursor,
        chosen_monitor(None, offered, None, primary) == primary,
        !fits(window, monitor) ==> chosen_monitor(Some(window), Some(monitor), None, primary)
            == primary,
{
}

/// A window fits a monitor only where it exceeds it by 96 pixels at most each way and has
/// at least half of its area on it; one that lies apart from it does not fit.
pub proof fn a_window_fits_where_it_mostly_is(window: ScreenRect, monitor: ScreenRect)
    ensures
        window.right - window.left > monitor.right - monitor.left + 96 ==> !fits(window, monitor),
        window.bottom - window.top > monitor.bottom - monitor.top + 96 ==> !fits(window, monitor),
        window.right <= monitor.left || monitor.right <= window.left ==> !fits(window, monitor),
        window.bottom <= monitor.top || monitor.bottom <= window.top ==> !fits(window, monitor),
        ({
            let w = window.right - window.left;
            let h = window.bottom - window.top;
            let part = min(window.right as int, monitor.right as int) - max(
                window.left as int,
                monitor.left as int,
            );
            monitor.top <= window.top && window.top < window.bottom && window.bottom
                <= monitor.bottom && window.left < window.right && w <= monitor.right - monitor.left
                + 96 && monitor.left < monitor.right && part >= 0 ==> (fits(window, monitor)
                <==> 2 * (part * h) >= w * h)
        }),
        ({
            let w = window.right - window.left;
            let h = window.bottom - window.top;
            let part = min(window.bottom as int, monitor.bottom as int) - max(
                window.top as int,
                monitor.top as int,
            );
            monitor.left <= window.left && window.left < window.right && window.right
                <= monitor.right && window.top < window.bottom && h <= monitor.bottom - monitor.top
                + 96 && monitor.top < monitor.bottom && part >= 0 ==> (fits(window, monitor)
                <==> 2 * (w * part) >= w * h)
        }),
{
    let w = window.right - window.left;
    let h = window.bottom - window.top;
    if fits(window, monitor) && (window.right <= monitor.left || monitor.right <= window.left
        || window.bottom <= monitor.top || monitor.bottom <= window.top) {
        let a = overlap(
            window.left as int,
            window.right as int,
            monitor.left as int,
            monitor.right as int,
        );
        let b = overlap(
            window.top as int,
            window.bottom as int,
            monitor.top as int,
            monitor.bottom as int,
        );
        assert(a == 0 || b == 0);
        assert(a * b == 0) by (nonlinear_arith)
            requires
                a == 0 || b == 0,
        ;
        assert(w * h > 0) by (nonlinear_arith)
            requires
                w > 0,
                h > 0,
        ;
    }
}

} // verus!
