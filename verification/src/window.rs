//! The one window of the application: its two sizes and where it goes on the screen.

use vstd::prelude::*;

verus! {

/// The width of the popup, in points.
pub const POPUP_W: u32 = 560;

pub const POPUP_H: u32 = 430;

/// The width of the progress box of the quick shortcut, in points: that of a context menu.
pub const HUD_W: u32 = 290;

pub const HUD_H: u32 = 44;

/// The least width of the window, in points.
pub const MIN_W: u32 = 420;

pub const MIN_H: u32 = 320;

/// Where the window is parked while it is hidden, on both axes: outside of any monitor. Hiding
/// alone is not enough, because the window is shown once after its first frame was painted.
pub const OFFSCREEN: i32 = -32000;

/// The distance between the cursor and the window, in points.
pub const CURSOR_GAP: u32 = 12;

/// What the window draws.
#[derive(Debug, Clone, Copy, PartialEq, Eq, Structural)]
pub enum Mode {
    /// The whole popup, with the tones, the result and the actions.
    Popup,
    /// The progress box of the quick shortcut.
    Hud,
}

/// The size of the window, in points.
pub open spec fn size_of(mode: Mode) -> (u32, u32) {
    match mode {
        Mode::Popup => (POPUP_W, POPUP_H),
        Mode::Hud => (HUD_W, HUD_H),
    }
}

/// The size of the window, in points.
pub fn size(mode: Mode) -> (r: (u32, u32))
    ensures
        r == size_of(mode),
{
    match mode {
        Mode::Popup => (POPUP_W, POPUP_H),
        Mode::Hud => (HUD_W, HUD_H),
    }
}

/// The part of a monitor that windows may use, in pixels.
#[derive(Debug, Clone, Copy)]
pub struct Area {
    pub left: i32,
    pub top: i32,
    pub right: i32,
    pub bottom: i32,
}

/// `v`, but not above `high`; and not below `low`, whatever `high` is.
pub open spec fn clamped(v: int, low: int, high: int) -> int {
    let below = if v < high {
        v
    } else {
        high
    };
    if below < low {
        low
    } else {
        below
    }
}

/// Where a window of that length starts on an axis whose usable part goes from `low` to `high`:
/// beside the cursor, or in the middle without one, moved so far that it stays in the usable part.
/// One that is longer than the usable part starts with it.
pub open spec fn axis_start(cursor: Option<int>, low: int, high: int, length: int, gap: int) -> int {
    let wanted = match cursor {
        Some(c) => c + gap,
        None => low + (high - low - length) / 2,
    };
    clamped(wanted, low, high - length)
}

/// Where a window starts on one axis.
fn start_on_axis(cursor: Option<i32>, low: i32, high: i32, length: i32, gap: i32) -> (r: i32)
    requires
        length >= 0,
    ensures
        r == axis_start(
            match cursor {
                Some(c) => Some(c as int),
                None => None,
            },
            low as int,
            high as int,
            length as int,
            gap as int,
        ),
{
    let last: i64 = high as i64 - length as i64;
    if last <= low as i64 {
        return low;
    }
    let wanted: i64 = match cursor {
        Some(c) => c as i64 + gap as i64,
        None => {
            let room: u64 = (last - low as i64) as u64;
            low as i64 + (room / 2) as i64
        },
    };
    let below: i64 = if wanted < last {
        wanted
    } else {
        last
    };
    if below < low as i64 {
        low
    } else {
        below as i32
    }
}

/// Where the window goes, all in pixels.
pub open spec fn placed(
    cursor: Option<(i32, i32)>,
    area: Area,
    width: int,
    height: int,
    gap: int,
) -> (int, int) {
    (
        axis_start(
            match cursor {
                Some((x, _)) => Some(x as int),
                None => None,
            },
            area.left as int,
            area.right as int,
            width,
            gap,
        ),
        axis_start(
            match cursor {
                Some((_, y)) => Some(y as int),
                None => None,
            },
            area.top as int,
            area.bottom as int,
            height,
            gap,
        ),
    )
}

/// Where the window goes, all in pixels.
pub fn place(
    cursor: Option<(i32, i32)>,
    area: Area,
    width: i32,
    height: i32,
    gap: i32,
) -> (r: (i32, i32))
    requires
        width >= 0,
        height >= 0,
    ensures
        (r.0 as int, r.1 as int) == placed(cursor, area, width as int, height as int, gap as int),
{
    let (x, y) = match cursor {
        Some((x, y)) => (Some(x), Some(y)),
        None => (None, None),
    };
    (
        start_on_axis(x, area.left, area.right, width, gap),
        start_on_axis(y, area.top, area.bottom, height, gap),
    )
}

/// A window that fits stays wholly in the usable part; one that does not starts with it.
pub proof fn window_stays_in_area(
    cursor: Option<int>,
    low: int,
    high: int,
    length: int,
    gap: int,
)
    ensures
        length <= high - low ==> low <= axis_start(cursor, low, high, length, gap) && axis_start(
            cursor,
            low,
            high,
            length,
            gap,
        ) + length <= high,
        length > high - low ==> axis_start(cursor, low, high, length, gap) == low,
{
}

/// With room for it, the window stands exactly beside the cursor.
pub proof fn window_beside_cursor(c: int, low: int, high: int, length: int, gap: int)
    requires
        low <= c + gap,
        c + gap + length <= high,
    ensures
        axis_start(Some(c), low, high, length, gap) == c + gap,
{
}

/// The popup measures 560 by 430 points, and the progress box 290 by 44.
pub proof fn windows_have_their_sizes()
    ensures
        size_of(Mode::Popup) == (560u32, 430u32),
        size_of(Mode::Hud) == (290u32, 44u32),
{
}

/// A window that fits into the usable part lies in it on every side, wherever the cursor is.
pub proof fn placed_window_is_on_the_screen(
    cursor: Option<(i32, i32)>,
    area: Area,
    width: int,
    height: int,
    gap: int,
)
    ensures
        ({
            let (x, y) = placed(cursor, area, width, height, gap);
            &&& area.left + width <= area.right ==> area.left <= x && x + width <= area.right
            &&& area.top + height <= area.bottom ==> area.top <= y && y + height <= area.bottom
            &&& area.left + width > area.right ==> x == area.left
            &&& area.top + height > area.bottom ==> y == area.top
        }),
{
}

/// The window stands to the right of the cursor and below it, at the gap, and gives way on an axis
/// only as far as it must: to the far edge where the gap leaves no room, to the near edge where the
/// cursor is outside.
pub proof fn window_gives_way_no_further_than_needed(
    x: i32,
    y: i32,
    area: Area,
    width: int,
    height: int,
    gap: int,
)
    requires
        area.left + width <= area.right,
        area.top + height <= area.bottom,
    ensures
        ({
            let (px, py) = placed(Some((x, y)), area, width, height, gap);
            &&& area.left <= x + gap <= area.right - width ==> px == x + gap
            &&& x + gap > area.right - width ==> px == area.right - width
            &&& x + gap < area.left ==> px == area.left
            &&& area.top <= y + gap <= area.bottom - height ==> py == y + gap
            &&& y + gap > area.bottom - height ==> py == area.bottom - height
            &&& y + gap < area.top ==> py == area.top
        }),
{
}

/// Without a cursor the window stands in the middle: what is left over on its two sides differs by
/// one pixel at most.
pub proof fn window_stands_in_the_middle(area: Area, width: int, height: int, gap: int)
    requires
        area.left + width <= area.right,
        area.top + height <= area.bottom,
    ensures
        ({
            let (x, y) = placed(None, area, width, height, gap);
            &&& 0 <= (area.right - (x + width)) - (x - area.left) <= 1
            &&& 0 <= (area.bottom - (y + height)) - (y - area.top) <= 1
        }),
{
}

/// A parked window is far from every monitor, whichever of the two it is.
pub proof fn parked_window_is_out_of_sight(mode: Mode)
    ensures
        OFFSCREEN + size_of(mode).0 < -10_000,
        OFFSCREEN + size_of(mode).1 < -10_000,
        OFFSCREEN == -32_000,
        CURSOR_GAP == 12,
        MIN_W == 420 && MIN_W <= size_of(Mode::Popup).0,
        MIN_H == 320 && MIN_H <= size_of(Mode::Popup).1,
{
}

} // verus!
