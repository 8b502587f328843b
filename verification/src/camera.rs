use vstd::prelude::*;
use crate::geom::{CoordsRect, COORD_LIMIT};

verus! {

/// The size, in screen pixels, of a grid cell at 1x zoom.
pub const GRID_CELL_SIZE: i32 = 64;

/// One step of the camera's scroll toward `goal` along one axis.  `change`
/// is the eased distance for this frame, rounded: when it is zero the
/// scroll still moves one pixel toward the goal, so that it always gets
/// there.
pub open spec fn track_towards_spec(current: int, goal: int, change: int) -> int {
    if change != 0 {
        current + change
    } else if goal > current {
        current + 1
    } else if goal < current {
        current - 1
    } else {
        goal
    }
}

pub fn track_towards(current: i32, goal: i32, change: i32) -> (r: i32)
    requires
        i32::MIN <= current + change <= i32::MAX,
    ensures
        r == track_towards_spec(current as int, goal as int, change as int),
{
    if change != 0 {
        current + change
    } else if goal > current {
        current + 1
    } else if goal < current {
        current - 1
    } else {
        goal
    }
}

/// When the eased change lies between zero and the remaining distance (as
/// it does for any frame length), a step never overshoots the goal, and it
/// makes progress unless the goal is reached.
pub proof fn lemma_track_towards_approaches(current: int, goal: int, change: int)
    requires
        (0 <= change <= goal - current) || (goal - current <= change <= 0),
    ensures
        ({
            let r = track_towards_spec(current, goal, change);
            &&& current <= goal ==> current <= r <= goal
            &&& goal <= current ==> goal <= r <= current
            &&& current != goal ==> r != current
            &&& current == goal ==> r == goal
        }),
{
}

/// The initial scroll position: the center, in pixels at 1x zoom, of the
/// circuit's bounds.
pub open spec fn initial_scroll_spec(bounds: CoordsRect) -> (int, int) {
    (
        bounds.x * GRID_CELL_SIZE + (bounds.width * GRID_CELL_SIZE) / 2,
        bounds.y * GRID_CELL_SIZE + (bounds.height * GRID_CELL_SIZE) / 2,
    )
}

pub fn initial_scroll(bounds: CoordsRect) -> (r: (i32, i32))
    requires
        -0x80_0000 <= bounds.x <= 0x80_0000,
        -0x80_0000 <= bounds.y <= 0x80_0000,
        0 <= bounds.width <= 0x80_0000,
        0 <= bounds.height <= 0x80_0000,
    ensures
        r.0 == initial_scroll_spec(bounds).0,
        r.1 == initial_scroll_spec(bounds).1,
{
    let x = bounds.x * GRID_CELL_SIZE + (bounds.width * GRID_CELL_SIZE) / 2;
    let y = bounds.y * GRID_CELL_SIZE + (bounds.height * GRID_CELL_SIZE) / 2;
    (x, y)
}

/// The direction to scroll along an axis while its keys are held: toward
/// the held key, or not at all when both or neither are held.
pub open spec fn scroll_direction_spec(negative_held: bool, positive_held: bool) -> int {
    if negative_held && !positive_held {
        -1
    } else if positive_held && !negative_held {
        1
    } else {
        0
    }
}

pub fn scroll_direction(negative_held: bool, positive_held: bool) -> (d: i32)
    ensures
        d == scroll_direction_spec(negative_held, positive_held),
{
    if negative_held && !positive_held {
        -1
    } else if positive_held && !negative_held {
        1
    } else {
        0
    }
}

/// The region, in pixels at 1x zoom, within which the camera center may
/// rest: the circuit bounds, widened by `expand_x` on the left and right and
/// `expand_y` on the top and bottom.
pub open spec fn scroll_limit_spec(bounds: CoordsRect, expand_x: int, expand_y: int) -> CoordsRect {
    CoordsRect {
        x: (bounds.x * GRID_CELL_SIZE - expand_x) as i32,
        y: (bounds.y * GRID_CELL_SIZE - expand_y) as i32,
        width: (bounds.width * GRID_CELL_SIZE + 2 * expand_x) as i32,
        height: (bounds.height * GRID_CELL_SIZE + 2 * expand_y) as i32,
    }
}

pub fn scroll_limit(bounds: CoordsRect, expand_x: i32, expand_y: i32) -> (r: CoordsRect)
    requires
        -0x80_0000 <= bounds.x <= 0x80_0000,
        -0x80_0000 <= bounds.y <= 0x80_0000,
        0 <= bounds.width <= 0x80_0000,
        0 <= bounds.height <= 0x80_0000,
        0 <= expand_x <= COORD_LIMIT,
        0 <= expand_y <= COORD_LIMIT,
    ensures
        r == scroll_limit_spec(bounds, expand_x as int, expand_y as int),
{
    CoordsRect::new(
        bounds.x * GRID_CELL_SIZE - expand_x,
        bounds.y * GRID_CELL_SIZE - expand_y,
        bounds.width * GRID_CELL_SIZE + 2 * expand_x,
        bounds.height * GRID_CELL_SIZE + 2 * expand_y,
    )
}

/// Where the camera springs back to along one axis, when its scroll has
/// left the range `low..=high`.
pub open spec fn spring_target_spec(scroll: int, low: int, high: int) -> Option<int> {
    if scroll < low {
        Some(low)
    } else if scroll > high {
        Some(high)
    } else {
        None
    }
}

pub fn spring_target(scroll: i32, low: i32, high: i32) -> (r: Option<i32>)
    ensures
        r matches Some(t) ==> spring_target_spec(scroll as int, low as int, high as int) == Some(
            t as int,
        ),
        r is None <==> spring_target_spec(scroll as int, low as int, high as int) is None,
{
    if scroll < low {
        Some(low)
    } else if scroll > high {
        Some(high)
    } else {
        None
    }
}


/// Whether the key bound to a hotkey (`hotkey_code`) is among the keys
/// held down (`held_codes`).
pub fn is_hotkey_held(held_codes: &Vec<u32>, hotkey_code: u32) -> (b: bool)
    ensures
        b == held_codes@.contains(hotkey_code),
{
    let n = held_codes.len();
    let mut i: usize = 0;
    while i < n
        invariant
            n == held_codes@.len(),
            i <= n,
            forall|k: int| 0 <= k < i ==> held_codes@[k] != hotkey_code,
        decreases n - i,
    {
        if held_codes[i] == hotkey_code {
            assert(held_codes@[i as int] == hotkey_code);
            return true;
        }
        i = i + 1;
    }
    false
}

} // verus!
