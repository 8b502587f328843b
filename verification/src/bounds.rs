use vstd::prelude::*;
use crate::geom::{Coords, CoordsRect, Direction, COORD_LIMIT};
use crate::hotkey::Cursor;
use crate::select::GridChange;

verus! {

/// A handle on the border of the circuit's bounds, by which the bounds are
/// resized.
#[derive(Clone, Copy, Debug, PartialEq, Eq, Structural)]
pub enum BoundsHandle {
    Right,
    BottomRight,
    Bottom,
    BottomLeft,
    Left,
    TopLeft,
    Top,
    TopRight,
}

impl BoundsHandle {
    pub open spec fn for_side_spec(side: Direction) -> BoundsHandle {
        match side {
            Direction::East => BoundsHandle::Right,
            Direction::South => BoundsHandle::Bottom,
            Direction::West => BoundsHandle::Left,
            Direction::North => BoundsHandle::Top,
        }
    }

    pub open spec fn cursor_spec(self) -> Cursor {
        match self {
            BoundsHandle::Right | BoundsHandle::Left => Cursor::ResizeEastWest,
            BoundsHandle::Top | BoundsHandle::Bottom => Cursor::ResizeNorthSouth,
            BoundsHandle::TopRight | BoundsHandle::BottomLeft => Cursor::ResizeNortheastSouthwest,
            BoundsHandle::TopLeft | BoundsHandle::BottomRight => Cursor::ResizeNorthwestSoutheast,
        }
    }

    /// Whether dragging this handle moves the left edge of the bounds.
    pub open spec fn moves_left(self) -> bool {
        self == BoundsHandle::TopLeft || self == BoundsHandle::Left || self
            == BoundsHandle::BottomLeft
    }

    pub open spec fn moves_right(self) -> bool {
        self == BoundsHandle::TopRight || self == BoundsHandle::Right || self
            == BoundsHandle::BottomRight
    }

    pub open spec fn moves_top(self) -> bool {
        self == BoundsHandle::TopLeft || self == BoundsHandle::Top || self
            == BoundsHandle::TopRight
    }

    pub open spec fn moves_bottom(self) -> bool {
        self == BoundsHandle::BottomLeft || self == BoundsHandle::Bottom || self
            == BoundsHandle::BottomRight
    }

    /// The handle in the middle of one side of the bounds.
    pub fn for_side(side: Direction) -> (h: BoundsHandle)
        ensures
            h == Self::for_side_spec(side),
    {
        match side {
            Direction::East => BoundsHandle::Right,
            Direction::South => BoundsHandle::Bottom,
            Direction::West => BoundsHandle::Left,
            Direction::North => BoundsHandle::Top,
        }
    }

    /// Which handle a point lies on, given where it lies relative to the
    /// bounds: `in_inner` when it is inside the bounds (with their chip
    /// margin), `in_outer` when it is inside the bounds widened by the
    /// handle margin, and `west`/`east`/`north`/`south` when it lies
    /// beyond the inner rectangle's left, right, top or bottom edge.
    pub open spec fn for_zone_spec(
        in_inner: bool,
        in_outer: bool,
        west: bool,
        east: bool,
        north: bool,
        south: bool,
    ) -> Option<BoundsHandle> {
        if in_inner || !in_outer {
            None
        } else if west {
            if north {
                Some(BoundsHandle::TopLeft)
            } else if south {
                Some(BoundsHandle::BottomLeft)
            } else {
                Some(BoundsHandle::Left)
            }
        } else if east {
            if north {
                Some(BoundsHandle::TopRight)
            } else if south {
                Some(BoundsHandle::BottomRight)
            } else {
                Some(BoundsHandle::Right)
            }
        } else if north {
            Some(BoundsHandle::Top)
        } else if south {
            Some(BoundsHandle::Bottom)
        } else {
            None
        }
    }

    pub fn for_zone(
        in_inner: bool,
        in_outer: bool,
        west: bool,
        east: bool,
        north: bool,
        south: bool,
    ) -> (r: Option<BoundsHandle>)
        ensures
            r == Self::for_zone_spec(in_inner, in_outer, west, east, north, south),
    {
        if in_inner {
            return None;
        }
        if !in_outer {
            return None;
        }
        if west {
            if north {
                Some(BoundsHandle::TopLeft)
            } else if south {
                Some(BoundsHandle::BottomLeft)
            } else {
                Some(BoundsHandle::Left)
            }
        } else if east {
            if north {
                Some(BoundsHandle::TopRight)
            } else if south {
                Some(BoundsHandle::BottomRight)
            } else {
                Some(BoundsHandle::Right)
            }
        } else if north {
            Some(BoundsHandle::Top)
        } else if south {
            Some(BoundsHandle::Bottom)
        } else {
            None
        }
    }

    /// The mouse cursor shown while hovering over or dragging this handle.
    pub fn cursor(self) -> (c: Cursor)
        ensures
            c == self.cursor_spec(),
    {
        match self {
            BoundsHandle::Right | BoundsHandle::Left => Cursor::ResizeEastWest,
            BoundsHandle::Top | BoundsHandle::Bottom => Cursor::ResizeNorthSouth,
            BoundsHandle::TopRight | BoundsHandle::BottomLeft => Cursor::ResizeNortheastSouthwest,
            BoundsHandle::TopLeft | BoundsHandle::BottomRight => Cursor::ResizeNorthwestSoutheast,
        }
    }
}

pub open spec fn min_int(a: int, b: int) -> int {
    if a <= b {
        a
    } else {
        b
    }
}

pub open spec fn max_int(a: int, b: int) -> int {
    if a >= b {
        a
    } else {
        b
    }
}

/// The bounds after dragging `handle` by `delta` grid cells from `old`:
/// each edge the handle moves follows the drag, but never so far that the
/// bounds become narrower than `min_width` or shorter than `min_height`;
/// the other edges stay.
pub open spec fn resized_bounds_spec(
    handle: BoundsHandle,
    old: CoordsRect,
    min_width: int,
    min_height: int,
    delta: Coords,
) -> CoordsRect {
    let left0 = old.x as int;
    let right0 = old.x + old.width;
    let top0 = old.y as int;
    let bottom0 = old.y + old.height;
    let left = if handle.moves_left() {
        min_int(left0 + delta.x, right0 - min_width)
    } else {
        left0
    };
    let right = if handle.moves_right() {
        max_int(right0 + delta.x, left0 + min_width)
    } else {
        right0
    };
    let top = if handle.moves_top() {
        min_int(top0 + delta.y, bottom0 - min_height)
    } else {
        top0
    };
    let bottom = if handle.moves_bottom() {
        max_int(bottom0 + delta.y, top0 + min_height)
    } else {
        bottom0
    };
    CoordsRect {
        x: left as i32,
        y: top as i32,
        width: (right - left) as i32,
        height: (bottom - top) as i32,
    }
}

/// Inputs for which every intermediate value of a resize fits in `i32`.
pub open spec fn resize_inputs_ok(old: CoordsRect, min_width: int, min_height: int, delta: Coords) -> bool {
    &&& old.is_small()
    &&& 0 <= min_width <= COORD_LIMIT
    &&& 0 <= min_height <= COORD_LIMIT
    &&& delta.is_small()
}

pub fn resized_bounds(
    handle: BoundsHandle,
    old: CoordsRect,
    min_width: i32,
    min_height: i32,
    delta: Coords,
) -> (r: CoordsRect)
    requires
        resize_inputs_ok(old, min_width as int, min_height as int, delta),
    ensures
        r == resized_bounds_spec(handle, old, min_width as int, min_height as int, delta),
{
    let mut left = old.x;
    let mut right = old.x + old.width;
    match handle {
        BoundsHandle::TopLeft | BoundsHandle::Left | BoundsHandle::BottomLeft => {
            let moved = left + delta.x;
            let limit = right - min_width;
            left = if moved <= limit {
                moved
            } else {
                limit
            };
        },
        BoundsHandle::TopRight | BoundsHandle::Right | BoundsHandle::BottomRight => {
            let moved = right + delta.x;
            let limit = left + min_width;
            right = if moved >= limit {
                moved
            } else {
                limit
            };
        },
        BoundsHandle::Top | BoundsHandle::Bottom => {},
    }
    let mut top = old.y;
    let mut bottom = old.y + old.height;
    match handle {
        BoundsHandle::TopLeft | BoundsHandle::Top | BoundsHandle::TopRight => {
            let moved = top + delta.y;
            let limit = bottom - min_height;
            top = if moved <= limit {
                moved
            } else {
                limit
            };
        },
        BoundsHandle::BottomLeft | BoundsHandle::Bottom | BoundsHandle::BottomRight => {
            let moved = bottom + delta.y;
            let limit = top + min_height;
            bottom = if moved >= limit {
                moved
            } else {
                limit
            };
        },
        BoundsHandle::Left | BoundsHandle::Right => {},
    }
    CoordsRect::new(left, top, right - left, bottom - top)
}

/// Each edge that a handle drags follows the drag along its own axis (the
/// left and right edges by `delta.x`, the top and bottom edges by
/// `delta.y`), stopping where the bounds would get narrower than
/// `min_width` or shorter than `min_height`; the opposite edge stays, and
/// an axis that the handle does not drag keeps its extent.
pub proof fn lemma_dragged_edges_follow(
    handle: BoundsHandle,
    old: CoordsRect,
    min_width: int,
    min_height: int,
    delta: Coords,
)
    requires
        resize_inputs_ok(old, min_width, min_height, delta),
    ensures
        ({
            let r = resized_bounds_spec(handle, old, min_width, min_height, delta);
            &&& (handle == BoundsHandle::Right || handle == BoundsHandle::TopRight || handle
                == BoundsHandle::BottomRight) ==> {
                &&& r.x == old.x
                &&& r.width == (if old.width + delta.x >= min_width {
                    old.width + delta.x
                } else {
                    min_width
                })
            }
            &&& (handle == BoundsHandle::Left || handle == BoundsHandle::TopLeft || handle
                == BoundsHandle::BottomLeft) ==> {
                &&& r.x + r.width == old.x + old.width
                &&& r.x == (if old.width - delta.x >= min_width {
                    old.x + delta.x
                } else {
                    old.x + old.width - min_width
                })
            }
            &&& (handle == BoundsHandle::Bottom || handle == BoundsHandle::BottomLeft || handle
                == BoundsHandle::BottomRight) ==> {
                &&& r.y == old.y
                &&& r.height == (if old.height + delta.y >= min_height {
                    old.height + delta.y
                } else {
                    min_height
                })
            }
            &&& (handle == BoundsHandle::Top || handle == BoundsHandle::TopLeft || handle
                == BoundsHandle::TopRight) ==> {
                &&& r.y + r.height == old.y + old.height
                &&& r.y == (if old.height - delta.y >= min_height {
                    old.y + delta.y
                } else {
                    old.y + old.height - min_height
                })
            }
            &&& (handle == BoundsHandle::Top || handle == BoundsHandle::Bottom) ==> r.x == old.x
                && r.width == old.width
            &&& (handle == BoundsHandle::Left || handle == BoundsHandle::Right) ==> r.y == old.y
                && r.height == old.height
        }),
{
}

/// Resizing never makes the bounds smaller than the minimum size along a
/// dimension that the handle drags (when they were at least that size to
/// begin with, along the other), and leaves every edge that the handle
/// does not drag where it was.
pub proof fn lemma_resize_respects_min_size(
    handle: BoundsHandle,
    old: CoordsRect,
    min_width: int,
    min_height: int,
    delta: Coords,
)
    requires
        resize_inputs_ok(old, min_width, min_height, delta),
    ensures
        ({
            let r = resized_bounds_spec(handle, old, min_width, min_height, delta);
            &&& (handle.moves_left() || handle.moves_right()) ==> r.width >= min_width
            &&& (handle.moves_top() || handle.moves_bottom()) ==> r.height >= min_height
            &&& !handle.moves_left() ==> r.x == old.x
            &&& !handle.moves_right() ==> r.x + r.width == old.x + old.width
            &&& !handle.moves_top() ==> r.y == old.y
            &&& !handle.moves_bottom() ==> r.y + r.height == old.y + old.height
        }),
{
}

/// Dragging a handle by nothing leaves bounds that already have the
/// minimum size as they were.
pub proof fn lemma_resize_by_nothing(
    handle: BoundsHandle,
    old: CoordsRect,
    min_width: int,
    min_height: int,
)
    requires
        resize_inputs_ok(old, min_width, min_height, Coords { x: 0, y: 0 }),
        old.width >= min_width,
        old.height >= min_height,
    ensures
        resized_bounds_spec(handle, old, min_width, min_height, Coords { x: 0, y: 0 }) == old,
{
}

/// A drag of one of the bounds handles, from the moment the mouse goes
/// down on it until it is released.
#[derive(Clone, Copy, Debug)]
pub struct BoundsDrag {
    min_width: i32,
    min_height: i32,
    handle: BoundsHandle,
    bounds: CoordsRect,
    acceptable: bool,
}

impl BoundsDrag {
    pub closed spec fn min_width_spec(self) -> int {
        self.min_width as int
    }

    pub closed spec fn min_height_spec(self) -> int {
        self.min_height as int
    }

    pub closed spec fn handle_spec(self) -> BoundsHandle {
        self.handle
    }

    /// The bounds that the drag currently proposes.
    pub closed spec fn bounds_spec(self) -> CoordsRect {
        self.bounds
    }

    /// Whether the grid can take the proposed bounds.
    pub closed spec fn acceptable_spec(self) -> bool {
        self.acceptable
    }

    pub open spec fn wf(self) -> bool {
        &&& 0 <= self.min_width_spec() <= COORD_LIMIT
        &&& 0 <= self.min_height_spec() <= COORD_LIMIT
    }

    /// Starts a drag of `handle` on a grid whose bounds are `grid_bounds`
    /// and whose contents need at least `min_width` by `min_height` cells.
    pub fn new(handle: BoundsHandle, grid_bounds: CoordsRect, min_width: i32, min_height: i32) -> (d:
        BoundsDrag)
        requires
            0 <= min_width <= COORD_LIMIT,
            0 <= min_height <= COORD_LIMIT,
        ensures
            d.wf(),
            d.handle_spec() == handle,
            d.bounds_spec() == grid_bounds,
            d.min_width_spec() == min_width,
            d.min_height_spec() == min_height,
            d.acceptable_spec(),
    {
        BoundsDrag { min_width, min_height, handle, bounds: grid_bounds, acceptable: true }
    }

    pub fn bounds(&self) -> (r: CoordsRect)
        ensures
            r == self.bounds_spec(),
    {
        self.bounds
    }

    pub fn is_acceptable(&self) -> (b: bool)
        ensures
            b == self.acceptable_spec(),
    {
        self.acceptable
    }

    /// The cursor to show during the drag.
    pub fn cursor(&self) -> (c: Cursor)
        ensures
            c == self.handle_spec().cursor_spec(),
    {
        self.handle.cursor()
    }

    /// The mouse has moved `delta` grid cells (rounded) from where the drag
    /// started, on a grid whose bounds are `grid_bounds`.  The proposed
    /// bounds become the resized grid bounds; returns whether they changed,
    /// in which case the caller asks the grid whether it can take them and
    /// passes the answer to `set_acceptable`.
    pub fn move_to(&mut self, delta: Coords, grid_bounds: CoordsRect) -> (changed: bool)
        requires
            old(self).wf(),
            resize_inputs_ok(
                grid_bounds,
                old(self).min_width_spec(),
                old(self).min_height_spec(),
                delta,
            ),
        ensures
            final(self).wf(),
            final(self).bounds_spec() == resized_bounds_spec(
                old(self).handle_spec(),
                grid_bounds,
                old(self).min_width_spec(),
                old(self).min_height_spec(),
                delta,
            ),
            changed == (final(self).bounds_spec() != old(self).bounds_spec()),
            final(self).acceptable_spec() == old(self).acceptable_spec(),
            final(self).handle_spec() == old(self).handle_spec(),
            final(self).min_width_spec() == old(self).min_width_spec(),
            final(self).min_height_spec() == old(self).min_height_spec(),
    {
        let new_bounds = resized_bounds(
            self.handle,
            grid_bounds,
            self.min_width,
            self.min_height,
            delta,
        );
        let changed = !(new_bounds.x == self.bounds.x && new_bounds.y == self.bounds.y
            && new_bounds.width == self.bounds.width && new_bounds.height == self.bounds.height);
        self.bounds = new_bounds;
        changed
    }

    /// Records whether the grid can take the proposed bounds.
    pub fn set_acceptable(&mut self, acceptable: bool)
        ensures
            final(self).acceptable_spec() == acceptable,
            final(self).bounds_spec() == old(self).bounds_spec(),
            final(self).handle_spec() == old(self).handle_spec(),
            final(self).min_width_spec() == old(self).min_width_spec(),
            final(self).min_height_spec() == old(self).min_height_spec(),
    {
        self.acceptable = acceptable;
    }

    /// The mouse was released: the change to apply to a grid whose bounds
    /// are `grid_bounds`, or `None` (with an error sound) when the grid
    /// cannot take the proposed bounds.
    pub fn finish(&self, grid_bounds: CoordsRect) -> (r: Option<GridChange>)
        ensures
            self.acceptable_spec() ==> r == Some(GridChange::SetBounds(grid_bounds, self.bounds_spec())),
            !self.acceptable_spec() ==> r is None,
    {
        if self.acceptable {
            Some(GridChange::SetBounds(grid_bounds, self.bounds))
        } else {
            None
        }
    }
}

} // verus!
