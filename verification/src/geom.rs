use vstd::prelude::*;

verus! {

/// Grid coordinates and offsets are kept within this magnitude, so that
/// every sum the editing logic forms stays well inside `i32`.
pub const COORD_LIMIT: i32 = 0x1000_0000;

/// A grid cell (or an offset between grid cells); `x` grows to the east and
/// `y` grows to the south.
#[derive(Clone, Copy, Debug, PartialEq, Eq, Hash, Structural)]
pub struct Coords {
    pub x: i32,
    pub y: i32,
}

/// One of the four sides of a grid cell.
#[derive(Clone, Copy, Debug, PartialEq, Eq, Hash, Structural)]
pub enum Direction {
    East,
    South,
    West,
    North,
}

/// A rectangle of grid cells: the cells `(x + i, y + j)` with
/// `0 <= i < width` and `0 <= j < height`.
#[derive(Clone, Copy, Debug, PartialEq, Eq, Structural)]
pub struct CoordsRect {
    pub x: i32,
    pub y: i32,
    pub width: i32,
    pub height: i32,
}

pub open spec fn small(v: int) -> bool {
    -COORD_LIMIT <= v <= COORD_LIMIT
}

/// Within twice the coordinate limit: a sum of two small values.
pub open spec fn medium(v: int) -> bool {
    -2 * COORD_LIMIT <= v <= 2 * COORD_LIMIT
}

impl Coords {
    pub open spec fn is_small(self) -> bool {
        small(self.x as int) && small(self.y as int)
    }

    pub open spec fn is_medium(self) -> bool {
        medium(self.x as int) && medium(self.y as int)
    }

    pub open spec fn plus_spec(self, other: Coords) -> Coords {
        Coords { x: (self.x + other.x) as i32, y: (self.y + other.y) as i32 }
    }

    pub open spec fn minus_spec(self, other: Coords) -> Coords {
        Coords { x: (self.x - other.x) as i32, y: (self.y - other.y) as i32 }
    }

    /// The neighboring cell on side `dir`.
    pub open spec fn step_spec(self, dir: Direction) -> Coords {
        self.plus_spec(dir.delta_spec())
    }

    pub fn new(x: i32, y: i32) -> (c: Coords)
        ensures
            c.x == x,
            c.y == y,
    {
        Coords { x, y }
    }

    pub fn plus(self, other: Coords) -> (c: Coords)
        requires
            self.is_small(),
            other.is_small(),
        ensures
            c == self.plus_spec(other),
            c.x == self.x + other.x,
            c.y == self.y + other.y,
    {
        Coords { x: self.x + other.x, y: self.y + other.y }
    }

    pub fn minus(self, other: Coords) -> (c: Coords)
        requires
            self.is_small(),
            other.is_small(),
        ensures
            c == self.minus_spec(other),
            c.x == self.x - other.x,
            c.y == self.y - other.y,
    {
        Coords { x: self.x - other.x, y: self.y - other.y }
    }

    /// The neighboring cell on side `dir`.
    pub fn step(self, dir: Direction) -> (c: Coords)
        requires
            self.x > i32::MIN,
            self.x < i32::MAX,
            self.y > i32::MIN,
            self.y < i32::MAX,
        ensures
            c == self.step_spec(dir),
    {
        let d = dir.delta();
        Coords { x: self.x + d.x, y: self.y + d.y }
    }
}

impl Direction {
    /// The unit offset toward this side of a cell.
    pub open spec fn delta_spec(self) -> Coords {
        match self {
            Direction::East => Coords { x: 1, y: 0 },
            Direction::South => Coords { x: 0, y: 1 },
            Direction::West => Coords { x: -1i32, y: 0 },
            Direction::North => Coords { x: 0, y: -1i32 },
        }
    }

    pub open spec fn opposite_spec(self) -> Direction {
        match self {
            Direction::East => Direction::West,
            Direction::South => Direction::North,
            Direction::West => Direction::East,
            Direction::North => Direction::South,
        }
    }

    pub open spec fn rotate_cw_spec(self) -> Direction {
        match self {
            Direction::East => Direction::South,
            Direction::South => Direction::West,
            Direction::West => Direction::North,
            Direction::North => Direction::East,
        }
    }

    pub open spec fn rotate_ccw_spec(self) -> Direction {
        match self {
            Direction::East => Direction::North,
            Direction::South => Direction::East,
            Direction::West => Direction::South,
            Direction::North => Direction::West,
        }
    }

    pub fn delta(self) -> (c: Coords)
        ensures
            c == self.delta_spec(),
    {
        match self {
            Direction::East => Coords { x: 1, y: 0 },
            Direction::South => Coords { x: 0, y: 1 },
            Direction::West => Coords { x: -1, y: 0 },
            Direction::North => Coords { x: 0, y: -1 },
        }
    }

    pub fn opposite(self) -> (d: Direction)
        ensures
            d == self.opposite_spec(),
    {
        match self {
            Direction::East => Direction::West,
            Direction::South => Direction::North,
            Direction::West => Direction::East,
            Direction::North => Direction::South,
        }
    }

    pub fn rotate_cw(self) -> (d: Direction)
        ensures
            d == self.rotate_cw_spec(),
    {
        match self {
            Direction::East => Direction::South,
            Direction::South => Direction::West,
            Direction::West => Direction::North,
            Direction::North => Direction::East,
        }
    }

    pub fn rotate_ccw(self) -> (d: Direction)
        ensures
            d == self.rotate_ccw_spec(),
    {
        match self {
            Direction::East => Direction::North,
            Direction::South => Direction::East,
            Direction::West => Direction::South,
            Direction::North => Direction::West,
        }
    }
}

impl CoordsRect {
    pub open spec fn is_small(self) -> bool {
        &&& medium(self.x as int)
        &&& medium(self.y as int)
        &&& 0 <= self.width <= COORD_LIMIT
        &&& 0 <= self.height <= COORD_LIMIT
    }

    pub open spec fn contains_spec(self, c: Coords) -> bool {
        &&& self.x <= c.x < self.x + self.width
        &&& self.y <= c.y < self.y + self.height
    }

    pub open spec fn contains_rect_spec(self, other: CoordsRect) -> bool {
        &&& self.x <= other.x
        &&& self.y <= other.y
        &&& other.x + other.width <= self.x + self.width
        &&& other.y + other.height <= self.y + self.height
    }

    pub open spec fn top_left_spec(self) -> Coords {
        Coords { x: self.x, y: self.y }
    }

    pub fn new(x: i32, y: i32, width: i32, height: i32) -> (r: CoordsRect)
        ensures
            r.x == x,
            r.y == y,
            r.width == width,
            r.height == height,
    {
        CoordsRect { x, y, width, height }
    }

    pub fn top_left(self) -> (c: Coords)
        ensures
            c == self.top_left_spec(),
    {
        Coords { x: self.x, y: self.y }
    }

    pub fn contains_point(self, c: Coords) -> (b: bool)
        ensures
            b == self.contains_spec(c),
    {
        let (x, y, w, h) = (self.x as i64, self.y as i64, self.width as i64, self.height as i64);
        x <= c.x as i64 && (c.x as i64) < x + w && y <= c.y as i64 && (c.y as i64) < y + h
    }

    pub fn contains_rect(self, other: CoordsRect) -> (b: bool)
        ensures
            b == self.contains_rect_spec(other),
    {
        let (x, y, w, h) = (self.x as i64, self.y as i64, self.width as i64, self.height as i64);
        let (ox, oy, ow, oh) = (
            other.x as i64,
            other.y as i64,
            other.width as i64,
            other.height as i64,
        );
        x <= ox && y <= oy && ox + ow <= x + w && oy + oh <= y + h
    }
}

} // verus!
