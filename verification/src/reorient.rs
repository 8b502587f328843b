use vstd::prelude::*;
use crate::geom::{Coords, Direction, COORD_LIMIT};
use crate::manip::ManipulationAction;
use crate::wires::{fragments_map, WireFragment, WireMap, WireShape};

verus! {

/// Whether the action mirrors the selection (rather than turning it).
pub open spec fn is_mirroring(a: ManipulationAction) -> bool {
    a == ManipulationAction::FlipHorz || a == ManipulationAction::FlipVert
}

/// The action that puts a reoriented selection back.
pub open spec fn undo_spec(a: ManipulationAction) -> ManipulationAction {
    match a {
        ManipulationAction::FlipHorz => ManipulationAction::FlipHorz,
        ManipulationAction::FlipVert => ManipulationAction::FlipVert,
        ManipulationAction::RotateCcw => ManipulationAction::RotateCw,
        ManipulationAction::RotateCw => ManipulationAction::RotateCcw,
    }
}

/// The size of a `width` by `height` selection after the action: turning
/// swaps its sides.
pub open spec fn reoriented_size_spec(a: ManipulationAction, width: int, height: int) -> (int, int) {
    if is_mirroring(a) {
        (width, height)
    } else {
        (height, width)
    }
}

/// A mirrored wire turns and splits to the other side.
pub open spec fn mirror_shape(s: WireShape) -> WireShape {
    match s {
        WireShape::TurnLeft => WireShape::TurnRight,
        WireShape::TurnRight => WireShape::TurnLeft,
        WireShape::SplitLeft => WireShape::SplitRight,
        WireShape::SplitRight => WireShape::SplitLeft,
        other => other,
    }
}

pub open spec fn reorient_dir_spec(a: ManipulationAction, d: Direction) -> Direction {
    match a {
        ManipulationAction::FlipHorz => match d {
            Direction::East => Direction::West,
            Direction::West => Direction::East,
            other => other,
        },
        ManipulationAction::FlipVert => match d {
            Direction::North => Direction::South,
            Direction::South => Direction::North,
            other => other,
        },
        ManipulationAction::RotateCw => d.rotate_cw_spec(),
        ManipulationAction::RotateCcw => d.rotate_ccw_spec(),
    }
}

/// Where cell `c` of a `width` by `height` selection lands after the action.
pub open spec fn reorient_coords_spec(a: ManipulationAction, width: int, height: int, c: Coords) -> Coords {
    match a {
        ManipulationAction::FlipHorz => Coords { x: (width - 1 - c.x) as i32, y: c.y },
        ManipulationAction::FlipVert => Coords { x: c.x, y: (height - 1 - c.y) as i32 },
        ManipulationAction::RotateCw => Coords { x: (height - 1 - c.y) as i32, y: c.x },
        ManipulationAction::RotateCcw => Coords { x: c.y, y: (width - 1 - c.x) as i32 },
    }
}

/// A wire fragment of a `width` by `height` selection after the action.
pub open spec fn reorient_fragment_spec(
    a: ManipulationAction,
    width: int,
    height: int,
    f: WireFragment,
) -> WireFragment {
    WireFragment {
        coords: reorient_coords_spec(a, width, height, f.coords),
        dir: reorient_dir_spec(a, f.dir),
        shape: if is_mirroring(a) {
            mirror_shape(f.shape)
        } else {
            f.shape
        },
    }
}

/// The fragment lies in a cell of the `width` by `height` selection.
pub open spec fn fragment_inside(f: WireFragment, width: int, height: int) -> bool {
    0 <= f.coords.x < width && 0 <= f.coords.y < height
}

pub open spec fn fragments_inside(s: Seq<WireFragment>, width: int, height: int) -> bool {
    forall|i: int| 0 <= i < s.len() ==> fragment_inside(#[trigger] s[i], width, height)
}

pub open spec fn reorient_fragments_spec(
    a: ManipulationAction,
    width: int,
    height: int,
    s: Seq<WireFragment>,
) -> Seq<WireFragment> {
    s.map_values(|f: WireFragment| reorient_fragment_spec(a, width, height, f))
}

pub fn reorient_dir(a: ManipulationAction, d: Direction) -> (r: Direction)
    ensures
        r == reorient_dir_spec(a, d),
{
    match a {
        ManipulationAction::FlipHorz => match d {
            Direction::East => Direction::West,
            Direction::West => Direction::East,
            other => other,
        },
        ManipulationAction::FlipVert => match d {
            Direction::North => Direction::South,
            Direction::South => Direction::North,
            other => other,
        },
        ManipulationAction::RotateCw => d.rotate_cw(),
        ManipulationAction::RotateCcw => d.rotate_ccw(),
    }
}

/// The size of a selection after the action.
pub fn reoriented_size(a: ManipulationAction, width: i32, height: i32) -> (r: (i32, i32))
    ensures
        (r.0 as int, r.1 as int) == reoriented_size_spec(a, width as int, height as int),
{
    match a {
        ManipulationAction::FlipHorz | ManipulationAction::FlipVert => (width, height),
        ManipulationAction::RotateCcw | ManipulationAction::RotateCw => (height, width),
    }
}

/// Flips or turns the wire fragments of a `width` by `height` selection:
/// each fragment moves to where its cell lands, faces the side its side
/// turns to, and, when mirrored, turns or splits the other way.
pub fn reorient_wires(a: ManipulationAction, width: i32, height: i32, wires: &WireMap) -> (r: WireMap)
    requires
        0 <= width <= COORD_LIMIT,
        0 <= height <= COORD_LIMIT,
        wires.wf(),
        fragments_inside(wires.fragments(), width as int, height as int),
    ensures
        r.wf(),
        r.is_small(),
        r@ == fragments_map(
            reorient_fragments_spec(a, width as int, height as int, wires.fragments()),
        ),
        ({
            let (w2, h2) = reoriented_size_spec(a, width as int, height as int);
            fragments_inside(r.fragments(), w2, h2)
        }),
{
    let ghost src = wires.fragments();
    let ghost mapped = reorient_fragments_spec(a, width as int, height as int, src);
    let ghost (w2, h2) = reoriented_size_spec(a, width as int, height as int);
    let mut out = WireMap::new();
    let n = wires.len();
    let mut i: usize = 0;
    while i < n
        invariant
            n == src.len(),
            i <= n,
            src == wires.fragments(),
            mapped == reorient_fragments_spec(a, width as int, height as int, src),
            (w2, h2) == reoriented_size_spec(a, width as int, height as int),
            0 <= width <= COORD_LIMIT,
            0 <= height <= COORD_LIMIT,
            fragments_inside(src, width as int, height as int),
            out.wf(),
            out.is_small(),
            fragments_inside(out.fragments(), w2, h2),
            out@ == fragments_map(mapped.take(i as int)),
        decreases n - i,
    {
        let f = wires.fragment(i);
        assert(fragment_inside(src[i as int], width as int, height as int));
        let coords = match a {
            ManipulationAction::FlipHorz => Coords { x: width - 1 - f.coords.x, y: f.coords.y },
            ManipulationAction::FlipVert => Coords { x: f.coords.x, y: height - 1 - f.coords.y },
            ManipulationAction::RotateCw => Coords { x: height - 1 - f.coords.y, y: f.coords.x },
            ManipulationAction::RotateCcw => Coords { x: f.coords.y, y: width - 1 - f.coords.x },
        };
        let dir = reorient_dir(a, f.dir);
        let shape = match a {
            ManipulationAction::FlipHorz | ManipulationAction::FlipVert => match f.shape {
                WireShape::TurnLeft => WireShape::TurnRight,
                WireShape::TurnRight => WireShape::TurnLeft,
                WireShape::SplitLeft => WireShape::SplitRight,
                WireShape::SplitRight => WireShape::SplitLeft,
                other => other,
            },
            _ => f.shape,
        };
        let ghost nf = WireFragment { coords, dir, shape };
        assert(nf == mapped[i as int]);
        assert(fragment_inside(nf, w2, h2));
        let ghost before = out.fragments();
        out.insert(coords, dir, shape);
        proof {
            assert(mapped.take(i + 1).drop_last() =~= mapped.take(i as int));
            assert(mapped.take(i + 1).last() == nf);
            assert(fragments_inside(out.fragments(), w2, h2)) by {
                assert forall|j: int| 0 <= j < out.fragments().len() implies fragment_inside(
                    #[trigger] out.fragments()[j],
                    w2,
                    h2,
                ) by {
                    if out.fragments()[j] != nf {
                        let k = choose|k: int|
                            0 <= k < before.len() && before[k] == out.fragments()[j];
                        assert(fragment_inside(before[k], w2, h2));
                    }
                }
            }
        }
        i = i + 1;
    }
    assert(mapped.take(n as int) =~= mapped);
    out
}

/// Undoing an action puts every fragment of the selection back where it
/// was: flipping twice, or turning one way and then the other, restores
/// the selection's wires.
pub proof fn lemma_reorient_undo(
    a: ManipulationAction,
    width: int,
    height: int,
    s: Seq<WireFragment>,
)
    requires
        0 <= width <= COORD_LIMIT,
        0 <= height <= COORD_LIMIT,
        fragments_inside(s, width, height),
    ensures
        ({
            let (w2, h2) = reoriented_size_spec(a, width, height);
            &&& reorient_fragments_spec(
                undo_spec(a),
                w2,
                h2,
                reorient_fragments_spec(a, width, height, s),
            ) == s
            &&& reoriented_size_spec(undo_spec(a), w2, h2) == (width, height)
            &&& fragments_map(
                reorient_fragments_spec(
                    undo_spec(a),
                    w2,
                    h2,
                    reorient_fragments_spec(a, width, height, s),
                ),
            ) == fragments_map(s)
        }),
{
    let (w2, h2) = reoriented_size_spec(a, width, height);
    let once = reorient_fragments_spec(a, width, height, s);
    let twice = reorient_fragments_spec(undo_spec(a), w2, h2, once);
    assert forall|i: int| 0 <= i < s.len() implies #[trigger] twice[i] == s[i] by {
        let f = s[i];
        assert(fragment_inside(f, width, height));
        let g = once[i];
        assert(g == reorient_fragment_spec(a, width, height, f));
        let back = reorient_fragment_spec(undo_spec(a), w2, h2, g);
        assert(back.coords == f.coords);
        assert(back.dir == f.dir) by {
            match f.dir {
                Direction::East => {},
                Direction::South => {},
                Direction::West => {},
                Direction::North => {},
            }
        }
        assert(back.shape == f.shape) by {
            match f.shape {
                WireShape::Stub => {},
                WireShape::Straight => {},
                WireShape::TurnLeft => {},
                WireShape::TurnRight => {},
                WireShape::SplitTee => {},
                WireShape::SplitLeft => {},
                WireShape::SplitRight => {},
                WireShape::Cross => {},
            }
        }
    }
    assert(twice =~= s);
}

/// Both flips are mirror images, so each turns a left turn into a right
/// turn and a left split into a right split (and back), while the straight,
/// stub, tee and cross shapes stay; turning the selection keeps every
/// shape.  A flip keeps the cell's other coordinate, mirrors the flipped
/// one across the selection, and reverses only the directions along it.
pub proof fn lemma_flips_mirror_shapes(a: ManipulationAction, width: int, height: int, f: WireFragment)
    ensures
        ({
            let g = reorient_fragment_spec(a, width, height, f);
            &&& (a == ManipulationAction::FlipHorz || a == ManipulationAction::FlipVert) ==> {
                &&& f.shape == WireShape::TurnLeft ==> g.shape == WireShape::TurnRight
                &&& f.shape == WireShape::TurnRight ==> g.shape == WireShape::TurnLeft
                &&& f.shape == WireShape::SplitLeft ==> g.shape == WireShape::SplitRight
                &&& f.shape == WireShape::SplitRight ==> g.shape == WireShape::SplitLeft
                &&& (f.shape == WireShape::Stub || f.shape == WireShape::Straight || f.shape
                    == WireShape::SplitTee || f.shape == WireShape::Cross) ==> g.shape == f.shape
            }
            &&& (a == ManipulationAction::RotateCw || a == ManipulationAction::RotateCcw) ==> g.shape
                == f.shape
            &&& a == ManipulationAction::FlipHorz ==> {
                &&& g.coords.y == f.coords.y
                &&& g.coords.x == (width - 1 - f.coords.x) as i32
                &&& (f.dir == Direction::East <==> g.dir == Direction::West)
                &&& (f.dir == Direction::North ==> g.dir == Direction::North)
                &&& (f.dir == Direction::South ==> g.dir == Direction::South)
            }
            &&& a == ManipulationAction::FlipVert ==> {
                &&& g.coords.x == f.coords.x
                &&& g.coords.y == (height - 1 - f.coords.y) as i32
                &&& (f.dir == Direction::North <==> g.dir == Direction::South)
                &&& (f.dir == Direction::East ==> g.dir == Direction::East)
                &&& (f.dir == Direction::West ==> g.dir == Direction::West)
            }
        }),
{
}

} // verus!
