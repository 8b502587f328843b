use tachyomancer::geom::{Coords, Direction};
use tachyomancer::manip::ManipulationAction;
use tachyomancer::reorient::{reorient_dir, reorient_wires, reoriented_size};
use tachyomancer::wires::{WireMap, WireShape};

fn wire_map(frags: &[((i32, i32), Direction, WireShape)]) -> WireMap {
    let mut map = WireMap::new();
    for &((x, y), dir, shape) in frags {
        map.insert(Coords::new(x, y), dir, shape);
    }
    map
}

fn frags(map: &WireMap) -> Vec<((i32, i32), Direction, WireShape)> {
    let mut out: Vec<_> = (0..map.len())
        .map(|i| {
            let f = map.fragment(i);
            ((f.coords.x, f.coords.y), f.dir, f.shape)
        })
        .collect();
    out.sort_by_key(|&((x, y), d, _)| (x, y, d as u8));
    out
}

#[test]
fn flip_horizontally_mirrors_turns() {
    let wires = wire_map(&[((0, 0), Direction::East, WireShape::TurnLeft), ((2, 1), Direction::North, WireShape::Stub)]);
    let flipped = reorient_wires(ManipulationAction::FlipHorz, 3, 2, &wires);
    assert_eq!(
        frags(&flipped),
        vec![((0, 1), Direction::North, WireShape::Stub), ((2, 0), Direction::West, WireShape::TurnRight)]
    );
}

#[test]
fn rotate_clockwise_turns_cells_and_sides() {
    let wires = wire_map(&[((0, 0), Direction::East, WireShape::SplitLeft), ((2, 1), Direction::South, WireShape::Straight)]);
    assert_eq!(reoriented_size(ManipulationAction::RotateCw, 3, 2), (2, 3));
    let turned = reorient_wires(ManipulationAction::RotateCw, 3, 2, &wires);
    assert_eq!(
        frags(&turned),
        vec![((0, 2), Direction::West, WireShape::Straight), ((1, 0), Direction::South, WireShape::SplitLeft)]
    );
    let back = reorient_wires(ManipulationAction::RotateCcw, 2, 3, &turned);
    assert_eq!(frags(&back), frags(&wires));
}

#[test]
fn flipping_twice_restores() {
    let wires = wire_map(&[
        ((1, 0), Direction::West, WireShape::SplitRight),
        ((1, 1), Direction::North, WireShape::Cross),
    ]);
    let once = reorient_wires(ManipulationAction::FlipVert, 2, 2, &wires);
    let twice = reorient_wires(ManipulationAction::FlipVert, 2, 2, &once);
    assert_eq!(frags(&twice), frags(&wires));
    assert_eq!(reorient_dir(ManipulationAction::FlipVert, Direction::North), Direction::South);
    assert_eq!(reorient_dir(ManipulationAction::RotateCcw, Direction::North), Direction::West);
}
