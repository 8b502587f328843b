use std::collections::HashMap;
use tachyomancer::geom::{Coords, CoordsRect, Direction};
use tachyomancer::select::{
    changes_for_cut, changes_for_paste, replace_chip_changes, ChipRef, GridChange, GridSnapshot,
    PlacedChip, Selection,
};
use tachyomancer::wires::{WireMap, WireShape};

type Wires = HashMap<(i32, i32, Direction), WireShape>;

fn wire_map(frags: &[((i32, i32), Direction, WireShape)]) -> WireMap {
    let mut map = WireMap::new();
    for &((x, y), dir, shape) in frags {
        map.insert(Coords::new(x, y), dir, shape);
    }
    map
}

fn wires_of(map: &WireMap) -> Wires {
    let mut out = HashMap::new();
    for i in 0..map.len() {
        let f = map.fragment(i);
        out.insert((f.coords.x, f.coords.y, f.dir), f.shape);
    }
    out
}

/// Applies grid changes to a plain model of a grid's wires and chips.
fn apply(wires: &mut Wires, chips: &mut Vec<PlacedChip>, changes: &[GridChange]) {
    for change in changes {
        match change {
            GridChange::RemoveChip(at, chip) => {
                let pos = chips.iter().position(|pc| pc.coords == *at && pc.chip == *chip).unwrap();
                chips.remove(pos);
            }
            GridChange::AddChip(at, chip) => chips.push(PlacedChip { coords: *at, chip: *chip }),
            GridChange::ReplaceWires(old, new) => {
                for (key, shape) in wires_of(old) {
                    assert_eq!(wires.remove(&key), Some(shape));
                }
                for (key, shape) in wires_of(new) {
                    assert!(wires.insert(key, shape).is_none());
                }
            }
            GridChange::SetBounds(_, _) => {}
        }
    }
}

fn grid(frags: &[((i32, i32), Direction, WireShape)]) -> GridSnapshot {
    GridSnapshot { chips: Vec::new(), wires: wire_map(frags) }
}

const NOT_CHIP: ChipRef = ChipRef { ctype: 1, orient: 0, width: 1, height: 1 };

#[test]
fn cut_removes_edge_stub() {
    let g = grid(&[((3, 5), Direction::East, WireShape::Stub), ((4, 5), Direction::West, WireShape::Stub)]);
    let mut wires = wires_of(&g.wires);
    let mut chips = g.chips.clone();
    assert_eq!(wires.get(&(3, 5, Direction::East)), Some(&WireShape::Stub));
    let rect = CoordsRect::new(4, 5, 1, 1);
    let (changes, selection) = changes_for_cut(&g, rect);
    assert_eq!((selection.width, selection.height), (rect.width, rect.height));
    apply(&mut wires, &mut chips, &changes);
    assert_eq!(wires.get(&(3, 5, Direction::East)), None);
}

#[test]
fn paste_splices_wires() {
    let g = grid(&[
        ((3, 5), Direction::East, WireShape::Stub),
        ((4, 5), Direction::West, WireShape::Straight),
        ((4, 5), Direction::East, WireShape::Straight),
        ((5, 5), Direction::West, WireShape::Stub),
    ]);
    let mut wires = wires_of(&g.wires);
    let mut chips = Vec::new();
    assert_eq!(wires.get(&(4, 5, Direction::East)), Some(&WireShape::Straight));
    assert_eq!(wires.get(&(5, 5, Direction::West)), Some(&WireShape::Stub));
    let selection = Selection {
        width: 2,
        height: 1,
        chips: Vec::new(),
        wires: wire_map(&[
            ((0, 0), Direction::East, WireShape::Stub),
            ((1, 0), Direction::West, WireShape::Straight),
            ((1, 0), Direction::East, WireShape::Straight),
        ]),
    };
    let changes = changes_for_paste(&g, &selection, &Vec::new(), Coords::new(4, 5));
    apply(&mut wires, &mut chips, &changes);
    assert_eq!(wires.get(&(4, 5, Direction::East)), Some(&WireShape::Straight));
    assert_eq!(wires.get(&(5, 5, Direction::West)), Some(&WireShape::Straight));
    assert_eq!(wires.get(&(5, 5, Direction::East)), Some(&WireShape::Straight));
    assert_eq!(wires.get(&(6, 5, Direction::West)), Some(&WireShape::Stub));
}

#[test]
fn pasting_a_chip_removes_stubs_not_on_port() {
    let g = grid(&[
        ((1, 1), Direction::East, WireShape::TurnLeft),
        ((1, 1), Direction::South, WireShape::TurnRight),
        ((2, 1), Direction::West, WireShape::Stub),
        ((1, 2), Direction::North, WireShape::Stub),
    ]);
    let mut wires = wires_of(&g.wires);
    let mut chips = Vec::new();
    assert_eq!(wires.get(&(1, 1, Direction::East)), Some(&WireShape::TurnLeft));
    assert_eq!(wires.get(&(1, 1, Direction::South)), Some(&WireShape::TurnRight));
    let selection = Selection {
        width: 1,
        height: 1,
        chips: vec![PlacedChip { coords: Coords::new(0, 0), chip: NOT_CHIP }],
        wires: WireMap::new(),
    };
    // The chip's ports: its input on the west side, its output on the east.
    let ports = vec![vec![(Coords::new(0, 0), Direction::West), (Coords::new(0, 0), Direction::East)]];
    let changes = changes_for_paste(&g, &selection, &ports, Coords::new(1, 1));
    apply(&mut wires, &mut chips, &changes);
    assert_eq!(wires.get(&(1, 1, Direction::East)), Some(&WireShape::Stub));
    assert_eq!(wires.get(&(1, 1, Direction::South)), None);
    assert_eq!(chips, vec![PlacedChip { coords: Coords::new(1, 1), chip: NOT_CHIP }]);
}

#[test]
fn pasting_a_wire_removes_new_stubs() {
    let g = grid(&[
        ((1, 1), Direction::East, WireShape::TurnLeft),
        ((1, 1), Direction::South, WireShape::TurnRight),
        ((2, 1), Direction::West, WireShape::Stub),
        ((1, 2), Direction::North, WireShape::Stub),
    ]);
    let mut wires = wires_of(&g.wires);
    let mut chips = Vec::new();
    assert_eq!(wires.get(&(1, 1, Direction::East)), Some(&WireShape::TurnLeft));
    assert_eq!(wires.get(&(1, 1, Direction::South)), Some(&WireShape::TurnRight));
    let selection = Selection {
        width: 1,
        height: 1,
        chips: Vec::new(),
        wires: wire_map(&[
            ((0, 0), Direction::West, WireShape::TurnRight),
            ((0, 0), Direction::South, WireShape::TurnLeft),
        ]),
    };
    let changes = changes_for_paste(&g, &selection, &Vec::new(), Coords::new(1, 1));
    apply(&mut wires, &mut chips, &changes);
    assert_eq!(wires.get(&(1, 1, Direction::South)), Some(&WireShape::TurnLeft));
    assert_eq!(wires.get(&(1, 1, Direction::East)), None);
}

#[test]
fn cut_then_paste_back_restores_chips() {
    let chip = ChipRef { ctype: 2, orient: 0, width: 2, height: 1 };
    let g = GridSnapshot {
        chips: vec![
            PlacedChip { coords: Coords::new(3, 3), chip },
            PlacedChip { coords: Coords::new(8, 8), chip },
        ],
        wires: WireMap::new(),
    };
    let rect = CoordsRect::new(2, 2, 4, 4);
    let (changes, selection) = changes_for_cut(&g, rect);
    assert_eq!(selection.chips, vec![PlacedChip { coords: Coords::new(1, 1), chip }]);
    let mut wires = Wires::new();
    let mut chips = g.chips.clone();
    apply(&mut wires, &mut chips, &changes);
    assert_eq!(chips, vec![PlacedChip { coords: Coords::new(8, 8), chip }]);
    let after_cut = GridSnapshot { chips: chips.clone(), wires: WireMap::new() };
    let ports = vec![Vec::new()];
    let paste = changes_for_paste(&after_cut, &selection, &ports, Coords::new(2, 2));
    apply(&mut wires, &mut chips, &paste);
    assert!(chips.contains(&PlacedChip { coords: Coords::new(3, 3), chip }));
    assert_eq!(chips.len(), 2);
}

#[test]
fn replacing_a_chip_swaps_it_in_place() {
    let on = ChipRef { ctype: 7, orient: 2, width: 1, height: 1 };
    let off = ChipRef { ctype: 8, orient: 2, width: 1, height: 1 };
    let at = Coords::new(2, -3);
    let mut wires = Wires::new();
    let mut chips = vec![PlacedChip { coords: Coords::new(0, 0), chip: NOT_CHIP }, PlacedChip { coords: at, chip: on }];
    let changes = replace_chip_changes(at, on, off);
    assert_eq!(changes.len(), 2);
    apply(&mut wires, &mut chips, &changes);
    assert_eq!(chips, vec![PlacedChip { coords: Coords::new(0, 0), chip: NOT_CHIP }, PlacedChip { coords: at, chip: off }]);
}
