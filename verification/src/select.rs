use vstd::prelude::*;
use crate::geom::{Coords, CoordsRect, Direction, small};
use crate::wires::{keys_unique, WireFragment, WireMap, WireShape};

verus! {

pub type WireKey = (Coords, Direction);

pub type WireShapes = Map<(Coords, Direction), WireShape>;

/// A chip as the editing logic sees it: its type and orientation, carried
/// through unchanged, and the size of the rectangle it covers in that
/// orientation.
#[derive(Clone, Copy, Debug, PartialEq, Eq, Structural)]
pub struct ChipRef {
    pub ctype: u32,
    pub orient: u32,
    pub width: i32,
    pub height: i32,
}

/// A chip whose top-left cell is `coords` (absolute on a grid, or relative
/// to the top-left corner of a selection).
#[derive(Clone, Copy, Debug, PartialEq, Eq, Structural)]
pub struct PlacedChip {
    pub coords: Coords,
    pub chip: ChipRef,
}

impl PlacedChip {
    pub open spec fn rect_spec(self) -> CoordsRect {
        CoordsRect {
            x: self.coords.x,
            y: self.coords.y,
            width: self.chip.width,
            height: self.chip.height,
        }
    }

    pub open spec fn is_small(self) -> bool {
        &&& self.coords.is_small()
        &&& 0 <= self.chip.width <= crate::geom::COORD_LIMIT
        &&& 0 <= self.chip.height <= crate::geom::COORD_LIMIT
    }

    pub open spec fn shifted(self, offset: Coords) -> PlacedChip {
        PlacedChip { coords: self.coords.plus_spec(offset), chip: self.chip }
    }

    pub open spec fn unshifted(self, origin: Coords) -> PlacedChip {
        PlacedChip { coords: self.coords.minus_spec(origin), chip: self.chip }
    }

    pub fn rect(&self) -> (r: CoordsRect)
        ensures
            r == self.rect_spec(),
    {
        CoordsRect {
            x: self.coords.x,
            y: self.coords.y,
            width: self.chip.width,
            height: self.chip.height,
        }
    }
}

pub open spec fn chips_small(s: Seq<PlacedChip>) -> bool {
    forall|i: int| 0 <= i < s.len() ==> (#[trigger] s[i]).is_small()
}

/// What the cut and paste logic reads of an editing grid: its chips and its
/// wire fragments.
pub struct GridSnapshot {
    pub chips: Vec<PlacedChip>,
    pub wires: WireMap,
}

impl GridSnapshot {
    pub open spec fn wf(&self) -> bool {
        &&& self.wires.wf()
        &&& self.wires.is_small()
        &&& chips_small(self.chips@)
    }
}

/// A copied or cut part of a circuit: its size, and its chips and wire
/// fragments relative to its top-left cell.
pub struct Selection {
    pub width: i32,
    pub height: i32,
    pub chips: Vec<PlacedChip>,
    pub wires: WireMap,
}

impl Selection {
    pub open spec fn wf(&self) -> bool {
        &&& 0 <= self.width <= crate::geom::COORD_LIMIT
        &&& 0 <= self.height <= crate::geom::COORD_LIMIT
        &&& self.wires.wf()
        &&& self.wires.is_small()
        &&& chips_small(self.chips@)
    }
}

/// A change to a grid, as a list of which is applied by the grid.
pub enum GridChange {
    RemoveChip(Coords, ChipRef),
    AddChip(Coords, ChipRef),
    /// Replaces the first set of wire fragments with the second.
    ReplaceWires(WireMap, WireMap),
    /// Moves the grid's bounds from the first rectangle to the second.
    SetBounds(CoordsRect, CoordsRect),
}

/// A grid change with its wire sets taken as maps.
pub enum GridChangeSpec {
    RemoveChip(Coords, ChipRef),
    AddChip(Coords, ChipRef),
    ReplaceWires(WireShapes, WireShapes),
    SetBounds(CoordsRect, CoordsRect),
}

impl View for GridChange {
    type V = GridChangeSpec;

    open spec fn view(&self) -> GridChangeSpec {
        match self {
            GridChange::RemoveChip(c, k) => GridChangeSpec::RemoveChip(*c, *k),
            GridChange::AddChip(c, k) => GridChangeSpec::AddChip(*c, *k),
            GridChange::ReplaceWires(o, n) => GridChangeSpec::ReplaceWires(o@, n@),
            GridChange::SetBounds(o, n) => GridChangeSpec::SetBounds(*o, *n),
        }
    }
}

pub open spec fn changes_view(s: Seq<GridChange>) -> Seq<GridChangeSpec> {
    s.map_values(|c: GridChange| c@)
}

pub open spec fn is_stub_at(g: WireShapes, k: WireKey) -> bool {
    g.contains_key(k) && g[k] == WireShape::Stub
}

pub open spec fn back_key(c: Coords, d: Direction) -> WireKey {
    (c.step_spec(d), d.opposite_spec())
}

//---------------------------------------------------------------------------//
// Cutting

/// The chips of `s` that lie entirely within `r`, in order.
pub open spec fn chips_within(s: Seq<PlacedChip>, r: CoordsRect) -> Seq<PlacedChip>
    decreases s.len(),
{
    if s.len() == 0 {
        Seq::empty()
    } else {
        let t = chips_within(s.drop_last(), r);
        if r.contains_rect_spec(s.last().rect_spec()) {
            t.push(s.last())
        } else {
            t
        }
    }
}

/// What cutting `r` does with one wire fragment of the grid `g`, given the
/// selection wires, removed wires and added wires gathered so far.  A
/// fragment inside `r` goes into the selection unless it is a stub facing
/// out of `r` at a non-stub; one facing out of `r` leaves a stub behind,
/// or takes the neighboring stub with it.
pub open spec fn cut_wire_step(
    acc: (WireShapes, WireShapes, WireShapes),
    f: WireFragment,
    g: WireShapes,
    r: CoordsRect,
) -> (WireShapes, WireShapes, WireShapes) {
    let (sel, old, new) = acc;
    let c = f.coords;
    let d = f.dir;
    let rel = (c.minus_spec(r.top_left_spec()), d);
    let back = back_key(c, d);
    if !r.contains_spec(c) {
        acc
    } else if r.contains_spec(c.step_spec(d)) {
        (sel.insert(rel, f.shape), old.insert(f.key(), f.shape), new)
    } else if is_stub_at(g, back) {
        (
            sel.insert(rel, f.shape),
            old.insert(f.key(), f.shape).insert(back, WireShape::Stub),
            new,
        )
    } else if f.shape != WireShape::Stub {
        (
            sel.insert(rel, f.shape),
            old.insert(f.key(), f.shape),
            new.insert(f.key(), WireShape::Stub),
        )
    } else {
        acc
    }
}

/// The selection wires, removed wires and added wires of cutting `r`, over
/// the fragments `frags` of the grid `g`.
pub open spec fn cut_wires(frags: Seq<WireFragment>, g: WireShapes, r: CoordsRect) -> (
    WireShapes,
    WireShapes,
    WireShapes,
)
    decreases frags.len(),
{
    if frags.len() == 0 {
        (Map::empty(), Map::empty(), Map::empty())
    } else {
        cut_wire_step(cut_wires(frags.drop_last(), g, r), frags.last(), g, r)
    }
}

/// The changes that cutting `r` out of a grid makes: the removal of each
/// chip within `r`, then the replacement of the affected wires (if any).
pub open spec fn cut_changes(grid_chips: Seq<PlacedChip>, old: WireShapes, new: WireShapes, r: CoordsRect) -> Seq<
    GridChangeSpec,
> {
    let removed = chips_within(grid_chips, r).map_values(
        |pc: PlacedChip| GridChangeSpec::RemoveChip(pc.coords, pc.chip),
    );
    if old == Map::<WireKey, WireShape>::empty() {
        removed
    } else {
        removed.push(GridChangeSpec::ReplaceWires(old, new))
    }
}

/// Computes the changes that cut the rectangle `selected_rect` out of the
/// grid, and the selection that the cut takes away.
pub fn changes_for_cut(grid: &GridSnapshot, selected_rect: CoordsRect) -> (res: (
    Vec<GridChange>,
    Selection,
))
    requires
        grid.wf(),
        selected_rect.is_small(),
        small(selected_rect.x as int),
        small(selected_rect.y as int),
    ensures
        ({
            let (sel_wires, old, new) = cut_wires(
                grid.wires.fragments(),
                grid.wires@,
                selected_rect,
            );
            &&& changes_view(res.0@) == cut_changes(grid.chips@, old, new, selected_rect)
            &&& res.1.wf()
            &&& res.1.width == selected_rect.width
            &&& res.1.height == selected_rect.height
            &&& res.1.chips@ == chips_within(grid.chips@, selected_rect).map_values(
                |pc: PlacedChip| pc.unshifted(selected_rect.top_left_spec()),
            )
            &&& res.1.wires@ == sel_wires
        }),
{
    let origin = selected_rect.top_left();
    let mut changes: Vec<GridChange> = Vec::new();
    let mut chips: Vec<PlacedChip> = Vec::new();
    let mut i: usize = 0;
    while i < grid.chips.len()
        invariant
            i <= grid.chips.len(),
            grid.wf(),
            selected_rect.is_small(),
            small(selected_rect.x as int),
            small(selected_rect.y as int),
            origin == selected_rect.top_left_spec(),
            changes_view(changes@) == chips_within(grid.chips@.take(i as int), selected_rect).map_values(
                |pc: PlacedChip| GridChangeSpec::RemoveChip(pc.coords, pc.chip),
            ),
            chips@ == chips_within(grid.chips@.take(i as int), selected_rect).map_values(
                |pc: PlacedChip| pc.unshifted(origin),
            ),
            chips_small(chips@),
        decreases grid.chips.len() - i,
    {
        let pc = grid.chips[i];
        assert(grid.chips@.take(i + 1).drop_last() =~= grid.chips@.take(i as int));
        assert(grid.chips@.take(i + 1).last() == pc);
        assert(pc.is_small());
        if selected_rect.contains_rect(pc.rect()) {
            let ghost prev = changes@;
            changes.push(GridChange::RemoveChip(pc.coords, pc.chip));
            assert(changes_view(changes@) =~= changes_view(prev).push(
                GridChangeSpec::RemoveChip(pc.coords, pc.chip),
            ));
            let rel = PlacedChip { coords: pc.coords.minus(origin), chip: pc.chip };
            chips.push(rel);
            assert(changes_view(changes@) =~= chips_within(grid.chips@.take(i + 1), selected_rect).map_values(
                |pc: PlacedChip| GridChangeSpec::RemoveChip(pc.coords, pc.chip),
            ));
            assert(chips@ =~= chips_within(grid.chips@.take(i + 1), selected_rect).map_values(
                |pc: PlacedChip| pc.unshifted(origin),
            ));
        }
        i = i + 1;
    }
    assert(grid.chips@.take(grid.chips.len() as int) =~= grid.chips@);

    let mut sel_wires = WireMap::new();
    let mut old_wires = WireMap::new();
    let mut new_wires = WireMap::new();
    let ghost frags = grid.wires.fragments();
    let ghost g = grid.wires@;
    let mut j: usize = 0;
    while j < grid.wires.len()
        invariant
            j <= frags.len(),
            frags == grid.wires.fragments(),
            g == grid.wires@,
            grid.wf(),
            selected_rect.is_small(),
            small(selected_rect.x as int),
            small(selected_rect.y as int),
            origin == selected_rect.top_left_spec(),
            sel_wires.wf(),
            sel_wires.is_small(),
            old_wires.wf(),
            new_wires.wf(),
            (sel_wires@, old_wires@, new_wires@) == cut_wires(frags.take(j as int), g, selected_rect),
        decreases frags.len() - j,
    {
        let f = grid.wires.fragment(j);
        assert(frags.take(j + 1).drop_last() =~= frags.take(j as int));
        assert(frags.take(j + 1).last() == f);
        assert(f.coords.is_small());
        let c = f.coords;
        let d = f.dir;
        if selected_rect.contains_point(c) {
            let n = c.step(d);
            let rel = c.minus(origin);
            if selected_rect.contains_point(n) {
                sel_wires.insert(rel, d, f.shape);
                old_wires.insert(c, d, f.shape);
            } else {
                let back_dir = d.opposite();
                let back = grid.wires.get(n, back_dir);
                if back == Some(WireShape::Stub) {
                    sel_wires.insert(rel, d, f.shape);
                    old_wires.insert(c, d, f.shape);
                    old_wires.insert(n, back_dir, WireShape::Stub);
                } else if f.shape != WireShape::Stub {
                    sel_wires.insert(rel, d, f.shape);
                    old_wires.insert(c, d, f.shape);
                    new_wires.insert(c, d, WireShape::Stub);
                }
            }
        }
        j = j + 1;
    }
    assert(frags.take(frags.len() as int) =~= frags);
    if !old_wires.is_empty() {
        changes.push(GridChange::ReplaceWires(old_wires, new_wires));
        proof {
            let (sw, o, n) = cut_wires(frags, g, selected_rect);
            assert(changes_view(changes@) =~= cut_changes(grid.chips@, o, n, selected_rect));
        }
    }
    let selection = Selection {
        width: selected_rect.width,
        height: selected_rect.height,
        chips,
        wires: sel_wires,
    };
    (changes, selection)
}


//---------------------------------------------------------------------------//
// Pasting

/// The other fragments in a cell that belong to the same wire as a
/// fragment of shape `shape` on side `dir`, each with its own shape.
pub open spec fn wire_partners(shape: WireShape, dir: Direction) -> Seq<(Direction, WireShape)> {
    match shape {
        WireShape::Stub => seq![],
        WireShape::Straight => seq![(dir.opposite_spec(), WireShape::Straight)],
        WireShape::TurnLeft => seq![(dir.rotate_cw_spec(), WireShape::TurnRight)],
        WireShape::TurnRight => seq![(dir.rotate_ccw_spec(), WireShape::TurnLeft)],
        WireShape::SplitTee => seq![
            (dir.rotate_ccw_spec(), WireShape::SplitLeft),
            (dir.rotate_cw_spec(), WireShape::SplitRight),
        ],
        WireShape::SplitLeft => seq![
            (dir.rotate_cw_spec(), WireShape::SplitTee),
            (dir.opposite_spec(), WireShape::SplitRight),
        ],
        WireShape::SplitRight => seq![
            (dir.rotate_ccw_spec(), WireShape::SplitTee),
            (dir.opposite_spec(), WireShape::SplitLeft),
        ],
        WireShape::Cross => seq![
            (dir.rotate_ccw_spec(), WireShape::Cross),
            (dir.opposite_spec(), WireShape::Cross),
            (dir.rotate_cw_spec(), WireShape::Cross),
        ],
    }
}

/// Removing the partner fragment `p` of an overwritten wire in cell `c`:
/// unless already removed, it goes, and either the stub facing it goes too
/// or a stub takes its place.
pub open spec fn partner_step(acc: (WireShapes, WireShapes), c: Coords, p: (Direction, WireShape), g: WireShapes) -> (
    WireShapes,
    WireShapes,
) {
    let (old, new) = acc;
    let (d2, s2) = p;
    let back = back_key(c, d2);
    if old.contains_key((c, d2)) {
        acc
    } else if is_stub_at(g, back) {
        (old.insert((c, d2), s2).insert(back, WireShape::Stub), new)
    } else {
        (old.insert((c, d2), s2), new.insert((c, d2), WireShape::Stub))
    }
}

pub open spec fn partners_fold(acc: (WireShapes, WireShapes), c: Coords, ps: Seq<(Direction, WireShape)>, g: WireShapes) -> (
    WireShapes,
    WireShapes,
)
    decreases ps.len(),
{
    if ps.len() == 0 {
        acc
    } else {
        partner_step(partners_fold(acc, c, ps.drop_last(), g), c, ps.last(), g)
    }
}

/// Pasting one selection fragment `f` with the selection's top-left corner
/// at `top_left`.  A fragment that matches what the grid already has, or a
/// stub over an existing fragment, changes nothing.  Otherwise an existing
/// fragment there is replaced together with the rest of its wire in the
/// cell, the new fragment is added, and a stub is added across a side that
/// leads out of the pasted rectangle into empty space.
pub open spec fn paste_wire_step(
    acc: (WireShapes, WireShapes),
    f: WireFragment,
    top_left: Coords,
    paste_rect: CoordsRect,
    g: WireShapes,
) -> (WireShapes, WireShapes) {
    let c = top_left.plus_spec(f.coords);
    let d = f.dir;
    let back = back_key(c, d);
    if g.contains_key((c, d)) && (g[(c, d)] == f.shape || f.shape == WireShape::Stub) {
        acc
    } else {
        let acc1 = if g.contains_key((c, d)) {
            partners_fold((acc.0.insert((c, d), g[(c, d)]), acc.1), c, wire_partners(g[(c, d)], d), g)
        } else {
            acc
        };
        let new2 = acc1.1.insert((c, d), f.shape);
        if !paste_rect.contains_spec(c.step_spec(d)) && !g.contains_key(back) {
            (acc1.0, new2.insert(back, WireShape::Stub))
        } else {
            (acc1.0, new2)
        }
    }
}

pub open spec fn paste_wires(
    frags: Seq<WireFragment>,
    top_left: Coords,
    paste_rect: CoordsRect,
    g: WireShapes,
) -> (WireShapes, WireShapes)
    decreases frags.len(),
{
    if frags.len() == 0 {
        (Map::empty(), Map::empty())
    } else {
        paste_wire_step(paste_wires(frags.drop_last(), top_left, paste_rect, g), frags.last(), top_left, paste_rect, g)
    }
}

/// Whether a chip placed at `at`, with ports `ports` relative to its
/// top-left cell, has a port at side `d` of cell `c`.
pub open spec fn has_port(ports: Seq<(Coords, Direction)>, at: Coords, c: Coords, d: Direction) -> bool {
    exists|i: int| 0 <= i < ports.len() && at.plus_spec(ports[i].0) == c && ports[i].1 == d
}

/// What placing a chip over the cells `rect` does with one existing grid
/// fragment `f`: fragments inside the chip's rectangle go; one leading out
/// of it goes too unless it is a stub, and is replaced by a stub if it sits
/// at a port or faces something other than a stub (else the stub facing it
/// goes as well).
pub open spec fn chip_fragment_step(
    acc: (WireShapes, WireShapes),
    f: WireFragment,
    rect: CoordsRect,
    ports: Seq<(Coords, Direction)>,
    g: WireShapes,
) -> (WireShapes, WireShapes) {
    let (old, new) = acc;
    let c = f.coords;
    let d = f.dir;
    let back = back_key(c, d);
    if !rect.contains_spec(c) {
        acc
    } else if rect.contains_spec(c.step_spec(d)) {
        (old.insert(f.key(), f.shape), new)
    } else if f.shape != WireShape::Stub {
        if !has_port(ports, rect.top_left_spec(), c, d) && is_stub_at(g, back) {
            (old.insert(f.key(), f.shape).insert(back, WireShape::Stub), new)
        } else {
            (old.insert(f.key(), f.shape), new.insert(f.key(), WireShape::Stub))
        }
    } else {
        acc
    }
}

pub open spec fn chip_fragments_fold(
    acc: (WireShapes, WireShapes),
    frags: Seq<WireFragment>,
    rect: CoordsRect,
    ports: Seq<(Coords, Direction)>,
    g: WireShapes,
) -> (WireShapes, WireShapes)
    decreases frags.len(),
{
    if frags.len() == 0 {
        acc
    } else {
        chip_fragment_step(chip_fragments_fold(acc, frags.drop_last(), rect, ports, g), frags.last(), rect, ports, g)
    }
}

/// The rectangle a selection chip covers once pasted at `top_left`.
pub open spec fn pasted_rect(pc: PlacedChip, top_left: Coords) -> CoordsRect {
    pc.shifted(top_left).rect_spec()
}

pub open spec fn paste_chips(
    acc: (WireShapes, WireShapes),
    chips: Seq<PlacedChip>,
    ports: Seq<Vec<(Coords, Direction)>>,
    top_left: Coords,
    frags: Seq<WireFragment>,
    g: WireShapes,
) -> (WireShapes, WireShapes)
    decreases chips.len(),
{
    if chips.len() == 0 {
        acc
    } else {
        let k = (chips.len() - 1) as int;
        chip_fragments_fold(
            paste_chips(acc, chips.drop_last(), ports, top_left, frags, g),
            frags,
            pasted_rect(chips[k], top_left),
            ports[k]@,
            g,
        )
    }
}

/// The wires that pasting removes and adds.
pub open spec fn paste_wire_changes(
    sel: Seq<WireFragment>,
    chips: Seq<PlacedChip>,
    ports: Seq<Vec<(Coords, Direction)>>,
    top_left: Coords,
    paste_rect: CoordsRect,
    frags: Seq<WireFragment>,
    g: WireShapes,
) -> (WireShapes, WireShapes) {
    paste_chips(paste_wires(sel, top_left, paste_rect, g), chips, ports, top_left, frags, g)
}

/// The changes that pasting makes: the replacement of the affected wires
/// (if any), then the addition of each selection chip at its place.
pub open spec fn paste_changes(old: WireShapes, new: WireShapes, chips: Seq<PlacedChip>, top_left: Coords) -> Seq<
    GridChangeSpec,
> {
    let added = chips.map_values(
        |pc: PlacedChip| GridChangeSpec::AddChip(pc.coords.plus_spec(top_left), pc.chip),
    );
    if old == Map::<WireKey, WireShape>::empty() && new == Map::<WireKey, WireShape>::empty() {
        added
    } else {
        seq![GridChangeSpec::ReplaceWires(old, new)] + added
    }
}

fn add_partners(
    removed: &mut WireMap,
    added: &mut WireMap,
    grid: &GridSnapshot,
    c: Coords,
    ps: &Vec<(Direction, WireShape)>,
)
    requires
        grid.wf(),
        old(removed).wf(),
        old(added).wf(),
        c.is_medium(),
    ensures
        final(removed).wf(),
        final(added).wf(),
        (final(removed)@, final(added)@) == partners_fold((old(removed)@, old(added)@), c, ps@, grid.wires@),
{
    let mut i: usize = 0;
    while i < ps.len()
        invariant
            i <= ps.len(),
            grid.wf(),
            c.is_medium(),
            removed.wf(),
            added.wf(),
            (removed@, added@) == partners_fold((old(removed)@, old(added)@), c, ps@.take(i as int), grid.wires@),
        decreases ps.len() - i,
    {
        assert(ps@.take(i + 1).drop_last() =~= ps@.take(i as int));
        let (d2, s2) = ps[i];
        if !removed.contains_key(c, d2) {
            let n = c.step(d2);
            let back_dir = d2.opposite();
            if grid.wires.get(n, back_dir) == Some(WireShape::Stub) {
                removed.insert(c, d2, s2);
                removed.insert(n, back_dir, WireShape::Stub);
            } else {
                removed.insert(c, d2, s2);
                added.insert(c, d2, WireShape::Stub);
            }
        }
        i = i + 1;
    }
    assert(ps@.take(ps.len() as int) =~= ps@);
}

fn partners_of(shape: WireShape, dir: Direction) -> (ps: Vec<(Direction, WireShape)>)
    ensures
        ps@ == wire_partners(shape, dir),
{
    let ps = match shape {
        WireShape::Stub => vec![],
        WireShape::Straight => vec![(dir.opposite(), WireShape::Straight)],
        WireShape::TurnLeft => vec![(dir.rotate_cw(), WireShape::TurnRight)],
        WireShape::TurnRight => vec![(dir.rotate_ccw(), WireShape::TurnLeft)],
        WireShape::SplitTee => vec![
            (dir.rotate_ccw(), WireShape::SplitLeft),
            (dir.rotate_cw(), WireShape::SplitRight),
        ],
        WireShape::SplitLeft => vec![
            (dir.rotate_cw(), WireShape::SplitTee),
            (dir.opposite(), WireShape::SplitRight),
        ],
        WireShape::SplitRight => vec![
            (dir.rotate_ccw(), WireShape::SplitTee),
            (dir.opposite(), WireShape::SplitLeft),
        ],
        WireShape::Cross => vec![
            (dir.rotate_ccw(), WireShape::Cross),
            (dir.opposite(), WireShape::Cross),
            (dir.rotate_cw(), WireShape::Cross),
        ],
    };
    assert(ps@ =~= wire_partners(shape, dir));
    ps
}

fn port_at(ports: &Vec<(Coords, Direction)>, at: Coords, c: Coords, d: Direction) -> (b: bool)
    requires
        at.is_medium(),
        forall|i: int| 0 <= i < ports@.len() ==> (#[trigger] ports@[i]).0.is_small(),
    ensures
        b == has_port(ports@, at, c, d),
{
    let mut i: usize = 0;
    while i < ports.len()
        invariant
            i <= ports.len(),
            at.is_medium(),
            forall|j: int| 0 <= j < ports@.len() ==> (#[trigger] ports@[j]).0.is_small(),
            forall|j: int| 0 <= j < i ==> !(at.plus_spec(ports@[j].0) == c && ports@[j].1 == d),
        decreases ports.len() - i,
    {
        let (pc, pd) = ports[i];
        assert(ports@[i as int].0.is_small());
        let x = at.x as i64 + pc.x as i64;
        let y = at.y as i64 + pc.y as i64;
        if x == c.x as i64 && y == c.y as i64 && pd == d {
            assert(at.plus_spec(ports@[i as int].0) == c);
            return true;
        }
        i = i + 1;
    }
    false
}

/// Computes the changes that paste `selection` into the grid with its
/// top-left corner at `top_left`.  `ports[i]` lists the ports of the
/// selection's `i`-th chip, relative to that chip's top-left cell.
pub fn changes_for_paste(
    grid: &GridSnapshot,
    selection: &Selection,
    ports: &Vec<Vec<(Coords, Direction)>>,
    top_left: Coords,
) -> (changes: Vec<GridChange>)
    requires
        grid.wf(),
        selection.wf(),
        top_left.is_small(),
        ports@.len() == selection.chips@.len(),
        forall|i: int, j: int|
            0 <= i < ports@.len() && 0 <= j < ports@[i]@.len() ==> (#[trigger] ports@[i]@[j]).0.is_small(),
    ensures
        ({
            let paste_rect = CoordsRect {
                x: top_left.x,
                y: top_left.y,
                width: selection.width,
                height: selection.height,
            };
            let (old, new) = paste_wire_changes(
                selection.wires.fragments(),
                selection.chips@,
                ports@,
                top_left,
                paste_rect,
                grid.wires.fragments(),
                grid.wires@,
            );
            changes_view(changes@) == paste_changes(old, new, selection.chips@, top_left)
        }),
{
    let paste_rect = CoordsRect::new(top_left.x, top_left.y, selection.width, selection.height);
    let ghost g = grid.wires@;
    let ghost sel = selection.wires.fragments();
    let mut old_wires = WireMap::new();
    let mut new_wires = WireMap::new();
    let mut i: usize = 0;
    while i < selection.wires.len()
        invariant
            i <= sel.len(),
            sel == selection.wires.fragments(),
            g == grid.wires@,
            grid.wf(),
            selection.wf(),
            top_left.is_small(),
            paste_rect == (CoordsRect {
                x: top_left.x,
                y: top_left.y,
                width: selection.width,
                height: selection.height,
            }),
            old_wires.wf(),
            new_wires.wf(),
            (old_wires@, new_wires@) == paste_wires(sel.take(i as int), top_left, paste_rect, g),
        decreases sel.len() - i,
    {
        let f = selection.wires.fragment(i);
        assert(sel.take(i + 1).drop_last() =~= sel.take(i as int));
        assert(sel.take(i + 1).last() == f);
        assert(f.coords.is_small());
        let c = top_left.plus(f.coords);
        let d = f.dir;
        let existing = grid.wires.get(c, d);
        let skip = match existing {
            Some(old_shape) => old_shape == f.shape || f.shape == WireShape::Stub,
            None => false,
        };
        if !skip {
            if let Some(old_shape) = existing {
                old_wires.insert(c, d, old_shape);
                let ps = partners_of(old_shape, d);
                add_partners(&mut old_wires, &mut new_wires, grid, c, &ps);
            }
            new_wires.insert(c, d, f.shape);
            let n = c.step(d);
            let back_dir = d.opposite();
            if !paste_rect.contains_point(n) && !grid.wires.contains_key(n, back_dir) {
                new_wires.insert(n, back_dir, WireShape::Stub);
            }
        }
        i = i + 1;
    }
    assert(sel.take(sel.len() as int) =~= sel);
    let ghost after_wires = (old_wires@, new_wires@);

    let ghost frags = grid.wires.fragments();
    let mut k: usize = 0;
    while k < selection.chips.len()
        invariant
            k <= selection.chips@.len(),
            frags == grid.wires.fragments(),
            g == grid.wires@,
            grid.wf(),
            selection.wf(),
            top_left.is_small(),
            ports@.len() == selection.chips@.len(),
            forall|a: int, b: int|
                0 <= a < ports@.len() && 0 <= b < ports@[a]@.len() ==> (#[trigger] ports@[a]@[b]).0.is_small(),
            old_wires.wf(),
            new_wires.wf(),
            (old_wires@, new_wires@) == paste_chips(
                after_wires,
                selection.chips@.take(k as int),
                ports@,
                top_left,
                frags,
                g,
            ),
        decreases selection.chips@.len() - k,
    {
        let pc = selection.chips[k];
        assert(selection.chips@.take(k + 1).drop_last() =~= selection.chips@.take(k as int));
        assert(selection.chips@.take(k + 1)[k as int] == pc);
        assert(pc.is_small());
        let at = top_left.plus(pc.coords);
        let rect = CoordsRect::new(at.x, at.y, pc.chip.width, pc.chip.height);
        assert(rect == pasted_rect(pc, top_left));
        let chip_ports = &ports[k];
        assert(forall|b: int| 0 <= b < chip_ports@.len() ==> (#[trigger] chip_ports@[b]).0.is_small()) by {
            assert forall|b: int| 0 <= b < chip_ports@.len() implies (#[trigger] chip_ports@[b]).0.is_small() by {
                assert(ports@[k as int]@[b] == chip_ports@[b]);
            }
        }
        let ghost before = (old_wires@, new_wires@);
        let mut j: usize = 0;
        while j < grid.wires.len()
            invariant
                j <= frags.len(),
                frags == grid.wires.fragments(),
                g == grid.wires@,
                grid.wf(),
                rect.is_small(),
                rect.top_left_spec() == at,
                at.is_medium(),
                forall|b: int| 0 <= b < chip_ports@.len() ==> (#[trigger] chip_ports@[b]).0.is_small(),
                old_wires.wf(),
                new_wires.wf(),
                (old_wires@, new_wires@) == chip_fragments_fold(before, frags.take(j as int), rect, chip_ports@, g),
            decreases frags.len() - j,
        {
            let f = grid.wires.fragment(j);
            assert(frags.take(j + 1).drop_last() =~= frags.take(j as int));
            assert(frags.take(j + 1).last() == f);
            assert(f.coords.is_small());
            let c = f.coords;
            let d = f.dir;
            if rect.contains_point(c) {
                let n = c.step(d);
                if rect.contains_point(n) {
                    old_wires.insert(c, d, f.shape);
                } else if f.shape != WireShape::Stub {
                    let back_dir = d.opposite();
                    if !port_at(chip_ports, at, c, d) && grid.wires.get(n, back_dir) == Some(WireShape::Stub) {
                        old_wires.insert(c, d, f.shape);
                        old_wires.insert(n, back_dir, WireShape::Stub);
                    } else {
                        old_wires.insert(c, d, f.shape);
                        new_wires.insert(c, d, WireShape::Stub);
                    }
                }
            }
            j = j + 1;
        }
        assert(frags.take(frags.len() as int) =~= frags);
        k = k + 1;
    }
    assert(selection.chips@.take(selection.chips@.len() as int) =~= selection.chips@);

    let mut changes: Vec<GridChange> = Vec::new();
    let replace = !old_wires.is_empty() || !new_wires.is_empty();
    if replace {
        changes.push(GridChange::ReplaceWires(old_wires, new_wires));
    }
    let ghost head = changes_view(changes@);
    let mut m: usize = 0;
    while m < selection.chips.len()
        invariant
            m <= selection.chips@.len(),
            top_left.is_small(),
            selection.wf(),
            changes_view(changes@) == head + selection.chips@.take(m as int).map_values(
                |pc: PlacedChip| GridChangeSpec::AddChip(pc.coords.plus_spec(top_left), pc.chip),
            ),
        decreases selection.chips@.len() - m,
    {
        let pc = selection.chips[m];
        assert(pc.is_small());
        let ghost prev = changes@;
        let at = pc.coords.plus(top_left);
        changes.push(GridChange::AddChip(at, pc.chip));
        assert(changes_view(changes@) =~= changes_view(prev).push(GridChangeSpec::AddChip(at, pc.chip)));
        assert(selection.chips@.take(m + 1).map_values(
            |pc: PlacedChip| GridChangeSpec::AddChip(pc.coords.plus_spec(top_left), pc.chip),
        ) =~= selection.chips@.take(m as int).map_values(
            |pc: PlacedChip| GridChangeSpec::AddChip(pc.coords.plus_spec(top_left), pc.chip),
        ).push(GridChangeSpec::AddChip(at, pc.chip)));
        m = m + 1;
    }
    assert(selection.chips@.take(selection.chips@.len() as int) =~= selection.chips@);
    changes
}


//---------------------------------------------------------------------------//
// Laws

/// Every wire fragment that a cut puts into the selection is removed from
/// the grid: at its place on the grid, the removed wires hold the same
/// shape.
pub proof fn lemma_cut_removes_selected_wires(frags: Seq<WireFragment>, g: WireShapes, r: CoordsRect)
    requires
        r.is_small(),
        small(r.x as int),
        small(r.y as int),
    ensures
        ({
            let (sel, old, new) = cut_wires(frags, g, r);
            forall|k: WireKey| #[trigger]
                sel.contains_key(k) ==> old.contains_key((k.0.plus_spec(r.top_left_spec()), k.1))
                    && old[(k.0.plus_spec(r.top_left_spec()), k.1)] == sel[k]
        }),
    decreases frags.len(),
{
    if frags.len() > 0 {
        let t = frags.drop_last();
        lemma_cut_removes_selected_wires(t, g, r);
        lemma_cut_selection_inside(t, g, r);
        let (sel0, old0, new0) = cut_wires(t, g, r);
        let (sel, old, new) = cut_wires(frags, g, r);
        let f = frags.last();
        let o = r.top_left_spec();
        let c = f.coords;
        if r.contains_spec(c) {
            let rel = (c.minus_spec(o), f.dir);
            assert(rel.0.plus_spec(o) == c);
            assert forall|k: WireKey| #[trigger] sel.contains_key(k) implies old.contains_key(
                (k.0.plus_spec(o), k.1),
            ) && old[(k.0.plus_spec(o), k.1)] == sel[k] by {
                if k != rel {
                    assert(sel0.contains_key(k));
                    let kk = (k.0.plus_spec(o), k.1);
                    assert(r.contains_spec(kk.0));
                    assert(kk.0.minus_spec(o) == k.0);
                    assert(kk != f.key());
                    if !r.contains_spec(c.step_spec(f.dir)) {
                        assert(kk != back_key(c, f.dir));
                    }
                    assert(old0.contains_key(kk));
                }
            }
        }
    }
}

/// The cut adds wires only at the places of the grid's own fragments.
proof fn lemma_cut_new_keys(frags: Seq<WireFragment>, g: WireShapes, r: CoordsRect)
    ensures
        forall|k: WireKey| #[trigger]
            cut_wires(frags, g, r).2.contains_key(k) ==> exists|j: int|
                0 <= j < frags.len() && frags[j].key() == k,
    decreases frags.len(),
{
    if frags.len() > 0 {
        let t = frags.drop_last();
        lemma_cut_new_keys(t, g, r);
        assert forall|k: WireKey| #[trigger]
            cut_wires(frags, g, r).2.contains_key(k) implies exists|j: int|
            0 <= j < frags.len() && frags[j].key() == k by {
            if k == frags.last().key() {
                assert(frags[frags.len() - 1].key() == k);
            } else {
                assert(cut_wires(t, g, r).2.contains_key(k));
                let j = choose|j: int| 0 <= j < t.len() && t[j].key() == k;
                assert(frags[j] == t[j]);
            }
        }
    }
}

/// Cutting leaves no wire broken at the edge of the cut.  A wire fragment
/// inside the cut rectangle that leads out of it is removed with the
/// selection; if the fragment across the edge is a stub, that stub is
/// removed too, and otherwise (unless the fragment itself was only a stub)
/// a stub is put in its place, so that the wire outside still ends
/// properly.
pub proof fn lemma_cut_caps_wires_leaving(frags: Seq<WireFragment>, g: WireShapes, r: CoordsRect, i: int)
    requires
        r.is_small(),
        small(r.x as int),
        small(r.y as int),
        keys_unique(frags),
        0 <= i < frags.len(),
        r.contains_spec(frags[i].coords),
        !r.contains_spec(frags[i].coords.step_spec(frags[i].dir)),
    ensures
        ({
            let f = frags[i];
            let (sel, old, new) = cut_wires(frags, g, r);
            let across = (f.coords.step_spec(f.dir), f.dir.opposite_spec());
            &&& (g.contains_key(across) && g[across] == WireShape::Stub) ==> {
                &&& old.contains_key(f.key()) && old[f.key()] == f.shape
                &&& old.contains_key(across) && old[across] == WireShape::Stub
                &&& !new.contains_key(f.key())
            }
            &&& (!(g.contains_key(across) && g[across] == WireShape::Stub) && f.shape
                != WireShape::Stub) ==> {
                &&& old.contains_key(f.key()) && old[f.key()] == f.shape
                &&& new.contains_key(f.key()) && new[f.key()] == WireShape::Stub
            }
        }),
    decreases frags.len(),
{
    let f = frags[i];
    let across = (f.coords.step_spec(f.dir), f.dir.opposite_spec());
    let t = frags.drop_last();
    assert(keys_unique(t));
    if i == frags.len() - 1 {
        lemma_cut_new_keys(t, g, r);
        assert forall|j: int| 0 <= j < t.len() implies t[j].key() != f.key() by {
            assert(t[j] == frags[j]);
        }
        assert(!cut_wires(t, g, r).2.contains_key(f.key()));
        assert(back_key(f.coords, f.dir) == across);
    } else {
        assert(t[i] == f);
        lemma_cut_caps_wires_leaving(t, g, r, i);
        let h = frags.last();
        assert(h.key() != f.key());
        let hb = back_key(h.coords, h.dir);
        if r.contains_spec(h.coords) && !r.contains_spec(h.coords.step_spec(h.dir)) {
            assert(!r.contains_spec(hb.0));
            if hb == across {
                assert(h.dir == f.dir) by {
                    assert(h.dir.opposite_spec() == f.dir.opposite_spec());
                }
                assert(h.coords == f.coords);
                assert(false);
            }
        }
        assert(hb.0 != f.coords || !(r.contains_spec(h.coords) && !r.contains_spec(h.coords.step_spec(
            h.dir,
        ))));
    }
}

/// The selection keeps its fragments inside its own rectangle.
pub proof fn lemma_cut_selection_inside(frags: Seq<WireFragment>, g: WireShapes, r: CoordsRect)
    requires
        r.is_small(),
        small(r.x as int),
        small(r.y as int),
    ensures
        ({
            let (sel, old, new) = cut_wires(frags, g, r);
            forall|k: WireKey| #[trigger]
                sel.contains_key(k) ==> 0 <= k.0.x < r.width && 0 <= k.0.y < r.height
        }),
    decreases frags.len(),
{
    if frags.len() > 0 {
        let t = frags.drop_last();
        lemma_cut_selection_inside(t, g, r);
        let (sel0, old0, new0) = cut_wires(t, g, r);
        let (sel, old, new) = cut_wires(frags, g, r);
        let f = frags.last();
        let o = r.top_left_spec();
        assert forall|k: WireKey| #[trigger] sel.contains_key(k) implies 0 <= k.0.x < r.width && 0
            <= k.0.y < r.height by {
            if r.contains_spec(f.coords) && k == (f.coords.minus_spec(o), f.dir) {
            } else {
                assert(sel0.contains_key(k));
            }
        }
    }
}

/// Pasting a cut selection back with its corner where the cut rectangle's
/// was adds back exactly the chips that the cut removed, in the same order.
pub proof fn lemma_cut_paste_restores_chips(chips: Seq<PlacedChip>, r: CoordsRect)
    requires
        chips_small(chips),
        r.is_small(),
        small(r.x as int),
        small(r.y as int),
    ensures
        chips_within(chips, r).map_values(|pc: PlacedChip| pc.unshifted(r.top_left_spec())).map_values(
            |pc: PlacedChip| GridChangeSpec::AddChip(pc.coords.plus_spec(r.top_left_spec()), pc.chip),
        ) == chips_within(chips, r).map_values(
            |pc: PlacedChip| GridChangeSpec::AddChip(pc.coords, pc.chip),
        ),
{
    let w = chips_within(chips, r);
    lemma_chips_within_inside(chips, r);
    let o = r.top_left_spec();
    let lhs = w.map_values(|pc: PlacedChip| pc.unshifted(o)).map_values(
        |pc: PlacedChip| GridChangeSpec::AddChip(pc.coords.plus_spec(o), pc.chip),
    );
    let rhs = w.map_values(|pc: PlacedChip| GridChangeSpec::AddChip(pc.coords, pc.chip));
    assert forall|i: int| 0 <= i < w.len() implies lhs[i] == rhs[i] by {
        assert(r.contains_rect_spec(w[i].rect_spec()));
        assert(w[i].is_small());
        assert(w[i].coords.minus_spec(o).plus_spec(o) == w[i].coords);
    }
    assert(lhs =~= rhs);
}

proof fn lemma_chips_within_inside(chips: Seq<PlacedChip>, r: CoordsRect)
    ensures
        forall|i: int|
            0 <= i < chips_within(chips, r).len() ==> r.contains_rect_spec(
                (#[trigger] chips_within(chips, r)[i]).rect_spec(),
            ),
        chips_small(chips) ==> chips_small(chips_within(chips, r)),
    decreases chips.len(),
{
    if chips.len() > 0 {
        let t = chips.drop_last();
        lemma_chips_within_inside(t, r);
        let w0 = chips_within(t, r);
        let w = chips_within(chips, r);
        assert forall|i: int| 0 <= i < w.len() implies r.contains_rect_spec(
            (#[trigger] w[i]).rect_spec(),
        ) by {
            if i < w0.len() {
                assert(w[i] == w0[i]);
            }
        }
        if chips_small(chips) {
            assert(chips_small(t)) by {
                assert forall|i: int| 0 <= i < t.len() implies (#[trigger] t[i]).is_small() by {
                    assert(t[i] == chips[i]);
                }
            }
            assert forall|i: int| 0 <= i < w.len() implies (#[trigger] w[i]).is_small() by {
                if i < w0.len() {
                    assert(w[i] == w0[i]);
                } else {
                    assert(w[i] == chips.last());
                    assert(chips[chips.len() - 1].is_small());
                }
            }
        }
    }
}

/// Pasting wires onto a place with no wires removes nothing and adds every
/// fragment of the selection at its place, when the selection's fragments
/// lie inside its rectangle.
pub proof fn lemma_paste_onto_empty(
    frags: Seq<WireFragment>,
    top_left: Coords,
    w: i32,
    h: i32,
)
    requires
        crate::wires::keys_unique(frags),
        top_left.is_small(),
        0 <= w <= crate::geom::COORD_LIMIT,
        0 <= h <= crate::geom::COORD_LIMIT,
        forall|i: int|
            0 <= i < frags.len() ==> 0 <= (#[trigger] frags[i]).coords.x < w && 0 <= frags[i].coords.y < h,
    ensures
        ({
            let rect = CoordsRect { x: top_left.x, y: top_left.y, width: w, height: h };
            let (old, new) = paste_wires(frags, top_left, rect, Map::empty());
            &&& old == Map::<WireKey, WireShape>::empty()
            &&& forall|i: int|
                0 <= i < frags.len() ==> new.contains_key(
                    (top_left.plus_spec((#[trigger] frags[i]).coords), frags[i].dir),
                ) && new[(top_left.plus_spec(frags[i].coords), frags[i].dir)] == frags[i].shape
        }),
    decreases frags.len(),
{
    let rect = CoordsRect { x: top_left.x, y: top_left.y, width: w, height: h };
    if frags.len() > 0 {
        let t = frags.drop_last();
        assert(crate::wires::keys_unique(t));
        assert forall|i: int| 0 <= i < t.len() implies 0 <= (#[trigger] t[i]).coords.x < w && 0
            <= t[i].coords.y < h by {
            assert(t[i] == frags[i]);
        }
        lemma_paste_onto_empty(t, top_left, w, h);
        let (old0, new0) = paste_wires(t, top_left, rect, Map::empty());
        let (old, new) = paste_wires(frags, top_left, rect, Map::empty());
        let f = frags.last();
        let c = top_left.plus_spec(f.coords);
        assert(rect.contains_spec(c));
        assert forall|i: int| 0 <= i < frags.len() implies new.contains_key(
            (top_left.plus_spec((#[trigger] frags[i]).coords), frags[i].dir),
        ) && new[(top_left.plus_spec(frags[i].coords), frags[i].dir)] == frags[i].shape by {
            if i < frags.len() - 1 {
                assert(frags[i] == t[i]);
                let ci = top_left.plus_spec(frags[i].coords);
                assert(rect.contains_spec(ci));
                assert((ci, frags[i].dir) != (c, f.dir)) by {
                    if ci == c && frags[i].dir == f.dir {
                        assert(frags[i].coords == f.coords);
                        assert(frags[i].key() == frags[frags.len() - 1].key());
                    }
                }
                assert(new0.contains_key((ci, t[i].dir)));
            }
        }
        assert(old =~= Map::<WireKey, WireShape>::empty());
    }
}

/// The changes that replace the chip `old` at `coords` by `new` in one
/// step (so that one undo puts the old chip back): what flipping a break
/// or a toggle switch, or editing a button's key, a coercion's size, a
/// comment or a constant asks of the grid.
pub fn replace_chip_changes(coords: Coords, old: ChipRef, new: ChipRef) -> (v: Vec<GridChange>)
    ensures
        changes_view(v@) == seq![
            GridChangeSpec::RemoveChip(coords, old),
            GridChangeSpec::AddChip(coords, new),
        ],
{
    let v = vec![GridChange::RemoveChip(coords, old), GridChange::AddChip(coords, new)];
    assert(changes_view(v@) =~= seq![
        GridChangeSpec::RemoveChip(coords, old),
        GridChangeSpec::AddChip(coords, new),
    ]);
    v
}

} // verus!
