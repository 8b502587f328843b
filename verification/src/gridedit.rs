use vstd::prelude::*;
use crate::geom::{Coords, CoordsRect, Direction};
use crate::circuit::InteractionKind;
use crate::bounds::BoundsHandle;
use crate::manip::ManipulationAction;
use crate::text::string_from_chars;
use crate::chipedit::comment_bytes_spec;
use crate::select::ChipRef;
use crate::wires::WireShape;

verus! {

//---------------------------------------------------------------------------//
// Rubber-band selection

pub open spec fn min_i(a: int, b: int) -> int {
    if a <= b {
        a
    } else {
        b
    }
}

pub open spec fn max_i(a: int, b: int) -> int {
    if a >= b {
        a
    } else {
        b
    }
}

pub open spec fn abs_i(a: int) -> int {
    if a >= 0 {
        a
    } else {
        -a
    }
}

/// The overlap of two rectangles; where they do not overlap, a rectangle
/// with no cells (zero width or height) at the clamped corner.
pub open spec fn intersection_spec(a: CoordsRect, b: CoordsRect) -> CoordsRect {
    let x0 = max_i(a.x as int, b.x as int);
    let y0 = max_i(a.y as int, b.y as int);
    let x1 = min_i(a.x + a.width, b.x + b.width);
    let y1 = min_i(a.y + a.height, b.y + b.height);
    CoordsRect {
        x: x0 as i32,
        y: y0 as i32,
        width: max_i(0, x1 - x0) as i32,
        height: max_i(0, y1 - y0) as i32,
    }
}

/// The rectangle spanned by two grid vertices, cut down to `bounds`.
pub open spec fn span_in_bounds(start: Coords, end: Coords, bounds: CoordsRect) -> CoordsRect {
    intersection_spec(
        CoordsRect {
            x: min_i(start.x as int, end.x as int) as i32,
            y: min_i(start.y as int, end.y as int) as i32,
            width: abs_i(start.x - end.x) as i32,
            height: abs_i(start.y - end.y) as i32,
        },
        bounds,
    )
}

pub open spec fn is_empty_spec(r: CoordsRect) -> bool {
    r.width <= 0 || r.height <= 0
}

/// Whether a rectangle has no cells.
pub fn is_empty(r: CoordsRect) -> (b: bool)
    ensures
        b == is_empty_spec(r),
{
    r.width <= 0 || r.height <= 0
}

/// The rubber band that selects a rectangle of the grid, from the vertex
/// where the mouse went down to the vertex under the mouse.
#[derive(Clone, Copy, Debug)]
pub struct SelectingDrag {
    bounds: CoordsRect,
    start: Coords,
    rect: CoordsRect,
}

impl SelectingDrag {
    pub closed spec fn bounds_spec(self) -> CoordsRect {
        self.bounds
    }

    pub closed spec fn start_spec(self) -> Coords {
        self.start
    }

    /// The rectangle currently selected.
    pub closed spec fn rect_spec(self) -> CoordsRect {
        self.rect
    }

    pub open spec fn wf(self) -> bool {
        &&& self.bounds_spec().is_small()
        &&& self.start_spec().is_small()
        &&& self.rect_spec().is_small()
    }

    /// Starts a selection at vertex `start` of a grid whose bounds are
    /// `bounds`; nothing is selected yet.
    pub fn new(bounds: CoordsRect, start: Coords) -> (d: SelectingDrag)
        requires
            bounds.is_small(),
            start.is_small(),
        ensures
            d.wf(),
            d.bounds_spec() == bounds,
            d.start_spec() == start,
            d.rect_spec() == (CoordsRect { x: start.x, y: start.y, width: 0, height: 0 }),
    {
        SelectingDrag { bounds, start, rect: CoordsRect { x: start.x, y: start.y, width: 0, height: 0 } }
    }

    pub fn selected_rect(&self) -> (r: CoordsRect)
        ensures
            r == self.rect_spec(),
    {
        self.rect
    }

    /// The mouse moved to vertex `end`: the selection becomes the rectangle
    /// between the starting vertex and `end`, within the bounds.  Returns
    /// whether the selection changed (and the view must be redrawn).
    pub fn move_to(&mut self, end: Coords) -> (changed: bool)
        requires
            old(self).wf(),
            end.is_small(),
        ensures
            final(self).wf(),
            final(self).bounds_spec() == old(self).bounds_spec(),
            final(self).start_spec() == old(self).start_spec(),
            final(self).rect_spec() == span_in_bounds(
                old(self).start_spec(),
                end,
                old(self).bounds_spec(),
            ),
            changed == (final(self).rect_spec() != old(self).rect_spec()),
    {
        let s = self.start;
        let b = self.bounds;
        let x = if s.x <= end.x { s.x } else { end.x };
        let y = if s.y <= end.y { s.y } else { end.y };
        let w = if s.x >= end.x { s.x - end.x } else { end.x - s.x };
        let h = if s.y >= end.y { s.y - end.y } else { end.y - s.y };
        let x0 = if x >= b.x { x } else { b.x };
        let y0 = if y >= b.y { y } else { b.y };
        let x1 = if x + w <= b.x + b.width { x + w } else { b.x + b.width };
        let y1 = if y + h <= b.y + b.height { y + h } else { b.y + b.height };
        let width = if x1 - x0 >= 0 { x1 - x0 } else { 0 };
        let height = if y1 - y0 >= 0 { y1 - y0 } else { 0 };
        let rect = CoordsRect { x: x0, y: y0, width, height };
        let changed = !(rect.x == self.rect.x && rect.y == self.rect.y && rect.width
            == self.rect.width && rect.height == self.rect.height);
        self.rect = rect;
        changed
    }
}

//---------------------------------------------------------------------------//
// Keys on the editing grid

/// The keys that the editing grid tells apart; every other key is `Other`.
#[derive(Clone, Copy, Debug, PartialEq, Eq, Structural)]
pub enum GridKey {
    Backspace,
    Delete,
    A,
    C,
    V,
    X,
    Z,
    Other,
}

/// A key going down, with the state of the command and shift modifiers.
#[derive(Clone, Copy, Debug, PartialEq, Eq, Structural)]
pub struct GridKeyPress {
    pub key: GridKey,
    pub command: bool,
    pub shift: bool,
}

/// What the editing grid is doing: its interaction with the mouse, and the
/// wire (by its index) that the mouse hovers over, if any.
#[derive(Clone, Copy, Debug, PartialEq, Eq, Structural)]
pub struct GridEditState {
    pub interaction: InteractionKind,
    pub hover_wire: Option<u64>,
}

/// What a key asks of the grid besides the new state.
///
/// `StartPaste`, `Redo` and `Undo` first cancel the interaction that was
/// under way (see `cancel_effect`); `Undo` then undoes the last change
/// unless cancelling already reverted one.  `PassToHotkeys` hands the key
/// to the player's hotkey table, or to the running simulation when no
/// hotkey is bound to it.
#[derive(Clone, Copy, Debug, PartialEq, Eq, Structural)]
pub enum GridKeyCommand {
    NoCommand,
    DeleteWire(u64),
    DeleteRect(CoordsRect),
    CopyRect(CoordsRect),
    CutRect(CoordsRect),
    StartPaste,
    Redo,
    Undo,
    PassToHotkeys,
}

pub open spec fn key_command_spec(
    state: GridEditState,
    key: GridKeyPress,
    can_paste: bool,
) -> GridKeyCommand {
    if key.key == GridKey::Backspace || key.key == GridKey::Delete {
        match state.interaction {
            InteractionKind::Nothing => match state.hover_wire {
                Some(w) => GridKeyCommand::DeleteWire(w),
                None => GridKeyCommand::NoCommand,
            },
            InteractionKind::RectSelected(r) => GridKeyCommand::DeleteRect(r),
            _ => GridKeyCommand::NoCommand,
        }
    } else if key.command {
        match key.key {
            GridKey::C => match state.interaction {
                InteractionKind::RectSelected(r) => GridKeyCommand::CopyRect(r),
                _ => GridKeyCommand::NoCommand,
            },
            GridKey::V => if can_paste {
                GridKeyCommand::StartPaste
            } else {
                GridKeyCommand::NoCommand
            },
            GridKey::X => match state.interaction {
                InteractionKind::RectSelected(r) => GridKeyCommand::CutRect(r),
                _ => GridKeyCommand::NoCommand,
            },
            GridKey::Z => if key.shift {
                GridKeyCommand::Redo
            } else {
                GridKeyCommand::Undo
            },
            _ => GridKeyCommand::NoCommand,
        }
    } else {
        GridKeyCommand::PassToHotkeys
    }
}

pub open spec fn key_interaction_spec(
    state: GridEditState,
    bounds: CoordsRect,
    key: GridKeyPress,
    can_paste: bool,
) -> InteractionKind {
    if key.key == GridKey::Backspace || key.key == GridKey::Delete {
        if state.interaction is RectSelected {
            InteractionKind::Nothing
        } else {
            state.interaction
        }
    } else if key.command {
        match key.key {
            GridKey::A => InteractionKind::RectSelected(bounds),
            GridKey::V => if can_paste {
                InteractionKind::DraggingSelection
            } else {
                state.interaction
            },
            GridKey::X => if state.interaction is RectSelected {
                InteractionKind::Nothing
            } else {
                state.interaction
            },
            GridKey::Z => InteractionKind::Nothing,
            _ => state.interaction,
        }
    } else {
        state.interaction
    }
}

/// A key went down over the editing grid of a circuit whose bounds are
/// `bounds`; `can_paste` tells whether the clipboard holds a selection that
/// this puzzle allows.  Returns the new state and what the grid must do.
/// Any key ends the hovering over a wire.
pub fn on_grid_key(state: GridEditState, bounds: CoordsRect, key: GridKeyPress, can_paste: bool) -> (r:
    (GridEditState, GridKeyCommand))
    ensures
        r.0.interaction == key_interaction_spec(state, bounds, key, can_paste),
        r.0.hover_wire is None,
        r.1 == key_command_spec(state, key, can_paste),
{
    let ia = state.interaction;
    let mut next = ia;
    let mut command = GridKeyCommand::NoCommand;
    match key.key {
        GridKey::Backspace | GridKey::Delete => {
            match ia {
                InteractionKind::Nothing => {
                    if let Some(w) = state.hover_wire {
                        command = GridKeyCommand::DeleteWire(w);
                    }
                },
                InteractionKind::RectSelected(r) => {
                    command = GridKeyCommand::DeleteRect(r);
                    next = InteractionKind::Nothing;
                },
                _ => {},
            }
        },
        _ => {
            if key.command {
                match key.key {
                    GridKey::A => {
                        next = InteractionKind::RectSelected(bounds);
                    },
                    GridKey::C => {
                        if let InteractionKind::RectSelected(r) = ia {
                            command = GridKeyCommand::CopyRect(r);
                        }
                    },
                    GridKey::V => {
                        if can_paste {
                            command = GridKeyCommand::StartPaste;
                            next = InteractionKind::DraggingSelection;
                        }
                    },
                    GridKey::X => {
                        if let InteractionKind::RectSelected(r) = ia {
                            command = GridKeyCommand::CutRect(r);
                            next = InteractionKind::Nothing;
                        }
                    },
                    GridKey::Z => {
                        command = if key.shift {
                            GridKeyCommand::Redo
                        } else {
                            GridKeyCommand::Undo
                        };
                        next = InteractionKind::Nothing;
                    },
                    _ => {},
                }
            } else {
                command = GridKeyCommand::PassToHotkeys;
            }
        },
    }
    (GridEditState { interaction: next, hover_wire: None }, command)
}

/// What cancelling an interaction does outside the grid's own state: a
/// dragged chip or selection is put back where it came from, a wire drag
/// is finished as it stands; the other interactions only end.
#[derive(Clone, Copy, Debug, PartialEq, Eq, Structural)]
pub enum CancelEffect {
    JustEnd,
    PutBackChip,
    PutBackSelection,
    FinishWires,
}

pub open spec fn cancel_effect_spec(kind: InteractionKind) -> CancelEffect {
    match kind {
        InteractionKind::DraggingChip => CancelEffect::PutBackChip,
        InteractionKind::DraggingSelection => CancelEffect::PutBackSelection,
        InteractionKind::DraggingWires => CancelEffect::FinishWires,
        _ => CancelEffect::JustEnd,
    }
}

/// Cancelling ends any interaction (the grid then does nothing with the
/// mouse); this says what else it must do.
pub fn cancel_effect(kind: InteractionKind) -> (e: CancelEffect)
    ensures
        e == cancel_effect_spec(kind),
{
    match kind {
        InteractionKind::DraggingChip => CancelEffect::PutBackChip,
        InteractionKind::DraggingSelection => CancelEffect::PutBackSelection,
        InteractionKind::DraggingWires => CancelEffect::FinishWires,
        _ => CancelEffect::JustEnd,
    }
}

/// Cancels the interaction `kind`: afterwards the grid does nothing with
/// the mouse, and the effect returned says what else must be done (putting
/// a dragged chip or selection back, or finishing a wire drag).
pub fn cancel_interaction(kind: InteractionKind) -> (r: (InteractionKind, CancelEffect))
    ensures
        r.0 == InteractionKind::Nothing,
        r.1 == cancel_effect_spec(kind),
{
    (InteractionKind::Nothing, cancel_effect(kind))
}

/// Whether cancelling reverted a change to the grid, given the effect that
/// was carried out and, for a dragged chip or selection, whether putting it
/// back rolled back the grid's provisional changes.  Only putting back a
/// drag can revert anything; cancelling nothing reverts nothing.
pub fn cancel_reverted(effect: CancelEffect, put_back_rolled_back: bool) -> (b: bool)
    ensures
        b == ((effect == CancelEffect::PutBackChip || effect == CancelEffect::PutBackSelection)
            && put_back_rolled_back),
{
    match effect {
        CancelEffect::PutBackChip | CancelEffect::PutBackSelection => put_back_rolled_back,
        _ => false,
    }
}

//---------------------------------------------------------------------------//
// Mouse buttons on the editing grid

/// The chip under the mouse, as a left click during a simulation sees it;
/// a screen carries the cell of the screen under the mouse, if any.
#[derive(Clone, Copy, Debug, PartialEq, Eq, Structural)]
pub enum PressableChip {
    Break,
    Button,
    Screen(Option<u32>),
    Toggle,
    Other,
}

/// A chip on the grid: where it is and what a click on it does.
#[derive(Clone, Copy, Debug, PartialEq, Eq, Structural)]
pub struct ChipAtPoint {
    pub coords: Coords,
    pub kind: PressableChip,
}

/// What lies under the mouse when the left button goes down.
///
/// `chip` is the chip at the cell under the mouse, with its coordinates,
/// and `on_chip_body` whether the point is on that chip's body;
/// `manip_click` is the selection button clicked, if any;
/// `interface_side` is the side of the circuit that the interface under
/// the point sits on, if the point is on an interface's body; `handle` is
/// the bounds handle under the point; `near_vertex` is the grid vertex
/// close enough to the point to start a rubber-band selection; and
/// `in_wire_area` tells whether the point is within the bounds widened by
/// the chip margin, where wires are drawn.
#[derive(Clone, Copy, Debug, PartialEq, Eq, Structural)]
pub struct LeftDownFacts {
    pub evaluating: bool,
    pub chip: Option<ChipAtPoint>,
    pub on_chip_body: bool,
    pub manip_click: Option<ManipulationAction>,
    pub cell: Coords,
    pub interface_side: Option<Direction>,
    pub handle: Option<BoundsHandle>,
    pub near_vertex: Option<Coords>,
    pub in_wire_area: bool,
}

/// What a left click asks of the grid.
///
/// `LiftSelection` cuts the selected rectangle out provisionally and drags
/// it; `Deselect` drops the selection; `DropSelection` finishes the drag of
/// a selection, `GrabChip` tries to lift the chip provisionally and
/// `StartWireDrag` starts drawing wires: the grid reports how these went by
/// a `GridFollowUp`.  `LiftSelection` and `Deselect` also take the focus
/// from the selection buttons.
#[derive(Clone, Copy, Debug, PartialEq, Eq, Structural)]
pub enum LeftDownCommand {
    NoCommand,
    Manipulate(ManipulationAction),
    PressButton(Coords, u32),
    LiftSelection(CoordsRect),
    Deselect,
    DropSelection,
    StartBoundsDrag(BoundsHandle),
    GrabChip(Coords),
    StartSelecting(Coords),
    StartWireDrag,
}

pub open spec fn press_for(chip: Option<ChipAtPoint>) -> LeftDownCommand {
    match chip {
        Some(ChipAtPoint { coords: c, kind: PressableChip::Break }) => LeftDownCommand::PressButton(c, 0),
        Some(ChipAtPoint { coords: c, kind: PressableChip::Button }) => LeftDownCommand::PressButton(c, 0),
        Some(ChipAtPoint { coords: c, kind: PressableChip::Toggle }) => LeftDownCommand::PressButton(c, 0),
        Some(ChipAtPoint { coords: c, kind: PressableChip::Screen(Some(sub)) }) => {
            LeftDownCommand::PressButton(c, sub)
        },
        _ => LeftDownCommand::NoCommand,
    }
}

/// The left click on a grid that does nothing with the mouse yet.
pub open spec fn idle_left_down(f: LeftDownFacts) -> (InteractionKind, LeftDownCommand) {
    match f.interface_side {
        Some(side) => (
            InteractionKind::DraggingBounds,
            LeftDownCommand::StartBoundsDrag(BoundsHandle::for_side_spec(side)),
        ),
        None => match f.handle {
            Some(h) => (InteractionKind::DraggingBounds, LeftDownCommand::StartBoundsDrag(h)),
            None => match f.chip {
                Some(ChipAtPoint { coords: c, .. }) if f.on_chip_body => (
                    InteractionKind::Nothing,
                    LeftDownCommand::GrabChip(c),
                ),
                _ => match f.near_vertex {
                    Some(v) => (InteractionKind::SelectingRect, LeftDownCommand::StartSelecting(v)),
                    None => if f.in_wire_area {
                        (InteractionKind::Nothing, LeftDownCommand::StartWireDrag)
                    } else {
                        (InteractionKind::Nothing, LeftDownCommand::NoCommand)
                    },
                },
            },
        },
    }
}

pub open spec fn left_down_spec(kind: InteractionKind, f: LeftDownFacts) -> (
    InteractionKind,
    LeftDownCommand,
) {
    if kind is RectSelected && f.manip_click is Some {
        (kind, LeftDownCommand::Manipulate(f.manip_click->0))
    } else if f.evaluating {
        (kind, press_for(f.chip))
    } else {
        match kind {
            InteractionKind::Nothing => idle_left_down(f),
            InteractionKind::RectSelected(r) => if r.contains_spec(f.cell) {
                (InteractionKind::DraggingSelection, LeftDownCommand::LiftSelection(r))
            } else {
                (InteractionKind::Nothing, LeftDownCommand::Deselect)
            },
            InteractionKind::DraggingSelection => (
                InteractionKind::Nothing,
                LeftDownCommand::DropSelection,
            ),
            _ => (InteractionKind::Nothing, LeftDownCommand::NoCommand),
        }
    }
}

/// The left mouse button went down on the grid while it was doing `kind`.
/// Returns the interaction that follows and what the grid must do.
pub fn on_left_down(kind: InteractionKind, f: LeftDownFacts) -> (r: (InteractionKind, LeftDownCommand))
    ensures
        r == left_down_spec(kind, f),
{
    if let InteractionKind::RectSelected(_) = kind {
        if let Some(a) = f.manip_click {
            return (kind, LeftDownCommand::Manipulate(a));
        }
    }
    if f.evaluating {
        let command = match f.chip {
            Some(ChipAtPoint { coords: c, kind: PressableChip::Break }) => LeftDownCommand::PressButton(c, 0),
            Some(ChipAtPoint { coords: c, kind: PressableChip::Button }) => LeftDownCommand::PressButton(c, 0),
            Some(ChipAtPoint { coords: c, kind: PressableChip::Toggle }) => LeftDownCommand::PressButton(c, 0),
            Some(ChipAtPoint { coords: c, kind: PressableChip::Screen(Some(sub)) }) => {
            LeftDownCommand::PressButton(c, sub)
        },
            _ => LeftDownCommand::NoCommand,
        };
        return (kind, command);
    }
    match kind {
        InteractionKind::Nothing => {},
        InteractionKind::RectSelected(r) => {
            if r.contains_point(f.cell) {
                return (InteractionKind::DraggingSelection, LeftDownCommand::LiftSelection(r));
            }
            return (InteractionKind::Nothing, LeftDownCommand::Deselect);
        },
        InteractionKind::DraggingSelection => {
            return (InteractionKind::Nothing, LeftDownCommand::DropSelection);
        },
        _ => {
            return (InteractionKind::Nothing, LeftDownCommand::NoCommand);
        },
    }
    if let Some(side) = f.interface_side {
        return (
            InteractionKind::DraggingBounds,
            LeftDownCommand::StartBoundsDrag(BoundsHandle::for_side(side)),
        );
    }
    if let Some(h) = f.handle {
        return (InteractionKind::DraggingBounds, LeftDownCommand::StartBoundsDrag(h));
    }
    if f.on_chip_body {
        if let Some(ChipAtPoint { coords: c, .. }) = f.chip {
            return (InteractionKind::Nothing, LeftDownCommand::GrabChip(c));
        }
    }
    if let Some(v) = f.near_vertex {
        return (InteractionKind::SelectingRect, LeftDownCommand::StartSelecting(v));
    }
    if f.in_wire_area {
        return (InteractionKind::Nothing, LeftDownCommand::StartWireDrag);
    }
    (InteractionKind::Nothing, LeftDownCommand::NoCommand)
}

/// How an operation that the grid could refuse went.
#[derive(Clone, Copy, Debug, PartialEq, Eq, Structural)]
pub enum GridFollowUp {
    /// The dragged selection was dropped; where it landed, if it did.
    SelectionDropped(Option<CoordsRect>),
    /// Whether the grid let the chip be lifted.
    ChipGrabbed(bool),
    /// Whether the wire drag goes on after moving to the mouse.
    WiresMoved(bool),
}

pub open spec fn settle_spec(event: GridFollowUp) -> InteractionKind {
    match event {
        GridFollowUp::SelectionDropped(Some(r)) => InteractionKind::RectSelected(r),
        GridFollowUp::ChipGrabbed(true) => InteractionKind::DraggingChip,
        GridFollowUp::WiresMoved(true) => InteractionKind::DraggingWires,
        _ => InteractionKind::Nothing,
    }
}

/// The interaction after the grid reported how an operation went: a dropped
/// selection stays selected where it landed, a lifted chip is dragged, a
/// wire drag goes on; otherwise the grid does nothing with the mouse.
pub fn settle(event: GridFollowUp) -> (k: InteractionKind)
    ensures
        k == settle_spec(event),
{
    match event {
        GridFollowUp::SelectionDropped(Some(r)) => InteractionKind::RectSelected(r),
        GridFollowUp::ChipGrabbed(true) => InteractionKind::DraggingChip,
        GridFollowUp::WiresMoved(true) => InteractionKind::DraggingWires,
        _ => InteractionKind::Nothing,
    }
}

/// What releasing the left button asks of the grid: the drag under way is
/// finished (a dropped chip lands on the board, a selection drag reports
/// where it landed by a `GridFollowUp`).
#[derive(Clone, Copy, Debug, PartialEq, Eq, Structural)]
pub enum LeftUpCommand {
    NoCommand,
    FinishBoundsDrag,
    DropChip,
    DropSelection,
    FinishWireDrag,
}

pub open spec fn left_up_spec(kind: InteractionKind, selecting: CoordsRect) -> (
    InteractionKind,
    LeftUpCommand,
) {
    match kind {
        InteractionKind::Nothing => (InteractionKind::Nothing, LeftUpCommand::NoCommand),
        InteractionKind::DraggingBounds => (
            InteractionKind::Nothing,
            LeftUpCommand::FinishBoundsDrag,
        ),
        InteractionKind::DraggingChip => (InteractionKind::Nothing, LeftUpCommand::DropChip),
        InteractionKind::SelectingRect => if is_empty_spec(selecting) {
            (InteractionKind::Nothing, LeftUpCommand::NoCommand)
        } else {
            (InteractionKind::RectSelected(selecting), LeftUpCommand::NoCommand)
        },
        InteractionKind::RectSelected(r) => (
            InteractionKind::RectSelected(r),
            LeftUpCommand::NoCommand,
        ),
        InteractionKind::DraggingSelection => (
            InteractionKind::Nothing,
            LeftUpCommand::DropSelection,
        ),
        InteractionKind::DraggingWires => (
            InteractionKind::Nothing,
            LeftUpCommand::FinishWireDrag,
        ),
    }
}

/// The left mouse button went up while the grid was doing `kind`;
/// `selecting` is the rubber band's rectangle when `kind` is a selection
/// under way.
pub fn on_left_up(kind: InteractionKind, selecting: CoordsRect) -> (r: (
    InteractionKind,
    LeftUpCommand,
))
    ensures
        r == left_up_spec(kind, selecting),
{
    match kind {
        InteractionKind::Nothing => (InteractionKind::Nothing, LeftUpCommand::NoCommand),
        InteractionKind::DraggingBounds => (
            InteractionKind::Nothing,
            LeftUpCommand::FinishBoundsDrag,
        ),
        InteractionKind::DraggingChip => (InteractionKind::Nothing, LeftUpCommand::DropChip),
        InteractionKind::SelectingRect => {
            if is_empty(selecting) {
                (InteractionKind::Nothing, LeftUpCommand::NoCommand)
            } else {
                (InteractionKind::RectSelected(selecting), LeftUpCommand::NoCommand)
            }
        },
        InteractionKind::RectSelected(r) => (
            InteractionKind::RectSelected(r),
            LeftUpCommand::NoCommand,
        ),
        InteractionKind::DraggingSelection => (
            InteractionKind::Nothing,
            LeftUpCommand::DropSelection,
        ),
        InteractionKind::DraggingWires => (
            InteractionKind::Nothing,
            LeftUpCommand::FinishWireDrag,
        ),
    }
}

/// What a mouse move asks of the grid: show the tooltip for what is under
/// the mouse, or move the drag under way to the mouse (a wire drag then
/// reports by a `GridFollowUp` whether it goes on).
#[derive(Clone, Copy, Debug, PartialEq, Eq, Structural)]
pub enum MoveCommand {
    ShowTooltip,
    MoveBoundsDrag,
    MoveChipDrag,
    MoveSelecting,
    MoveSelectionDrag,
    MoveWireDrag,
}

pub open spec fn move_command_spec(kind: InteractionKind) -> MoveCommand {
    match kind {
        InteractionKind::Nothing | InteractionKind::RectSelected(_) => MoveCommand::ShowTooltip,
        InteractionKind::DraggingBounds => MoveCommand::MoveBoundsDrag,
        InteractionKind::DraggingChip => MoveCommand::MoveChipDrag,
        InteractionKind::SelectingRect => MoveCommand::MoveSelecting,
        InteractionKind::DraggingSelection => MoveCommand::MoveSelectionDrag,
        InteractionKind::DraggingWires => MoveCommand::MoveWireDrag,
    }
}

pub fn move_command(kind: InteractionKind) -> (c: MoveCommand)
    ensures
        c == move_command_spec(kind),
{
    match kind {
        InteractionKind::Nothing | InteractionKind::RectSelected(_) => MoveCommand::ShowTooltip,
        InteractionKind::DraggingBounds => MoveCommand::MoveBoundsDrag,
        InteractionKind::DraggingChip => MoveCommand::MoveChipDrag,
        InteractionKind::SelectingRect => MoveCommand::MoveSelecting,
        InteractionKind::DraggingSelection => MoveCommand::MoveSelectionDrag,
        InteractionKind::DraggingWires => MoveCommand::MoveWireDrag,
    }
}

//---------------------------------------------------------------------------//
// Comment chips

/// Unicode white space, as `char::is_whitespace` and `str::trim` know it.
pub open spec fn is_white_spec(c: char) -> bool {
    ||| ('\u{9}' <= c && c <= '\u{d}')
    ||| c == ' '
    ||| c == '\u{85}'
    ||| c == '\u{a0}'
    ||| c == '\u{1680}'
    ||| ('\u{2000}' <= c && c <= '\u{200a}')
    ||| c == '\u{2028}'
    ||| c == '\u{2029}'
    ||| c == '\u{202f}'
    ||| c == '\u{205f}'
    ||| c == '\u{3000}'
}

fn is_white(c: char) -> (b: bool)
    ensures
        b == is_white_spec(c),
{
    ('\u{9}' <= c && c <= '\u{d}') || c == ' ' || c == '\u{85}' || c == '\u{a0}' || c
        == '\u{1680}' || ('\u{2000}' <= c && c <= '\u{200a}') || c == '\u{2028}' || c
        == '\u{2029}' || c == '\u{202f}' || c == '\u{205f}' || c == '\u{3000}'
}

/// Each byte read as the character with that code (Latin-1).
pub open spec fn latin1_chars(bytes: Seq<u8>) -> Seq<char> {
    Seq::new(bytes.len(), |i: int| bytes[i] as char)
}

pub open spec fn trim_start_spec(s: Seq<char>) -> Seq<char>
    decreases s.len(),
{
    if s.len() > 0 && is_white_spec(s[0]) {
        trim_start_spec(s.drop_first())
    } else {
        s
    }
}

pub open spec fn trim_end_spec(s: Seq<char>) -> Seq<char>
    decreases s.len(),
{
    if s.len() > 0 && is_white_spec(s.last()) {
        trim_end_spec(s.drop_last())
    } else {
        s
    }
}

/// The text of a comment chip: its bytes as characters, without the white
/// space at either end.
pub open spec fn comment_text_spec(bytes: Seq<u8>) -> Seq<char> {
    trim_end_spec(trim_start_spec(latin1_chars(bytes)))
}

pub fn comment_text(bytes: &Vec<u8>) -> (s: String)
    ensures
        s@ == comment_text_spec(bytes@),
{
    let n = bytes.len();
    let mut chars: Vec<char> = Vec::new();
    let mut i: usize = 0;
    while i < n
        invariant
            n == bytes.len(),
            i <= n,
            chars@ == latin1_chars(bytes@).take(i as int),
        decreases n - i,
    {
        let c = bytes[i] as char;
        chars.push(c);
        assert(chars@ =~= latin1_chars(bytes@).take(i + 1));
        i = i + 1;
    }
    let ghost all = latin1_chars(bytes@);
    assert(chars@ =~= all);
    let mut start: usize = 0;
    while start < n && is_white(chars[start])
        invariant
            n == chars.len(),
            chars@ == all,
            start <= n,
            trim_start_spec(all) == trim_start_spec(all.subrange(start as int, n as int)),
        decreases n - start,
    {
        let ghost rest = all.subrange(start as int, n as int);
        assert(rest.drop_first() =~= all.subrange(start + 1, n as int));
        start = start + 1;
    }
    let ghost trimmed = all.subrange(start as int, n as int);
    assert(trim_start_spec(trimmed) == trimmed);
    let mut end: usize = n;
    while end > start && is_white(chars[end - 1])
        invariant
            n == chars.len(),
            chars@ == all,
            start <= end <= n,
            trimmed == all.subrange(start as int, n as int),
            trim_end_spec(trimmed) == trim_end_spec(all.subrange(start as int, end as int)),
        decreases end - start,
    {
        let ghost part = all.subrange(start as int, end as int);
        assert(part.drop_last() =~= all.subrange(start as int, end - 1));
        end = end - 1;
    }
    let mut out: Vec<char> = Vec::new();
    let mut k: usize = start;
    while k < end
        invariant
            n == chars.len(),
            chars@ == all,
            start <= k <= end <= n,
            out@ == all.subrange(start as int, k as int),
        decreases end - k,
    {
        out.push(chars[k]);
        assert(out@ =~= all.subrange(start as int, k + 1));
        k = k + 1;
    }
    string_from_chars(&out)
}

//---------------------------------------------------------------------------//
// Right clicks

/// A request to open the dialog that edits a chip, with the chip's value:
/// the key bound to a button (`K`), a coercion's wire size (`W`), a
/// comment's text, a constant, or a voltage reference's value (`F`).
#[derive(Clone, Debug)]
pub enum EditGridAction<K, W, F> {
    EditButton(Coords, Option<K>),
    EditCoerce(Coords, W),
    EditComment(Coords, String),
    EditConst(Coords, u8),
    EditVref(Coords, F),
}

/// The chip at the cell under the mouse, as a right click sees it.
#[derive(Clone, Debug)]
pub enum ChipUnderMouse<K, W, F> {
    Break(bool),
    Button(Option<K>),
    Coerce(W),
    Comment(Vec<u8>),
    Const(u8),
    Toggle(bool),
    Vref(F),
    Other,
}

/// What a right click asks of the grid.
///
/// `ToggleBreak(c, enabled)` and `ToggleSwitch(c, value)` try to replace
/// the chip at `c` by the same chip with the flag flipped; where the grid
/// refuses, they fall back to `ToggleCross(c)`, which tries to join or part
/// the wires crossing at `c`.
#[derive(Clone, Debug)]
pub enum RightDownCommand<K, W, F> {
    NoCommand,
    ToggleBreak(Coords, bool),
    ToggleSwitch(Coords, bool),
    ToggleCross(Coords),
    Edit(EditGridAction<K, W, F>),
}

/// The right mouse button went down on cell `coords`, over `chip`.  While
/// a simulation runs, right clicks do nothing.
pub fn on_right_down<K, W, F>(evaluating: bool, coords: Coords, chip: ChipUnderMouse<K, W, F>) -> (r:
    RightDownCommand<K, W, F>)
    ensures
        evaluating ==> r is NoCommand,
        !evaluating ==> match chip {
            ChipUnderMouse::Break(e) => r == RightDownCommand::<K, W, F>::ToggleBreak(coords, e),
            ChipUnderMouse::Button(k) => r == RightDownCommand::Edit(
                EditGridAction::<K, W, F>::EditButton(coords, k),
            ),
            ChipUnderMouse::Coerce(w) => r == RightDownCommand::Edit(
                EditGridAction::<K, W, F>::EditCoerce(coords, w),
            ),
            ChipUnderMouse::Comment(b) => r matches RightDownCommand::Edit(
                EditGridAction::EditComment(c, t),
            ) && c == coords && t@ == comment_text_spec(b@),
            ChipUnderMouse::Const(v) => r == RightDownCommand::Edit(
                EditGridAction::<K, W, F>::EditConst(coords, v),
            ),
            ChipUnderMouse::Toggle(v) => r == RightDownCommand::<K, W, F>::ToggleSwitch(coords, v),
            ChipUnderMouse::Vref(f) => r == RightDownCommand::Edit(
                EditGridAction::<K, W, F>::EditVref(coords, f),
            ),
            ChipUnderMouse::Other => r == RightDownCommand::<K, W, F>::ToggleCross(coords),
        },
{
    if evaluating {
        return RightDownCommand::NoCommand;
    }
    match chip {
        ChipUnderMouse::Break(e) => RightDownCommand::ToggleBreak(coords, e),
        ChipUnderMouse::Button(k) => RightDownCommand::Edit(EditGridAction::EditButton(coords, k)),
        ChipUnderMouse::Coerce(w) => RightDownCommand::Edit(EditGridAction::EditCoerce(coords, w)),
        ChipUnderMouse::Comment(b) => {
            let text = comment_text(&b);
            RightDownCommand::Edit(EditGridAction::EditComment(coords, text))
        },
        ChipUnderMouse::Const(v) => RightDownCommand::Edit(EditGridAction::EditConst(coords, v)),
        ChipUnderMouse::Toggle(v) => RightDownCommand::ToggleSwitch(coords, v),
        ChipUnderMouse::Vref(f) => RightDownCommand::Edit(EditGridAction::EditVref(coords, f)),
        ChipUnderMouse::Other => RightDownCommand::ToggleCross(coords),
    }
}

//---------------------------------------------------------------------------//
// Tooltips on the grid

/// The outline, drawn for a wire fragment on the east side of a cell, that
/// the mouse must be in for the tooltip of that fragment's wire; fragments
/// on the other sides use it turned with them.
#[derive(Clone, Copy, Debug, PartialEq, Eq, Structural)]
pub enum WireOutline {
    Stub,
    Straight,
    TurnLeft,
    SplitTee,
    Cross,
}

pub open spec fn wire_outline_spec(shape: WireShape, dir: Direction) -> Option<WireOutline> {
    match shape {
        WireShape::Stub => Some(WireOutline::Stub),
        WireShape::Straight => if dir == Direction::East || dir == Direction::North {
            Some(WireOutline::Straight)
        } else {
            None
        },
        WireShape::TurnLeft => Some(WireOutline::TurnLeft),
        WireShape::SplitTee => Some(WireOutline::SplitTee),
        WireShape::Cross => if dir == Direction::East {
            Some(WireOutline::Cross)
        } else {
            None
        },
        _ => None,
    }
}

/// The outline that decides whether the mouse is on the wire fragment of
/// shape `shape` at side `dir` of a cell.  Each piece of wire is tested
/// once: through a straight wire by its east or north fragment, through a
/// crossing by its east fragment, and a turn or split by the fragment it
/// turns left from or splits at.
pub fn wire_outline(shape: WireShape, dir: Direction) -> (o: Option<WireOutline>)
    ensures
        o == wire_outline_spec(shape, dir),
{
    match shape {
        WireShape::Stub => Some(WireOutline::Stub),
        WireShape::Straight => {
            if dir == Direction::East || dir == Direction::North {
                Some(WireOutline::Straight)
            } else {
                None
            }
        },
        WireShape::TurnLeft => Some(WireOutline::TurnLeft),
        WireShape::SplitTee => Some(WireOutline::SplitTee),
        WireShape::Cross => {
            if dir == Direction::East {
                Some(WireOutline::Cross)
            } else {
                None
            }
        },
        _ => None,
    }
}

/// Which wire fragments of the cell under the mouse have the mouse inside
/// their outline, side by side.
#[derive(Clone, Copy, Debug, PartialEq, Eq, Structural)]
pub struct SideHits {
    pub east: bool,
    pub south: bool,
    pub west: bool,
    pub north: bool,
}

/// What the tooltip on the grid is about: a chip (where it is and what it
/// is), an interface (by its index), or the wire of the fragment at a side
/// of the cell under the mouse.
#[derive(Clone, Copy, Debug, PartialEq, Eq, Structural)]
pub enum GridTooltipTarget {
    Chip(Coords, ChipRef),
    Interface(usize),
    WireAt(Direction),
}

pub open spec fn grid_tooltip_target_spec(
    chip: Option<(Coords, ChipRef)>,
    interface: Option<usize>,
    hits: SideHits,
) -> Option<GridTooltipTarget> {
    match chip {
        Some((c, k)) => Some(GridTooltipTarget::Chip(c, k)),
        None => match interface {
            Some(i) => Some(GridTooltipTarget::Interface(i)),
            None => if hits.north {
                Some(GridTooltipTarget::WireAt(Direction::North))
            } else if hits.west {
                Some(GridTooltipTarget::WireAt(Direction::West))
            } else if hits.south {
                Some(GridTooltipTarget::WireAt(Direction::South))
            } else if hits.east {
                Some(GridTooltipTarget::WireAt(Direction::East))
            } else {
                None
            },
        },
    }
}

/// The tooltip target under the mouse: the chip whose body is under it
/// (`chip`), else the interface whose body is under it (`interface`), else
/// the wire of a fragment whose outline holds it, the sides being tried
/// east, south, west, north and the last that holds it winning.
pub fn grid_tooltip_target(
    chip: Option<(Coords, ChipRef)>,
    interface: Option<usize>,
    hits: SideHits,
) -> (t: Option<GridTooltipTarget>)
    ensures
        t == grid_tooltip_target_spec(chip, interface, hits),
{
    if let Some((c, k)) = chip {
        return Some(GridTooltipTarget::Chip(c, k));
    }
    if let Some(i) = interface {
        return Some(GridTooltipTarget::Interface(i));
    }
    let mut found: Option<Direction> = None;
    if hits.east {
        found = Some(Direction::East);
    }
    if hits.south {
        found = Some(Direction::South);
    }
    if hits.west {
        found = Some(Direction::West);
    }
    if hits.north {
        found = Some(Direction::North);
    }
    match found {
        Some(d) => Some(GridTooltipTarget::WireAt(d)),
        None => None,
    }
}

//---------------------------------------------------------------------------//
// Laws of the editing grid

/// A rubber-band selection never reaches outside the circuit's bounds:
/// whatever vertices it spans, the rectangle it selects, when it has any
/// cells, lies within the bounds.
pub proof fn lemma_selection_within_bounds(start: Coords, end: Coords, bounds: CoordsRect)
    requires
        start.is_small(),
        end.is_small(),
        bounds.is_small(),
    ensures
        !is_empty_spec(span_in_bounds(start, end, bounds)) ==> bounds.contains_rect_spec(
            span_in_bounds(start, end, bounds),
        ),
{
}

/// Releasing the left button ends every drag: afterwards the grid either
/// does nothing with the mouse or has a rectangle selected, also once a
/// dropped selection has reported where it landed.
pub proof fn lemma_release_ends_drags(
    kind: InteractionKind,
    selecting: CoordsRect,
    landed: Option<CoordsRect>,
)
    ensures
        !left_up_spec(kind, selecting).0.is_dragging_spec(),
        left_up_spec(kind, selecting).1 == LeftUpCommand::DropSelection ==> !settle_spec(
            GridFollowUp::SelectionDropped(landed),
        ).is_dragging_spec(),
{
}

/// While a simulation runs, a left click changes nothing about what the
/// grid does with the mouse; it can only press a button, switch or screen
/// of the circuit (or work a selection button).
pub proof fn lemma_simulation_clicks_keep_interaction(kind: InteractionKind, f: LeftDownFacts)
    requires
        f.evaluating,
    ensures
        left_down_spec(kind, f).0 == kind,
        left_down_spec(kind, f).1 is PressButton || left_down_spec(kind, f).1 is NoCommand
            || left_down_spec(kind, f).1 is Manipulate,
{
}

/// A key that consumes the selected rectangle (delete, cut, undo, redo)
/// leaves nothing selected.
pub proof fn lemma_consuming_keys_drop_selection(
    state: GridEditState,
    bounds: CoordsRect,
    key: GridKeyPress,
    can_paste: bool,
)
    requires
        state.interaction is RectSelected,
        key.key == GridKey::Backspace || key.key == GridKey::Delete || (key.command && (key.key
            == GridKey::X || key.key == GridKey::Z)),
    ensures
        key_interaction_spec(state, bounds, key, can_paste) == InteractionKind::Nothing,
{
}

proof fn lemma_trim_start_append(a: Seq<char>, b: Seq<char>)
    ensures
        trim_start_spec(a).len() > 0 ==> trim_start_spec(a + b) == trim_start_spec(a) + b,
        trim_start_spec(a).len() == 0 ==> trim_start_spec(a + b) == trim_start_spec(b),
    decreases a.len(),
{
    if a.len() == 0 {
        assert(a + b =~= b);
    } else {
        assert((a + b)[0] == a[0]);
        if is_white_spec(a[0]) {
            assert((a + b).drop_first() =~= a.drop_first() + b);
            lemma_trim_start_append(a.drop_first(), b);
        }
    }
}

proof fn lemma_trim_end_white_tail(a: Seq<char>, w: Seq<char>)
    requires
        forall|i: int| 0 <= i < w.len() ==> is_white_spec(#[trigger] w[i]),
    ensures
        trim_end_spec(a + w) == trim_end_spec(a),
    decreases w.len(),
{
    if w.len() == 0 {
        assert(a + w =~= a);
    } else {
        assert((a + w).last() == w.last());
        assert((a + w).drop_last() =~= a + w.drop_last());
        lemma_trim_end_white_tail(a, w.drop_last());
    }
}

proof fn lemma_trim_start_all_white(w: Seq<char>)
    requires
        forall|i: int| 0 <= i < w.len() ==> is_white_spec(#[trigger] w[i]),
    ensures
        trim_start_spec(w).len() == 0,
    decreases w.len(),
{
    if w.len() > 0 {
        lemma_trim_start_all_white(w.drop_first());
    }
}

/// What a comment chip shows is what was typed into it: storing a text of
/// at most `len` characters, each with a code below 256, in a comment chip
/// of `len` characters and reading it back gives the text without the
/// white space at either end.
pub proof fn lemma_comment_roundtrip(text: Seq<char>, len: nat)
    requires
        text.len() <= len,
        forall|i: int| 0 <= i < text.len() ==> (#[trigger] text[i] as u32) < 256,
    ensures
        comment_text_spec(comment_bytes_spec(text, len)) == trim_end_spec(trim_start_spec(text)),
{
    let pad = Seq::new((len - text.len()) as nat, |i: int| ' ');
    let chars = latin1_chars(comment_bytes_spec(text, len));
    assert forall|i: int| 0 <= i < text.len() implies chars[i] == text[i] by {
        let c = text[i];
        let u = c as u32;
        vstd::utf8::char_u32_cast(c, u);
        assert(u % 256 == u);
        let b = (u % 256) as u8;
        assert(b as int == u as int);
        assert(b as char == u as char);
    }
    assert(chars =~= text + pad);
    assert forall|i: int| 0 <= i < pad.len() implies is_white_spec(#[trigger] pad[i]) by {}
    lemma_trim_start_append(text, pad);
    if trim_start_spec(text).len() > 0 {
        lemma_trim_end_white_tail(trim_start_spec(text), pad);
    } else {
        lemma_trim_start_all_white(pad);
        assert(trim_start_spec(pad) =~= trim_start_spec(text));
    }
}

/// Cancelling leaves the grid doing nothing with the mouse, and only a
/// dragged chip or selection can have a change to revert: cancelling when
/// nothing was under way reverts nothing.
pub proof fn lemma_cancel_ends_interaction(kind: InteractionKind, rolled_back: bool)
    ensures
        !InteractionKind::Nothing.has_interaction_spec(),
        kind is Nothing ==> cancel_effect_spec(kind) == CancelEffect::JustEnd,
        (cancel_effect_spec(kind) == CancelEffect::PutBackChip || cancel_effect_spec(kind)
            == CancelEffect::PutBackSelection) ==> (kind is DraggingChip || kind is DraggingSelection),
{
}

} // verus!
