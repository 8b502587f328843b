use tachyomancer::bounds::BoundsHandle;
use tachyomancer::chipedit::comment_bytes;
use tachyomancer::circuit::InteractionKind;
use tachyomancer::geom::{Coords, CoordsRect, Direction};
use tachyomancer::gridedit::{
    cancel_effect, cancel_interaction, cancel_reverted, comment_text, is_empty, move_command, on_grid_key, on_left_down, on_left_up,
    on_right_down, settle, grid_tooltip_target, wire_outline, CancelEffect, ChipAtPoint, ChipUnderMouse, EditGridAction,
    GridEditState, GridFollowUp, GridKey, GridKeyCommand, GridKeyPress, LeftDownCommand,
    LeftDownFacts, LeftUpCommand, MoveCommand, PressableChip, RightDownCommand, SelectingDrag,
    GridTooltipTarget, SideHits, WireOutline,
};
use tachyomancer::select::ChipRef;
use tachyomancer::wires::WireShape;
use tachyomancer::manip::ManipulationAction;

fn rect(x: i32, y: i32, w: i32, h: i32) -> CoordsRect {
    CoordsRect::new(x, y, w, h)
}

fn key(k: GridKey, command: bool, shift: bool) -> GridKeyPress {
    GridKeyPress { key: k, command, shift }
}

fn idle_facts() -> LeftDownFacts {
    LeftDownFacts {
        evaluating: false,
        chip: None,
        on_chip_body: false,
        manip_click: None,
        cell: Coords::new(3, 3),
        interface_side: None,
        handle: None,
        near_vertex: None,
        in_wire_area: false,
    }
}

#[test]
fn selecting_drag_spans_start_and_mouse() {
    let bounds = rect(0, 0, 8, 6);
    let mut drag = SelectingDrag::new(bounds, Coords::new(2, 2));
    assert_eq!(drag.selected_rect(), rect(2, 2, 0, 0));
    assert!(drag.move_to(Coords::new(5, 4)));
    assert_eq!(drag.selected_rect(), rect(2, 2, 3, 2));
    assert!(!drag.move_to(Coords::new(5, 4)));
    // Dragging up and to the left of the start.
    assert!(drag.move_to(Coords::new(0, 1)));
    assert_eq!(drag.selected_rect(), rect(0, 1, 2, 1));
}

#[test]
fn selecting_drag_is_clipped_to_bounds() {
    let bounds = rect(0, 0, 8, 6);
    let mut drag = SelectingDrag::new(bounds, Coords::new(6, 4));
    drag.move_to(Coords::new(20, 30));
    assert_eq!(drag.selected_rect(), rect(6, 4, 2, 2));
    drag.move_to(Coords::new(-5, -5));
    assert_eq!(drag.selected_rect(), rect(0, 0, 6, 4));
    let mut outside = SelectingDrag::new(bounds, Coords::new(8, 6));
    outside.move_to(Coords::new(12, 9));
    assert!(is_empty(outside.selected_rect()));
}

#[test]
fn delete_key_removes_hovered_wire_or_selection() {
    let bounds = rect(0, 0, 8, 8);
    let hovering = GridEditState { interaction: InteractionKind::Nothing, hover_wire: Some(7) };
    let (next, cmd) = on_grid_key(hovering, bounds, key(GridKey::Delete, false, false), false);
    assert_eq!(cmd, GridKeyCommand::DeleteWire(7));
    assert_eq!(next, GridEditState { interaction: InteractionKind::Nothing, hover_wire: None });

    let selected = GridEditState {
        interaction: InteractionKind::RectSelected(rect(1, 1, 2, 2)),
        hover_wire: None,
    };
    let (next, cmd) = on_grid_key(selected, bounds, key(GridKey::Backspace, false, false), false);
    assert_eq!(cmd, GridKeyCommand::DeleteRect(rect(1, 1, 2, 2)));
    assert_eq!(next.interaction, InteractionKind::Nothing);

    let dragging = GridEditState { interaction: InteractionKind::DraggingChip, hover_wire: Some(2) };
    let (next, cmd) = on_grid_key(dragging, bounds, key(GridKey::Delete, false, false), false);
    assert_eq!(cmd, GridKeyCommand::NoCommand);
    assert_eq!(next.interaction, InteractionKind::DraggingChip);
    assert_eq!(next.hover_wire, None);
}

#[test]
fn command_keys_select_copy_cut_paste_undo() {
    let bounds = rect(-2, -2, 10, 6);
    let idle = GridEditState { interaction: InteractionKind::Nothing, hover_wire: None };
    let (next, cmd) = on_grid_key(idle, bounds, key(GridKey::A, true, false), false);
    assert_eq!(next.interaction, InteractionKind::RectSelected(bounds));
    assert_eq!(cmd, GridKeyCommand::NoCommand);

    let sel = rect(0, 0, 3, 3);
    let selected =
        GridEditState { interaction: InteractionKind::RectSelected(sel), hover_wire: None };
    let (next, cmd) = on_grid_key(selected, bounds, key(GridKey::C, true, false), false);
    assert_eq!(cmd, GridKeyCommand::CopyRect(sel));
    assert_eq!(next.interaction, InteractionKind::RectSelected(sel));
    let (next, cmd) = on_grid_key(selected, bounds, key(GridKey::X, true, false), false);
    assert_eq!(cmd, GridKeyCommand::CutRect(sel));
    assert_eq!(next.interaction, InteractionKind::Nothing);
    let (_, cmd) = on_grid_key(idle, bounds, key(GridKey::X, true, false), false);
    assert_eq!(cmd, GridKeyCommand::NoCommand);

    let (next, cmd) = on_grid_key(selected, bounds, key(GridKey::V, true, false), true);
    assert_eq!(cmd, GridKeyCommand::StartPaste);
    assert_eq!(next.interaction, InteractionKind::DraggingSelection);
    let (next, cmd) = on_grid_key(selected, bounds, key(GridKey::V, true, false), false);
    assert_eq!(cmd, GridKeyCommand::NoCommand);
    assert_eq!(next.interaction, InteractionKind::RectSelected(sel));

    let (next, cmd) = on_grid_key(selected, bounds, key(GridKey::Z, true, false), false);
    assert_eq!(cmd, GridKeyCommand::Undo);
    assert_eq!(next.interaction, InteractionKind::Nothing);
    let (_, cmd) = on_grid_key(idle, bounds, key(GridKey::Z, true, true), false);
    assert_eq!(cmd, GridKeyCommand::Redo);

    let (next, cmd) = on_grid_key(selected, bounds, key(GridKey::Z, false, false), false);
    assert_eq!(cmd, GridKeyCommand::PassToHotkeys);
    assert_eq!(next.interaction, InteractionKind::RectSelected(sel));
}

#[test]
fn cancelling_puts_back_drags() {
    assert_eq!(cancel_effect(InteractionKind::DraggingChip), CancelEffect::PutBackChip);
    assert_eq!(cancel_effect(InteractionKind::DraggingSelection), CancelEffect::PutBackSelection);
    assert_eq!(cancel_effect(InteractionKind::DraggingWires), CancelEffect::FinishWires);
    assert_eq!(cancel_effect(InteractionKind::SelectingRect), CancelEffect::JustEnd);
    assert_eq!(cancel_effect(InteractionKind::Nothing), CancelEffect::JustEnd);
}

#[test]
fn left_click_during_simulation_presses_chips() {
    let mut f = idle_facts();
    f.evaluating = true;
    f.chip = Some(ChipAtPoint { coords: Coords::new(4, 5), kind: PressableChip::Toggle });
    let (next, cmd) = on_left_down(InteractionKind::Nothing, f);
    assert_eq!(next, InteractionKind::Nothing);
    assert_eq!(cmd, LeftDownCommand::PressButton(Coords::new(4, 5), 0));
    f.chip = Some(ChipAtPoint { coords: Coords::new(1, 1), kind: PressableChip::Screen(Some(13)) });
    let (_, cmd) = on_left_down(InteractionKind::Nothing, f);
    assert_eq!(cmd, LeftDownCommand::PressButton(Coords::new(1, 1), 13));
    f.chip = Some(ChipAtPoint { coords: Coords::new(1, 1), kind: PressableChip::Screen(None) });
    let (_, cmd) = on_left_down(InteractionKind::Nothing, f);
    assert_eq!(cmd, LeftDownCommand::NoCommand);
    f.chip = Some(ChipAtPoint { coords: Coords::new(1, 1), kind: PressableChip::Other });
    f.on_chip_body = true;
    let (next, cmd) = on_left_down(InteractionKind::Nothing, f);
    assert_eq!(cmd, LeftDownCommand::NoCommand);
    assert_eq!(next, InteractionKind::Nothing);
}

#[test]
fn left_click_on_idle_grid_picks_what_is_under_the_mouse() {
    let mut f = idle_facts();
    f.interface_side = Some(Direction::West);
    f.handle = Some(BoundsHandle::Top);
    let (next, cmd) = on_left_down(InteractionKind::Nothing, f);
    assert_eq!(next, InteractionKind::DraggingBounds);
    assert_eq!(cmd, LeftDownCommand::StartBoundsDrag(BoundsHandle::Left));

    f.interface_side = None;
    let (_, cmd) = on_left_down(InteractionKind::Nothing, f);
    assert_eq!(cmd, LeftDownCommand::StartBoundsDrag(BoundsHandle::Top));

    f.handle = None;
    f.chip = Some(ChipAtPoint { coords: Coords::new(2, 2), kind: PressableChip::Other });
    f.on_chip_body = true;
    f.near_vertex = Some(Coords::new(3, 3));
    let (next, cmd) = on_left_down(InteractionKind::Nothing, f);
    assert_eq!(next, InteractionKind::Nothing);
    assert_eq!(cmd, LeftDownCommand::GrabChip(Coords::new(2, 2)));
    assert_eq!(settle(GridFollowUp::ChipGrabbed(true)), InteractionKind::DraggingChip);
    assert_eq!(settle(GridFollowUp::ChipGrabbed(false)), InteractionKind::Nothing);

    f.on_chip_body = false;
    let (next, cmd) = on_left_down(InteractionKind::Nothing, f);
    assert_eq!(next, InteractionKind::SelectingRect);
    assert_eq!(cmd, LeftDownCommand::StartSelecting(Coords::new(3, 3)));

    f.near_vertex = None;
    f.in_wire_area = true;
    let (next, cmd) = on_left_down(InteractionKind::Nothing, f);
    assert_eq!(next, InteractionKind::Nothing);
    assert_eq!(cmd, LeftDownCommand::StartWireDrag);
    assert_eq!(settle(GridFollowUp::WiresMoved(true)), InteractionKind::DraggingWires);

    f.in_wire_area = false;
    let (_, cmd) = on_left_down(InteractionKind::Nothing, f);
    assert_eq!(cmd, LeftDownCommand::NoCommand);
}

#[test]
fn left_click_with_a_selection() {
    let sel = rect(2, 2, 3, 3);
    let mut f = idle_facts();
    f.cell = Coords::new(4, 4);
    let (next, cmd) = on_left_down(InteractionKind::RectSelected(sel), f);
    assert_eq!(next, InteractionKind::DraggingSelection);
    assert_eq!(cmd, LeftDownCommand::LiftSelection(sel));

    f.cell = Coords::new(5, 4);
    let (next, cmd) = on_left_down(InteractionKind::RectSelected(sel), f);
    assert_eq!(next, InteractionKind::Nothing);
    assert_eq!(cmd, LeftDownCommand::Deselect);

    f.manip_click = Some(ManipulationAction::RotateCw);
    let (next, cmd) = on_left_down(InteractionKind::RectSelected(sel), f);
    assert_eq!(next, InteractionKind::RectSelected(sel));
    assert_eq!(cmd, LeftDownCommand::Manipulate(ManipulationAction::RotateCw));

    let (next, cmd) = on_left_down(InteractionKind::DraggingSelection, idle_facts());
    assert_eq!(next, InteractionKind::Nothing);
    assert_eq!(cmd, LeftDownCommand::DropSelection);
    assert_eq!(
        settle(GridFollowUp::SelectionDropped(Some(rect(7, 7, 3, 3)))),
        InteractionKind::RectSelected(rect(7, 7, 3, 3))
    );
    assert_eq!(settle(GridFollowUp::SelectionDropped(None)), InteractionKind::Nothing);

    let (next, cmd) = on_left_down(InteractionKind::DraggingWires, idle_facts());
    assert_eq!(next, InteractionKind::Nothing);
    assert_eq!(cmd, LeftDownCommand::NoCommand);
}

#[test]
fn releasing_the_button_finishes_drags() {
    let none = rect(0, 0, 0, 0);
    assert_eq!(
        on_left_up(InteractionKind::DraggingBounds, none),
        (InteractionKind::Nothing, LeftUpCommand::FinishBoundsDrag)
    );
    assert_eq!(
        on_left_up(InteractionKind::DraggingChip, none),
        (InteractionKind::Nothing, LeftUpCommand::DropChip)
    );
    assert_eq!(
        on_left_up(InteractionKind::DraggingSelection, none),
        (InteractionKind::Nothing, LeftUpCommand::DropSelection)
    );
    assert_eq!(
        on_left_up(InteractionKind::DraggingWires, none),
        (InteractionKind::Nothing, LeftUpCommand::FinishWireDrag)
    );
    assert_eq!(
        on_left_up(InteractionKind::SelectingRect, rect(1, 1, 2, 0)),
        (InteractionKind::Nothing, LeftUpCommand::NoCommand)
    );
    assert_eq!(
        on_left_up(InteractionKind::SelectingRect, rect(1, 1, 2, 3)),
        (InteractionKind::RectSelected(rect(1, 1, 2, 3)), LeftUpCommand::NoCommand)
    );
    assert_eq!(
        on_left_up(InteractionKind::RectSelected(rect(0, 0, 1, 1)), none),
        (InteractionKind::RectSelected(rect(0, 0, 1, 1)), LeftUpCommand::NoCommand)
    );
}

#[test]
fn mouse_moves_go_to_the_drag_under_way() {
    assert_eq!(move_command(InteractionKind::Nothing), MoveCommand::ShowTooltip);
    assert_eq!(
        move_command(InteractionKind::RectSelected(rect(0, 0, 1, 1))),
        MoveCommand::ShowTooltip
    );
    assert_eq!(move_command(InteractionKind::DraggingWires), MoveCommand::MoveWireDrag);
    assert_eq!(move_command(InteractionKind::SelectingRect), MoveCommand::MoveSelecting);
    assert_eq!(settle(GridFollowUp::WiresMoved(false)), InteractionKind::Nothing);
}

#[test]
fn comment_text_is_trimmed_latin1() {
    assert_eq!(comment_text(&b"  Hello, world!\t\n".to_vec()), "Hello, world!");
    assert_eq!(comment_text(&b"   ".to_vec()), "");
    assert_eq!(comment_text(&vec![0xa0, b'c', 0xe9, b' ', b'x', 0x85]), "c\u{e9} x");
}

type Cmd = RightDownCommand<u8, u32, i32>;

#[test]
fn right_click_edits_or_toggles_chips() {
    let c = Coords::new(3, -1);
    assert!(matches!(
        on_right_down::<u8, u32, i32>(false, c, ChipUnderMouse::Const(42)),
        Cmd::Edit(EditGridAction::EditConst(at, 42)) if at == c
    ));
    assert!(matches!(
        on_right_down::<u8, u32, i32>(false, c, ChipUnderMouse::Button(Some(5))),
        Cmd::Edit(EditGridAction::EditButton(at, Some(5))) if at == c
    ));
    assert!(matches!(
        on_right_down::<u8, u32, i32>(false, c, ChipUnderMouse::Coerce(4)),
        Cmd::Edit(EditGridAction::EditCoerce(at, 4)) if at == c
    ));
    assert!(matches!(
        on_right_down::<u8, u32, i32>(false, c, ChipUnderMouse::Vref(-7)),
        Cmd::Edit(EditGridAction::EditVref(at, -7)) if at == c
    ));
    match on_right_down::<u8, u32, i32>(false, c, ChipUnderMouse::Comment(b"  note ".to_vec())) {
        Cmd::Edit(EditGridAction::EditComment(at, text)) => {
            assert_eq!(at, c);
            assert_eq!(text, "note");
        }
        _ => panic!("expected a comment edit"),
    }
    assert!(matches!(
        on_right_down::<u8, u32, i32>(false, c, ChipUnderMouse::Break(true)),
        Cmd::ToggleBreak(at, true) if at == c
    ));
    assert!(matches!(
        on_right_down::<u8, u32, i32>(false, c, ChipUnderMouse::Toggle(false)),
        Cmd::ToggleSwitch(at, false) if at == c
    ));
    assert!(matches!(
        on_right_down::<u8, u32, i32>(false, c, ChipUnderMouse::Other),
        Cmd::ToggleCross(at) if at == c
    ));
    assert!(matches!(
        on_right_down::<u8, u32, i32>(true, c, ChipUnderMouse::Const(1)),
        Cmd::NoCommand
    ));
}

#[test]
fn comment_chip_gives_back_what_was_typed() {
    use_comment_roundtrip(" Hi there ", 20, "Hi there");
    use_comment_roundtrip("caf\u{e9}", 4, "caf\u{e9}");
    use_comment_roundtrip("   ", 6, "");
}

fn use_comment_roundtrip(typed: &str, len: usize, shown: &str) {
    let bytes = comment_bytes(typed, len);
    assert_eq!(bytes.len(), len);
    assert_eq!(comment_text(&bytes), shown);
}

#[test]
fn wire_outlines_test_each_piece_once() {
    assert_eq!(wire_outline(WireShape::Stub, Direction::West), Some(WireOutline::Stub));
    assert_eq!(wire_outline(WireShape::Straight, Direction::East), Some(WireOutline::Straight));
    assert_eq!(wire_outline(WireShape::Straight, Direction::North), Some(WireOutline::Straight));
    assert_eq!(wire_outline(WireShape::Straight, Direction::West), None);
    assert_eq!(wire_outline(WireShape::Cross, Direction::East), Some(WireOutline::Cross));
    assert_eq!(wire_outline(WireShape::Cross, Direction::South), None);
    assert_eq!(wire_outline(WireShape::TurnRight, Direction::East), None);
    assert_eq!(wire_outline(WireShape::SplitTee, Direction::South), Some(WireOutline::SplitTee));
}

#[test]
fn grid_tooltips_prefer_chips_then_interfaces_then_wires() {
    let chip = ChipRef { ctype: 3, orient: 0, width: 1, height: 2 };
    let all = SideHits { east: true, south: true, west: false, north: false };
    let none = SideHits { east: false, south: false, west: false, north: false };
    assert_eq!(
        grid_tooltip_target(Some((Coords::new(1, 2), chip)), Some(4), all),
        Some(GridTooltipTarget::Chip(Coords::new(1, 2), chip))
    );
    assert_eq!(grid_tooltip_target(None, Some(4), all), Some(GridTooltipTarget::Interface(4)));
    assert_eq!(
        grid_tooltip_target(None, None, all),
        Some(GridTooltipTarget::WireAt(Direction::South))
    );
    assert_eq!(grid_tooltip_target(None, None, none), None);
}

#[test]
fn cancelling_ends_the_interaction() {
    assert_eq!(cancel_interaction(InteractionKind::DraggingChip), (InteractionKind::Nothing, CancelEffect::PutBackChip));
    assert_eq!(
        cancel_interaction(InteractionKind::RectSelected(rect(0, 0, 2, 2))),
        (InteractionKind::Nothing, CancelEffect::JustEnd)
    );
    assert!(cancel_reverted(CancelEffect::PutBackSelection, true));
    assert!(!cancel_reverted(CancelEffect::PutBackSelection, false));
    assert!(!cancel_reverted(CancelEffect::JustEnd, true));
    assert!(!cancel_reverted(CancelEffect::FinishWires, true));
}
