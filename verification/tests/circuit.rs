use tachyomancer::bounds::BoundsHandle;
use tachyomancer::circuit::{
    circuit_step, CircuitEvent, controls_effect, escape_response, eval_effect, grid_cursor, grid_hotkey_response,
    manipulation_target, verification_tray_rect, EscapeResponse, EvalOutcome, GridHotkeyResponse, InteractionKind,
    ManipulationTarget, PointFacts, StepKind,
};
use tachyomancer::controls::{ControlsAction, ControlsStatus};
use tachyomancer::geom::{Coords, CoordsRect};
use tachyomancer::hotkey::{Cursor, Hotkey};
use tachyomancer::manip::ManipulationAction;
use tachyomancer::prefs::RectSize;
use tachyomancer::tooltip::{
    tooltip_begin_event, tooltip_hover_none, tooltip_hover_tag, tooltip_new, tooltip_show, Hover,
    HoverChange,
};

#[test]
fn running_from_the_editor_starts_the_simulation() {
    let e = controls_effect(ControlsStatus::Stopped, false, ControlsAction::RunOrPause);
    assert_eq!(e.status, ControlsStatus::Running);
    assert!(e.start_eval && e.cancel_interaction && e.beep && e.reset_timer);
    assert!(!e.stop_eval);
    assert_eq!(e.step, None);
}

#[test]
fn run_pause_and_fast_forward_switch_status() {
    let e = controls_effect(ControlsStatus::Running, true, ControlsAction::RunOrPause);
    assert_eq!(e.status, ControlsStatus::Paused);
    assert!(e.reset_timer && !e.start_eval && !e.beep);
    let e = controls_effect(ControlsStatus::Paused, true, ControlsAction::RunOrPause);
    assert_eq!(e.status, ControlsStatus::Running);
    let e = controls_effect(ControlsStatus::Running, true, ControlsAction::FastForward);
    assert_eq!(e.status, ControlsStatus::FastForwarding);
    assert!(!e.reset_timer);
    let e = controls_effect(ControlsStatus::Finished, true, ControlsAction::RunOrPause);
    assert_eq!(e.status, ControlsStatus::Finished);
    assert!(!e.start_eval && !e.stop_eval && !e.reset_timer);
}

#[test]
fn reset_stops_a_simulation() {
    let e = controls_effect(ControlsStatus::Finished, true, ControlsAction::Reset);
    assert_eq!(e.status, ControlsStatus::Stopped);
    assert!(e.stop_eval && e.beep);
    let e = controls_effect(ControlsStatus::Stopped, false, ControlsAction::Reset);
    assert_eq!(e.status, ControlsStatus::Stopped);
    assert!(!e.stop_eval && !e.beep);
}

#[test]
fn stepping_starts_paused_then_steps() {
    let e = controls_effect(ControlsStatus::Stopped, false, ControlsAction::StepCycle);
    assert_eq!(e.status, ControlsStatus::Paused);
    assert!(e.start_eval);
    assert_eq!(e.step, Some(StepKind::Cycle));
    let e = controls_effect(ControlsStatus::Paused, true, ControlsAction::StepSubcycle);
    assert_eq!(e.status, ControlsStatus::Paused);
    assert!(!e.start_eval);
    assert_eq!(e.step, Some(StepKind::Subcycle));
}

#[test]
fn simulation_outcomes() {
    let e = eval_effect(ControlsStatus::Running, EvalOutcome::Breakpoint);
    assert_eq!(e.status, ControlsStatus::Paused);
    assert!(e.reset_timer && !e.victory);
    let e = eval_effect(ControlsStatus::FastForwarding, EvalOutcome::Victory);
    assert_eq!(e.status, ControlsStatus::Stopped);
    assert!(e.stop_eval && e.victory);
    let e = eval_effect(ControlsStatus::Running, EvalOutcome::Failure);
    assert_eq!(e.status, ControlsStatus::Finished);
    let e = eval_effect(ControlsStatus::Running, EvalOutcome::Continue);
    assert_eq!(e.status, ControlsStatus::Running);
}

#[test]
fn status_stays_in_step_with_simulation() {
    let actions = [
        ControlsAction::FastForward,
        ControlsAction::Reset,
        ControlsAction::RunOrPause,
        ControlsAction::StepSubcycle,
        ControlsAction::StepCycle,
        ControlsAction::StepTime,
    ];
    let states = [
        (ControlsStatus::Stopped, false),
        (ControlsStatus::Running, true),
        (ControlsStatus::FastForwarding, true),
        (ControlsStatus::Paused, true),
        (ControlsStatus::Finished, true),
    ];
    for &(status, evaluating) in states.iter() {
        for &action in actions.iter() {
            let e = controls_effect(status, evaluating, action);
            let after = (evaluating || e.start_eval) && !e.stop_eval;
            assert_eq!(e.status == ControlsStatus::Stopped, !after);
        }
    }
}

#[test]
fn escape_key() {
    assert_eq!(escape_response(true), EscapeResponse::CancelInteraction);
    assert_eq!(escape_response(false), EscapeResponse::BackToMenu);
}

#[test]
fn grid_interactions() {
    assert!(!InteractionKind::Nothing.has_interaction());
    assert!(InteractionKind::RectSelected(CoordsRect::new(0, 0, 1, 1)).has_interaction());
    assert!(!InteractionKind::RectSelected(CoordsRect::new(0, 0, 1, 1)).is_dragging());
    assert!(InteractionKind::DraggingWires.is_dragging());
    assert_eq!(grid_hotkey_response(Hotkey::ZoomIn), GridHotkeyResponse::ZoomIn);
    assert_eq!(
        grid_hotkey_response(Hotkey::FlipVert),
        GridHotkeyResponse::Manipulate(ManipulationAction::FlipVert)
    );
    assert_eq!(grid_hotkey_response(Hotkey::EvalReset), GridHotkeyResponse::Ignore);
    let r = CoordsRect::new(1, 2, 3, 4);
    assert_eq!(manipulation_target(InteractionKind::RectSelected(r)), ManipulationTarget::SelectedRect(r));
    assert_eq!(manipulation_target(InteractionKind::DraggingChip), ManipulationTarget::DraggedChip);
    assert_eq!(manipulation_target(InteractionKind::SelectingRect), ManipulationTarget::NoTarget);
}

fn facts() -> PointFacts {
    PointFacts {
        evaluating: false,
        interactive_chip: false,
        on_chip: false,
        on_interface: false,
        near_vertex: false,
        in_bounds: false,
        handle: None,
    }
}

#[test]
fn grid_cursors() {
    let cell = Coords::new(0, 0);
    let nothing = InteractionKind::Nothing;
    assert_eq!(grid_cursor(nothing, facts(), cell), Cursor::Default);
    assert_eq!(grid_cursor(nothing, PointFacts { evaluating: true, ..facts() }, cell), Cursor::NoSign);
    assert_eq!(
        grid_cursor(nothing, PointFacts { evaluating: true, interactive_chip: true, ..facts() }, cell),
        Cursor::HandPointing
    );
    assert_eq!(grid_cursor(nothing, PointFacts { on_chip: true, near_vertex: true, ..facts() }, cell), Cursor::HandOpen);
    assert_eq!(grid_cursor(nothing, PointFacts { near_vertex: true, in_bounds: true, ..facts() }, cell), Cursor::Crosshair);
    assert_eq!(grid_cursor(nothing, PointFacts { in_bounds: true, ..facts() }, cell), Cursor::Wire);
    assert_eq!(
        grid_cursor(nothing, PointFacts { handle: Some(BoundsHandle::Top), ..facts() }, cell),
        Cursor::ResizeNorthSouth
    );
    let selected = InteractionKind::RectSelected(CoordsRect::new(0, 0, 2, 2));
    assert_eq!(grid_cursor(selected, facts(), Coords::new(1, 1)), Cursor::HandOpen);
    assert_eq!(grid_cursor(selected, facts(), Coords::new(2, 1)), Cursor::Default);
    assert_eq!(grid_cursor(InteractionKind::DraggingChip, facts(), cell), Cursor::Default);
}

#[test]
fn tooltip_hovering() {
    let mut t = tooltip_new();
    // Locked until the first event begins.
    assert_eq!(tooltip_hover_tag(&mut t, 1, 5, 5), HoverChange::Unchanged);
    assert_eq!(t.hover, None);
    tooltip_begin_event(&mut t);
    assert_eq!(tooltip_hover_tag(&mut t, 1, 5, 5), HoverChange::Restarted { redraw: false });
    // A second report in the same event is ignored.
    assert_eq!(tooltip_hover_tag(&mut t, 2, 9, 9), HoverChange::Unchanged);
    assert_eq!(t.hover, Some(Hover { tag: 1, x: 5, y: 5 }));
    assert!(tooltip_show(&mut t));
    assert!(t.shown);
    tooltip_begin_event(&mut t);
    assert_eq!(tooltip_hover_tag(&mut t, 1, 6, 5), HoverChange::Moved { redraw: true });
    assert!(t.shown);
    tooltip_begin_event(&mut t);
    assert_eq!(tooltip_hover_tag(&mut t, 3, 6, 5), HoverChange::Restarted { redraw: true });
    assert!(!t.shown);
    tooltip_begin_event(&mut t);
    assert!(!tooltip_hover_none(&mut t));
    assert_eq!(t.hover, None);
    assert!(!tooltip_show(&mut t));
}

#[test]
fn verification_tray_wraps_the_display() {
    let window = RectSize { width: 1024, height: 768 };
    assert_eq!(
        verification_tray_rect(window, RectSize { width: 200, height: 100 }),
        CoordsRect::new(1024 - 240, 768 - 140, 240, 160)
    );
    assert_eq!(
        verification_tray_rect(window, RectSize { width: 0, height: 100 }),
        CoordsRect::new(1024, 768, 0, 0)
    );
}

#[test]
fn circuit_events_keep_status_in_step() {
    let mut state = (ControlsStatus::Stopped, false);
    let events = [
        CircuitEvent::Press(ControlsAction::StepTime),
        CircuitEvent::Outcome(EvalOutcome::Continue),
        CircuitEvent::Press(ControlsAction::RunOrPause),
        CircuitEvent::Outcome(EvalOutcome::Breakpoint),
        CircuitEvent::Press(ControlsAction::FastForward),
        CircuitEvent::Outcome(EvalOutcome::Victory),
    ];
    let expected = [
        (ControlsStatus::Paused, true),
        (ControlsStatus::Paused, true),
        (ControlsStatus::Running, true),
        (ControlsStatus::Paused, true),
        (ControlsStatus::FastForwarding, true),
        (ControlsStatus::Stopped, false),
    ];
    for (ev, want) in events.iter().zip(expected.iter()) {
        state = circuit_step(state.0, state.1, *ev);
        assert_eq!(state, *want);
        assert_eq!(state.0 == ControlsStatus::Stopped, !state.1);
    }
    assert_eq!(circuit_step(ControlsStatus::Stopped, false, CircuitEvent::Outcome(EvalOutcome::Failure)), (ControlsStatus::Stopped, false));
}
