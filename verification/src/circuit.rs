use vstd::prelude::*;
use crate::bounds::BoundsHandle;
use crate::controls::{ControlsAction, ControlsStatus};
use crate::geom::{Coords, CoordsRect, COORD_LIMIT};
use crate::hotkey::{Cursor, Hotkey};
use crate::manip::ManipulationAction;
use crate::prefs::RectSize;

verus! {

//---------------------------------------------------------------------------//
// The simulation controls

/// How far one press of a step button runs the simulation.
#[derive(Clone, Copy, Debug, PartialEq, Eq, Structural)]
pub enum StepKind {
    TimeStep,
    Cycle,
    Subcycle,
}

/// What the circuit view does in response to a simulation control: the
/// status it moves to, whether it starts or stops the simulation, cancels
/// the editing interaction under way, beeps, restarts the time-step timer,
/// and how far it steps the simulation.
#[derive(Clone, Copy, Debug, PartialEq, Eq, Structural)]
pub struct ControlsEffect {
    pub status: ControlsStatus,
    pub start_eval: bool,
    pub stop_eval: bool,
    pub cancel_interaction: bool,
    pub beep: bool,
    pub reset_timer: bool,
    pub step: Option<StepKind>,
}

pub open spec fn no_effect(status: ControlsStatus) -> ControlsEffect {
    ControlsEffect {
        status,
        start_eval: false,
        stop_eval: false,
        cancel_interaction: false,
        beep: false,
        reset_timer: false,
        step: None,
    }
}

/// Starting the simulation from the editor: the interaction under way is
/// cancelled, a beep sounds, and the simulation starts in `status`.
pub open spec fn start_effect(status: ControlsStatus, step: Option<StepKind>) -> ControlsEffect {
    ControlsEffect {
        status,
        start_eval: true,
        stop_eval: false,
        cancel_interaction: true,
        beep: true,
        reset_timer: true,
        step,
    }
}

pub open spec fn switch_effect(status: ControlsStatus, reset_timer: bool) -> ControlsEffect {
    ControlsEffect {
        status,
        start_eval: false,
        stop_eval: false,
        cancel_interaction: false,
        beep: false,
        reset_timer,
        step: None,
    }
}

pub open spec fn step_kind_of(action: ControlsAction) -> Option<StepKind> {
    match action {
        ControlsAction::StepTime => Some(StepKind::TimeStep),
        ControlsAction::StepCycle => Some(StepKind::Cycle),
        ControlsAction::StepSubcycle => Some(StepKind::Subcycle),
        _ => None,
    }
}

/// The effect of pressing a control button while the controls show
/// `status` (`evaluating` when a simulation exists).
pub open spec fn controls_effect_spec(
    status: ControlsStatus,
    evaluating: bool,
    action: ControlsAction,
) -> ControlsEffect {
    match action {
        ControlsAction::FastForward => match status {
            ControlsStatus::Stopped => start_effect(ControlsStatus::FastForwarding, None),
            ControlsStatus::Running => switch_effect(ControlsStatus::FastForwarding, false),
            ControlsStatus::Paused => switch_effect(ControlsStatus::FastForwarding, true),
            _ => no_effect(status),
        },
        ControlsAction::Reset => if evaluating {
            ControlsEffect {
                status: ControlsStatus::Stopped,
                start_eval: false,
                stop_eval: true,
                cancel_interaction: false,
                beep: true,
                reset_timer: true,
                step: None,
            }
        } else {
            no_effect(status)
        },
        ControlsAction::RunOrPause => match status {
            ControlsStatus::Stopped => start_effect(ControlsStatus::Running, None),
            ControlsStatus::Running | ControlsStatus::FastForwarding => switch_effect(
                ControlsStatus::Paused,
                true,
            ),
            ControlsStatus::Paused => switch_effect(ControlsStatus::Running, true),
            ControlsStatus::Finished => no_effect(status),
        },
        _ => if !evaluating {
            start_effect(ControlsStatus::Paused, step_kind_of(action))
        } else {
            ControlsEffect { step: step_kind_of(action), ..no_effect(status) }
        },
    }
}

pub fn controls_effect(status: ControlsStatus, evaluating: bool, action: ControlsAction) -> (e:
    ControlsEffect)
    ensures
        e == controls_effect_spec(status, evaluating, action),
{
    let none = ControlsEffect {
        status,
        start_eval: false,
        stop_eval: false,
        cancel_interaction: false,
        beep: false,
        reset_timer: false,
        step: None,
    };
    match action {
        ControlsAction::FastForward => match status {
            ControlsStatus::Stopped => ControlsEffect {
                status: ControlsStatus::FastForwarding,
                start_eval: true,
                stop_eval: false,
                cancel_interaction: true,
                beep: true,
                reset_timer: true,
                step: None,
            },
            ControlsStatus::Running => ControlsEffect {
                status: ControlsStatus::FastForwarding,
                ..none
            },
            ControlsStatus::Paused => ControlsEffect {
                status: ControlsStatus::FastForwarding,
                reset_timer: true,
                ..none
            },
            _ => none,
        },
        ControlsAction::Reset => {
            if evaluating {
                ControlsEffect {
                    status: ControlsStatus::Stopped,
                    stop_eval: true,
                    beep: true,
                    reset_timer: true,
                    ..none
                }
            } else {
                none
            }
        },
        ControlsAction::RunOrPause => match status {
            ControlsStatus::Stopped => ControlsEffect {
                status: ControlsStatus::Running,
                start_eval: true,
                cancel_interaction: true,
                beep: true,
                reset_timer: true,
                ..none
            },
            ControlsStatus::Running | ControlsStatus::FastForwarding => ControlsEffect {
                status: ControlsStatus::Paused,
                reset_timer: true,
                ..none
            },
            ControlsStatus::Paused => ControlsEffect {
                status: ControlsStatus::Running,
                reset_timer: true,
                ..none
            },
            ControlsStatus::Finished => none,
        },
        _ => {
            let step = match action {
                ControlsAction::StepTime => StepKind::TimeStep,
                ControlsAction::StepCycle => StepKind::Cycle,
                _ => StepKind::Subcycle,
            };
            if !evaluating {
                ControlsEffect {
                    status: ControlsStatus::Paused,
                    start_eval: true,
                    cancel_interaction: true,
                    beep: true,
                    reset_timer: true,
                    step: Some(step),
                    ..none
                }
            } else {
                ControlsEffect { step: Some(step), ..none }
            }
        },
    }
}

/// How a run of the simulation (a time step, cycle or subcycle) ended.
#[derive(Clone, Copy, Debug, PartialEq, Eq, Structural)]
pub enum EvalOutcome {
    Continue,
    Breakpoint,
    Victory,
    Failure,
}

/// What the view does when the simulation reports an outcome: a breakpoint
/// pauses (restarting the timer), a victory stops the simulation and
/// reports the solution, a failure finishes it, anything else changes
/// nothing.
#[derive(Clone, Copy, Debug, PartialEq, Eq, Structural)]
pub struct EvalEffect {
    pub status: ControlsStatus,
    pub stop_eval: bool,
    pub reset_timer: bool,
    pub victory: bool,
}

pub open spec fn eval_effect_spec(status: ControlsStatus, outcome: EvalOutcome) -> EvalEffect {
    match outcome {
        EvalOutcome::Continue => EvalEffect { status, stop_eval: false, reset_timer: false, victory: false },
        EvalOutcome::Breakpoint => EvalEffect {
            status: ControlsStatus::Paused,
            stop_eval: false,
            reset_timer: true,
            victory: false,
        },
        EvalOutcome::Victory => EvalEffect {
            status: ControlsStatus::Stopped,
            stop_eval: true,
            reset_timer: false,
            victory: true,
        },
        EvalOutcome::Failure => EvalEffect {
            status: ControlsStatus::Finished,
            stop_eval: false,
            reset_timer: false,
            victory: false,
        },
    }
}

pub fn eval_effect(status: ControlsStatus, outcome: EvalOutcome) -> (e: EvalEffect)
    ensures
        e == eval_effect_spec(status, outcome),
{
    match outcome {
        EvalOutcome::Continue => EvalEffect { status, stop_eval: false, reset_timer: false, victory: false },
        EvalOutcome::Breakpoint => EvalEffect {
            status: ControlsStatus::Paused,
            stop_eval: false,
            reset_timer: true,
            victory: false,
        },
        EvalOutcome::Victory => EvalEffect {
            status: ControlsStatus::Stopped,
            stop_eval: true,
            reset_timer: false,
            victory: true,
        },
        EvalOutcome::Failure => EvalEffect {
            status: ControlsStatus::Finished,
            stop_eval: false,
            reset_timer: false,
            victory: false,
        },
    }
}

/// The controls show "stopped" exactly when no simulation exists.
pub open spec fn status_matches_eval(status: ControlsStatus, evaluating: bool) -> bool {
    (status == ControlsStatus::Stopped) == !evaluating
}

/// Whether a simulation exists after an effect that starts or stops one.
pub open spec fn evaluating_after(evaluating: bool, start: bool, stop: bool) -> bool {
    (evaluating || start) && !stop
}

/// Every control press keeps the controls' status in step with whether a
/// simulation exists: they show "stopped" exactly when there is none.
pub proof fn lemma_controls_keep_status_in_step(
    status: ControlsStatus,
    evaluating: bool,
    action: ControlsAction,
)
    requires
        status_matches_eval(status, evaluating),
    ensures
        ({
            let e = controls_effect_spec(status, evaluating, action);
            status_matches_eval(e.status, evaluating_after(evaluating, e.start_eval, e.stop_eval))
        }),
{
}

/// Every outcome a running simulation reports keeps the controls' status
/// in step with whether a simulation exists.
pub proof fn lemma_eval_keeps_status_in_step(status: ControlsStatus, outcome: EvalOutcome)
    requires
        status_matches_eval(status, true),
    ensures
        ({
            let e = eval_effect_spec(status, outcome);
            status_matches_eval(e.status, evaluating_after(true, false, e.stop_eval))
        }),
{
}

/// What changes the simulation's status in the circuit view: a press of a
/// control button (by click or hotkey), or an outcome that the running
/// simulation reports (on a clock tick or after a step).
#[derive(Clone, Copy, Debug, PartialEq, Eq, Structural)]
pub enum CircuitEvent {
    Press(ControlsAction),
    Outcome(EvalOutcome),
}

/// The controls' status and whether a simulation exists after `event`.
/// Outcomes come only from a running simulation; without one, an outcome
/// changes nothing.
pub open spec fn circuit_step_spec(status: ControlsStatus, evaluating: bool, event: CircuitEvent) -> (
    ControlsStatus,
    bool,
) {
    match event {
        CircuitEvent::Press(a) => {
            let e = controls_effect_spec(status, evaluating, a);
            (e.status, evaluating_after(evaluating, e.start_eval, e.stop_eval))
        },
        CircuitEvent::Outcome(o) => if evaluating {
            let e = eval_effect_spec(status, o);
            (e.status, evaluating_after(true, false, e.stop_eval))
        } else {
            (status, evaluating)
        },
    }
}

/// The controls' status and whether a simulation exists after `event`.
pub fn circuit_step(status: ControlsStatus, evaluating: bool, event: CircuitEvent) -> (r: (
    ControlsStatus,
    bool,
))
    ensures
        r == circuit_step_spec(status, evaluating, event),
{
    match event {
        CircuitEvent::Press(a) => {
            let e = controls_effect(status, evaluating, a);
            (e.status, (evaluating || e.start_eval) && !e.stop_eval)
        },
        CircuitEvent::Outcome(o) => {
            if evaluating {
                let e = eval_effect(status, o);
                (e.status, !e.stop_eval)
            } else {
                (status, evaluating)
            }
        },
    }
}

/// The status and simulation after a run of events, in order.
pub open spec fn run_events(status: ControlsStatus, evaluating: bool, events: Seq<CircuitEvent>) -> (
    ControlsStatus,
    bool,
)
    decreases events.len(),
{
    if events.len() == 0 {
        (status, evaluating)
    } else {
        let next = circuit_step_spec(status, evaluating, events[0]);
        run_events(next.0, next.1, events.drop_first())
    }
}

/// However the circuit view's events follow one another, the controls show
/// "stopped" exactly when no simulation exists, if they did at the start.
pub proof fn lemma_status_in_step_over_events(
    status: ControlsStatus,
    evaluating: bool,
    events: Seq<CircuitEvent>,
)
    requires
        status_matches_eval(status, evaluating),
    ensures
        status_matches_eval(run_events(status, evaluating, events).0, run_events(status, evaluating, events).1),
    decreases events.len(),
{
    if events.len() > 0 {
        match events[0] {
            CircuitEvent::Press(a) => lemma_controls_keep_status_in_step(status, evaluating, a),
            CircuitEvent::Outcome(o) => if evaluating {
                lemma_eval_keeps_status_in_step(status, o);
            },
        }
        let next = circuit_step_spec(status, evaluating, events[0]);
        lemma_status_in_step_over_events(next.0, next.1, events.drop_first());
    }
}

/// What the Escape key does in the circuit view: it cancels the editing
/// interaction under way, or, when there is none, goes back to the menu.
#[derive(Clone, Copy, Debug, PartialEq, Eq, Structural)]
pub enum EscapeResponse {
    CancelInteraction,
    BackToMenu,
}

pub fn escape_response(has_interaction: bool) -> (r: EscapeResponse)
    ensures
        has_interaction ==> r == EscapeResponse::CancelInteraction,
        !has_interaction ==> r == EscapeResponse::BackToMenu,
{
    if has_interaction {
        EscapeResponse::CancelInteraction
    } else {
        EscapeResponse::BackToMenu
    }
}

//---------------------------------------------------------------------------//
// The editing grid

/// What the editing grid is doing with the mouse.
#[derive(Clone, Copy, Debug, PartialEq, Eq, Structural)]
pub enum InteractionKind {
    Nothing,
    DraggingBounds,
    DraggingChip,
    SelectingRect,
    RectSelected(CoordsRect),
    DraggingSelection,
    DraggingWires,
}

impl InteractionKind {
    pub open spec fn has_interaction_spec(self) -> bool {
        !(self is Nothing)
    }

    pub open spec fn is_dragging_spec(self) -> bool {
        !(self is Nothing) && !(self is RectSelected)
    }

    pub fn has_interaction(self) -> (b: bool)
        ensures
            b == self.has_interaction_spec(),
    {
        match self {
            InteractionKind::Nothing => false,
            _ => true,
        }
    }

    /// Whether the mouse is dragging something (a selected rectangle alone
    /// is no drag).
    pub fn is_dragging(self) -> (b: bool)
        ensures
            b == self.is_dragging_spec(),
    {
        match self {
            InteractionKind::Nothing | InteractionKind::RectSelected(_) => false,
            _ => true,
        }
    }
}

/// What a hotkey does to the editing grid.
#[derive(Clone, Copy, Debug, PartialEq, Eq, Structural)]
pub enum GridHotkeyResponse {
    ZoomIn,
    ZoomOut,
    ZoomDefault,
    Manipulate(ManipulationAction),
    Ignore,
}

pub open spec fn grid_hotkey_response_spec(hotkey: Hotkey) -> GridHotkeyResponse {
    if hotkey == Hotkey::ZoomIn {
        GridHotkeyResponse::ZoomIn
    } else if hotkey == Hotkey::ZoomOut {
        GridHotkeyResponse::ZoomOut
    } else if hotkey == Hotkey::ZoomDefault {
        GridHotkeyResponse::ZoomDefault
    } else {
        match ManipulationAction::from_hotkey_spec(hotkey) {
            Some(a) => GridHotkeyResponse::Manipulate(a),
            None => GridHotkeyResponse::Ignore,
        }
    }
}

pub fn grid_hotkey_response(hotkey: Hotkey) -> (r: GridHotkeyResponse)
    ensures
        r == grid_hotkey_response_spec(hotkey),
{
    if hotkey == Hotkey::ZoomIn {
        GridHotkeyResponse::ZoomIn
    } else if hotkey == Hotkey::ZoomOut {
        GridHotkeyResponse::ZoomOut
    } else if hotkey == Hotkey::ZoomDefault {
        GridHotkeyResponse::ZoomDefault
    } else {
        match ManipulationAction::from_hotkey(hotkey) {
            Some(a) => GridHotkeyResponse::Manipulate(a),
            None => GridHotkeyResponse::Ignore,
        }
    }
}

/// What a flip or turn applies to: the chip or selection being dragged, or
/// the selected rectangle of the grid; nothing otherwise.
#[derive(Clone, Copy, Debug, PartialEq, Eq, Structural)]
pub enum ManipulationTarget {
    DraggedChip,
    DraggedSelection,
    SelectedRect(CoordsRect),
    NoTarget,
}

pub fn manipulation_target(kind: InteractionKind) -> (t: ManipulationTarget)
    ensures
        kind is DraggingChip ==> t == ManipulationTarget::DraggedChip,
        kind is DraggingSelection ==> t == ManipulationTarget::DraggedSelection,
        kind matches InteractionKind::RectSelected(r) ==> t == ManipulationTarget::SelectedRect(r),
        !(kind is DraggingChip || kind is DraggingSelection || kind is RectSelected) ==> t
            == ManipulationTarget::NoTarget,
{
    match kind {
        InteractionKind::DraggingChip => ManipulationTarget::DraggedChip,
        InteractionKind::DraggingSelection => ManipulationTarget::DraggedSelection,
        InteractionKind::RectSelected(r) => ManipulationTarget::SelectedRect(r),
        _ => ManipulationTarget::NoTarget,
    }
}

/// What lies under the mouse on the grid, as far as the cursor depends on
/// it: whether a simulation runs, whether the chip under the mouse is one
/// the player can press while it runs (a break, button, screen or toggle),
/// whether the point is on a chip's body or an interface's body, near a
/// vertex of the grid where a rectangle selection can start, inside the
/// circuit's bounds, and on which bounds handle, if any.
#[derive(Clone, Copy, Debug, PartialEq, Eq, Structural)]
pub struct PointFacts {
    pub evaluating: bool,
    pub interactive_chip: bool,
    pub on_chip: bool,
    pub on_interface: bool,
    pub near_vertex: bool,
    pub in_bounds: bool,
    pub handle: Option<BoundsHandle>,
}

/// The cursor over grid cell `cell`, with `facts` about the point under
/// the mouse, while the grid is doing `kind`.
pub open spec fn grid_cursor_spec(kind: InteractionKind, facts: PointFacts, cell: Coords) -> Cursor {
    match kind {
        InteractionKind::Nothing => if facts.evaluating {
            if facts.interactive_chip {
                Cursor::HandPointing
            } else {
                Cursor::NoSign
            }
        } else if facts.on_chip || facts.on_interface {
            Cursor::HandOpen
        } else if facts.near_vertex {
            Cursor::Crosshair
        } else if facts.in_bounds {
            Cursor::Wire
        } else {
            match facts.handle {
                Some(h) => h.cursor_spec(),
                None => Cursor::Default,
            }
        },
        InteractionKind::RectSelected(rect) => if rect.contains_spec(cell) {
            Cursor::HandOpen
        } else {
            Cursor::Default
        },
        _ => Cursor::Default,
    }
}

pub fn grid_cursor(kind: InteractionKind, facts: PointFacts, cell: Coords) -> (c: Cursor)
    ensures
        c == grid_cursor_spec(kind, facts, cell),
{
    match kind {
        InteractionKind::Nothing => {
            if facts.evaluating {
                if facts.interactive_chip {
                    return Cursor::HandPointing;
                }
                return Cursor::NoSign;
            }
            if facts.on_chip || facts.on_interface {
                return Cursor::HandOpen;
            }
            if facts.near_vertex {
                return Cursor::Crosshair;
            }
            if facts.in_bounds {
                return Cursor::Wire;
            }
            match facts.handle {
                Some(h) => h.cursor(),
                None => Cursor::Default,
            }
        },
        InteractionKind::RectSelected(rect) => {
            if rect.contains_point(cell) {
                Cursor::HandOpen
            } else {
                Cursor::Default
            }
        },
        _ => Cursor::Default,
    }
}

//---------------------------------------------------------------------------//
// The verification tray

/// Space between the tray's edge and the verification display inside it.
pub const VERIFY_TRAY_MARGIN: i32 = 20;

/// How far the tray reaches below the bottom of the window, so that its
/// lower corners stay hidden.
pub const VERIFY_TRAY_HIDDEN_HEIGHT: i32 = 20;

pub open spec fn verification_tray_rect_spec(window: RectSize, display: RectSize) -> CoordsRect {
    if display.width <= 0 || display.height <= 0 {
        CoordsRect { x: window.width, y: window.height, width: 0, height: 0 }
    } else {
        let w = display.width + 2 * VERIFY_TRAY_MARGIN;
        let h = display.height + 2 * VERIFY_TRAY_MARGIN;
        CoordsRect {
            x: (window.width - w) as i32,
            y: (window.height - h) as i32,
            width: w as i32,
            height: (h + VERIFY_TRAY_HIDDEN_HEIGHT) as i32,
        }
    }
}

/// Where the verification tray sits in a window of size `window`, for a
/// puzzle whose verification display has size `display`: in the
/// bottom-right corner, around the display with a margin; a puzzle with no
/// display gets an empty tray at the window's corner.
pub fn verification_tray_rect(window: RectSize, display: RectSize) -> (r: CoordsRect)
    requires
        0 <= window.width <= COORD_LIMIT,
        0 <= window.height <= COORD_LIMIT,
        display.width <= COORD_LIMIT,
        display.height <= COORD_LIMIT,
    ensures
        r == verification_tray_rect_spec(window, display),
{
    if display.width <= 0 || display.height <= 0 {
        CoordsRect { x: window.width, y: window.height, width: 0, height: 0 }
    } else {
        let w = display.width + 2 * VERIFY_TRAY_MARGIN;
        let h = display.height + 2 * VERIFY_TRAY_MARGIN;
        CoordsRect {
            x: window.width - w,
            y: window.height - h,
            width: w,
            height: h + VERIFY_TRAY_HIDDEN_HEIGHT,
        }
    }
}

} // verus!
