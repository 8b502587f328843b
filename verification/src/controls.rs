use vstd::prelude::*;
use crate::geom::{Coords, CoordsRect};
use crate::hotkey::Hotkey;

verus! {

pub const TOOLTIP_FAST_FORWARD: &'static str =
    "$*Fast-forward$* $>$G$*$[EvalFastForward]$*$D$<\n\
     Runs the simulation at increased speed.";
pub const TOOLTIP_RESET: &'static str = "$*Reset simulation$* $>$G$*$[EvalReset]$*$D$<\n\
     Resets the simulation back to the beginning and returns to edit mode.";
pub const TOOLTIP_RUN_PAUSE: &'static str = "$*Run/pause$* $>$G$*$[EvalRunPause]$*$D$<\n\
     Runs or pauses the simulation.";
pub const TOOLTIP_STEP_SUBCYCLE: &'static str =
    "$*Step forward one subcycle$* $>$G$*$[EvalStepSubcycle]$*$D$<\n\
     Runs the simulation forward by a single subcycle, then pauses.  This \
     allows you to see how data is flowing through your circuit, one chip at \
     a time.";
pub const TOOLTIP_STEP_CYCLE: &'static str =
    "$*Step forward one cycle$* $>$G$*$[EvalStepCycle]$*$D$<\n\
     Runs the simulation forward until the end of the current cycle, then \
     pauses.  This allows you to see event loops in your circuit, running \
     one iteration at a time.";
pub const TOOLTIP_STEP_TIME: &'static str =
    "$*Step forward one time step$* $>$G$*$[EvalStepTime]$*$D$<\n\
     Runs the simulation forward until the end of the current time step, \
     then pauses.";

/// The state of the circuit simulation, as the controls show it.
#[derive(Clone, Copy, Debug, PartialEq, Eq, Structural)]
pub enum ControlsStatus {
    Stopped,
    Running,
    FastForwarding,
    Paused,
    Finished,
}

/// The buttons of the simulation controls.
#[derive(Clone, Copy, Debug, PartialEq, Eq, Structural)]
pub enum ControlsAction {
    FastForward,
    Reset,
    RunOrPause,
    StepSubcycle,
    StepCycle,
    StepTime,
}

impl ControlsAction {
    pub open spec fn hotkey_spec(self) -> Hotkey {
        match self {
            ControlsAction::FastForward => Hotkey::EvalFastForward,
            ControlsAction::Reset => Hotkey::EvalReset,
            ControlsAction::RunOrPause => Hotkey::EvalRunPause,
            ControlsAction::StepSubcycle => Hotkey::EvalStepSubcycle,
            ControlsAction::StepCycle => Hotkey::EvalStepCycle,
            ControlsAction::StepTime => Hotkey::EvalStepTime,
        }
    }

    /// Which icon the button shows: run while the simulation is not
    /// moving, pause while it runs.
    pub open spec fn icon_index_spec(self, status: ControlsStatus) -> usize {
        match self {
            ControlsAction::FastForward => 3,
            ControlsAction::Reset => 2,
            ControlsAction::RunOrPause => match status {
                ControlsStatus::Stopped | ControlsStatus::Paused | ControlsStatus::Finished => 0,
                ControlsStatus::Running | ControlsStatus::FastForwarding => 1,
            },
            ControlsAction::StepSubcycle => 4,
            ControlsAction::StepCycle => 5,
            ControlsAction::StepTime => 6,
        }
    }

    pub open spec fn tooltip_spec(self) -> Seq<char> {
        match self {
            ControlsAction::FastForward => TOOLTIP_FAST_FORWARD@,
            ControlsAction::Reset => TOOLTIP_RESET@,
            ControlsAction::RunOrPause => TOOLTIP_RUN_PAUSE@,
            ControlsAction::StepSubcycle => TOOLTIP_STEP_SUBCYCLE@,
            ControlsAction::StepCycle => TOOLTIP_STEP_CYCLE@,
            ControlsAction::StepTime => TOOLTIP_STEP_TIME@,
        }
    }

    /// Whether the button can be used while the simulation is in `status`.
    pub open spec fn is_enabled_spec(self, status: ControlsStatus) -> bool {
        match self {
            ControlsAction::FastForward => status != ControlsStatus::Finished && status
                != ControlsStatus::FastForwarding,
            ControlsAction::Reset => status != ControlsStatus::Stopped,
            ControlsAction::RunOrPause => status != ControlsStatus::Finished,
            _ => status == ControlsStatus::Stopped || status == ControlsStatus::Paused,
        }
    }

    /// The hotkey that presses this button.
    pub fn hotkey(self) -> (h: Hotkey)
        ensures
            h == self.hotkey_spec(),
    {
        match self {
            ControlsAction::FastForward => Hotkey::EvalFastForward,
            ControlsAction::Reset => Hotkey::EvalReset,
            ControlsAction::RunOrPause => Hotkey::EvalRunPause,
            ControlsAction::StepSubcycle => Hotkey::EvalStepSubcycle,
            ControlsAction::StepCycle => Hotkey::EvalStepCycle,
            ControlsAction::StepTime => Hotkey::EvalStepTime,
        }
    }

    pub fn icon_index(self, status: ControlsStatus) -> (i: usize)
        ensures
            i == self.icon_index_spec(status),
    {
        match self {
            ControlsAction::FastForward => 3,
            ControlsAction::Reset => 2,
            ControlsAction::RunOrPause => {
                match status {
                    ControlsStatus::Stopped | ControlsStatus::Paused | ControlsStatus::Finished => 0,
                    ControlsStatus::Running | ControlsStatus::FastForwarding => 1,
                }
            },
            ControlsAction::StepSubcycle => 4,
            ControlsAction::StepCycle => 5,
            ControlsAction::StepTime => 6,
        }
    }

    /// The tooltip of this button, as a paragraph format string.
    pub fn tooltip_format(self) -> (f: &'static str)
        ensures
            f@ == self.tooltip_spec(),
    {
        match self {
            ControlsAction::FastForward => TOOLTIP_FAST_FORWARD,
            ControlsAction::Reset => TOOLTIP_RESET,
            ControlsAction::RunOrPause => TOOLTIP_RUN_PAUSE,
            ControlsAction::StepSubcycle => TOOLTIP_STEP_SUBCYCLE,
            ControlsAction::StepCycle => TOOLTIP_STEP_CYCLE,
            ControlsAction::StepTime => TOOLTIP_STEP_TIME,
        }
    }

    pub fn is_enabled(self, status: ControlsStatus) -> (b: bool)
        ensures
            b == self.is_enabled_spec(status),
    {
        match self {
            ControlsAction::FastForward => status != ControlsStatus::Finished && status
                != ControlsStatus::FastForwarding,
            ControlsAction::Reset => status != ControlsStatus::Stopped,
            ControlsAction::RunOrPause => status != ControlsStatus::Finished,
            _ => status == ControlsStatus::Stopped || status == ControlsStatus::Paused,
        }
    }
}

/// Whether pressing a control button (by its hotkey or by clicking it)
/// triggers its action: only while the controls are not disabled (by
/// circuit errors or an ongoing edit) and the button is enabled.
pub fn button_press(action: ControlsAction, status: ControlsStatus, controls_disabled: bool) -> (r: Option<ControlsAction>)
    ensures
        r == (if !controls_disabled && action.is_enabled_spec(status) {
            Some(action)
        } else {
            None
        }),
{
    if !controls_disabled && action.is_enabled(status) {
        Some(action)
    } else {
        None
    }
}

/// An event as the controls tray sees it, with points relative to the
/// tray's current slide position and keys by their key codes.
#[derive(Clone, Copy, Debug, PartialEq, Eq, Structural)]
pub enum TrayEvent {
    KeyDown(u32),
    MouseDown(Coords, bool),
    Scroll(Coords),
    Other,
}

/// A button of the controls tray: its action, where it is, and the code of
/// the key bound to its hotkey.
#[derive(Clone, Copy, Debug, PartialEq, Eq, Structural)]
pub struct TrayButton {
    pub action: ControlsAction,
    pub rect: CoordsRect,
    pub key: u32,
}

/// Whether `event` presses `button`: a key down of its hotkey's key, or a
/// left click inside it, while the controls are not disabled and the
/// button is enabled.
pub open spec fn presses(button: TrayButton, status: ControlsStatus, disabled: bool, event: TrayEvent) -> bool {
    &&& !disabled
    &&& button.action.is_enabled_spec(status)
    &&& match event {
        TrayEvent::KeyDown(k) => k == button.key,
        TrayEvent::MouseDown(p, left) => left && button.rect.contains_spec(p),
        _ => false,
    }
}

/// The action of the first of `buttons` that `event` presses.
pub open spec fn first_pressed(
    buttons: Seq<TrayButton>,
    status: ControlsStatus,
    disabled: bool,
    event: TrayEvent,
) -> Option<ControlsAction>
    decreases buttons.len(),
{
    if buttons.len() == 0 {
        None
    } else if presses(buttons[0], status, disabled, event) {
        Some(buttons[0].action)
    } else {
        first_pressed(buttons.drop_first(), status, disabled, event)
    }
}

pub open spec fn controls_tray_event_spec(
    buttons: Seq<TrayButton>,
    tray: CoordsRect,
    tab_hit: bool,
    status: ControlsStatus,
    has_errors: bool,
    is_interacting: bool,
    event: TrayEvent,
) -> Option<Option<ControlsAction>> {
    match first_pressed(buttons, status, has_errors || is_interacting, event) {
        Some(a) => Some(Some(a)),
        None => match event {
            TrayEvent::MouseDown(p, _) => if tab_hit || tray.contains_spec(p) {
                Some(None)
            } else {
                None
            },
            TrayEvent::Scroll(p) => if tray.contains_spec(p) {
                Some(None)
            } else {
                None
            },
            _ => None,
        },
    }
}

/// What the controls tray makes of an event: `Some(Some(a))` when it
/// presses the button of action `a` (the first in order that it presses;
/// the controls are disabled while the circuit has errors or is being
/// edited); `Some(None)` when the tray takes the event without an action,
/// a mouse button going down on its tab (`tab_hit`, which also slides the
/// tray in or out) or in the tray, or a scroll in the tray; `None` when the
/// event is left to the views below.
pub fn controls_tray_event(
    buttons: &Vec<TrayButton>,
    tray: CoordsRect,
    tab_hit: bool,
    status: ControlsStatus,
    has_errors: bool,
    is_interacting: bool,
    event: TrayEvent,
) -> (r: Option<Option<ControlsAction>>)
    ensures
        r == controls_tray_event_spec(buttons@, tray, tab_hit, status, has_errors, is_interacting, event),
{
    let disabled = has_errors || is_interacting;
    let n = buttons.len();
    let mut i: usize = 0;
    assert(buttons@.subrange(0, n as int) =~= buttons@);
    while i < n
        invariant
            n == buttons@.len(),
            i <= n,
            disabled == (has_errors || is_interacting),
            first_pressed(buttons@, status, disabled, event) == first_pressed(
                buttons@.subrange(i as int, n as int),
                status,
                disabled,
                event,
            ),
        decreases n - i,
    {
        let b = buttons[i];
        let ghost rest = buttons@.subrange(i as int, n as int);
        assert(rest[0] == b);
        assert(rest.drop_first() =~= buttons@.subrange(i + 1, n as int));
        let hit = match event {
            TrayEvent::KeyDown(k) => k == b.key,
            TrayEvent::MouseDown(p, left) => left && b.rect.contains_point(p),
            _ => false,
        };
        assert(hit == match event {
            TrayEvent::KeyDown(k) => k == b.key,
            TrayEvent::MouseDown(p, left) => left && b.rect.contains_spec(p),
            _ => false,
        });
        if !disabled && b.action.is_enabled(status) && hit {
            assert(presses(rest[0], status, disabled, event));
            assert(rest.len() > 0);
            assert(first_pressed(rest, status, disabled, event) == Some(b.action));
            return Some(Some(b.action));
        }
        assert(!presses(rest[0], status, disabled, event));
        i = i + 1;
    }
    assert(buttons@.subrange(n as int, n as int).len() == 0);
    match event {
        TrayEvent::MouseDown(p, _) => {
            if tab_hit || tray.contains_point(p) {
                Some(None)
            } else {
                None
            }
        },
        TrayEvent::Scroll(p) => {
            if tray.contains_point(p) {
                Some(None)
            } else {
                None
            }
        },
        _ => None,
    }
}

pub const RUN_BUTTON_SIZE: i32 = 60;
pub const BUTTON_WIDTH: i32 = 48;
pub const BUTTON_HEIGHT: i32 = 32;
pub const BUTTON_SPACING: i32 = 8;
pub const TRAY_EXTRA_HIDDEN_HEIGHT: i32 = 20;
pub const TRAY_INNER_MARGIN: i32 = 12;

pub open spec fn rect_of(x: int, y: int, w: int, h: int) -> CoordsRect {
    CoordsRect { x: x as i32, y: y as i32, width: w as i32, height: h as i32 }
}

/// The layout of the controls tray in a window `window_height` pixels
/// tall: the run button at the bottom left, fast-forward and reset to its
/// right, and above it the step buttons (the cycle step only for puzzles
/// with events), all inside the tray rectangle.
pub open spec fn controls_layout_spec(window_height: int, show_cycle_count: bool) -> (CoordsRect, Seq<(ControlsAction, CoordsRect)>) {
    let h = window_height;
    let row_top = h - 58;
    let col_top = h - 112;
    let subcycle_top = if show_cycle_count { col_top - 80 } else { col_top - 40 };
    let base = seq![
        (ControlsAction::RunOrPause, rect_of(12, h - 72, 60, 60)),
        (ControlsAction::FastForward, rect_of(80, row_top, 48, 32)),
        (ControlsAction::Reset, rect_of(136, row_top, 48, 32)),
        (ControlsAction::StepTime, rect_of(18, col_top, 48, 32)),
    ];
    let buttons = if show_cycle_count {
        base.push((ControlsAction::StepCycle, rect_of(18, col_top - 40, 48, 32))).push(
            (ControlsAction::StepSubcycle, rect_of(18, subcycle_top, 48, 32)),
        )
    } else {
        base.push((ControlsAction::StepSubcycle, rect_of(18, subcycle_top, 48, 32)))
    };
    let tray_top = subcycle_top - 12;
    (rect_of(0, tray_top, 196, h - tray_top + 20), buttons)
}

/// Lays out the controls tray and its buttons.
pub fn controls_layout(window_height: i32, show_cycle_count: bool) -> (res: (
    CoordsRect,
    Vec<(ControlsAction, CoordsRect)>,
))
    requires
        -0x1000_0000 <= window_height <= 0x1000_0000,
    ensures
        res.0 == controls_layout_spec(window_height as int, show_cycle_count).0,
        res.1@ == controls_layout_spec(window_height as int, show_cycle_count).1,
{
    let mut buttons: Vec<(ControlsAction, CoordsRect)> = Vec::new();
    let mut button_left = TRAY_INNER_MARGIN;
    buttons.push(
        (
            ControlsAction::RunOrPause,
            CoordsRect::new(
                TRAY_INNER_MARGIN,
                window_height - (RUN_BUTTON_SIZE + TRAY_INNER_MARGIN),
                RUN_BUTTON_SIZE,
                RUN_BUTTON_SIZE,
            ),
        ),
    );
    button_left += RUN_BUTTON_SIZE + BUTTON_SPACING;
    let button_top = window_height - (BUTTON_HEIGHT / 2 + RUN_BUTTON_SIZE / 2 + TRAY_INNER_MARGIN);
    buttons.push(
        (
            ControlsAction::FastForward,
            CoordsRect::new(button_left, button_top, BUTTON_WIDTH, BUTTON_HEIGHT),
        ),
    );
    button_left += BUTTON_WIDTH + BUTTON_SPACING;
    buttons.push(
        (ControlsAction::Reset, CoordsRect::new(button_left, button_top, BUTTON_WIDTH, BUTTON_HEIGHT)),
    );
    let tray_width = button_left + BUTTON_WIDTH + TRAY_INNER_MARGIN;
    let button_left = TRAY_INNER_MARGIN + RUN_BUTTON_SIZE / 2 - BUTTON_WIDTH / 2;
    let mut button_top = window_height - (BUTTON_HEIGHT + BUTTON_SPACING + RUN_BUTTON_SIZE
        + TRAY_INNER_MARGIN);
    buttons.push(
        (
            ControlsAction::StepTime,
            CoordsRect::new(button_left, button_top, BUTTON_WIDTH, BUTTON_HEIGHT),
        ),
    );
    if show_cycle_count {
        button_top -= BUTTON_HEIGHT + BUTTON_SPACING;
        buttons.push(
            (
                ControlsAction::StepCycle,
                CoordsRect::new(button_left, button_top, BUTTON_WIDTH, BUTTON_HEIGHT),
            ),
        );
    }
    button_top -= BUTTON_HEIGHT + BUTTON_SPACING;
    buttons.push(
        (
            ControlsAction::StepSubcycle,
            CoordsRect::new(button_left, button_top, BUTTON_WIDTH, BUTTON_HEIGHT),
        ),
    );
    let tray_top = button_top - TRAY_INNER_MARGIN;
    let rect = CoordsRect::new(
        0,
        tray_top,
        tray_width,
        window_height - tray_top + TRAY_EXTRA_HIDDEN_HEIGHT,
    );
    let ghost spec = controls_layout_spec(window_height as int, show_cycle_count);
    assert(buttons@ =~= spec.1);
    (rect, buttons)
}

} // verus!
