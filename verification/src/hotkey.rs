use vstd::prelude::*;

verus! {

/// The game actions that can be bound to keys (those that the views here
/// react to).
#[derive(Clone, Copy, Debug, PartialEq, Eq, Structural)]
pub enum Hotkey {
    EvalFastForward,
    EvalReset,
    EvalRunPause,
    EvalStepSubcycle,
    EvalStepCycle,
    EvalStepTime,
    FlipHorz,
    FlipVert,
    RotateCcw,
    RotateCw,
    ScrollDown,
    ScrollLeft,
    ScrollRight,
    ScrollUp,
    ZoomDefault,
    ZoomIn,
    ZoomOut,
}

/// The mouse cursor shapes that the views ask for.
#[derive(Clone, Copy, Debug, PartialEq, Eq, Structural)]
pub enum Cursor {
    Default,
    Crosshair,
    HandClosed,
    HandOpen,
    HandPointing,
    NoSign,
    ResizeEastWest,
    ResizeNorthSouth,
    ResizeNortheastSouthwest,
    ResizeNorthwestSoutheast,
    Wire,
}

} // verus!
