use vstd::prelude::*;
use crate::geom::CoordsRect;
use crate::hotkey::Hotkey;

verus! {

/// The radius, in screen pixels, of a round manipulation button.
pub const BUTTON_RADIUS: i32 = 16;

pub const TOOLTIP_FLIP_HORZ: &'static str =
    "$*Flip horizontally$* $>$G$*$[FlipHorz]$*$D$<\n\
     Flips the selection horizontally.\n\
     You can also use the hotkey $[FlipHorz] while dragging.";
pub const TOOLTIP_FLIP_VERT: &'static str =
    "$*Flip vertically$* $>$G$*$[FlipVert]$*$D$<\n\
     Flips the selection vertically.\n\
     You can also use the hotkey $[FlipVert] while dragging.";
pub const TOOLTIP_ROTATE_CCW: &'static str =
    "$*Rotate counterclockwise$* $>$G$*$[RotateCcw]$*$D$<\n\
     Rotates the selection 90° counterclockwise.\n\
     You can also use the hotkey $[RotateCcw] while dragging.";
pub const TOOLTIP_ROTATE_CW: &'static str =
    "$*Rotate clockwise$* $>$G$*$[RotateCw]$*$D$<\n\
     Rotates the selection 90° clockwise.\n\
     You can also use the hotkey $[RotateCw] while dragging.";

/// The ways a selection can be flipped or rotated.
#[derive(Clone, Copy, Debug, PartialEq, Eq, Structural)]
pub enum ManipulationAction {
    FlipHorz,
    FlipVert,
    RotateCcw,
    RotateCw,
}

impl ManipulationAction {
    pub open spec fn from_hotkey_spec(hotkey: Hotkey) -> Option<ManipulationAction> {
        match hotkey {
            Hotkey::FlipHorz => Some(ManipulationAction::FlipHorz),
            Hotkey::FlipVert => Some(ManipulationAction::FlipVert),
            Hotkey::RotateCcw => Some(ManipulationAction::RotateCcw),
            Hotkey::RotateCw => Some(ManipulationAction::RotateCw),
            _ => None,
        }
    }

    pub open spec fn icon_index_spec(self) -> usize {
        match self {
            ManipulationAction::FlipHorz => 0,
            ManipulationAction::FlipVert => 1,
            ManipulationAction::RotateCcw => 2,
            ManipulationAction::RotateCw => 3,
        }
    }

    pub open spec fn tooltip_spec(self) -> Seq<char> {
        match self {
            ManipulationAction::FlipHorz => TOOLTIP_FLIP_HORZ@,
            ManipulationAction::FlipVert => TOOLTIP_FLIP_VERT@,
            ManipulationAction::RotateCcw => TOOLTIP_ROTATE_CCW@,
            ManipulationAction::RotateCw => TOOLTIP_ROTATE_CW@,
        }
    }

    /// Rotations only make sense for a square selection; flips apply to any.
    pub open spec fn needs_square_spec(self) -> bool {
        self == ManipulationAction::RotateCcw || self == ManipulationAction::RotateCw
    }

    /// Where the button's bounding box sits, relative to the top-left corner
    /// of the selection on screen.
    pub open spec fn offset_spec(self) -> (int, int) {
        match self {
            ManipulationAction::FlipHorz => (-42, 2),
            ManipulationAction::FlipVert => (2, -42),
            ManipulationAction::RotateCcw => (-42, -42),
            ManipulationAction::RotateCw => (46, -42),
        }
    }

    /// The action that a hotkey triggers, if any.
    pub fn from_hotkey(hotkey: Hotkey) -> (r: Option<ManipulationAction>)
        ensures
            r == Self::from_hotkey_spec(hotkey),
    {
        match hotkey {
            Hotkey::FlipHorz => Some(ManipulationAction::FlipHorz),
            Hotkey::FlipVert => Some(ManipulationAction::FlipVert),
            Hotkey::RotateCcw => Some(ManipulationAction::RotateCcw),
            Hotkey::RotateCw => Some(ManipulationAction::RotateCw),
            _ => None,
        }
    }

    pub fn icon_index(self) -> (i: usize)
        ensures
            i == self.icon_index_spec(),
    {
        match self {
            ManipulationAction::FlipHorz => 0,
            ManipulationAction::FlipVert => 1,
            ManipulationAction::RotateCcw => 2,
            ManipulationAction::RotateCw => 3,
        }
    }

    /// The tooltip of this action's button, as a paragraph format string.
    pub fn tooltip_format(self) -> (s: String)
        ensures
            s@ == self.tooltip_spec(),
    {
        let text = match self {
            ManipulationAction::FlipHorz => TOOLTIP_FLIP_HORZ,
            ManipulationAction::FlipVert => TOOLTIP_FLIP_VERT,
            ManipulationAction::RotateCcw => TOOLTIP_ROTATE_CCW,
            ManipulationAction::RotateCw => TOOLTIP_ROTATE_CW,
        };
        text.to_owned()
    }

    pub fn needs_square(self) -> (b: bool)
        ensures
            b == self.needs_square_spec(),
    {
        match self {
            ManipulationAction::FlipHorz => false,
            ManipulationAction::FlipVert => false,
            ManipulationAction::RotateCcw => true,
            ManipulationAction::RotateCw => true,
        }
    }

    pub fn offset(self) -> (r: (i32, i32))
        ensures
            r.0 == self.offset_spec().0,
            r.1 == self.offset_spec().1,
    {
        match self {
            ManipulationAction::FlipHorz => (-42, 2),
            ManipulationAction::FlipVert => (2, -42),
            ManipulationAction::RotateCcw => (-42, -42),
            ManipulationAction::RotateCw => (46, -42),
        }
    }
}

/// The buttons around a selection, in the order in which they are drawn
/// and asked about events.
pub open spec fn manip_actions_spec() -> Seq<ManipulationAction> {
    seq![
        ManipulationAction::FlipHorz,
        ManipulationAction::FlipVert,
        ManipulationAction::RotateCcw,
        ManipulationAction::RotateCw,
    ]
}

pub fn manip_actions() -> (v: Vec<ManipulationAction>)
    ensures
        v@ == manip_actions_spec(),
{
    let v = vec![
        ManipulationAction::FlipHorz,
        ManipulationAction::FlipVert,
        ManipulationAction::RotateCcw,
        ManipulationAction::RotateCw,
    ];
    assert(v@ =~= manip_actions_spec());
    v
}

/// Whether screen point `(px, py)` lies on the round button centered at
/// `(cx, cy)`.
pub open spec fn button_contains_spec(cx: int, cy: int, px: int, py: int) -> bool {
    (px - cx) * (px - cx) + (py - cy) * (py - cy) <= BUTTON_RADIUS * BUTTON_RADIUS
}

pub fn button_contains(cx: i64, cy: i64, px: i64, py: i64) -> (b: bool)
    requires
        i32::MIN - 64 <= cx <= i32::MAX + 64,
        i32::MIN - 64 <= cy <= i32::MAX + 64,
        i32::MIN <= px <= i32::MAX,
        i32::MIN <= py <= i32::MAX,
    ensures
        b == button_contains_spec(cx as int, cy as int, px as int, py as int),
{
    let dx: i64 = px - cx;
    let dy: i64 = py - cy;
    if dx < -16 || dx > 16 || dy < -16 || dy > 16 {
        assert(dx * dx > 256 || dy * dy > 256) by (nonlinear_arith)
            requires
                dx < -16 || dx > 16 || dy < -16 || dy > 16,
        ;
        assert(dx * dx >= 0 && dy * dy >= 0) by (nonlinear_arith);
        return false;
    }
    assert(0 <= dx * dx <= 256 && 0 <= dy * dy <= 256) by (nonlinear_arith)
        requires
            -16 <= dx <= 16,
            -16 <= dy <= 16,
    ;
    let dx2: i64 = dx * dx;
    let dy2: i64 = dy * dy;
    dx2 + dy2 <= 256
}

/// Whether a button is offered for a selection of this shape.
pub open spec fn button_visible_spec(action: ManipulationAction, selected: CoordsRect) -> bool {
    selected.width == selected.height || !action.needs_square_spec()
}

/// Whether the button of `action`, for a selection whose top-left corner
/// is at screen point `(left, top)`, is shown and contains `(px, py)`.
pub open spec fn button_hit_spec(
    action: ManipulationAction,
    selected: CoordsRect,
    left: int,
    top: int,
    px: int,
    py: int,
) -> bool {
    &&& button_visible_spec(action, selected)
    &&& button_contains_spec(
        left + action.offset_spec().0 + BUTTON_RADIUS,
        top + action.offset_spec().1 + BUTTON_RADIUS,
        px,
        py,
    )
}

/// The first button, in order, that a click at `(px, py)` lands on.
pub open spec fn clicked_action_spec(
    actions: Seq<ManipulationAction>,
    selected: CoordsRect,
    left: int,
    top: int,
    px: int,
    py: int,
) -> Option<ManipulationAction>
    decreases actions.len(),
{
    if actions.len() == 0 {
        None
    } else if button_hit_spec(actions[0], selected, left, top, px, py) {
        Some(actions[0])
    } else {
        clicked_action_spec(actions.drop_first(), selected, left, top, px, py)
    }
}

pub fn button_hit(
    action: ManipulationAction,
    selected: CoordsRect,
    left: i32,
    top: i32,
    px: i32,
    py: i32,
) -> (b: bool)
    ensures
        b == button_hit_spec(action, selected, left as int, top as int, px as int, py as int),
{
    let visible = selected.width == selected.height || !action.needs_square();
    if !visible {
        return false;
    }
    let (ox, oy) = action.offset();
    let cx = left as i64 + ox as i64 + BUTTON_RADIUS as i64;
    let cy = top as i64 + oy as i64 + BUTTON_RADIUS as i64;
    button_contains(cx, cy, px as i64, py as i64)
}

/// Which manipulation button a left click at screen point `(px, py)`
/// presses, for a selection covering `selected` whose top-left corner is
/// at screen point `(left, top)`: the first shown button (in the order of
/// `manip_actions_spec`) whose circle contains the point.
pub fn clicked_action(selected: CoordsRect, left: i32, top: i32, px: i32, py: i32) -> (r: Option<
    ManipulationAction,
>)
    ensures
        r == clicked_action_spec(
            manip_actions_spec(),
            selected,
            left as int,
            top as int,
            px as int,
            py as int,
        ),
{
    let actions = manip_actions();
    let n = actions.len();
    let mut i: usize = 0;
    assert(actions@.skip(0) =~= actions@);
    while i < n
        invariant
            n == actions@.len(),
            i <= n,
            actions@ == manip_actions_spec(),
            clicked_action_spec(
                manip_actions_spec(),
                selected,
                left as int,
                top as int,
                px as int,
                py as int,
            ) == clicked_action_spec(
                actions@.skip(i as int),
                selected,
                left as int,
                top as int,
                px as int,
                py as int,
            ),
        decreases n - i,
    {
        let action = actions[i];
        let ghost rest = actions@.skip(i as int);
        assert(rest[0] == action);
        assert(rest.drop_first() =~= actions@.skip(i + 1));
        if button_hit(action, selected, left, top, px, py) {
            return Some(action);
        }
        i = i + 1;
    }
    assert(actions@.skip(n as int) =~= Seq::<ManipulationAction>::empty());
    None
}

/// Which of the buttons the mouse hovers over, as the buttons around a
/// selection track it.
#[derive(Clone, Debug)]
pub struct ManipulationButtons {
    hovering: Vec<bool>,
}

impl ManipulationButtons {
    /// For each button of `manip_actions_spec`, in order, whether the
    /// mouse is over it.
    pub closed spec fn hovering_spec(&self) -> Seq<bool> {
        self.hovering@
    }

    pub open spec fn wf(&self) -> bool {
        self.hovering_spec().len() == 4
    }

    pub fn new() -> (b: ManipulationButtons)
        ensures
            b.wf(),
            forall|i: int| 0 <= i < 4 ==> !b.hovering_spec()[i],
    {
        ManipulationButtons { hovering: vec![false, false, false, false] }
    }

    /// The first button, in order, that the mouse hovers over.
    pub fn hovered_action(&self) -> (r: Option<ManipulationAction>)
        requires
            self.wf(),
        ensures
            r is Some ==> exists|i: int|
                0 <= i < 4 && #[trigger] self.hovering_spec()[i] && r == Some(
                    manip_actions_spec()[i],
                ) && forall|j: int| 0 <= j < i ==> !self.hovering_spec()[j],
            r is None ==> forall|i: int| 0 <= i < 4 ==> !#[trigger] self.hovering_spec()[i],
    {
        let actions = manip_actions();
        let mut i: usize = 0;
        while i < 4
            invariant
                i <= 4,
                self.wf(),
                actions@ == manip_actions_spec(),
                forall|j: int| 0 <= j < i ==> !#[trigger] self.hovering_spec()[j],
            decreases 4 - i,
        {
            if self.hovering[i] {
                let a = actions[i];
                assert(self.hovering_spec()[i as int]);
                return Some(a);
            }
            i = i + 1;
        }
        None
    }

    /// The mouse moved to screen point `(px, py)`: each shown button now
    /// hovers exactly when it contains the point (buttons not shown keep
    /// their state).  Returns whether some button started to hover, which
    /// plays the hover sound.
    pub fn on_mouse_move(
        &mut self,
        selected: CoordsRect,
        left: i32,
        top: i32,
        px: i32,
        py: i32,
    ) -> (started: bool)
        requires
            old(self).wf(),
        ensures
            final(self).wf(),
            forall|i: int|
                0 <= i < 4 ==> #[trigger] final(self).hovering_spec()[i] == if button_visible_spec(
                    manip_actions_spec()[i],
                    selected,
                ) {
                    button_hit_spec(
                        manip_actions_spec()[i],
                        selected,
                        left as int,
                        top as int,
                        px as int,
                        py as int,
                    )
                } else {
                    old(self).hovering_spec()[i]
                },
            started == exists|i: int|
                0 <= i < 4 && #[trigger] final(self).hovering_spec()[i]
                    && !old(self).hovering_spec()[i],
    {
        let actions = manip_actions();
        let ghost before = self.hovering@;
        let mut started = false;
        let mut i: usize = 0;
        while i < 4
            invariant
                i <= 4,
                self.hovering@.len() == 4,
                before.len() == 4,
                actions@ == manip_actions_spec(),
                forall|j: int| i <= j < 4 ==> self.hovering@[j] == before[j],
                forall|j: int|
                    0 <= j < i ==> #[trigger] self.hovering@[j] == if button_visible_spec(
                        manip_actions_spec()[j],
                        selected,
                    ) {
                        button_hit_spec(
                            manip_actions_spec()[j],
                            selected,
                            left as int,
                            top as int,
                            px as int,
                            py as int,
                        )
                    } else {
                        before[j]
                    },
                started == exists|j: int| 0 <= j < i && #[trigger] self.hovering@[j] && !before[j],
            decreases 4 - i,
        {
            let action = actions[i];
            let ghost h0 = self.hovering@;
            let ghost started0 = started;
            let visible = selected.width == selected.height || !action.needs_square();
            if visible {
                let hit = button_hit(action, selected, left, top, px, py);
                let was = self.hovering[i];
                self.hovering.set(i, hit);
                if hit && !was {
                    started = true;
                    assert(self.hovering@[i as int] && !before[i as int]);
                }
            }
            proof {
                if started0 {
                    let j = choose|j: int| 0 <= j < i && #[trigger] h0[j] && !before[j];
                    assert(self.hovering@[j] == h0[j]);
                    assert(exists|k: int|
                        0 <= k < i + 1 && #[trigger] self.hovering@[k] && !before[k]);
                }
            }
            assert(self.hovering@[i as int] && !before[i as int] ==> started);
            assert forall|j: int|
                0 <= j < i + 1 && #[trigger] self.hovering@[j] && !before[j] implies started by {
                if j < i {
                    assert(h0[j] == self.hovering@[j]);
                }
            }
            i = i + 1;
        }
        assert(self.hovering_spec() == self.hovering@);
        assert(before == old(self).hovering_spec());
        started
    }

    /// The mouse left the window or the view lost focus: nothing hovers.
    pub fn unfocus(&mut self)
        requires
            old(self).wf(),
        ensures
            final(self).wf(),
            forall|i: int| 0 <= i < 4 ==> !#[trigger] final(self).hovering_spec()[i],
    {
        self.hovering = vec![false, false, false, false];
    }
}

} // verus!
