use vstd::prelude::*;
use crate::geom::CoordsRect;
use crate::paragraph::{escape, escaped};
use crate::text::{push_str, string_from_chars};

verus! {

pub const SECTION_BUTTON_HEIGHT: i32 = 50;
pub const SECTION_BUTTON_MARGIN_TOP: i32 = 40;
pub const SECTION_BUTTON_MARGIN_HORZ: i32 = 40;
pub const SECTION_BUTTON_SPACING: i32 = 20;
pub const SECTION_MARGIN_TOP: i32 = 30;
pub const SECTION_MARGIN_BOTTOM: i32 = 40;
/// Where the sections start, below their buttons.
pub const SECTION_TOP: i32 = 120;

/// The sections of the main menu, in the order of their buttons from left
/// to right (which is also the order in which they slide past).
#[derive(Clone, Copy, Debug, PartialEq, Eq, Structural)]
pub enum MenuSection {
    Navigation,
    Messages,
    Puzzles,
    Prefs,
}

impl MenuSection {
    pub open spec fn index_spec(self) -> int {
        match self {
            MenuSection::Navigation => 0,
            MenuSection::Messages => 1,
            MenuSection::Puzzles => 2,
            MenuSection::Prefs => 3,
        }
    }

    pub fn index(self) -> (i: u8)
        ensures
            i == self.index_spec(),
    {
        match self {
            MenuSection::Navigation => 0,
            MenuSection::Messages => 1,
            MenuSection::Puzzles => 2,
            MenuSection::Prefs => 3,
        }
    }

    pub open spec fn label_spec(self) -> Seq<char> {
        match self {
            MenuSection::Navigation => "Navigation"@,
            MenuSection::Messages => "Messages"@,
            MenuSection::Puzzles => "Tasks"@,
            MenuSection::Prefs => "Settings"@,
        }
    }

    /// The label of the section's button.
    pub fn label(self) -> (s: &'static str)
        ensures
            s@ == self.label_spec(),
    {
        match self {
            MenuSection::Navigation => "Navigation",
            MenuSection::Messages => "Messages",
            MenuSection::Puzzles => "Tasks",
            MenuSection::Prefs => "Settings",
        }
    }
}

/// The button of the section at `index` (0 to 3) in a window `window_width`
/// pixels wide: four equal buttons across the top, between the margins.
pub open spec fn section_button_spec(window_width: int, index: int) -> CoordsRect {
    let width = (window_width - 2 * SECTION_BUTTON_MARGIN_HORZ - 3 * SECTION_BUTTON_SPACING) / 4;
    CoordsRect {
        x: (SECTION_BUTTON_MARGIN_HORZ + index * (width + SECTION_BUTTON_SPACING)) as i32,
        y: SECTION_BUTTON_MARGIN_TOP,
        width: width as i32,
        height: SECTION_BUTTON_HEIGHT,
    }
}

pub fn section_button_rect(window_width: i32, index: i32) -> (r: CoordsRect)
    requires
        140 <= window_width <= 0x100_0000,
        0 <= index <= 3,
    ensures
        r == section_button_spec(window_width as int, index as int),
{
    let width = (window_width - 2 * SECTION_BUTTON_MARGIN_HORZ - 3 * SECTION_BUTTON_SPACING) / 4;
    assert(0 <= index * (width + SECTION_BUTTON_SPACING) <= 3 * (0x100_0000 + 20)) by (nonlinear_arith)
        requires
            0 <= index <= 3,
            0 <= width <= 0x100_0000,
    ;
    CoordsRect::new(
        SECTION_BUTTON_MARGIN_HORZ + index * (width + SECTION_BUTTON_SPACING),
        SECTION_BUTTON_MARGIN_TOP,
        width,
        SECTION_BUTTON_HEIGHT,
    )
}

/// The area of the sections in a window of the given size.
pub fn section_rect(window_width: i32, window_height: i32) -> (r: CoordsRect)
    requires
        0 <= window_width <= 0x100_0000,
        0 <= window_height <= 0x100_0000,
    ensures
        r == (CoordsRect {
            x: SECTION_BUTTON_MARGIN_HORZ,
            y: SECTION_TOP,
            width: (window_width - 2 * SECTION_BUTTON_MARGIN_HORZ) as i32,
            height: (window_height - SECTION_TOP - SECTION_MARGIN_BOTTOM) as i32,
        }),
{
    CoordsRect::new(
        SECTION_BUTTON_MARGIN_HORZ,
        SECTION_TOP,
        window_width - 2 * SECTION_BUTTON_MARGIN_HORZ,
        window_height - SECTION_TOP - SECTION_MARGIN_BOTTOM,
    )
}

/// A section's button can be used unless it is the tasks section and no
/// task is unlocked yet.
pub fn section_enabled(section: MenuSection, any_puzzles_unlocked: bool) -> (b: bool)
    ensures
        b == (section != MenuSection::Puzzles || any_puzzles_unlocked),
{
    !(section == MenuSection::Puzzles) || any_puzzles_unlocked
}

//---------------------------------------------------------------------------//
// Sliding between sections

/// While the menu slides from one section to another it shows two
/// neighbouring sections, `left` and `right`, and the slide position runs
/// from 0 (all `left`) to 1 (all `right`).  These decide what the slide does
/// as the player picks `goal`; the slide position itself is eased outside.
pub open spec fn ordered(left: MenuSection, right: MenuSection) -> bool {
    left.index_spec() <= right.index_spec()
}

/// Where the slide position starts when a slide begins.
#[derive(Clone, Copy, Debug, PartialEq, Eq, Structural)]
pub enum SlideStart {
    AtLeft,
    AtRight,
}

/// At rest on one section (`left == right`), picking another begins a
/// slide: to an earlier section it becomes the left one and the slide
/// starts at the right, to a later one it becomes the right one and the
/// slide starts at the left.
pub open spec fn begin_slide_spec(left: MenuSection, right: MenuSection, goal: MenuSection) -> (
    MenuSection,
    MenuSection,
    Option<SlideStart>,
) {
    if left == right && goal.index_spec() < left.index_spec() {
        (goal, right, Some(SlideStart::AtRight))
    } else if left == right && goal.index_spec() > left.index_spec() {
        (left, goal, Some(SlideStart::AtLeft))
    } else {
        (left, right, None)
    }
}

pub fn begin_slide(left: MenuSection, right: MenuSection, goal: MenuSection) -> (r: (
    MenuSection,
    MenuSection,
    Option<SlideStart>,
))
    ensures
        r == begin_slide_spec(left, right, goal),
{
    if left == right {
        if goal.index() < left.index() {
            return (goal, right, Some(SlideStart::AtRight));
        } else if goal.index() > left.index() {
            return (left, goal, Some(SlideStart::AtLeft));
        }
    }
    (left, right, None)
}

/// Where the slide position heads: 0 or 1 for the shown sections, beyond
/// them (-1 or 2) toward a goal outside them; for a goal between the two
/// shown, whichever way is nearer.
#[derive(Clone, Copy, Debug, PartialEq, Eq, Structural)]
pub enum SlideGoal {
    BeforeLeft,
    Left,
    Right,
    AfterRight,
}

pub open spec fn slide_goal_spec(
    left: MenuSection,
    right: MenuSection,
    goal: MenuSection,
    below_half: bool,
) -> SlideGoal {
    if goal == left {
        SlideGoal::Left
    } else if goal == right {
        SlideGoal::Right
    } else if goal.index_spec() < left.index_spec() {
        SlideGoal::BeforeLeft
    } else if goal.index_spec() > right.index_spec() {
        SlideGoal::AfterRight
    } else if below_half {
        SlideGoal::BeforeLeft
    } else {
        SlideGoal::AfterRight
    }
}

pub fn slide_goal(left: MenuSection, right: MenuSection, goal: MenuSection, below_half: bool) -> (g:
    SlideGoal)
    ensures
        g == slide_goal_spec(left, right, goal, below_half),
{
    if goal == left {
        SlideGoal::Left
    } else if goal == right {
        SlideGoal::Right
    } else if goal.index() < left.index() {
        SlideGoal::BeforeLeft
    } else if goal.index() > right.index() {
        SlideGoal::AfterRight
    } else if below_half {
        SlideGoal::BeforeLeft
    } else {
        SlideGoal::AfterRight
    }
}

/// How the slide position is carried over when it runs past one end of the
/// shown pair: shifted by one (the pair moves along), or reflected (the
/// far section is replaced by the goal).
#[derive(Clone, Copy, Debug, PartialEq, Eq, Structural)]
pub enum SlideCarry {
    Shift,
    Reflect,
}

/// The slide ran past the left end: toward a goal before the pair, the
/// pair moves one step left (the left section becomes the right one);
/// otherwise the goal, which lies between them, replaces the right one.
/// Returns the new pair, how the position carries over, and the new end
/// the position heads for.
pub open spec fn past_left_spec(left: MenuSection, right: MenuSection, goal: MenuSection) -> (
    MenuSection,
    MenuSection,
    SlideCarry,
    SlideGoal,
) {
    if goal.index_spec() < left.index_spec() {
        (goal, left, SlideCarry::Shift, SlideGoal::Left)
    } else {
        (left, goal, SlideCarry::Reflect, SlideGoal::Right)
    }
}

pub fn past_left(left: MenuSection, right: MenuSection, goal: MenuSection) -> (r: (
    MenuSection,
    MenuSection,
    SlideCarry,
    SlideGoal,
))
    ensures
        r == past_left_spec(left, right, goal),
{
    if goal.index() < left.index() {
        (goal, left, SlideCarry::Shift, SlideGoal::Left)
    } else {
        (left, goal, SlideCarry::Reflect, SlideGoal::Right)
    }
}

/// The slide ran past the right end: the mirror image of `past_left_spec`.
pub open spec fn past_right_spec(left: MenuSection, right: MenuSection, goal: MenuSection) -> (
    MenuSection,
    MenuSection,
    SlideCarry,
    SlideGoal,
) {
    if goal.index_spec() > right.index_spec() {
        (right, goal, SlideCarry::Shift, SlideGoal::Right)
    } else {
        (goal, right, SlideCarry::Reflect, SlideGoal::Left)
    }
}

pub fn past_right(left: MenuSection, right: MenuSection, goal: MenuSection) -> (r: (
    MenuSection,
    MenuSection,
    SlideCarry,
    SlideGoal,
))
    ensures
        r == past_right_spec(left, right, goal),
{
    if goal.index() > right.index() {
        (right, goal, SlideCarry::Shift, SlideGoal::Right)
    } else {
        (goal, right, SlideCarry::Reflect, SlideGoal::Left)
    }
}

/// The shown pair stays in order through a slide: beginning one, and
/// running past either end toward the goal the slide was heading for,
/// keep the left section at or before the right one; and once the slide
/// runs past an end, the goal is one of the pair shown.
pub proof fn lemma_slide_keeps_order(
    left: MenuSection,
    right: MenuSection,
    goal: MenuSection,
    below_half: bool,
)
    requires
        ordered(left, right),
    ensures
        ({
            let (l, r, _) = begin_slide_spec(left, right, goal);
            ordered(l, r)
        }),
        slide_goal_spec(left, right, goal, below_half) == SlideGoal::BeforeLeft ==> {
            let (l, r, _, _) = past_left_spec(left, right, goal);
            ordered(l, r) && (l == goal || r == goal)
        },
        slide_goal_spec(left, right, goal, below_half) == SlideGoal::AfterRight ==> {
            let (l, r, _, _) = past_right_spec(left, right, goal);
            ordered(l, r) && (l == goal || r == goal)
        },
{
}

//---------------------------------------------------------------------------//
// Routing events

/// Where the main menu passes an event on, after any open dialog (the
/// confirmation dialog, then the rename dialog) has seen it and returned
/// no action: to the shown section's view, and to the section buttons.
#[derive(Clone, Copy, Debug, PartialEq, Eq, Structural)]
pub struct MenuRoute {
    pub to_section: bool,
    pub to_buttons: bool,
}

pub open spec fn menu_route_spec(dialog_open: bool, is_clock_tick: bool, settled: bool) -> MenuRoute {
    let past_dialogs = !dialog_open || is_clock_tick;
    MenuRoute { to_section: past_dialogs && (settled || is_clock_tick), to_buttons: past_dialogs }
}

/// Routes an event on the main menu: while a dialog is open only clock
/// ticks go past it; the section's view gets an event only while no slide
/// between sections is under way (`settled`), except clock ticks, which it
/// always gets.
pub fn menu_route(dialog_open: bool, is_clock_tick: bool, settled: bool) -> (r: MenuRoute)
    ensures
        r == menu_route_spec(dialog_open, is_clock_tick, settled),
{
    let past_dialogs = !dialog_open || is_clock_tick;
    MenuRoute { to_section: past_dialogs && (settled || is_clock_tick), to_buttons: past_dialogs }
}

/// While a dialog is open, no event but a clock tick reaches a section's
/// view or the section buttons.
pub proof fn lemma_dialog_holds_events(is_clock_tick: bool, settled: bool)
    requires
        !is_clock_tick,
    ensures
        !menu_route_spec(true, is_clock_tick, settled).to_section,
        !menu_route_spec(true, is_clock_tick, settled).to_buttons,
{
}

//---------------------------------------------------------------------------//
// Confirmation dialogs

pub open spec fn delete_circuit_prompt_spec(circuit_name: Seq<char>) -> Seq<char> {
    "Really delete "@ + escaped(circuit_name) + "?"@
}

/// The question asked before deleting the circuit named `circuit_name`,
/// as a format string that shows the name literally.
pub fn delete_circuit_prompt(circuit_name: &str) -> (s: String)
    ensures
        s@ == delete_circuit_prompt_spec(circuit_name@),
{
    let mut out: Vec<char> = Vec::new();
    push_str(&mut out, "Really delete ");
    let name = escape(circuit_name);
    push_str(&mut out, name.as_str());
    push_str(&mut out, "?");
    string_from_chars(&out)
}

pub open spec fn delete_profile_prompt_spec(profile_name: Seq<char>) -> Seq<char> {
    "Are you sure you want to delete all progress\non profile \""@ + escaped(profile_name)
        + "\"?\n\nThis cannot be undone!"@
}

/// The warning shown before deleting the player profile `profile_name`.
pub fn delete_profile_prompt(profile_name: &str) -> (s: String)
    ensures
        s@ == delete_profile_prompt_spec(profile_name@),
{
    let mut out: Vec<char> = Vec::new();
    push_str(&mut out, "Are you sure you want to delete all progress\non profile \"");
    let name = escape(profile_name);
    push_str(&mut out, name.as_str());
    push_str(&mut out, "\"?\n\nThis cannot be undone!");
    string_from_chars(&out)
}

pub open spec fn error_prompt_spec(unable: Seq<char>, error: Seq<char>) -> Seq<char> {
    "$R$*ERROR:$*$D Unable to "@ + unable + ".\n\n"@ + escaped(error)
}

/// The message of the dialog that reports a failed operation: what could
/// not be done (`unable`, itself a format string) and the error, shown
/// literally.
pub fn error_prompt(unable: &str, error: &str) -> (s: String)
    ensures
        s@ == error_prompt_spec(unable@, error@),
{
    let mut out: Vec<char> = Vec::new();
    push_str(&mut out, "$R$*ERROR:$*$D Unable to ");
    push_str(&mut out, unable);
    push_str(&mut out, ".\n\n");
    let e = escape(error);
    push_str(&mut out, e.as_str());
    string_from_chars(&out)
}

} // verus!
