use vstd::prelude::*;
use crate::geom::CoordsRect;

verus! {

/// Vertical space between two conversation bubbles.
pub const BUBBLE_SPACING: i32 = 16;
/// Height of the "- More -" button below the revealed bubbles.
pub const MORE_BUTTON_HEIGHT: i32 = 30;
/// Width of the bubble list's scrollbar and the margin beside it.
pub const SCROLLBAR_WIDTH: i32 = 18;
pub const SCROLLBAR_MARGIN: i32 = 8;
/// Height of one button of a puzzle bubble, and the space between two.
pub const PUZZLE_BUTTON_HEIGHT: i32 = 50;
pub const PUZZLE_BUTTON_SPACING: i32 = 3;
/// Space between two choice buttons of a choice bubble.
pub const CHOICE_BUTTON_SPACING: i32 = 2;
/// Height of one choice, and the space between two, in the choice list of
/// the bubble list view.
pub const CHOICE_HEIGHT: i32 = 30;
pub const CHOICE_SPACING: i32 = 2;

/// What a conversation bubble is.
#[derive(Clone, Copy, Debug, PartialEq, Eq, Structural)]
pub enum BubbleKind {
    Choice,
    Cutscene,
    Puzzle,
    Speech,
}

/// Where a choice button stands among the choices of its bubble, which
/// decides the shape of its outline.
#[derive(Clone, Copy, Debug, PartialEq, Eq, Structural)]
pub enum ChoicePosition {
    First,
    Middle,
    Last,
}

impl ChoicePosition {
    pub open spec fn from_index_and_count_spec(index: int, count: int) -> ChoicePosition {
        if index == 0 {
            ChoicePosition::First
        } else if index + 1 == count {
            ChoicePosition::Last
        } else {
            ChoicePosition::Middle
        }
    }

    pub open spec fn bubble_kind_spec(self) -> u32 {
        match self {
            ChoicePosition::First => 1,
            ChoicePosition::Middle => 2,
            ChoicePosition::Last => 3,
        }
    }

    pub fn from_index_and_count(index: usize, count: usize) -> (p: ChoicePosition)
        ensures
            p == Self::from_index_and_count_spec(index as int, count as int),
    {
        if index == 0 {
            ChoicePosition::First
        } else if index as u128 + 1 == count as u128 {
            ChoicePosition::Last
        } else {
            ChoicePosition::Middle
        }
    }

    /// The outline shape the shader draws for this position.
    pub fn bubble_kind(self) -> (k: u32)
        ensures
            k == self.bubble_kind_spec(),
    {
        match self {
            ChoicePosition::First => 1,
            ChoicePosition::Middle => 2,
            ChoicePosition::Last => 3,
        }
    }
}

/// The height of a puzzle bubble with `num_puzzles` buttons.
pub open spec fn puzzle_bubble_height_spec(num_puzzles: int) -> int {
    (PUZZLE_BUTTON_HEIGHT + PUZZLE_BUTTON_SPACING) * num_puzzles - PUZZLE_BUTTON_SPACING
}

pub fn puzzle_bubble_height(num_puzzles: i32) -> (h: i32)
    requires
        1 <= num_puzzles <= 0x100_0000,
    ensures
        h == puzzle_bubble_height_spec(num_puzzles as int),
{
    assert(53 * num_puzzles <= 53 * 0x100_0000) by (nonlinear_arith)
        requires
            1 <= num_puzzles <= 0x100_0000,
    ;
    (PUZZLE_BUTTON_HEIGHT + PUZZLE_BUTTON_SPACING) * num_puzzles - PUZZLE_BUTTON_SPACING
}

/// The total vertical extent of the first `n` items of `heights` stacked
/// with `spacing` after each of them.
pub open spec fn stacked_span(heights: Seq<i32>, spacing: int, n: int) -> int
    decreases n,
{
    if n <= 0 {
        0
    } else {
        stacked_span(heights, spacing, n - 1) + heights[n - 1] + spacing
    }
}

proof fn lemma_stacked_span_monotone(heights: Seq<i32>, spacing: int, i: int, j: int)
    requires
        0 <= i <= j <= heights.len(),
        spacing >= 0,
        forall|k: int| 0 <= k < heights.len() ==> heights[k] >= 0,
    ensures
        stacked_span(heights, spacing, i) <= stacked_span(heights, spacing, j),
    decreases j - i,
{
    if i < j {
        lemma_stacked_span_monotone(heights, spacing, i, j - 1);
    }
}

/// The tops of items of the given heights stacked downward from `first_top`,
/// with `spacing` between two neighbours: each item starts `spacing` below
/// the bottom of the one before it.
pub fn stack_tops(first_top: i32, spacing: i32, heights: &Vec<i32>) -> (tops: Vec<i32>)
    requires
        0 <= first_top,
        0 <= spacing,
        forall|k: int| 0 <= k < heights.len() ==> heights[k] >= 0,
        first_top + stacked_span(heights@, spacing as int, heights.len() as int) <= i32::MAX,
    ensures
        tops.len() == heights.len(),
        forall|k: int|
            0 <= k < heights.len() ==> #[trigger] tops[k] == first_top + stacked_span(
                heights@,
                spacing as int,
                k,
            ),
{
    let mut tops: Vec<i32> = Vec::new();
    let mut top = first_top;
    let n = heights.len();
    let mut i: usize = 0;
    while i < n
        invariant
            n == heights.len(),
            i <= n,
            0 <= spacing,
            forall|k: int| 0 <= k < heights.len() ==> heights[k] >= 0,
            first_top + stacked_span(heights@, spacing as int, n as int) <= i32::MAX,
            top == first_top + stacked_span(heights@, spacing as int, i as int),
            tops.len() == i,
            forall|k: int|
                0 <= k < i ==> #[trigger] tops[k] == first_top + stacked_span(
                    heights@,
                    spacing as int,
                    k,
                ),
        decreases n - i,
    {
        tops.push(top);
        proof {
            lemma_stacked_span_monotone(heights@, spacing as int, (i + 1) as int, n as int);
        }
        top = top + heights[i] + spacing;
        i = i + 1;
    }
    tops
}

/// A bubble of a conversation as the sequence view lays it out: its kind,
/// and where it starts and how tall it is, in pixels from the top of the
/// list.
#[derive(Clone, Copy, Debug, PartialEq, Eq, Structural)]
pub struct BubbleSlot {
    pub kind: BubbleKind,
    pub top: i32,
    pub height: i32,
}

impl BubbleSlot {
    pub open spec fn bottom_spec(self) -> int {
        self.top + self.height
    }
}

/// When the view is reset with `num_shown` bubbles already read, whether it
/// also reveals the next bubble, and whether the "More" button shows:
/// a choice is revealed at once (it waits for an answer); a speech is
/// revealed at once only at the start or after a cutscene or puzzle
/// bubble, and otherwise waits behind the button; a cutscene or puzzle
/// bubble, or the end, waits behind the button.
pub open spec fn reveal_on_reset_spec(kinds: Seq<BubbleKind>, num_shown: int) -> (bool, bool) {
    if num_shown >= kinds.len() {
        (false, true)
    } else {
        match kinds[num_shown] {
            BubbleKind::Cutscene | BubbleKind::Puzzle => (false, true),
            BubbleKind::Choice => (true, true),
            BubbleKind::Speech => {
                let show_next = num_shown == 0 || kinds[num_shown - 1] == BubbleKind::Cutscene
                    || kinds[num_shown - 1] == BubbleKind::Puzzle;
                (show_next, !show_next)
            },
        }
    }
}

/// Whether the "More" button shows once the bubble of this kind has been
/// revealed by an advance: only after a cutscene or puzzle bubble, which
/// never finish by themselves.
pub open spec fn more_visible_after_spec(kind: BubbleKind) -> bool {
    kind == BubbleKind::Cutscene || kind == BubbleKind::Puzzle
}

/// When a speech bubble finishes its paragraph, whether the view pauses
/// (shows the "More" button) rather than advancing: only when the bubble
/// asks for a pause, the next bubble is not a choice, and it is not the
/// last bubble of a conversation whose bubbles are all known.
pub open spec fn pause_after_paragraph_spec(
    pauses: bool,
    next_kind: Option<BubbleKind>,
    bubbles_are_complete: bool,
) -> bool {
    match next_kind {
        Some(k) => pauses && k != BubbleKind::Choice,
        None => pauses && !bubbles_are_complete,
    }
}

pub fn pause_after_paragraph(
    pauses: bool,
    next_kind: Option<BubbleKind>,
    bubbles_are_complete: bool,
) -> (b: bool)
    ensures
        b == pause_after_paragraph_spec(pauses, next_kind, bubbles_are_complete),
{
    let mut should_pause = pauses;
    match next_kind {
        Some(k) => {
            if k == BubbleKind::Choice {
                should_pause = false;
            }
        },
        None => {
            if bubbles_are_complete {
                should_pause = false;
            }
        },
    }
    should_pause
}

/// The "More" button below the revealed bubbles.
#[derive(Clone, Copy, Debug, PartialEq, Eq, Structural)]
pub struct MoreButton {
    pub rect: CoordsRect,
    pub visible: bool,
}

/// The state of the conversation's bubble sequence: the bubbles laid out so
/// far, whether they are all the conversation has, how many are revealed,
/// and the "More" button if more bubbles wait.
pub struct BubbleSequence {
    width: i32,
    slots: Vec<BubbleSlot>,
    complete: bool,
    num_shown: usize,
    more_button: Option<MoreButton>,
}

/// Bubble positions are kept within this bound, so that sums of them fit.
pub const MAX_LIST_EXTENT: i32 = 0x1000_0000;

pub open spec fn slots_ok(slots: Seq<BubbleSlot>) -> bool {
    forall|k: int|
        0 <= k < slots.len() ==> 0 <= #[trigger] slots[k].top && 0 <= slots[k].height && slots[k].top
            + slots[k].height <= MAX_LIST_EXTENT
}

/// The "More" button for `num_shown` revealed bubbles, if some remain:
/// under the last revealed bubble (or at the top), as wide as a bubble.
pub open spec fn more_button_spec(
    slots: Seq<BubbleSlot>,
    num_shown: int,
    width: int,
    visible: bool,
) -> Option<MoreButton> {
    if num_shown < slots.len() {
        let top = if num_shown == 0 {
            0
        } else {
            slots[num_shown - 1].bottom_spec() + BUBBLE_SPACING
        };
        Some(
            MoreButton {
                rect: CoordsRect {
                    x: 0,
                    y: top as i32,
                    width: (width - (SCROLLBAR_MARGIN + SCROLLBAR_WIDTH)) as i32,
                    height: MORE_BUTTON_HEIGHT,
                },
                visible,
            },
        )
    } else {
        None
    }
}

impl BubbleSequence {
    pub closed spec fn width_spec(&self) -> int {
        self.width as int
    }

    pub closed spec fn slots_spec(&self) -> Seq<BubbleSlot> {
        self.slots@
    }

    pub closed spec fn complete_spec(&self) -> bool {
        self.complete
    }

    pub closed spec fn num_shown_spec(&self) -> int {
        self.num_shown as int
    }

    pub closed spec fn more_button_spec(&self) -> Option<MoreButton> {
        self.more_button
    }

    pub open spec fn wf(&self) -> bool {
        &&& 0 <= self.num_shown_spec() <= self.slots_spec().len()
        &&& slots_ok(self.slots_spec())
        &&& 0 <= self.width_spec() <= MAX_LIST_EXTENT
        &&& self.more_button_spec() matches Some(b) ==> {
            &&& b.rect.height == MORE_BUTTON_HEIGHT
            &&& 0 <= b.rect.y <= MAX_LIST_EXTENT + BUBBLE_SPACING
        }
    }

    /// The height of everything in the list: down to the bottom of the
    /// "More" button, else of the last bubble laid out.
    pub open spec fn total_height_spec(&self) -> int {
        match self.more_button_spec() {
            Some(b) => b.rect.y + b.rect.height,
            None => if self.slots_spec().len() > 0 {
                self.slots_spec().last().bottom_spec()
            } else {
                0
            },
        }
    }

    /// An empty sequence, for a list `width` pixels wide.
    pub fn new(width: i32) -> (s: BubbleSequence)
        requires
            0 <= width <= MAX_LIST_EXTENT,
        ensures
            s.wf(),
            s.width_spec() == width,
            s.slots_spec().len() == 0,
            !s.complete_spec(),
            s.num_shown_spec() == 0,
            s.more_button_spec() is None,
    {
        BubbleSequence { width, slots: Vec::new(), complete: false, num_shown: 0, more_button: None }
    }

    pub fn num_shown(&self) -> (n: usize)
        ensures
            n == self.num_shown_spec(),
    {
        self.num_shown
    }

    pub fn more_button(&self) -> (b: Option<MoreButton>)
        ensures
            b == self.more_button_spec(),
    {
        self.more_button
    }

    fn make_more_button(&self, visible: bool) -> (b: Option<MoreButton>)
        requires
            self.wf(),
        ensures
            b == more_button_spec(
                self.slots_spec(),
                self.num_shown_spec(),
                self.width_spec(),
                visible,
            ),
    {
        if self.num_shown < self.slots.len() {
            let width = self.width - (SCROLLBAR_MARGIN + SCROLLBAR_WIDTH);
            let top = if self.num_shown == 0 {
                0
            } else {
                let last = self.slots[self.num_shown - 1];
                assert(slots_ok(self.slots@));
                assert(0 <= self.slots@[self.num_shown - 1].top);
                last.top + last.height + BUBBLE_SPACING
            };
            Some(MoreButton { rect: CoordsRect::new(0, top, width, MORE_BUTTON_HEIGHT), visible })
        } else {
            None
        }
    }

    /// Replaces the laid-out bubbles (after the conversation produced them
    /// anew), keeping the count of revealed bubbles.
    pub fn set_bubbles(&mut self, slots: Vec<BubbleSlot>, complete: bool)
        requires
            old(self).wf(),
            slots_ok(slots@),
            old(self).num_shown_spec() <= slots@.len(),
        ensures
            final(self).wf(),
            final(self).slots_spec() == slots@,
            final(self).complete_spec() == complete,
            final(self).num_shown_spec() == old(self).num_shown_spec(),
            final(self).more_button_spec() == old(self).more_button_spec(),
            final(self).width_spec() == old(self).width_spec(),
    {
        self.slots = slots;
        self.complete = complete;
    }

    /// Resets the view to a conversation with `slots` laid out (`complete`
    /// when they are all it has) and `progress` bubbles already read: those
    /// are revealed (no more than there are), the next one too where
    /// `reveal_on_reset_spec` says so, and the "More" button placed.
    pub fn reset(&mut self, slots: Vec<BubbleSlot>, complete: bool, progress: usize)
        requires
            old(self).wf(),
            slots_ok(slots@),
        ensures
            final(self).wf(),
            final(self).slots_spec() == slots@,
            final(self).complete_spec() == complete,
            final(self).width_spec() == old(self).width_spec(),
            ({
                let shown = if progress <= slots@.len() {
                    progress as int
                } else {
                    slots@.len() as int
                };
                let kinds = slots@.map_values(|s: BubbleSlot| s.kind);
                let (show_next, more_visible) = reveal_on_reset_spec(kinds, shown);
                let shown2 = if show_next {
                    shown + 1
                } else {
                    shown
                };
                &&& final(self).num_shown_spec() == shown2
                &&& final(self).more_button_spec() == more_button_spec(
                    slots@,
                    shown2,
                    old(self).width_spec(),
                    more_visible,
                )
            }),
    {
        let n = slots.len();
        let shown = if progress <= n {
            progress
        } else {
            n
        };
        let ghost kinds = slots@.map_values(|s: BubbleSlot| s.kind);
        let (show_next, more_visible) = if shown >= n {
            (false, true)
        } else {
            match slots[shown].kind {
                BubbleKind::Cutscene | BubbleKind::Puzzle => (false, true),
                BubbleKind::Choice => (true, true),
                BubbleKind::Speech => {
                    let show_next = if shown == 0 {
                        true
                    } else {
                        match slots[shown - 1].kind {
                            BubbleKind::Choice | BubbleKind::Speech => false,
                            BubbleKind::Cutscene | BubbleKind::Puzzle => true,
                        }
                    };
                    (show_next, !show_next)
                },
            }
        };
        assert((show_next, more_visible) == reveal_on_reset_spec(kinds, shown as int));
        self.slots = slots;
        self.complete = complete;
        self.num_shown = if show_next {
            shown + 1
        } else {
            shown
        };
        self.more_button = self.make_more_button(more_visible);
    }

    /// Whether advancing must first lay out the bubbles again: every bubble
    /// known so far is revealed, but the conversation has more.
    pub fn needs_rebuild(&self) -> (b: bool)
        ensures
            b == (self.num_shown_spec() == self.slots_spec().len() && !self.complete_spec()),
    {
        self.num_shown == self.slots.len() && !self.complete
    }

    /// Whether advancing now completes the conversation: every bubble is
    /// revealed and there are no more.
    pub fn completes_on_advance(&self) -> (b: bool)
        ensures
            b == (self.num_shown_spec() >= self.slots_spec().len() && self.complete_spec()),
    {
        self.num_shown >= self.slots.len() && self.complete
    }

    /// Reveals the next bubble, if any, and returns its index (whose
    /// on-reached action the caller then performs); the "More" button shows
    /// at once only after a cutscene or puzzle bubble.
    pub fn advance(&mut self) -> (next: Option<usize>)
        requires
            old(self).wf(),
        ensures
            final(self).wf(),
            final(self).slots_spec() == old(self).slots_spec(),
            final(self).complete_spec() == old(self).complete_spec(),
            final(self).width_spec() == old(self).width_spec(),
            old(self).num_shown_spec() < old(self).slots_spec().len() ==> {
                &&& next == Some(old(self).num_shown_spec() as usize)
                &&& final(self).num_shown_spec() == old(self).num_shown_spec() + 1
                &&& final(self).more_button_spec() == more_button_spec(
                    old(self).slots_spec(),
                    old(self).num_shown_spec() + 1,
                    old(self).width_spec(),
                    more_visible_after_spec(old(self).slots_spec()[old(self).num_shown_spec()].kind),
                )
            },
            old(self).num_shown_spec() >= old(self).slots_spec().len() ==> {
                &&& next is None
                &&& final(self).num_shown_spec() == old(self).num_shown_spec()
                &&& final(self).more_button_spec() == old(self).more_button_spec()
            },
    {
        let next_index = self.num_shown;
        if next_index < self.slots.len() {
            self.num_shown = next_index + 1;
            let kind = self.slots[next_index].kind;
            let visible = match kind {
                BubbleKind::Choice | BubbleKind::Speech => false,
                BubbleKind::Cutscene | BubbleKind::Puzzle => true,
            };
            self.more_button = self.make_more_button(visible);
            Some(next_index)
        } else {
            None
        }
    }

    /// Shows or hides the "More" button, if there is one.
    pub fn set_more_visible(&mut self, visible: bool)
        requires
            old(self).wf(),
        ensures
            final(self).wf(),
            final(self).slots_spec() == old(self).slots_spec(),
            final(self).complete_spec() == old(self).complete_spec(),
            final(self).num_shown_spec() == old(self).num_shown_spec(),
            final(self).width_spec() == old(self).width_spec(),
            final(self).more_button_spec() == match old(self).more_button_spec() {
                Some(b) => Some(MoreButton { rect: b.rect, visible }),
                None => None,
            },
    {
        match self.more_button {
            Some(b) => {
                self.more_button = Some(MoreButton { rect: b.rect, visible });
            },
            None => {},
        }
    }

    /// The height of everything in the list, for the scrollbar.
    pub fn total_height(&self) -> (h: i32)
        requires
            self.wf(),
        ensures
            h == self.total_height_spec(),
    {
        match self.more_button {
            Some(b) => b.rect.y + b.rect.height,
            None => {
                if self.slots.len() > 0 {
                    let last = self.slots[self.slots.len() - 1];
                    assert(slots_ok(self.slots@));
                    assert(0 <= self.slots@[self.slots@.len() - 1].top);
                    last.top + last.height
                } else {
                    0
                }
            },
        }
    }
}

/// A floored division and its remainder (`num_integer::div_mod_floor` on
/// `i32`): the quotient rounded toward negative infinity, and a remainder
/// with the sign of the divisor.
#[verifier::external_body]
fn div_mod_floor_i32(x: i32, y: i32) -> (r: (i32, i32))
    requires
        y != 0,
        !(x == i32::MIN && y == -1),
    ensures
        x == r.0 * y + r.1,
        y > 0 ==> 0 <= r.1 < y,
        y < 0 ==> y < r.1 <= 0,
{
    num_integer::div_mod_floor(x, y)
}

/// Which choice of a list of `num_choices` choices (each `CHOICE_HEIGHT`
/// tall, `CHOICE_SPACING` apart, filling `rect`) lies under the point:
/// none outside the rectangle or in a gap between two choices.
pub open spec fn choice_for_pt_spec(rect: CoordsRect, px: int, py: int) -> Option<int> {
    if rect.contains_spec(crate::geom::Coords { x: px as i32, y: py as i32 }) {
        let rel = py - rect.y;
        let step = CHOICE_HEIGHT + CHOICE_SPACING;
        if rel % step < CHOICE_HEIGHT {
            Some(rel / step)
        } else {
            None
        }
    } else {
        None
    }
}

/// The height of a list of `num_choices` choices.
pub open spec fn choice_list_height_spec(num_choices: int) -> int {
    num_choices * (CHOICE_HEIGHT + CHOICE_SPACING) - CHOICE_SPACING
}

pub fn choice_for_pt(rect: CoordsRect, px: i32, py: i32) -> (r: Option<usize>)
    requires
        rect.is_small(),
    ensures
        r matches Some(i) ==> choice_for_pt_spec(rect, px as int, py as int) == Some(i as int),
        r is None <==> choice_for_pt_spec(rect, px as int, py as int) is None,
{
    let pt = crate::geom::Coords { x: px, y: py };
    if rect.contains_point(pt) {
        let rel_y = py - rect.y;
        let (index, offset) = div_mod_floor_i32(rel_y, CHOICE_HEIGHT + CHOICE_SPACING);
        assert(offset == rel_y % 32 && index == rel_y / 32) by (nonlinear_arith)
            requires
                rel_y == index * 32 + offset,
                0 <= offset < 32,
        ;
        if offset < CHOICE_HEIGHT {
            assert(index >= 0) by (nonlinear_arith)
                requires
                    rel_y >= 0,
                    rel_y == index * 32 + offset,
                    0 <= offset < 32,
            ;
            return Some(index as usize);
        }
    }
    None
}

/// In a list of `num_choices` choices, every point the choice lookup finds
/// lies on an existing choice.
pub proof fn lemma_choice_in_range(num_choices: int, rect: CoordsRect, px: int, py: int)
    requires
        num_choices >= 1,
        rect.height == choice_list_height_spec(num_choices),
        choice_for_pt_spec(rect, px, py) is Some,
        px == px as i32,
        py == py as i32,
    ensures
        0 <= choice_for_pt_spec(rect, px, py)->0 < num_choices,
{
    let rel = py - rect.y;
    assert(0 <= rel < num_choices * 32 - 2);
    assert(0 <= rel / 32 < num_choices) by (nonlinear_arith)
        requires
            0 <= rel < num_choices * 32 - 2,
    ;
}

/// What pressing "More" in the bubble list does, as the list shows
/// `num_shown` of its `num_bubbles` bubbles: it reveals another bubble
/// while more than one is hidden, or when the last bubble waits on a
/// choice or puzzle; otherwise it completes the conversation.
#[derive(Clone, Copy, Debug, PartialEq, Eq, Structural)]
pub enum MoreAction {
    Increment,
    Complete,
}

pub open spec fn more_action_spec(
    num_shown: int,
    num_bubbles: int,
    last_is_choice_or_puzzle: bool,
) -> MoreAction {
    if num_shown + 1 < num_bubbles || last_is_choice_or_puzzle {
        MoreAction::Increment
    } else {
        MoreAction::Complete
    }
}

pub fn more_action(num_shown: usize, num_bubbles: usize, last_is_choice_or_puzzle: bool) -> (a:
    MoreAction)
    ensures
        a == more_action_spec(num_shown as int, num_bubbles as int, last_is_choice_or_puzzle),
{
    if (num_shown as u128) + 1 < num_bubbles as u128 {
        return MoreAction::Increment;
    }
    if last_is_choice_or_puzzle {
        return MoreAction::Increment;
    }
    MoreAction::Complete
}

/// How many bubbles the list shows for a conversation read up to
/// `progress`: one more than that, but no more than there are.
pub open spec fn bubbles_to_show_spec(progress: int, num_bubbles: int) -> int {
    let wanted = if progress + 1 > usize::MAX {
        usize::MAX as int
    } else {
        progress + 1
    };
    if wanted <= num_bubbles {
        wanted
    } else {
        num_bubbles
    }
}

pub fn bubbles_to_show(progress: usize, num_bubbles: usize) -> (n: usize)
    ensures
        n == bubbles_to_show_spec(progress as int, num_bubbles as int),
{
    let wanted = progress.saturating_add(1);
    if wanted <= num_bubbles {
        wanted
    } else {
        num_bubbles
    }
}

} // verus!
