use vstd::prelude::*;

verus! {

/// What hovering did to a tooltip.
#[derive(Clone, Copy, Debug, PartialEq, Eq, Structural)]
pub enum HoverChange {
    /// Nothing (the tooltip was locked for this event, or nothing moved).
    Unchanged,
    /// The mouse moved over the same thing: the tooltip follows it
    /// (`redraw` when it is shown).
    Moved { redraw: bool },
    /// The mouse is over something else (or over nothing): the hover timer
    /// starts again and any shown tooltip goes away (`redraw` when one was
    /// shown).
    Restarted { redraw: bool },
}

/// What the mouse hovers over: a tag naming it, and the screen point.
#[derive(Clone, Copy, Debug, PartialEq, Eq, Structural)]
pub struct Hover {
    pub tag: u64,
    pub x: i32,
    pub y: i32,
}

/// The tooltip of a view: what the mouse hovers over (a tag naming it, and
/// the point), whether the tooltip text is shown, and whether this event
/// already decided the hover.  Each event unlocks it; the first view that
/// reports a hover (or none) during the event decides, the rest are
/// ignored.  The time spent hovering is counted by the caller, which shows
/// the tooltip once it is long enough.
#[derive(Clone, Copy, Debug, PartialEq, Eq, Structural)]
pub struct TooltipState {
    pub hover: Option<Hover>,
    pub shown: bool,
    pub locked: bool,
}

/// A shown tooltip is always about something hovered.
pub open spec fn tooltip_wf(t: TooltipState) -> bool {
    t.shown ==> t.hover is Some
}

pub fn tooltip_new() -> (t: TooltipState)
    ensures
        t == (TooltipState { hover: None, shown: false, locked: true }),
        tooltip_wf(t),
{
    TooltipState { hover: None, shown: false, locked: true }
}

/// A new event: the tooltip may be decided again.
pub fn tooltip_begin_event(t: &mut TooltipState)
    ensures
        *final(t) == (TooltipState { locked: false, ..*old(t) }),
{
    t.locked = false;
}

/// The mouse hovers over `tag` at `pt`.
pub fn tooltip_hover_tag(t: &mut TooltipState, tag: u64, x: i32, y: i32) -> (c: HoverChange)
    requires
        tooltip_wf(*old(t)),
    ensures
        tooltip_wf(*final(t)),
        old(t).locked ==> *final(t) == *old(t) && c == HoverChange::Unchanged,
        !old(t).locked ==> final(t).locked,
        !old(t).locked ==> match old(t).hover {
            Some(h) if h.tag == tag => {
                &&& final(t).hover == Some(Hover { tag, x, y })
                &&& final(t).shown == old(t).shown
                &&& c == (if h.x == x && h.y == y {
                    HoverChange::Unchanged
                } else {
                    HoverChange::Moved { redraw: old(t).shown }
                })
            },
            _ => {
                &&& final(t).hover == Some(Hover { tag, x, y })
                &&& !final(t).shown
                &&& c == HoverChange::Restarted { redraw: old(t).shown }
            },
        },
{
    if t.locked {
        return HoverChange::Unchanged;
    }
    t.locked = true;
    match t.hover {
        Some(h) => {
            if h.tag == tag {
                if h.x != x || h.y != y {
                    t.hover = Some(Hover { tag, x, y });
                    return HoverChange::Moved { redraw: t.shown };
                }
                return HoverChange::Unchanged;
            }
        },
        None => {},
    }
    let was_shown = t.shown;
    t.hover = Some(Hover { tag, x, y });
    t.shown = false;
    HoverChange::Restarted { redraw: was_shown }
}

/// The mouse hovers over nothing, or a key, click, drag, scroll or loss of
/// focus dismisses the tooltip.  Returns whether a shown tooltip went away.
pub fn tooltip_hover_none(t: &mut TooltipState) -> (redraw: bool)
    requires
        tooltip_wf(*old(t)),
    ensures
        tooltip_wf(*final(t)),
        old(t).locked ==> *final(t) == *old(t) && !redraw,
        !old(t).locked ==> *final(t) == (TooltipState { hover: None, shown: false, locked: true })
            && redraw == old(t).shown,
{
    if t.locked {
        return false;
    }
    let was_shown = t.shown;
    t.locked = true;
    t.hover = None;
    t.shown = false;
    was_shown
}

/// The caller's hover timer ran out: the tooltip shows, if something is
/// hovered and it is not shown yet.  Returns whether it now shows.
pub fn tooltip_show(t: &mut TooltipState) -> (appeared: bool)
    requires
        tooltip_wf(*old(t)),
    ensures
        tooltip_wf(*final(t)),
        appeared == (old(t).hover is Some && !old(t).shown),
        final(t).shown == old(t).hover is Some,
        final(t).hover == old(t).hover,
        final(t).locked == old(t).locked,
{
    if t.hover.is_some() && !t.shown {
        t.shown = true;
        return true;
    }
    false
}

} // verus!
