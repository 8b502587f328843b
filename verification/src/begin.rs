use vstd::prelude::*;
use crate::geom::CoordsRect;
use crate::text::{chars_of_str, string_from_chars};

verus! {

pub const BEGIN_BUTTON_WIDTH: i32 = 200;
pub const BEGIN_BUTTON_HEIGHT: i32 = 44;
pub const BEGIN_BUTTON_SPACING: i32 = 100;

/// Where the new-commander screen stands.
#[derive(Clone, Debug)]
pub enum BeginPhase {
    /// The player is typing a name.
    Entry,
    /// The player is asked to confirm the name.
    Confirm(String),
    /// The name entered was empty.
    ErrorEmpty,
    /// A profile of that name exists already.
    ErrorTaken,
}

/// What the new-commander screen asks of the game.
#[derive(Clone, Debug)]
pub enum BeginAction {
    /// Create a profile of this name and start playing.
    CreateProfile(String),
}

/// The confirmation buttons, while the player is asked to confirm a name:
/// "That's right" creates the profile, "Go back" returns to typing (given
/// which of the two buttons fired).  In any other phase they do nothing.
pub fn on_confirm_buttons(phase: BeginPhase, confirm_fired: bool, back_fired: bool) -> (r: (
    Option<BeginAction>,
    BeginPhase,
))
    ensures
        phase matches BeginPhase::Confirm(n) ==> {
            &&& confirm_fired ==> (r.0 matches Some(BeginAction::CreateProfile(m)) && m@ == n@)
            &&& !confirm_fired ==> r.0 is None
            &&& !confirm_fired && back_fired ==> r.1 is Entry
            &&& !confirm_fired && !back_fired ==> (r.1 matches BeginPhase::Confirm(m) && m@ == n@)
        },
        !(phase is Confirm) ==> r.0 is None,
        phase is Entry ==> r.1 is Entry,
        phase is ErrorEmpty ==> r.1 is ErrorEmpty,
        phase is ErrorTaken ==> r.1 is ErrorTaken,
{
    match phase {
        BeginPhase::Confirm(name) => {
            if confirm_fired {
                let copy = name.clone();
                (Some(BeginAction::CreateProfile(copy)), BeginPhase::Confirm(name))
            } else if back_fired {
                (None, BeginPhase::Entry)
            } else {
                (None, BeginPhase::Confirm(name))
            }
        },
        other => (None, other),
    }
}

/// A key press or click dismisses an error message and returns to typing;
/// any other phase stays.
pub fn phase_after_key_or_click(phase: BeginPhase) -> (r: BeginPhase)
    ensures
        (phase is ErrorEmpty || phase is ErrorTaken) ==> r is Entry,
        phase is Entry ==> r is Entry,
        phase matches BeginPhase::Confirm(n) ==> (r matches BeginPhase::Confirm(m) && m@ == n@),
{
    match phase {
        BeginPhase::ErrorEmpty | BeginPhase::ErrorTaken => BeginPhase::Entry,
        other => other,
    }
}

/// The phase after the player pressed Enter on `name` (`taken` when a
/// profile of that name exists): an error for an empty or taken name, with
/// a beep, else the request to confirm the name.
pub fn phase_for_entered_name(name: String, taken: bool) -> (r: (BeginPhase, bool))
    ensures
        name@.len() == 0 ==> r.0 is ErrorEmpty && r.1,
        name@.len() != 0 && taken ==> r.0 is ErrorTaken && r.1,
        name@.len() != 0 && !taken ==> (r.0 matches BeginPhase::Confirm(n) && n@ == name@) && !r.1,
{
    let chars = chars_of_str(name.as_str());
    if chars.len() == 0 {
        (BeginPhase::ErrorEmpty, true)
    } else if taken {
        (BeginPhase::ErrorTaken, true)
    } else {
        (BeginPhase::Confirm(name), false)
    }
}

/// The "Go back" and "That's right" buttons of a window of the given size:
/// side by side, `BEGIN_BUTTON_SPACING` apart around the middle, centered
/// at 87% of the window's height.
pub open spec fn div_trunc(a: int, b: int) -> int {
    if a >= 0 {
        a / b
    } else {
        -((-a) / b)
    }
}

pub open spec fn begin_buttons_spec(width: int, height: int) -> (CoordsRect, CoordsRect) {
    let top = height * 87 / 100 - BEGIN_BUTTON_HEIGHT / 2;
    (
        CoordsRect {
            x: (div_trunc(width - BEGIN_BUTTON_SPACING, 2) - BEGIN_BUTTON_WIDTH) as i32,
            y: top as i32,
            width: BEGIN_BUTTON_WIDTH,
            height: BEGIN_BUTTON_HEIGHT,
        },
        CoordsRect {
            x: ((width + BEGIN_BUTTON_SPACING) / 2) as i32,
            y: top as i32,
            width: BEGIN_BUTTON_WIDTH,
            height: BEGIN_BUTTON_HEIGHT,
        },
    )
}

pub fn begin_buttons(width: i32, height: i32) -> (r: (CoordsRect, CoordsRect))
    requires
        0 <= width <= 0x100_0000,
        0 <= height <= 0x100_0000,
    ensures
        r == begin_buttons_spec(width as int, height as int),
{
    assert(0 <= height * 87 <= 87 * 0x100_0000) by (nonlinear_arith)
        requires
            0 <= height <= 0x100_0000,
    ;
    let top = height * 87 / 100 - BEGIN_BUTTON_HEIGHT / 2;
    let back = CoordsRect::new(
        (width - BEGIN_BUTTON_SPACING) / 2 - BEGIN_BUTTON_WIDTH,
        top,
        BEGIN_BUTTON_WIDTH,
        BEGIN_BUTTON_HEIGHT,
    );
    let confirm = CoordsRect::new(
        (width + BEGIN_BUTTON_SPACING) / 2,
        top,
        BEGIN_BUTTON_WIDTH,
        BEGIN_BUTTON_HEIGHT,
    );
    (back, confirm)
}

/// The characters a commander's name may hold: printable ASCII and the
/// printable Latin-1 supplement.
pub open spec fn is_name_char(c: char) -> bool {
    (' ' <= c && c <= '~') || ('\u{a1}' <= c && c <= '\u{ff}')
}

/// The name after typing `input` into `text`: each acceptable character is
/// appended, others are dropped, and typing stops once the name holds
/// `max_chars` characters.
pub open spec fn typed_spec(text: Seq<char>, input: Seq<char>, max_chars: int) -> Seq<char>
    decreases input.len(),
{
    if input.len() == 0 || text.len() >= max_chars {
        text
    } else if is_name_char(input[0]) {
        typed_spec(text.push(input[0]), input.drop_first(), max_chars)
    } else {
        typed_spec(text, input.drop_first(), max_chars)
    }
}

/// Typing keeps a name within its length limit and made of acceptable
/// characters, and only ever extends it.
pub proof fn lemma_typed_keeps_name_valid(text: Seq<char>, input: Seq<char>, max_chars: int)
    requires
        text.len() <= max_chars,
        forall|i: int| 0 <= i < text.len() ==> is_name_char(#[trigger] text[i]),
    ensures
        typed_spec(text, input, max_chars).len() <= max_chars,
        forall|i: int|
            0 <= i < typed_spec(text, input, max_chars).len() ==> is_name_char(
                #[trigger] typed_spec(text, input, max_chars)[i],
            ),
        typed_spec(text, input, max_chars).len() >= text.len(),
        typed_spec(text, input, max_chars).take(text.len() as int) == text,
    decreases input.len(),
{
    if input.len() == 0 || text.len() >= max_chars {
        assert(text.take(text.len() as int) =~= text);
    } else if is_name_char(input[0]) {
        let t2 = text.push(input[0]);
        assert forall|i: int| 0 <= i < t2.len() implies is_name_char(#[trigger] t2[i]) by {
            if i < text.len() {
                assert(t2[i] == text[i]);
            }
        }
        lemma_typed_keeps_name_valid(t2, input.drop_first(), max_chars);
        let r = typed_spec(t2, input.drop_first(), max_chars);
        assert(r.take(text.len() as int) =~= r.take(t2.len() as int).take(text.len() as int));
        assert(t2.take(text.len() as int) =~= text);
    } else {
        lemma_typed_keeps_name_valid(text, input.drop_first(), max_chars);
    }
}

/// The box in which the player types a name of at most `max_chars`
/// characters.
#[derive(Clone, Debug)]
pub struct TextEntry {
    text: Vec<char>,
    max_chars: usize,
}

impl TextEntry {
    pub closed spec fn text_spec(&self) -> Seq<char> {
        self.text@
    }

    pub closed spec fn max_chars_spec(&self) -> int {
        self.max_chars as int
    }

    /// The name typed so far is within the limit and made of acceptable
    /// characters.
    pub open spec fn wf(&self) -> bool {
        &&& self.text_spec().len() <= self.max_chars_spec()
        &&& forall|i: int|
            0 <= i < self.text_spec().len() ==> is_name_char(#[trigger] self.text_spec()[i])
    }

    pub fn new(max_chars: usize) -> (e: TextEntry)
        ensures
            e.wf(),
            e.text_spec().len() == 0,
            e.max_chars_spec() == max_chars,
    {
        TextEntry { text: Vec::new(), max_chars }
    }

    /// The name typed so far, as Enter hands it on.
    pub fn text(&self) -> (s: String)
        ensures
            s@ == self.text_spec(),
    {
        string_from_chars(&self.text)
    }

    /// Types `input`; returns how many characters were added (each clicks).
    pub fn on_text_input(&mut self, input: &str) -> (added: usize)
        requires
            old(self).wf(),
        ensures
            final(self).wf(),
            final(self).max_chars_spec() == old(self).max_chars_spec(),
            final(self).text_spec() == typed_spec(
                old(self).text_spec(),
                input@,
                old(self).max_chars_spec(),
            ),
            added == final(self).text_spec().len() - old(self).text_spec().len(),
    {
        let chars = chars_of_str(input);
        let ghost text0 = self.text@;
        let ghost max0 = self.max_chars;
        let n = chars.len();
        let mut added: usize = 0;
        let mut i: usize = 0;
        proof {
            assert(chars@.skip(0) =~= chars@);
            lemma_typed_keeps_name_valid(text0, chars@, self.max_chars as int);
        }
        while i < n
            invariant_except_break
                n == chars@.len(),
                i <= n,
                typed_spec(text0, chars@, self.max_chars as int) == typed_spec(
                    self.text@,
                    chars@.skip(i as int),
                    self.max_chars as int,
                ),
                self.text@.len() <= self.max_chars,
                forall|k: int| 0 <= k < self.text@.len() ==> is_name_char(#[trigger] self.text@[k]),
                added == self.text@.len() - text0.len(),
                self.max_chars == max0,
            ensures
                self.max_chars == max0,
                typed_spec(text0, chars@, self.max_chars as int) == self.text@,
                self.text@.len() <= self.max_chars,
                forall|k: int| 0 <= k < self.text@.len() ==> is_name_char(#[trigger] self.text@[k]),
                added == self.text@.len() - text0.len(),
            decreases n - i,
        {
            if self.text.len() >= self.max_chars {
                break;
            }
            let c = chars[i];
            let ghost rest = chars@.skip(i as int);
            assert(rest[0] == c);
            assert(rest.drop_first() =~= chars@.skip(i + 1));
            if (' ' <= c && c <= '~') || ('\u{a1}' <= c && c <= '\u{ff}') {
                self.text.push(c);
                added = added + 1;
            }
            i = i + 1;
        }
        added
    }

    /// Backspace removes the last character; returns whether there was one.
    pub fn backspace(&mut self) -> (removed: bool)
        requires
            old(self).wf(),
        ensures
            final(self).wf(),
            final(self).max_chars_spec() == old(self).max_chars_spec(),
            removed == (old(self).text_spec().len() > 0),
            removed ==> final(self).text_spec() == old(self).text_spec().drop_last(),
            !removed ==> final(self).text_spec() == old(self).text_spec(),
    {
        match self.text.pop() {
            Some(_) => {
                assert(self.text@ =~= old(self).text@.drop_last());
                true
            },
            None => false,
        }
    }
}

} // verus!
