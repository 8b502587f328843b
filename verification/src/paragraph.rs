use vstd::prelude::*;
use crate::text::{chars_of_str, parse_unsigned, parse_unsigned_spec, str_equals, string_from_chars};

verus! {

/// Horizontal alignment of paragraph text.
#[derive(Clone, Copy, Debug, PartialEq, Eq, Structural)]
pub enum ParserAlign {
    Left,
    Center,
    Right,
}

/// The text colors that a paragraph format can switch to.
#[derive(Clone, Copy, Debug, PartialEq, Eq, Structural)]
pub enum TextColor {
    Cyan,
    Default,
    Green,
    Black,
    Orange,
    Purple,
    Red,
    White,
    Yellow,
}

/// One step of a paragraph format string: a character of text, a line
/// break, or the effect of one `$` escape.
pub enum FormatToken {
    /// A character of text (`$$` gives a literal `$`).
    Char(char),
    /// A line break (`\n`).
    Newline,
    /// `$<`, `$=`, `$>`: the alignment of the text that follows.
    Align(ParserAlign),
    /// `$!`: the wrap indent of the current line is set here.
    WrapIndent,
    /// `$*`: bold text on or off.
    ToggleBold,
    /// `$/`: italic text on or off.
    ToggleItalic,
    /// `$C`, `$D`, `$G`, ...: the color of the text that follows.
    Color(TextColor),
    /// `${f}`: the font named `f`.
    Font(String),
    /// `$[h]`: the name of the key bound to the hotkey named `h`.
    Key(String),
    /// `$(n)`: the text speed, `n` milliseconds per character (empty for
    /// the default speed).
    Speed(String),
    /// `$'p'`: the special phrase named `p`.
    Phrase(String),
    /// `$|o-c|`: an image of the chip type `c` in the orientation `o`.
    Chip(String, String),
    /// `$#t#`: an image of the circuit given as TOML text `t`.
    Circuit(String),
    /// A `$` followed by a character that is no escape.
    InvalidEscape(char),
    /// A `$` at the very end of the format string.
    IncompleteEscape,
}

/// A format token with its text arguments taken as character sequences.
pub enum TokenSpec {
    Char(char),
    Newline,
    Align(ParserAlign),
    WrapIndent,
    ToggleBold,
    ToggleItalic,
    Color(TextColor),
    Font(Seq<char>),
    Key(Seq<char>),
    Speed(Seq<char>),
    Phrase(Seq<char>),
    Chip(Seq<char>, Seq<char>),
    Circuit(Seq<char>),
    InvalidEscape(char),
    IncompleteEscape,
}

impl View for FormatToken {
    type V = TokenSpec;

    open spec fn view(&self) -> TokenSpec {
        match self {
            FormatToken::Char(c) => TokenSpec::Char(*c),
            FormatToken::Newline => TokenSpec::Newline,
            FormatToken::Align(a) => TokenSpec::Align(*a),
            FormatToken::WrapIndent => TokenSpec::WrapIndent,
            FormatToken::ToggleBold => TokenSpec::ToggleBold,
            FormatToken::ToggleItalic => TokenSpec::ToggleItalic,
            FormatToken::Color(c) => TokenSpec::Color(*c),
            FormatToken::Font(s) => TokenSpec::Font(s@),
            FormatToken::Key(s) => TokenSpec::Key(s@),
            FormatToken::Speed(s) => TokenSpec::Speed(s@),
            FormatToken::Phrase(s) => TokenSpec::Phrase(s@),
            FormatToken::Chip(a, b) => TokenSpec::Chip(a@, b@),
            FormatToken::Circuit(s) => TokenSpec::Circuit(s@),
            FormatToken::InvalidEscape(c) => TokenSpec::InvalidEscape(*c),
            FormatToken::IncompleteEscape => TokenSpec::IncompleteEscape,
        }
    }
}

pub open spec fn tokens_view(s: Seq<FormatToken>) -> Seq<TokenSpec> {
    s.map_values(|t: FormatToken| t@)
}

/// The position of the first `close` at or after `i` in `s`, or the end of
/// `s` if there is none.
pub open spec fn arg_end(s: Seq<char>, i: int, close: char) -> int
    decreases s.len() - i,
{
    if i >= s.len() {
        s.len() as int
    } else if s[i] == close {
        i
    } else {
        arg_end(s, i + 1, close)
    }
}

/// Where reading resumes after an argument that ends at `e`: just past the
/// closing character, if there was one.
pub open spec fn after_arg(s: Seq<char>, e: int) -> int {
    if e < s.len() {
        e + 1
    } else {
        s.len() as int
    }
}

/// The effect of the single-character escape `$c`, if `c` is one.
pub open spec fn simple_escape(c: char) -> Option<TokenSpec> {
    if c == '$' {
        Some(TokenSpec::Char('$'))
    } else if c == '<' {
        Some(TokenSpec::Align(ParserAlign::Left))
    } else if c == '=' {
        Some(TokenSpec::Align(ParserAlign::Center))
    } else if c == '>' {
        Some(TokenSpec::Align(ParserAlign::Right))
    } else if c == '!' {
        Some(TokenSpec::WrapIndent)
    } else if c == '*' {
        Some(TokenSpec::ToggleBold)
    } else if c == '/' {
        Some(TokenSpec::ToggleItalic)
    } else if c == 'C' {
        Some(TokenSpec::Color(TextColor::Cyan))
    } else if c == 'D' {
        Some(TokenSpec::Color(TextColor::Default))
    } else if c == 'G' {
        Some(TokenSpec::Color(TextColor::Green))
    } else if c == 'K' {
        Some(TokenSpec::Color(TextColor::Black))
    } else if c == 'O' {
        Some(TokenSpec::Color(TextColor::Orange))
    } else if c == 'P' {
        Some(TokenSpec::Color(TextColor::Purple))
    } else if c == 'R' {
        Some(TokenSpec::Color(TextColor::Red))
    } else if c == 'W' {
        Some(TokenSpec::Color(TextColor::White))
    } else if c == 'Y' {
        Some(TokenSpec::Color(TextColor::Yellow))
    } else {
        None
    }
}

/// The closing character of the argument escape `$c`, if `c` opens one
/// (the chip escape `$|o-c|` has two arguments and is handled apart).
pub open spec fn arg_close(c: char) -> Option<char> {
    if c == '{' {
        Some('}')
    } else if c == '[' {
        Some(']')
    } else if c == '(' {
        Some(')')
    } else if c == '\'' {
        Some('\'')
    } else if c == '#' {
        Some('#')
    } else {
        None
    }
}

pub open spec fn arg_token(c: char, arg: Seq<char>) -> TokenSpec {
    if c == '{' {
        TokenSpec::Font(arg)
    } else if c == '[' {
        TokenSpec::Key(arg)
    } else if c == '(' {
        TokenSpec::Speed(arg)
    } else if c == '\'' {
        TokenSpec::Phrase(arg)
    } else {
        TokenSpec::Circuit(arg)
    }
}

pub open spec fn char_token(c: char) -> TokenSpec {
    TokenSpec::Char(c)
}

pub open spec fn invalid_escape_token(c: char) -> TokenSpec {
    TokenSpec::InvalidEscape(c)
}

/// The tokens of the format string `s` from position `i` on.
pub open spec fn tokens_from(s: Seq<char>, i: int) -> Seq<TokenSpec>
    decreases s.len() - i,
    via tokens_from_decreases
{
    if i < 0 || i >= s.len() {
        Seq::empty()
    } else if s[i] == '$' {
        if i + 1 >= s.len() {
            seq![TokenSpec::IncompleteEscape]
        } else {
            let c = s[i + 1];
            if simple_escape(c) is Some {
                seq![simple_escape(c)->0] + tokens_from(s, i + 2)
            } else if arg_close(c) is Some {
                let e = arg_end(s, i + 2, arg_close(c)->0);
                seq![arg_token(c, s.subrange(i + 2, e))] + tokens_from(s, after_arg(s, e))
            } else if c == '|' {
                let e1 = arg_end(s, i + 2, '-');
                let j = after_arg(s, e1);
                let e2 = arg_end(s, j, '|');
                seq![TokenSpec::Chip(s.subrange(i + 2, e1), s.subrange(j, e2))] + tokens_from(
                    s,
                    after_arg(s, e2),
                )
            } else {
                seq![invalid_escape_token(c)] + tokens_from(s, i + 2)
            }
        }
    } else if s[i] == '\n' {
        seq![TokenSpec::Newline] + tokens_from(s, i + 1)
    } else {
        seq![char_token(s[i])] + tokens_from(s, i + 1)
    }
}

#[via_fn]
proof fn tokens_from_decreases(s: Seq<char>, i: int) {
    if 0 <= i && i + 1 < s.len() {
        let c = s[i + 1];
        if arg_close(c) is Some {
            lemma_arg_end_bounds(s, i + 2, arg_close(c)->0);
        }
        lemma_arg_end_bounds(s, i + 2, '-');
        let j = after_arg(s, arg_end(s, i + 2, '-'));
        lemma_arg_end_bounds(s, j, '|');
    }
}

pub open spec fn tokens_of(s: Seq<char>) -> Seq<TokenSpec> {
    tokens_from(s, 0)
}

pub proof fn lemma_arg_end_bounds(s: Seq<char>, i: int, close: char)
    requires
        0 <= i <= s.len(),
    ensures
        i <= arg_end(s, i, close) <= s.len(),
        arg_end(s, i, close) < s.len() ==> s[arg_end(s, i, close)] == close,
        forall|k: int| i <= k < arg_end(s, i, close) ==> s[k] != close,
    decreases s.len() - i,
{
    if i < s.len() && s[i] != close {
        lemma_arg_end_bounds(s, i + 1, close);
    }
}

/// Reads the argument of an escape: the characters of `chars` from `start`
/// up to the first `close`, or to the end.  Also returns where reading
/// resumes, just past the closing character.
pub fn parse_arg(chars: &Vec<char>, start: usize, close: char) -> (res: (String, usize))
    requires
        start <= chars@.len(),
    ensures
        res.0@ == chars@.subrange(start as int, arg_end(chars@, start as int, close)),
        res.1 == after_arg(chars@, arg_end(chars@, start as int, close)),
{
    proof {
        lemma_arg_end_bounds(chars@, start as int, close);
    }
    let mut result: Vec<char> = Vec::new();
    let mut i = start;
    while i < chars.len()
        invariant
            start <= i <= chars@.len(),
            arg_end(chars@, start as int, close) == arg_end(chars@, i as int, close),
            result@ == chars@.subrange(start as int, i as int),
        decreases chars.len() - i,
    {
        let c = chars[i];
        if c == close {
            return (string_from_chars(&result), i + 1);
        }
        result.push(c);
        assert(result@ =~= chars@.subrange(start as int, i + 1));
        i = i + 1;
    }
    (string_from_chars(&result), chars.len())
}

fn simple_escape_token(c: char) -> (t: Option<FormatToken>)
    ensures
        t is Some == simple_escape(c) is Some,
        t matches Some(t) ==> t@ == simple_escape(c)->0,
{
    if c == '$' {
        Some(FormatToken::Char('$'))
    } else if c == '<' {
        Some(FormatToken::Align(ParserAlign::Left))
    } else if c == '=' {
        Some(FormatToken::Align(ParserAlign::Center))
    } else if c == '>' {
        Some(FormatToken::Align(ParserAlign::Right))
    } else if c == '!' {
        Some(FormatToken::WrapIndent)
    } else if c == '*' {
        Some(FormatToken::ToggleBold)
    } else if c == '/' {
        Some(FormatToken::ToggleItalic)
    } else if c == 'C' {
        Some(FormatToken::Color(TextColor::Cyan))
    } else if c == 'D' {
        Some(FormatToken::Color(TextColor::Default))
    } else if c == 'G' {
        Some(FormatToken::Color(TextColor::Green))
    } else if c == 'K' {
        Some(FormatToken::Color(TextColor::Black))
    } else if c == 'O' {
        Some(FormatToken::Color(TextColor::Orange))
    } else if c == 'P' {
        Some(FormatToken::Color(TextColor::Purple))
    } else if c == 'R' {
        Some(FormatToken::Color(TextColor::Red))
    } else if c == 'W' {
        Some(FormatToken::Color(TextColor::White))
    } else if c == 'Y' {
        Some(FormatToken::Color(TextColor::Yellow))
    } else {
        None
    }
}

fn arg_close_char(c: char) -> (r: Option<char>)
    ensures
        r == arg_close(c),
{
    if c == '{' {
        Some('}')
    } else if c == '[' {
        Some(']')
    } else if c == '(' {
        Some(')')
    } else if c == '\'' {
        Some('\'')
    } else if c == '#' {
        Some('#')
    } else {
        None
    }
}

fn make_arg_token(c: char, arg: String) -> (t: FormatToken)
    ensures
        t@ == arg_token(c, arg@),
{
    if c == '{' {
        FormatToken::Font(arg)
    } else if c == '[' {
        FormatToken::Key(arg)
    } else if c == '(' {
        FormatToken::Speed(arg)
    } else if c == '\'' {
        FormatToken::Phrase(arg)
    } else {
        FormatToken::Circuit(arg)
    }
}

/// Reads the token that starts at position `i` of `chars`, and returns it
/// with the position where the next token starts.
fn next_token(chars: &Vec<char>, i: usize) -> (res: (FormatToken, usize))
    requires
        i < chars@.len(),
    ensures
        i < res.1 <= chars@.len(),
        tokens_from(chars@, i as int) == seq![res.0@] + tokens_from(chars@, res.1 as int),
{
    let ghost s = chars@;
    let n = chars.len();
    let c = chars[i];
    if c == '$' {
        if i >= chars.len() - 1 {
            assert(tokens_from(s, chars.len() as int) =~= Seq::<TokenSpec>::empty());
            assert(tokens_from(s, i as int) =~= seq![TokenSpec::IncompleteEscape]);
            return (FormatToken::IncompleteEscape, chars.len());
        }
        let e = chars[i + 1];
        match simple_escape_token(e) {
            Some(t) => {
                assert(tokens_from(s, i as int) == seq![t@] + tokens_from(s, i + 2));
                return (t, i + 2);
            },
            None => {},
        }
        match arg_close_char(e) {
            Some(close) => {
                proof {
                    lemma_arg_end_bounds(s, i + 2, close);
                }
                let (arg, resume) = parse_arg(chars, i + 2, close);
                let t = make_arg_token(e, arg);
                assert(tokens_from(s, i as int) == seq![t@] + tokens_from(s, resume as int));
                return (t, resume);
            },
            None => {},
        }
        if e == '|' {
            proof {
                lemma_arg_end_bounds(s, i + 2, '-');
            }
            let (orient, resume1) = parse_arg(chars, i + 2, '-');
            proof {
                lemma_arg_end_bounds(s, resume1 as int, '|');
            }
            let (ctype, resume2) = parse_arg(chars, resume1, '|');
            let t = FormatToken::Chip(orient, ctype);
            assert(tokens_from(s, i as int) == seq![t@] + tokens_from(s, resume2 as int));
            (t, resume2)
        } else {
            let t = FormatToken::InvalidEscape(e);
            assert(tokens_from(s, i as int) == seq![t@] + tokens_from(s, i + 2));
            (t, i + 2)
        }
    } else if c == '\n' {
        let t = FormatToken::Newline;
        assert(tokens_from(s, i as int) == seq![t@] + tokens_from(s, i + 1));
        (t, i + 1)
    } else {
        let t = FormatToken::Char(c);
        assert(tokens_from(s, i as int) == seq![t@] + tokens_from(s, i + 1));
        (t, i + 1)
    }
}

/// Splits a paragraph format string into its text characters, line breaks
/// and escapes.
pub fn tokenize_format(format: &str) -> (tokens: Vec<FormatToken>)
    ensures
        tokens_view(tokens@) == tokens_of(format@),
{
    let chars = chars_of_str(format);
    let ghost s = chars@;
    let mut tokens: Vec<FormatToken> = Vec::new();
    let mut i: usize = 0;
    while i < chars.len()
        invariant
            s == chars@,
            s == format@,
            i <= s.len(),
            tokens_view(tokens@) + tokens_from(s, i as int) == tokens_of(s),
        decreases chars.len() - i,
    {
        let ghost prev_raw = tokens@;
        let (tok, next) = next_token(&chars, i);
        let ghost tv = tok@;
        tokens.push(tok);
        proof {
            assert(tokens_view(tokens@) =~= tokens_view(prev_raw).push(tv));
            assert(tokens_view(prev_raw) + tokens_from(s, i as int) =~= tokens_view(prev_raw).push(tv)
                + tokens_from(s, next as int));
        }
        i = next;
    }
    assert(tokens_from(s, i as int) =~= Seq::<TokenSpec>::empty());
    assert(tokens_view(tokens@) =~= tokens_view(tokens@) + tokens_from(s, i as int));
    tokens
}


//---------------------------------------------------------------------------//
// Escaping

/// How one character of plain text is written in a format string.
pub open spec fn escape_piece(c: char) -> Seq<char> {
    if c == '$' {
        seq!['$', '$']
    } else {
        seq![c]
    }
}

/// Plain text written as a format string: each `$` doubled.
pub open spec fn escaped(s: Seq<char>) -> Seq<char>
    decreases s.len(),
{
    if s.len() == 0 {
        Seq::empty()
    } else {
        escape_piece(s[0]) + escaped(s.drop_first())
    }
}

/// The tokens that plain text stands for: its characters, with line
/// breaks.
pub open spec fn plain_token(c: char) -> TokenSpec {
    if c == '\n' {
        TokenSpec::Newline
    } else {
        TokenSpec::Char(c)
    }
}

pub open spec fn plain_tokens(s: Seq<char>) -> Seq<TokenSpec> {
    s.map_values(|c: char| plain_token(c))
}

proof fn lemma_escaped_concat(a: Seq<char>, b: Seq<char>)
    ensures
        escaped(a + b) == escaped(a) + escaped(b),
    decreases a.len(),
{
    if a.len() > 0 {
        assert((a + b).drop_first() =~= a.drop_first() + b);
        lemma_escaped_concat(a.drop_first(), b);
        assert(escaped(a + b) =~= escaped(a) + escaped(b));
    } else {
        assert(a + b =~= b);
        assert(escaped(a) + escaped(b) =~= escaped(b));
    }
}

proof fn lemma_arg_end_shift(p: Seq<char>, q: Seq<char>, k: int, close: char)
    requires
        0 <= k <= q.len(),
    ensures
        arg_end(p + q, p.len() + k, close) == p.len() + arg_end(q, k, close),
    decreases q.len() - k,
{
    if k < q.len() {
        assert((p + q)[p.len() + k] == q[k]);
        if q[k] != close {
            lemma_arg_end_shift(p, q, k + 1, close);
        }
    }
}

/// The tokens from a position depend only on the text from there on.
pub proof fn lemma_tokens_suffix(p: Seq<char>, q: Seq<char>, j: int)
    requires
        0 <= j <= q.len(),
    ensures
        tokens_from(p + q, p.len() + j) == tokens_from(q, j),
    decreases q.len() - j,
{
    let s = p + q;
    let i = p.len() + j;
    if j < q.len() {
        assert(s[i] == q[j]);
        if q[j] == '$' {
            if j + 1 < q.len() {
                assert(s[i + 1] == q[j + 1]);
                let c = q[j + 1];
                lemma_arg_end_bounds(q, j + 2, '-');
                lemma_arg_end_shift(p, q, j + 2, '-');
                let e1 = arg_end(q, j + 2, '-');
                let j1 = after_arg(q, e1);
                lemma_arg_end_bounds(q, j1, '|');
                lemma_arg_end_shift(p, q, j1, '|');
                let e2 = arg_end(q, j1, '|');
                lemma_arg_end_bounds(q, after_arg(q, e2), '|');
                if simple_escape(c) is Some {
                    lemma_tokens_suffix(p, q, j + 2);
                } else if arg_close(c) is Some {
                    let close = arg_close(c)->0;
                    lemma_arg_end_bounds(q, j + 2, close);
                    lemma_arg_end_shift(p, q, j + 2, close);
                    let e = arg_end(q, j + 2, close);
                    lemma_tokens_suffix(p, q, after_arg(q, e));
                    assert(s.subrange(i + 2, p.len() + e) =~= q.subrange(j + 2, e));
                } else if c == '|' {
                    lemma_tokens_suffix(p, q, after_arg(q, e2));
                    assert(s.subrange(i + 2, p.len() + e1) =~= q.subrange(j + 2, e1));
                    assert(s.subrange(p.len() + j1, p.len() + e2) =~= q.subrange(j1, e2));
                } else {
                    lemma_tokens_suffix(p, q, j + 2);
                }
            }
        } else {
            lemma_tokens_suffix(p, q, j + 1);
        }
    }
}

/// The text of a format string after a two-character escape `$c` is read
/// on its own: its tokens follow the escape's token.
proof fn lemma_two_char_escape(c: char, rest: Seq<char>)
    requires
        simple_escape(c) is Some,
    ensures
        tokens_of(seq!['$', c] + rest) == seq![simple_escape(c)->0] + tokens_of(rest),
{
    let p = seq!['$', c];
    lemma_tokens_suffix(p, rest, 0);
    let s = p + rest;
    assert(s[0] == '$' && s[1] == c);
}

/// Every one-character escape does what the format language documents,
/// wherever it stands: `$$` is a literal `$`; `$<`, `$=`, `$>` align left,
/// center and right; `$!` sets the wrap indent; `$*` and `$/` toggle bold
/// and italic; and `$C`, `$D`, `$G`, `$K`, `$O`, `$P`, `$R`, `$W`, `$Y`
/// switch to cyan, the default color, green, black, orange, purple, red,
/// white and yellow.  The text after the escape reads as it would alone.
pub proof fn lemma_simple_escapes(rest: Seq<char>)
    ensures
        tokens_of(seq!['$', '$'] + rest) == seq![TokenSpec::Char('$')] + tokens_of(rest),
        tokens_of(seq!['$', '<'] + rest) == seq![TokenSpec::Align(ParserAlign::Left)] + tokens_of(rest),
        tokens_of(seq!['$', '='] + rest) == seq![TokenSpec::Align(ParserAlign::Center)] + tokens_of(rest),
        tokens_of(seq!['$', '>'] + rest) == seq![TokenSpec::Align(ParserAlign::Right)] + tokens_of(rest),
        tokens_of(seq!['$', '!'] + rest) == seq![TokenSpec::WrapIndent] + tokens_of(rest),
        tokens_of(seq!['$', '*'] + rest) == seq![TokenSpec::ToggleBold] + tokens_of(rest),
        tokens_of(seq!['$', '/'] + rest) == seq![TokenSpec::ToggleItalic] + tokens_of(rest),
        tokens_of(seq!['$', 'C'] + rest) == seq![TokenSpec::Color(TextColor::Cyan)] + tokens_of(rest),
        tokens_of(seq!['$', 'D'] + rest) == seq![TokenSpec::Color(TextColor::Default)] + tokens_of(rest),
        tokens_of(seq!['$', 'G'] + rest) == seq![TokenSpec::Color(TextColor::Green)] + tokens_of(rest),
        tokens_of(seq!['$', 'K'] + rest) == seq![TokenSpec::Color(TextColor::Black)] + tokens_of(rest),
        tokens_of(seq!['$', 'O'] + rest) == seq![TokenSpec::Color(TextColor::Orange)] + tokens_of(rest),
        tokens_of(seq!['$', 'P'] + rest) == seq![TokenSpec::Color(TextColor::Purple)] + tokens_of(rest),
        tokens_of(seq!['$', 'R'] + rest) == seq![TokenSpec::Color(TextColor::Red)] + tokens_of(rest),
        tokens_of(seq!['$', 'W'] + rest) == seq![TokenSpec::Color(TextColor::White)] + tokens_of(rest),
        tokens_of(seq!['$', 'Y'] + rest) == seq![TokenSpec::Color(TextColor::Yellow)] + tokens_of(rest),
{
    lemma_two_char_escape('$', rest);
    lemma_two_char_escape('<', rest);
    lemma_two_char_escape('=', rest);
    lemma_two_char_escape('>', rest);
    lemma_two_char_escape('!', rest);
    lemma_two_char_escape('*', rest);
    lemma_two_char_escape('/', rest);
    lemma_two_char_escape('C', rest);
    lemma_two_char_escape('D', rest);
    lemma_two_char_escape('G', rest);
    lemma_two_char_escape('K', rest);
    lemma_two_char_escape('O', rest);
    lemma_two_char_escape('P', rest);
    lemma_two_char_escape('R', rest);
    lemma_two_char_escape('W', rest);
    lemma_two_char_escape('Y', rest);
}

/// Writing plain text as a format string with `escape` and reading it back
/// gives exactly that text: every character is literal, and line breaks
/// stay line breaks.
pub proof fn lemma_escape_roundtrip(s: Seq<char>)
    ensures
        tokens_of(escaped(s)) == plain_tokens(s),
    decreases s.len(),
{
    if s.len() == 0 {
        assert(plain_tokens(s) =~= Seq::<TokenSpec>::empty());
    } else {
        let c = s[0];
        let rest = s.drop_first();
        lemma_escape_roundtrip(rest);
        let piece = escape_piece(c);
        assert(escaped(s) == piece + escaped(rest));
        lemma_tokens_suffix(piece, escaped(rest), 0);
        let e = piece + escaped(rest);
        if c == '$' {
            assert(e[0] == '$' && e[1] == '$');
        } else {
            assert(e[0] == c);
        }
        assert(plain_tokens(s) =~= seq![plain_token(c)] + plain_tokens(rest));
    }
}

/// Writes plain text as a format string, so that every character of it is
/// shown literally: each `$` is doubled.
pub fn escape(string: &str) -> (res: String)
    ensures
        res@ == escaped(string@),
{
    let chars = chars_of_str(string);
    let mut out: Vec<char> = Vec::new();
    let mut i: usize = 0;
    while i < chars.len()
        invariant
            i <= chars@.len(),
            chars@ == string@,
            out@ == escaped(chars@.take(i as int)),
        decreases chars.len() - i,
    {
        let c = chars[i];
        proof {
            lemma_escaped_concat(chars@.take(i as int), seq![c]);
            assert(chars@.take(i + 1) =~= chars@.take(i as int) + seq![c]);
            assert(escaped(seq![c]) =~= escape_piece(c)) by {
                let one = seq![c];
                assert(one.drop_first() =~= Seq::<char>::empty());
                assert(escaped(one.drop_first()) =~= Seq::<char>::empty());
                assert(one[0] == c);
                assert(escaped(one) == escape_piece(one[0]) + escaped(one.drop_first()));
            }
        }
        if c == '$' {
            out.push('$');
            out.push('$');
        } else {
            out.push(c);
        }
        assert(out@ =~= escaped(chars@.take(i + 1)));
        i = i + 1;
    }
    assert(chars@.take(chars@.len() as int) =~= chars@);
    string_from_chars(&out)
}


//---------------------------------------------------------------------------//
// Phrases and text speed

/// The text speed of a paragraph, in milliseconds per character, until a
/// `$(n)` escape changes it.
pub const DEFAULT_MILLIS_PER_CHAR: usize = 30;

/// The platform the game runs on, as far as phrases depend on it.
#[derive(Clone, Copy, Debug, PartialEq, Eq, Structural)]
pub enum Platform {
    MacOs,
    Ios,
    Android,
    Other,
}

/// The text of the special phrase named `name` (the `$'p'` escape): the
/// platform's modifier key for "Command", its secondary click for
/// "Right-click", the current profile's name for "YOURNAME" (or the phrase
/// name itself when there is no profile), and any other name as is.
pub open spec fn phrase_spec(name: Seq<char>, platform: Platform, profile: Option<Seq<char>>) -> Seq<char> {
    if name == "Command"@ {
        if platform == Platform::MacOs || platform == Platform::Ios {
            "Command"@
        } else {
            "Control"@
        }
    } else if name == "Right-click"@ {
        if platform == Platform::Android || platform == Platform::Ios {
            "Long-press"@
        } else if platform == Platform::MacOs {
            "Control-click"@
        } else {
            "Right-click"@
        }
    } else if name == "YOURNAME"@ {
        match profile {
            Some(p) => p,
            None => "YOURNAME"@,
        }
    } else {
        name
    }
}

/// The text that the phrase escape `$'name'` stands for.
pub fn phrase_text(name: &str, platform: Platform, profile: Option<&str>) -> (text: String)
    ensures
        text@ == phrase_spec(
            name@,
            platform,
            match profile {
                Some(p) => Some(p@),
                None => None,
            },
        ),
{
    if str_equals(name, "Command") {
        if platform == Platform::MacOs || platform == Platform::Ios {
            "Command".to_owned()
        } else {
            "Control".to_owned()
        }
    } else if str_equals(name, "Right-click") {
        if platform == Platform::Android || platform == Platform::Ios {
            "Long-press".to_owned()
        } else if platform == Platform::MacOs {
            "Control-click".to_owned()
        } else {
            "Right-click".to_owned()
        }
    } else if str_equals(name, "YOURNAME") {
        match profile {
            Some(p) => p.to_owned(),
            None => "YOURNAME".to_owned(),
        }
    } else {
        name.to_owned()
    }
}

/// The text speed after a `$(arg)` escape, when the speed was `current`:
/// the number `arg` if it is one, the default speed for an empty `arg`, and
/// otherwise (a malformed number) unchanged.
pub open spec fn speed_after_spec(arg: Seq<char>, current: int) -> int {
    if arg.len() == 0 {
        DEFAULT_MILLIS_PER_CHAR as int
    } else {
        match parse_unsigned_spec(arg, usize::MAX as int) {
            Some(v) => v,
            None => current,
        }
    }
}

/// Applies a `$(arg)` escape to the text speed `current`.
pub fn speed_after(arg: &str, current: usize) -> (speed: usize)
    ensures
        speed == speed_after_spec(arg@, current as int),
{
    let chars = chars_of_str(arg);
    if chars.len() == 0 {
        return DEFAULT_MILLIS_PER_CHAR;
    }
    match parse_unsigned(&chars, usize::MAX as u64) {
        Some(v) => v as usize,
        None => current,
    }
}

} // verus!
