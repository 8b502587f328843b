use tachyomancer::chipedit::{comment_bytes, const_value_for_text, is_valid_const};
use tachyomancer::paragraph::{
    escape, parse_arg, phrase_text, speed_after, tokenize_format, FormatToken, ParserAlign,
    Platform, TextColor, DEFAULT_MILLIS_PER_CHAR,
};
use tachyomancer::text::{chars_of_str, parse_unsigned, push_decimal, string_from_chars};

#[test]
fn tokenize_plain_text_and_simple_escapes() {
    let tokens = tokenize_format("a$*b$$\n$>$R");
    assert_eq!(tokens.len(), 7);
    assert!(matches!(tokens[0], FormatToken::Char('a')));
    assert!(matches!(tokens[1], FormatToken::ToggleBold));
    assert!(matches!(tokens[2], FormatToken::Char('b')));
    assert!(matches!(tokens[3], FormatToken::Char('$')));
    assert!(matches!(tokens[4], FormatToken::Newline));
    assert!(matches!(tokens[5], FormatToken::Align(ParserAlign::Right)));
    assert!(matches!(tokens[6], FormatToken::Color(TextColor::Red)));
}

#[test]
fn tokenize_argument_escapes() {
    let tokens = tokenize_format("${roman}$[EvalReset]$(40)$'YOURNAME'$|f-And|$#x#");
    assert_eq!(tokens.len(), 6);
    assert!(matches!(&tokens[0], FormatToken::Font(f) if f == "roman"));
    assert!(matches!(&tokens[1], FormatToken::Key(k) if k == "EvalReset"));
    assert!(matches!(&tokens[2], FormatToken::Speed(s) if s == "40"));
    assert!(matches!(&tokens[3], FormatToken::Phrase(p) if p == "YOURNAME"));
    assert!(matches!(&tokens[4], FormatToken::Chip(o, c) if o == "f" && c == "And"));
    assert!(matches!(&tokens[5], FormatToken::Circuit(t) if t == "x"));
}

#[test]
fn tokenize_bad_escapes() {
    let tokens = tokenize_format("$q$");
    assert_eq!(tokens.len(), 2);
    assert!(matches!(tokens[0], FormatToken::InvalidEscape('q')));
    assert!(matches!(tokens[1], FormatToken::IncompleteEscape));
    // An argument without its closing character runs to the end.
    let tokens = tokenize_format("${mono");
    assert_eq!(tokens.len(), 1);
    assert!(matches!(&tokens[0], FormatToken::Font(f) if f == "mono"));
}

#[test]
fn parse_arg_stops_at_close() {
    let chars: Vec<char> = "ab]cd".chars().collect();
    let (arg, next) = parse_arg(&chars, 0, ']');
    assert_eq!(arg, "ab");
    assert_eq!(next, 3);
    let (arg, next) = parse_arg(&chars, 3, ']');
    assert_eq!(arg, "cd");
    assert_eq!(next, 5);
}

#[test]
fn escape_doubles_dollars_and_reads_back_literally() {
    assert_eq!(escape("Cost: $5"), "Cost: $$5");
    assert_eq!(escape("plain"), "plain");
    let tokens = tokenize_format(&escape("$*"));
    assert_eq!(tokens.len(), 2);
    assert!(matches!(tokens[0], FormatToken::Char('$')));
    assert!(matches!(tokens[1], FormatToken::Char('*')));
}

#[test]
fn phrases_by_platform() {
    assert_eq!(phrase_text("Command", Platform::MacOs, None), "Command");
    assert_eq!(phrase_text("Command", Platform::Other, None), "Control");
    assert_eq!(phrase_text("Right-click", Platform::Ios, None), "Long-press");
    assert_eq!(phrase_text("Right-click", Platform::MacOs, None), "Control-click");
    assert_eq!(phrase_text("Right-click", Platform::Other, None), "Right-click");
    assert_eq!(phrase_text("YOURNAME", Platform::Other, Some("Jane")), "Jane");
    assert_eq!(phrase_text("YOURNAME", Platform::Other, None), "YOURNAME");
    assert_eq!(phrase_text("Other", Platform::Other, Some("Jane")), "Other");
}

#[test]
fn speed_escapes() {
    assert_eq!(speed_after("40", 30), 40);
    assert_eq!(speed_after("", 70), DEFAULT_MILLIS_PER_CHAR);
    assert_eq!(speed_after("fast", 70), 70);
    assert_eq!(speed_after("+5", 70), 5);
}

#[test]
fn const_chip_values() {
    assert_eq!(const_value_for_text("0"), Some(0));
    assert_eq!(const_value_for_text("255"), Some(255));
    assert_eq!(const_value_for_text("+7"), Some(7));
    assert_eq!(const_value_for_text("256"), None);
    assert_eq!(const_value_for_text("-1"), None);
    assert_eq!(const_value_for_text(""), None);
    assert!(is_valid_const("12"));
    assert!(!is_valid_const("1 2"));
}

#[test]
fn comment_bytes_pad_and_truncate() {
    assert_eq!(comment_bytes("Hi", 4), vec![b'H', b'i', b' ', b' ']);
    assert_eq!(comment_bytes("Hello", 3), vec![b'H', b'e', b'l']);
    assert_eq!(comment_bytes("\u{141}", 1), vec![0x41]);
}

#[test]
fn text_helpers() {
    let chars = chars_of_str("h\u{e9}!");
    assert_eq!(chars, vec!['h', '\u{e9}', '!']);
    assert_eq!(string_from_chars(&chars), "h\u{e9}!");
    let mut out = Vec::new();
    push_decimal(-120, &mut out);
    assert_eq!(string_from_chars(&out), "-120");
    let digits: Vec<char> = "18446744073709551615".chars().collect();
    assert_eq!(parse_unsigned(&digits, u64::MAX), Some(u64::MAX));
    assert_eq!(parse_unsigned(&digits, 100), None);
}
