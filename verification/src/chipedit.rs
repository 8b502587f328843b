use vstd::prelude::*;
use crate::text::{chars_of_str, parse_unsigned, parse_unsigned_spec};

verus! {

/// The value of a constant chip given as text: a decimal number from 0 to
/// 255 (with an optional leading `+`).
pub fn const_value_for_text(text: &str) -> (v: Option<u8>)
    ensures
        v matches Some(x) ==> parse_unsigned_spec(text@, 255) == Some(x as int),
        v is None ==> parse_unsigned_spec(text@, 255) is None,
{
    let chars = chars_of_str(text);
    match parse_unsigned(&chars, 255) {
        Some(x) => Some(x as u8),
        None => None,
    }
}

/// Whether text typed into the constant chip dialog is a valid value.
pub fn is_valid_const(text: &str) -> (b: bool)
    ensures
        b == parse_unsigned_spec(text@, 255) is Some,
{
    const_value_for_text(text).is_some()
}

/// The byte that a comment chip stores for the character `c`: its code,
/// cut down to its low eight bits.
pub open spec fn comment_byte(c: char) -> u8 {
    ((c as u32) % 256) as u8
}

/// The bytes of a comment chip of `len` characters holding the text `s`:
/// its first characters, padded with spaces.
pub open spec fn comment_bytes_spec(s: Seq<char>, len: nat) -> Seq<u8> {
    Seq::new(len, |i: int| if i < s.len() { comment_byte(s[i]) } else { 32u8 })
}

/// Computes the bytes that a comment chip of `len` characters stores for
/// the text entered for it.
pub fn comment_bytes(text: &str, len: usize) -> (bytes: Vec<u8>)
    ensures
        bytes@ == comment_bytes_spec(text@, len as nat),
{
    let chars = chars_of_str(text);
    let mut bytes: Vec<u8> = Vec::new();
    let mut i: usize = 0;
    while i < len
        invariant
            i <= len,
            chars@ == text@,
            bytes@ == comment_bytes_spec(text@, len as nat).take(i as int),
        decreases len - i,
    {
        let b = if i < chars.len() {
            ((chars[i] as u32) % 256) as u8
        } else {
            32u8
        };
        bytes.push(b);
        assert(bytes@ =~= comment_bytes_spec(text@, len as nat).take(i + 1));
        i = i + 1;
    }
    assert(bytes@ =~= comment_bytes_spec(text@, len as nat));
    bytes
}

} // verus!
