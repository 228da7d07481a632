//! How a literal is read back.
//!
//! The reader takes a literal as a compiler takes it: a character that is written
//! as it is stands for itself, `\"` and `\\` stand for the character behind the
//! backslash, and `\u{..}` stands for the character whose code the hexadecimal
//! digits give. What the writer of this library writes for a text, the reader
//! reads as that text.

use crate::literal::{escape, escaped, hex, hex_digits, is_plain, literal_text};
use vstd::prelude::*;

verus! {

/// The value of `c` as a hexadecimal digit in lower case.
pub open spec fn digit_value(c: char) -> Option<nat> {
    if '0' as u32 <= c as u32 <= '9' as u32 {
        Some((c as u32 - '0' as u32) as nat)
    } else if 'a' as u32 <= c as u32 <= 'f' as u32 {
        Some((c as u32 - 'a' as u32 + 10) as nat)
    } else {
        None
    }
}

/// The number that `digits` give in hexadecimal, the most significant first.
pub open spec fn number(digits: Seq<char>) -> Option<nat>
    decreases digits.len(),
{
    if digits.len() == 0 {
        Some(0)
    } else {
        match (number(digits.drop_last()), digit_value(digits.last())) {
            (Some(front), Some(last)) => Some(front * 16 + last),
            _ => None,
        }
    }
}

/// Whether `code` is the code of a character: a code point that is no surrogate.
pub open spec fn is_char_code(code: nat) -> bool {
    code <= 0xD7FF || 0xE000 <= code <= 0x10FFFF
}

/// The position of the first `}` of `body` at `from` or behind it, or the end of
/// `body` where there is none.
pub open spec fn closing(body: Seq<char>, from: int) -> int
    decreases body.len() - from,
{
    if 0 <= from < body.len() && body[from] != '}' {
        closing(body, from + 1)
    } else {
        from
    }
}

/// The character that the beginning of `body` stands for, and how many characters
/// of `body` it takes.
pub open spec fn read_one(body: Seq<char>) -> Option<(char, int)>
    recommends
        body.len() > 0,
{
    if body[0] == '"' {
        None
    } else if body[0] != '\\' {
        Some((body[0], 1))
    } else if body.len() >= 2 && (body[1] == '"' || body[1] == '\\') {
        Some((body[1], 2))
    } else if body.len() >= 3 && body[1] == 'u' && body[2] == '{' {
        let close = closing(body, 3);
        if 3 < close < body.len() {
            match number(body.subrange(3, close)) {
                Some(code) => if is_char_code(code) {
                    Some((code as char, close + 1))
                } else {
                    None
                },
                None => None,
            }
        } else {
            None
        }
    } else {
        None
    }
}

/// The text that `body`, which stands between the quotes of a literal, denotes.
pub open spec fn read_body(body: Seq<char>) -> Option<Seq<char>>
    decreases body.len(),
{
    if body.len() == 0 {
        Some(Seq::empty())
    } else {
        match read_one(body) {
            Some((c, taken)) => if 0 < taken <= body.len() {
                match read_body(body.skip(taken)) {
                    Some(rest) => Some(seq![c] + rest),
                    None => None,
                }
            } else {
                None
            },
            None => None,
        }
    }
}

/// The text that `literal` denotes, where it is a literal.
pub open spec fn read_literal(literal: Seq<char>) -> Option<Seq<char>> {
    if literal.len() >= 2 && literal.first() == '"' && literal.last() == '"' {
        read_body(literal.subrange(1, literal.len() - 1))
    } else {
        None
    }
}

/// A number written in hexadecimal is read as that number, and none of its
/// digits closes the brace.
pub proof fn lemma_number_of_hex(n: nat)
    ensures
        hex(n).len() >= 1,
        number(hex(n)) == Some(n),
        forall|i: int| 0 <= i < hex(n).len() ==> #[trigger] hex(n)[i] != '}',
    decreases n,
{
    assert forall|d: int| 0 <= d < 16 implies digit_value(#[trigger] hex_digits()[d]) == Some(
        d as nat,
    ) && hex_digits()[d] != '}' by {}
    if n < 16 {
        assert(hex(n).drop_last() =~= Seq::<char>::empty());
        assert(number(hex(n).drop_last()) == Some(0nat));
    } else {
        lemma_number_of_hex(n / 16);
        assert(hex(n).drop_last() =~= hex(n / 16));
        assert(hex(n).last() == hex_digits()[(n % 16) as int]);
    }
}

/// Where no `}` stands from `from` up to `close` and one stands at `close`, that
/// one is the first.
pub proof fn lemma_closing(body: Seq<char>, from: int, close: int)
    requires
        0 <= from <= close < body.len(),
        forall|k: int| from <= k < close ==> #[trigger] body[k] != '}',
        body[close] == '}',
    ensures
        closing(body, from) == close,
    decreases close - from,
{
    if from < close {
        lemma_closing(body, from + 1, close);
    }
}

/// What is written for a character is read as that character, whatever follows.
pub proof fn lemma_read_one_escape(c: char, rest: Seq<char>)
    ensures
        read_one(escape(c) + rest) == Some((c, escape(c).len() as int)),
        escape(c).len() > 0,
{
    let body = escape(c) + rest;
    if c == '"' || c == '\\' {
        assert(body[0] == '\\' && body[1] == c);
    } else if is_plain(c) {
        assert(body[0] == c);
    } else {
        let code = c as u32 as nat;
        let digits = hex(code);
        lemma_number_of_hex(code);
        let close = 3 + digits.len() as int;
        assert(escape(c).len() == close + 1);
        assert(body[0] == '\\' && body[1] == 'u' && body[2] == '{');
        assert(body[close] == '}');
        assert forall|k: int| 3 <= k < close implies #[trigger] body[k] != '}' by {
            assert(body[k] == digits[k - 3]);
        }
        lemma_closing(body, 3, close);
        assert(body.subrange(3, close) =~= digits);
        assert(is_char_code(code));
        assert(code as char == c);
    }
}

/// A text is written character by character, from the front as from the back.
pub proof fn lemma_escaped_from_the_front(c: char, text: Seq<char>)
    ensures
        escaped(seq![c] + text) == escape(c) + escaped(text),
    decreases text.len(),
{
    let whole = seq![c] + text;
    if text.len() == 0 {
        assert(whole.drop_last() =~= text);
        assert(whole.last() == c);
        assert(escaped(whole) == escaped(text) + escape(c));
        assert(escaped(whole) =~= escape(c) + escaped(text));
    } else {
        lemma_escaped_from_the_front(c, text.drop_last());
        assert(whole.drop_last() =~= seq![c] + text.drop_last());
        assert(whole.last() == text.last());
        assert(escaped(whole) =~= escape(c) + escaped(text));
    }
}

/// What is written between the quotes for a text is read as that text.
pub proof fn lemma_body_denotes_its_text(text: Seq<char>)
    ensures
        read_body(escaped(text)) == Some(text),
    decreases text.len(),
{
    if text.len() > 0 {
        let c = text.first();
        let rest = text.drop_first();
        assert(text =~= seq![c] + rest);
        lemma_escaped_from_the_front(c, rest);
        lemma_read_one_escape(c, escaped(rest));
        lemma_body_denotes_its_text(rest);
        let body = escape(c) + escaped(rest);
        assert(body.skip(escape(c).len() as int) =~= escaped(rest));
        assert(read_body(body) == Some(seq![c] + rest));
    }
}

/// The literal that is written for a text denotes that text.
pub proof fn lemma_literal_denotes_its_text(text: Seq<char>)
    ensures
        read_literal(literal_text(text)) == Some(text),
{
    let literal = literal_text(text);
    lemma_body_denotes_its_text(text);
    assert(literal.subrange(1, literal.len() - 1) =~= escaped(text));
}

} // verus!
