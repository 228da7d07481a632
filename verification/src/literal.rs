//! Text literals of the emitted source.
//!
//! A text is written between double quotes. A double quote and a backslash are
//! written behind a backslash, the other printable characters of ASCII as they are,
//! and every other character by its code: `\u{..}` in lower-case hexadecimal
//! digits, without leading zeros.

use vstd::prelude::*;

verus! {

/// The sixteen hexadecimal digits, by value.
pub open spec fn hex_digits() -> Seq<char> {
    seq!['0', '1', '2', '3', '4', '5', '6', '7', '8', '9', 'a', 'b', 'c', 'd', 'e', 'f']
}

/// `n` in hexadecimal digits, the most significant first.
pub open spec fn hex(n: nat) -> Seq<char>
    decreases n,
{
    if n < 16 {
        seq![hex_digits()[n as int]]
    } else {
        hex(n / 16).push(hex_digits()[(n % 16) as int])
    }
}

/// Whether `c` is a printable character of ASCII, the blank among them.
pub open spec fn is_printable(c: char) -> bool {
    0x20 <= c as u32 <= 0x7e
}

/// Whether `c` stands for itself between the quotes.
pub open spec fn is_plain(c: char) -> bool {
    is_printable(c) && c != '"' && c != '\\'
}

/// How one character is written between the quotes.
pub open spec fn escape(c: char) -> Seq<char> {
    if c == '"' || c == '\\' {
        seq!['\\', c]
    } else if is_plain(c) {
        seq![c]
    } else {
        seq!['\\', 'u', '{'] + hex(c as u32 as nat) + seq!['}']
    }
}

/// How a text is written between the quotes: character by character.
pub open spec fn escaped(text: Seq<char>) -> Seq<char>
    decreases text.len(),
{
    if text.len() == 0 {
        Seq::empty()
    } else {
        escaped(text.drop_last()) + escape(text.last())
    }
}

/// The literal that denotes `text`.
pub open spec fn literal_text(text: Seq<char>) -> Seq<char> {
    seq!['"'] + escaped(text) + seq!['"']
}

/// Appends one character with `String::push`, which puts it behind what the
/// string holds and leaves the rest as it was.
#[verifier::external_body]
fn push_char(text: &mut String, c: char)
    ensures
        final(text)@ == old(text)@.push(c),
{
    text.push(c);
}

fn hex_digit(value: u32) -> (digit: char)
    requires
        value < 16,
    ensures
        digit == hex_digits()[value as int],
{
    match value {
        0 => '0',
        1 => '1',
        2 => '2',
        3 => '3',
        4 => '4',
        5 => '5',
        6 => '6',
        7 => '7',
        8 => '8',
        9 => '9',
        10 => 'a',
        11 => 'b',
        12 => 'c',
        13 => 'd',
        14 => 'e',
        _ => 'f',
    }
}

fn push_hex(out: &mut String, n: u32)
    ensures
        final(out)@ == old(out)@ + hex(n as nat),
    decreases n,
{
    if n >= 16 {
        push_hex(out, n / 16);
    }
    push_char(out, hex_digit(n % 16));
}

fn push_escape(out: &mut String, c: char)
    ensures
        final(out)@ == old(out)@ + escape(c),
{
    if c == '"' || c == '\\' {
        push_char(out, '\\');
        push_char(out, c);
    } else if 0x20 <= c as u32 && c as u32 <= 0x7e {
        push_char(out, c);
    } else {
        push_char(out, '\\');
        push_char(out, 'u');
        push_char(out, '{');
        push_hex(out, c as u32);
        push_char(out, '}');
    }
}

/// Appends to `out` the literal that denotes `text`.
pub fn push_string_literal(out: &mut String, text: &str)
    ensures
        final(out)@ == old(out)@ + literal_text(text@),
{
    push_char(out, '"');
    for c in chars: text.chars()
        invariant
            chars.seq() == text@,
            out@ == old(out)@ + seq!['"'] + escaped(text@.take(chars.index() as int)),
    {
        proof {
            let next = text@.take(chars.index() + 1);
            assert(next.drop_last() == text@.take(chars.index() as int));
            assert(next.last() == c);
        }
        push_escape(out, c);
    }
    assert(text@.take(text@.len() as int) == text@);
    push_char(out, '"');
}

/// The literal that denotes `text`.
pub fn string_literal(text: &str) -> (literal: String)
    ensures
        literal@ == literal_text(text@),
{
    let mut literal = String::new();
    push_string_literal(&mut literal, text);
    literal
}

/// Every digit of a number written in hexadecimal is printable.
pub proof fn lemma_hex_is_printable(n: nat)
    ensures
        hex(n).len() >= 1,
        forall|i: int| 0 <= i < hex(n).len() ==> is_printable(#[trigger] hex(n)[i]),
    decreases n,
{
    assert forall|d: int| 0 <= d < 16 implies is_printable(#[trigger] hex_digits()[d]) by {}
    if n >= 16 {
        lemma_hex_is_printable(n / 16);
    }
}

/// However a character is written, it is written in printable characters.
pub proof fn lemma_escape_is_printable(c: char)
    ensures
        forall|i: int| 0 <= i < escape(c).len() ==> is_printable(#[trigger] escape(c)[i]),
{
    lemma_hex_is_printable(c as u32 as nat);
}

/// What stands between the quotes is printable, whatever the text holds.
pub proof fn lemma_escaped_is_printable(text: Seq<char>)
    ensures
        forall|i: int| 0 <= i < escaped(text).len() ==> is_printable(#[trigger] escaped(text)[i]),
    decreases text.len(),
{
    if text.len() > 0 {
        let front = escaped(text.drop_last());
        let back = escape(text.last());
        lemma_escaped_is_printable(text.drop_last());
        lemma_escape_is_printable(text.last());
        assert forall|i: int| 0 <= i < escaped(text).len() implies is_printable(
            #[trigger] escaped(text)[i],
        ) by {
            if i < front.len() {
                assert(escaped(text)[i] == front[i]);
            } else {
                assert(escaped(text)[i] == back[i - front.len()]);
            }
        }
    }
}

/// A literal is made of printable characters of ASCII alone, so that no
/// character of the text reaches the emitted source unwritten.
pub proof fn lemma_literal_is_printable(text: Seq<char>)
    ensures
        forall|i: int|
            0 <= i < literal_text(text).len() ==> is_printable(#[trigger] literal_text(text)[i]),
{
    lemma_escaped_is_printable(text);
}

} // verus!
