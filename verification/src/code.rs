//! The four-digit code of a name.

use vstd::prelude::*;
use vstd::std_specs::iter::IteratorSpec;
use crate::text::ascii_lower;

verus! {

/// Number of characters in a code.
pub const CODE_LEN: usize = 4;

/// The digit that a character stands for, between 0 and 9.
///
/// The character is lower-cased (ASCII letters only) and its code point is
/// reduced to its low eight bits. From that, 96 is subtracted with wraparound
/// in eight bits, so that `a` gives 1 and `z` gives 26, and a value below 96
/// continues downwards from 255. The digit is the remainder of the outcome
/// by 10. This is defined for every character: letters, digits, punctuation
/// and characters outside ASCII alike.
pub open spec fn digit_of(c: char) -> int {
    (((ascii_lower(c) as u32 as int) % 256 + 160) % 256) % 10
}

/// The character `0` to `9` for a digit between 0 and 9.
pub open spec fn digit_char(d: int) -> char
    recommends
        0 <= d <= 9,
{
    (('0' as u8 + d) as u8) as char
}

/// Whether a character is one of `0` to `9`.
pub open spec fn is_digit(c: char) -> bool {
    '0' <= c && c <= '9'
}

/// The code of a name: position by position the digit of the name's
/// character, for the first four characters, and `0` where the name has ended.
pub open spec fn code_of(name: Seq<char>) -> Seq<char> {
    Seq::new(
        CODE_LEN as nat,
        |i: int|
            if i < name.len() {
                digit_char(digit_of(name[i]))
            } else {
                '0'
            },
    )
}

/// Every code has exactly four characters, each of them a decimal digit.
pub proof fn lemma_code_is_four_digits(name: Seq<char>)
    ensures
        code_of(name).len() == 4,
        forall|i: int| 0 <= i < 4 ==> is_digit(#[trigger] code_of(name)[i]),
{
    assert forall|i: int| 0 <= i < 4 implies is_digit(#[trigger] code_of(name)[i]) by {
        if i < name.len() {
            lemma_digit_char_is_digit(digit_of(name[i]));
        }
    }
}

/// Characters after the fourth do not reach the code.
pub proof fn lemma_code_reads_four(name: Seq<char>)
    requires
        name.len() >= 4,
    ensures
        code_of(name) == code_of(name.take(4)),
{
    assert(code_of(name) =~= code_of(name.take(4)));
}

/// The character of a digit is a digit character.
pub proof fn lemma_digit_char_is_digit(d: int)
    requires
        0 <= d <= 9,
    ensures
        is_digit(digit_char(d)),
{
}

/// The digit of one character, as `digit_of` defines it.
pub fn char_digit(c: char) -> (d: u8)
    ensures
        d as int == digit_of(c),
        d <= 9,
{
    let low: u32 = (c.to_ascii_lowercase() as u32) % 256;
    let byte: u8 = low as u8;
    byte.wrapping_sub(96) % 10
}

/// Derives the four-digit code of `name`. No more than the first four
/// characters of the name are read.
pub fn derive_code(name: &str) -> (code: String)
    ensures
        code@ == code_of(name@),
        code@.len() == 4,
        forall|i: int| 0 <= i < 4 ==> is_digit(#[trigger] code@[i]),
{
    broadcast use {vstd::string::axiom_spec_iter, vstd::string::next_postcondition};

    let mut rest = name.chars();
    let mut ended = false;
    let mut code = String::new();
    let mut i: usize = 0;
    proof {
        assert(name@.skip(0) =~= name@);
    }
    while i < CODE_LEN
        invariant
            i <= CODE_LEN,
            ended ==> name@.len() <= i,
            !ended ==> i <= name@.len() && rest.remaining() == name@.skip(i as int),
            code@ == code_of(name@).take(i as int),
        decreases CODE_LEN - i,
    {
        let next = if ended {
            None
        } else {
            rest.next()
        };
        let ch: char = match next {
            Some(c) => {
                proof {
                    assert(name@.skip(i as int).drop_first() =~= name@.skip(i + 1));
                }
                let d: u8 = char_digit(c);
                (48u8 + d) as char
            },
            None => {
                ended = true;
                '0'
            },
        };
        code.push(ch);
        proof {
            assert(code_of(name@).take(i + 1) =~= code_of(name@).take(i as int).push(ch));
        }
        i += 1;
    }
    proof {
        assert(code_of(name@).take(4) =~= code_of(name@));
        lemma_code_is_four_digits(name@);
    }
    code
}

} // verus!
