//! Contracts for the two character operations of the standard library that
//! the engine relies on and that come without one.

use vstd::prelude::*;

verus! {

/// ASCII lower-casing of one character: the letters `A` to `Z` move to `a` to
/// `z`, every other character stays as it is.
pub open spec fn ascii_lower(c: char) -> char {
    if 'A' <= c && c <= 'Z' {
        ((c as u8 + 32) as u8) as char
    } else {
        c
    }
}

/// `char::to_ascii_lowercase` of the standard library. Trusted: its
/// documentation says that `A` to `Z` are mapped to `a` to `z` and that all
/// other characters are returned unchanged, which is what `ascii_lower` states.
pub assume_specification[ char::to_ascii_lowercase ](c: &char) -> (r: char)
    ensures
        r == ascii_lower(*c),
;

/// `String::push` of the standard library. Trusted: the string afterwards is
/// the string before with the given character appended at its end.
pub assume_specification[ String::push ](s: &mut String, c: char)
    ensures
        final(s)@ == old(s)@.push(c),
;

} // verus!
