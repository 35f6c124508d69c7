//! Joining prefix, code and suffix into one designation.

use vstd::prelude::*;
use vstd::string::StringExecFns;

verus! {

/// The designation as a sequence of characters: the prefix, a hyphen and the
/// code; then, where the suffix is not empty, another hyphen and the suffix.
/// An empty prefix leaves the hyphen in front.
pub open spec fn composed(prefix: Seq<char>, code: Seq<char>, suffix: Seq<char>) -> Seq<char> {
    if suffix.len() == 0 {
        prefix + seq!['-'] + code
    } else {
        prefix + seq!['-'] + code + seq!['-'] + suffix
    }
}

/// Builds the designation from its three parts.
pub fn compose(prefix: &str, code: &str, suffix: &str) -> (designation: String)
    ensures
        designation@ == composed(prefix@, code@, suffix@),
{
    let mut designation = String::new();
    designation.append(prefix);
    designation.push('-');
    designation.append(code);
    if !suffix.is_empty() {
        designation.push('-');
        designation.append(suffix);
    }
    proof {
        assert(designation@ =~= composed(prefix@, code@, suffix@));
    }
    designation
}

} // verus!
