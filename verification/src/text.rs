//! Text helpers.
use vstd::prelude::*;
use vstd::string::*;

verus! {

/// The text in `text`, if any.
pub open spec fn optional_text(text: Option<String>) -> Option<Seq<char>> {
    match text {
        Some(s) => Some(s@),
        None => None,
    }
}

/// `c`, with the ASCII letters `A` to `Z` mapped to `a` to `z`.
pub open spec fn ascii_lower(c: char) -> char {
    if 'A' <= c && c <= 'Z' {
        (c as u32 + 32) as char
    } else {
        c
    }
}

/// `s`, with ASCII letters in lower case and everything else unchanged.
pub open spec fn fold_ascii_case(s: Seq<char>) -> Seq<char> {
    s.map_values(|c: char| ascii_lower(c))
}

/// `str::eq_ignore_ascii_case` of the standard library: two strings match when
/// they are equal after each has been put in ASCII lower case.
pub assume_specification[ str::eq_ignore_ascii_case ](s: &str, other: &str) -> (matched: bool)
    ensures
        matched == (fold_ascii_case(s@) == fold_ascii_case(other@)),
;

/// Whether two strings hold the same characters.
pub fn same_text(a: &str, b: &str) -> (same: bool)
    ensures
        same == (a@ == b@),
{
    a.to_owned() == b.to_owned()
}

/// `before`, `middle` and `after`, joined.
pub fn join3(before: &str, middle: &str, after: &str) -> (joined: String)
    ensures
        joined@ == before@ + middle@ + after@,
{
    before.to_owned().concat(middle).concat(after)
}

} // verus!
