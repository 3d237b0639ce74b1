//! Character classification and string building used by the engine.
use vstd::prelude::*;

verus! {

/// Whether `c` is alphanumeric in the Unicode sense of `char::is_alphanumeric`.
pub uninterp spec fn alphanumeric(c: char) -> bool;

/// Relies on `char::is_alphanumeric`: whether the character is alphabetic or
/// numeric in Unicode, which depends on the character alone.
#[verifier::external_body]
pub(crate) fn is_alphanumeric(c: char) -> (r: bool)
    ensures
        r == alphanumeric(c),
{
    c.is_alphanumeric()
}

/// Relies on `String::push`: appends one character.
#[verifier::external_body]
pub(crate) fn push_char(s: &mut String, c: char)
    ensures
        final(s)@ == old(s)@.push(c),
{
    s.push(c)
}

/// The alphanumeric classification of each character of `s`.
pub open spec fn classes_of(s: Seq<char>) -> Seq<bool> {
    Seq::new(s.len(), |i: int| alphanumeric(s[i]))
}

/// Number of marked positions in `m`.
pub open spec fn marked_count(m: Seq<bool>) -> nat
    decreases m.len(),
{
    if m.len() == 0 {
        0
    } else {
        marked_count(m.drop_last()) + if m.last() { 1nat } else { 0nat }
    }
}

/// Number of alphanumeric characters in `s`.
pub open spec fn alnum_count(s: Seq<char>) -> nat {
    marked_count(classes_of(s))
}

/// Classifies each character of `s` as alphanumeric or not.
pub fn classify(s: &str) -> (r: Vec<bool>)
    ensures
        r@ == classes_of(s@),
{
    broadcast use vstd::string::group_string_axioms;
    let mut marks: Vec<bool> = Vec::new();
    for c in it: s.chars()
        invariant
            it.seq() == s@,
            marks@.len() == it.index(),
            forall|j: int| 0 <= j < it.index() ==> marks@[j] == alphanumeric(s@[j]),
    {
        marks.push(is_alphanumeric(c));
    }
    assert(marks@ =~= classes_of(s@));
    marks
}

} // verus!
