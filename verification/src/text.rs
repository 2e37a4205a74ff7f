//! Text buffer operations on `String` that the standard library offers
//! and that have no verified specification.

use vstd::prelude::*;

verus! {

/// Calls `String::push`. The contract claims what the standard library
/// documents: the character is appended at the end of the string and
/// nothing else changes.
#[verifier::external_body]
pub(crate) fn push_char(s: &mut String, c: char)
    ensures
        final(s)@ == old(s)@.push(c),
{
    s.push(c);
}

/// Calls `String::pop`. The contract claims what the standard library
/// documents: the last character is removed and returned, and an empty
/// string is left as it is, with `None` returned.
#[verifier::external_body]
pub(crate) fn pop_char(s: &mut String) -> (removed: Option<char>)
    ensures
        old(s)@.len() == 0 ==> removed is None && final(s)@ == old(s)@,
        old(s)@.len() > 0 ==> removed == Some(old(s)@.last()) && final(s)@ == old(s)@.drop_last(),
{
    s.pop()
}

} // verus!
