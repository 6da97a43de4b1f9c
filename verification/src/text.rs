//! The two `String` operations the library needs beyond those that vstd
//! already describes.

use vstd::prelude::*;

verus! {

/// `String::push`: appends one character to the end of the string.
///
/// Believed, not proved: afterwards the string holds the characters it held
/// before, followed by `c`.
#[verifier::external_body]
pub(crate) fn push_char(s: &mut String, c: char)
    ensures
        final(s)@ == old(s)@.push(c),
{
    s.push(c)
}

/// `String::pop`: removes the last character and returns it, or returns
/// `None` when the string is empty.
///
/// Believed, not proved: an empty string stays empty and yields `None`; any
/// other string loses exactly its last character, which is returned.
#[verifier::external_body]
pub(crate) fn pop_char(s: &mut String) -> (r: Option<char>)
    ensures
        old(s)@.len() == 0 ==> r.is_none() && final(s)@ == old(s)@,
        old(s)@.len() > 0 ==> r == Some(old(s)@.last()) && final(s)@ == old(s)@.drop_last(),
{
    s.pop()
}

} // verus!
