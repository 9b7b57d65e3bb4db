//! Character sequences and the two `String` operations the editor needs that
//! `vstd` leaves unspecified.

use vstd::prelude::*;

verus! {

/// The mathematical value of a string: its characters in order.
pub type Text = Seq<char>;

/// `String::push` appends the given character to the end of the string and
/// leaves every earlier character in place.
pub assume_specification[ String::push ](s: &mut String, ch: char)
    ensures
        final(s)@ == old(s)@.push(ch),
;

/// `String::pop` removes the last character and returns it, or returns `None`
/// and changes nothing when the string is empty.
pub assume_specification[ String::pop ](s: &mut String) -> (last: Option<char>)
    ensures
        old(s)@.len() == 0 ==> last.is_none() && final(s)@ == old(s)@,
        old(s)@.len() > 0 ==> last == Some(old(s)@.last()) && final(s)@ == old(s)@.drop_last(),
;

} // verus!
