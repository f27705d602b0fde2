//! What the calculator needs of strings.
//!
//! The two specifications below are taken on trust: they say of the standard
//! library's `String` what its documentation says, and nothing here proves it.

use vstd::prelude::*;

verus! {

/// Of `String::push` in the standard library: afterwards the string is what it
/// was before with `ch` appended at its end.
pub assume_specification[ String::push ](s: &mut String, ch: char)
    ensures
        final(s)@ == old(s)@.push(ch),
;

/// Of `String::clear` in the standard library: afterwards the string is
/// empty, whatever it held before.
pub assume_specification[ String::clear ](s: &mut String)
    ensures
        final(s)@ == Seq::<char>::empty(),
;

/// Tells whether a text holds a character, in one pass over the text.
pub(crate) fn holds(text: &str, wanted: char) -> (found: bool)
    ensures
        found == text@.contains(wanted),
{
    for c in it: text.chars()
        invariant
            it.seq() == text@,
            forall|i: int| 0 <= i < it.index() ==> text@[i] != wanted,
    {
        if c == wanted {
            return true;
        }
    }
    false
}

} // verus!
