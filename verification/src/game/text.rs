//! What is taken on trust of the standard library's `String`.

use vstd::prelude::*;

verus! {

/// `String::push` appends the given character to the end of the string and
/// leaves what was there before untouched.
pub assume_specification[ String::push ](s: &mut String, c: char)
    ensures
        final(s)@ == old(s)@.push(c),
;

} // verus!
