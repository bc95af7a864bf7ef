//! What this crate takes on trust about `String`.

use vstd::prelude::*;

verus! {

/// `String::push` appends the character to the end of the string and leaves
/// the rest as it was, as std documents.
pub assume_specification[ String::push ](s: &mut String, c: char)
    ensures
        final(s)@ == old(s)@.push(c),
;

} // verus!
