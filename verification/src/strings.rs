use vstd::prelude::*;

verus! {

/// Relies on `String::push` of std: appends the given char to the end of
/// the string (vstd specifies no contract for it).
pub assume_specification[ String::push ](s: &mut String, c: char)
    ensures
        final(s)@ == old(s)@.push(c),
;

} // verus!
