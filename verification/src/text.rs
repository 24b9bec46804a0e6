//! Texts as sequences of characters, and what this crate takes on trust about
//! the standard buffers that hold them.

use vstd::prelude::*;

verus! {

/// The texts of a sequence of strings, one by one.
pub open spec fn texts(strings: Seq<String>) -> Seq<Seq<char>> {
    Seq::new(strings.len(), |i: int| strings[i]@)
}

/// `String::push` appends exactly the given character to the end of the
/// buffer.
pub assume_specification[ String::push ](buffer: &mut String, ch: char)
    ensures
        final(buffer)@ == old(buffer)@.push(ch),
;

/// `String::pop` removes the last character and returns it. On an empty
/// buffer it returns `None` and changes nothing.
pub assume_specification[ String::pop ](buffer: &mut String) -> (popped: Option<char>)
    ensures
        old(buffer)@.len() == 0 ==> popped is None && final(buffer)@ == old(buffer)@,
        old(buffer)@.len() > 0 ==> popped == Some(old(buffer)@.last()) && final(buffer)@ == old(
            buffer,
        )@.drop_last(),
;

/// `Vec::shrink_to` gives spare capacity back, down to `min_capacity` slots
/// at the least, and leaves the elements as they are.
#[verifier::external_body]
pub(crate) fn shrink_to<T>(items: &mut Vec<T>, min_capacity: usize)
    ensures
        final(items)@ == old(items)@,
{
    items.shrink_to(min_capacity)
}

} // verus!
