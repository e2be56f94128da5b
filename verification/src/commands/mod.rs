//! The bot's commands: what each decides and the text of each reply.

pub mod boop;
pub mod fun;
pub mod entries;
pub mod reminder;
pub mod misc;
pub mod settings;
pub mod checks;
pub mod robot;

use vstd::prelude::*;

verus! {

/// The first `i + 1` items of a sequence are its first `i` items followed by item `i`.
pub(crate) proof fn lemma_take_last<T>(s: Seq<T>, i: int)
    requires
        0 <= i < s.len(),
    ensures
        s.take(i + 1).drop_last() == s.take(i),
        s.take(i + 1).last() == s[i],
        s.take(i + 1).len() == i + 1,
{
    assert(s.take(i + 1).drop_last() =~= s.take(i));
}

} // verus!
