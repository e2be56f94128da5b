//! The counting channel: each message must be the number after the one before it;
//! any other message is deleted.

use vstd::prelude::*;
use crate::text::{decimal, lemma_parse_format_roundtrip, parse_i32, parse_i32_spec};

verus! {

/// Whether the message `new`, posted after the message `last`, is deleted; `None`
/// where either is not a number or `last` has no successor, so that no verdict can
/// be given.
pub open spec fn counting_verdict(last: Seq<char>, new: Seq<char>) -> Option<bool> {
    match parse_i32_spec(last) {
        None => None,
        Some(l) => if l == i32::MAX {
            None
        } else {
            match parse_i32_spec(new) {
                None => None,
                Some(n) => Some(n != l + 1),
            }
        },
    }
}

/// Decides whether to delete the message `new` that follows the message `last`.
pub fn counting_should_delete(last: &str, new: &str) -> (r: Option<bool>)
    ensures
        r == counting_verdict(last@, new@),
{
    let l = match parse_i32(last) {
        Some(l) => l,
        None => {
            return None;
        },
    };
    if l == i32::MAX {
        return None;
    }
    let desired = l + 1;
    match parse_i32(new) {
        Some(n) => Some(desired != n),
        None => None,
    }
}

/// Counting on is never punished: after the number `n`, the number `n + 1` written out
/// is kept.
pub proof fn lemma_next_number_is_kept(n: i32)
    requires
        n < i32::MAX,
    ensures
        counting_verdict(decimal(n as int), decimal(n + 1)) == Some(false),
{
    lemma_parse_format_roundtrip(n);
    lemma_parse_format_roundtrip((n + 1) as i32);
}

/// Any other number is deleted: after the number `n`, a message that reads as a number
/// other than `n + 1` is removed.
pub proof fn lemma_other_numbers_are_deleted(n: i32, new: Seq<char>)
    requires
        n < i32::MAX,
        parse_i32_spec(new) matches Some(m) && m != n + 1,
    ensures
        counting_verdict(decimal(n as int), new) == Some(true),
{
    lemma_parse_format_roundtrip(n);
}

} // verus!
