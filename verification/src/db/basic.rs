//! The first form of entry expiry: an entry only has a deadline, and the bot
//! announces in the notification channel when it passes.

use vstd::prelude::*;
use crate::text::{mention, user_mention};
use crate::time::Timestamp;

verus! {

/// An entry with a deadline.
#[derive(Clone, Copy, Debug)]
pub struct Entry {
    pub id: u32,
    pub end_time: Timestamp,
    /// The Discord id of the user, as stored.
    pub user_id: i32,
    pub active: bool,
}

/// Whether the entry is open and its deadline has passed at `now`.
pub fn is_expired(entry: &Entry, now: &Timestamp) -> (r: bool)
    ensures
        r == (now@ > entry.end_time@ && entry.active),
{
    now.is_after(&entry.end_time) && entry.active
}

/// The Discord id of the entry's user, or `None` where `u64::try_from` fails
/// (a negative stored id).
pub fn entry_user(entry: &Entry) -> (r: Option<u64>)
    ensures
        r is Some <==> entry.user_id >= 0,
        r matches Some(u) ==> u as int == entry.user_id as int,
{
    if entry.user_id >= 0 {
        Some(entry.user_id as u64)
    } else {
        None
    }
}

/// The announcement of an expired entry.
pub open spec fn expired_text(user: int) -> Seq<char> {
    "Oops! Looks like "@ + mention(user) + " forgot to complete their entry in time!"@
}

/// The text announcing that the user with id `user` missed an entry.
pub fn expired_message(user: u64) -> (r: String)
    ensures
        r@ == expired_text(user as int),
{
    let mut s = String::from_str("Oops! Looks like ");
    let m = user_mention(user);
    s.append(m.as_str());
    s.append(" forgot to complete their entry in time!");
    s
}

} // verus!
