//! The per-user message counter: the decision around the key-value
//! store.  The store calls themselves live with the caller; counting
//! is fire-and-forget and a storage failure only swallows the update.

use vstd::prelude::*;

use crate::digits::{append_decimal, spec_decimal};

verus! {

/// Outcome of reading the current counter value from the store.
#[derive(Clone, Copy, Debug, PartialEq, Eq)]
pub enum CounterRead {
    /// No value is stored yet: the count starts at zero.
    Missing,
    /// The stored count.
    Value(i64),
    /// The read failed; the update is dropped, never surfaced.
    Error,
}

/// The store key of a community's message counters.
pub open spec fn spec_messages_key(guild_id: int) -> Seq<char> {
    "verifybot:messages:"@ + spec_decimal(guild_id)
}

/// Builds the store key of a community's message counters.
pub fn messages_key(guild_id: u64) -> (r: String)
    ensures
        r@ == spec_messages_key(guild_id as int),
{
    let mut s = String::from_str("verifybot:messages:");
    append_decimal(&mut s, guild_id);
    s
}

/// The counter value to write back for one more message: a missing
/// value counts as zero, a read error drops the update, and so does
/// a counter that cannot grow any further.
pub fn next_message_count(read: CounterRead) -> (r: Option<i64>)
    ensures
        match read {
            CounterRead::Missing => r == Some(1i64),
            CounterRead::Value(n) => if n < i64::MAX {
                r == Some((n + 1) as i64)
            } else {
                r is None
            },
            CounterRead::Error => r is None,
        },
{
    match read {
        CounterRead::Missing => Some(1),
        CounterRead::Value(n) => if n < i64::MAX {
            Some(n + 1)
        } else {
            None
        },
        CounterRead::Error => None,
    }
}

} // verus!
