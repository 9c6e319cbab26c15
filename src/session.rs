//! The small rules of a mining session around the search: the shape of a
//! registration key and the reward lookup for a solved round.

use vstd::prelude::*;

verus! {

/// Length in bytes of a registration public key, as hex text.
pub const PUBKEY_LEN: usize = 64;

/// Attempt budget used when none is given.
pub const DEFAULT_MAX_ITERATIONS: u64 = 100_000;

/// Whether a public key has the length that registration accepts.
pub fn pubkey_length_ok(pubkey: &str) -> (r: bool)
    ensures
        r == (pubkey.len() == PUBKEY_LEN),
{
    pubkey.len() == PUBKEY_LEN
}

/// The reward of a round of day `day` (counted from 1), from the per-day
/// rates; none for day 0 or a day past the table.
pub fn reward_for_day(rates: &[u64], day: u32) -> (r: Option<u64>)
    ensures
        1 <= day <= rates@.len() ==> r == Some(rates@[day - 1]),
        !(1 <= day <= rates@.len()) ==> r is None,
{
    let d = day as usize;
    if d > 0 && d <= rates.len() {
        Some(rates[d - 1])
    } else {
        None
    }
}

} // verus!
