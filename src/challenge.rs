//! One mining round's parameters, as handed out by the challenge service.

use vstd::prelude::*;

verus! {

/// The immutable parameter set of one mining round.
#[derive(Clone, Debug, PartialEq, Eq)]
pub struct Challenge {
    /// Opaque identifier, unique per round.
    pub challenge_id: String,
    /// Position of the round in the sequence of days; used for reward lookups.
    pub day: u32,
    /// Position of the round within its day.
    pub challenge_number: u32,
    /// Hex text whose first (at most four) decoded bytes are the target.
    pub difficulty: String,
    /// Primary salt: seeds the hash oracle's work memory and enters every preimage.
    pub no_pre_mine: String,
    /// First secondary salt.
    pub latest_submission: String,
    /// Second secondary salt.
    pub no_pre_mine_hour: String,
}

impl Challenge {
    /// Builds a challenge from its fields.
    pub fn new(
        challenge_id: String,
        day: u32,
        challenge_number: u32,
        difficulty: String,
        no_pre_mine: String,
        latest_submission: String,
        no_pre_mine_hour: String,
    ) -> (c: Challenge)
        ensures
            c.challenge_id@ == challenge_id@,
            c.day == day,
            c.challenge_number == challenge_number,
            c.difficulty@ == difficulty@,
            c.no_pre_mine@ == no_pre_mine@,
            c.latest_submission@ == latest_submission@,
            c.no_pre_mine_hour@ == no_pre_mine_hour@,
    {
        Challenge {
            challenge_id,
            day,
            challenge_number,
            difficulty,
            no_pre_mine,
            latest_submission,
            no_pre_mine_hour,
        }
    }
}

} // verus!
