//! The three persisted record kinds: the election aggregate, its sequentially
//! numbered candidates, and the per-voter ballot record.
//!
//! Account addresses and signer identities live outside the engine; here they
//! are plain `u64` keys handed in by the caller.

use vstd::prelude::*;

verus! {

/// Character-count limit on names.
pub const MAX_NAME_LEN: usize = 50;

/// Character-count limit on descriptions.
pub const MAX_DESCRIPTION_LEN: usize = 200;

/// Hard cap on the number of candidates per election.
pub const MAX_CANDIDATES: u8 = 50;

/// One election: its immutable configuration plus the three mutable lifecycle
/// fields (`candidate_count`, `voter_count`, `is_finalized`).
#[derive(Debug)]
pub struct Election {
    /// Identity of the creator; only this identity may add candidates or
    /// finalize the election.
    pub authority: u64,
    pub name: String,
    pub description: String,
    /// Voting opens at this timestamp (inclusive).
    pub start_time: i64,
    /// Voting closes at this timestamp (inclusive).
    pub end_time: i64,
    /// How many seats this election fills; drives the vote budget.
    pub num_winners: u8,
    /// Whether voters may spend negative endorsements at all.
    pub allow_minus_votes: bool,
    /// Number of registered candidates; also the id of the next candidate.
    pub candidate_count: u8,
    /// Number of accepted ballots.
    pub voter_count: u64,
    /// Set once, strictly after `end_time`; never cleared.
    pub is_finalized: bool,
}

impl Election {
    /// Well-formedness established at creation and preserved by every
    /// operation: a proper time window, at least one winner, bounded names,
    /// and the candidate cap.
    pub open spec fn wf(self) -> bool {
        &&& self.start_time < self.end_time
        &&& self.num_winners >= 1
        &&& self.candidate_count <= MAX_CANDIDATES
        &&& self.name@.len() <= MAX_NAME_LEN
        &&& self.description@.len() <= MAX_DESCRIPTION_LEN
    }
}

/// One candidate, attached to its election by key and numbered sequentially
/// from zero in registration order.
pub struct Candidate {
    /// Key of the election this candidate belongs to.
    pub election: u64,
    /// Assigned as the election's `candidate_count` at registration; unique
    /// within the election and never reused.
    pub id: u8,
    pub name: String,
    pub description: String,
    /// Tally fields; ballots are recorded but not tallied by the engine, so
    /// these stay at zero until a separate tallying pass runs.
    pub plus_votes: u64,
    pub minus_votes: u64,
}

impl Candidate {
    pub open spec fn wf(self) -> bool {
        &&& self.name@.len() <= MAX_NAME_LEN
        &&& self.description@.len() <= MAX_DESCRIPTION_LEN
    }
}

/// One voter's ballot in one election: up to four positive and two negative
/// endorsement slots, each holding a candidate id or nothing. The record is
/// created exactly once per (election, voter) pair.
#[derive(Clone, Copy, Debug, PartialEq, Eq)]
pub struct VoterRecord {
    /// Key of the election this ballot belongs to.
    pub election: u64,
    /// Identity of the voter who cast it.
    pub voter: u64,
    pub plus_vote_1: Option<u8>,
    pub plus_vote_2: Option<u8>,
    pub plus_vote_3: Option<u8>,
    pub plus_vote_4: Option<u8>,
    pub minus_vote_1: Option<u8>,
    pub minus_vote_2: Option<u8>,
    /// Set to true when the ballot is accepted; never reset.
    pub has_voted: bool,
}

} // verus!
