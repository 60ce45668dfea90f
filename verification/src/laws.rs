//! Store-wide guarantees, stated once over any well-formed store. Every
//! operation establishes or preserves `VotingSystem::wf`, so these hold in
//! every reachable state.

use vstd::prelude::*;
use crate::state::MAX_CANDIDATES;
use crate::store::VotingSystem;

verus! {

/// Every stored election has a proper voting window: `start_time` lies
/// strictly before `end_time`, from creation on. No operation ever touches
/// the two timestamps.
pub proof fn lemma_election_time_range(sys: VotingSystem, i: int)
    requires
        sys.wf(),
        0 <= i < sys.elections@.len(),
    ensures
        sys.elections@[i].election.start_time < sys.elections@[i].election.end_time,
{
}

/// Every stored election holds at most 50 candidates; the counter moves only
/// through `add_candidate`, which advances it by exactly one per success.
pub proof fn lemma_candidate_count_bounded(sys: VotingSystem, i: int)
    requires
        sys.wf(),
        0 <= i < sys.elections@.len(),
    ensures
        sys.elections@[i].election.candidate_count <= MAX_CANDIDATES,
{
}

/// Every stored candidate's id lies strictly below its election's candidate
/// counter.
pub proof fn lemma_candidate_id_in_range(sys: VotingSystem, i: int)
    requires
        sys.wf(),
        0 <= i < sys.candidates@.len(),
    ensures
        sys.has_election(sys.candidates@[i].election),
        sys.candidates@[i].id < sys.spec_election(sys.candidates@[i].election).candidate_count,
{
    let c = sys.candidates@[i];
    let j = choose|j: int|
        0 <= j < sys.elections@.len() && #[trigger] sys.elections@[j].key == c.election && c.id
            < sys.elections@[j].election.candidate_count;
    sys.lemma_election_index_unique(c.election, j);
}

/// At most one voter record exists per (election, voter) pair, and every
/// stored record has `has_voted` set: two stored records for the same pair
/// are the same record.
pub proof fn lemma_at_most_one_voter_record(sys: VotingSystem, i: int, j: int)
    requires
        sys.wf(),
        0 <= i < sys.voter_records@.len(),
        0 <= j < sys.voter_records@.len(),
        sys.voter_records@[i].election == sys.voter_records@[j].election,
        sys.voter_records@[i].voter == sys.voter_records@[j].voter,
    ensures
        i == j,
        sys.voter_records@[i].has_voted,
{
    if i < j {
        assert(!(sys.voter_records@[i].election == sys.voter_records@[j].election
            && sys.voter_records@[i].voter == sys.voter_records@[j].voter));
    }
    if j < i {
        assert(!(sys.voter_records@[j].election == sys.voter_records@[i].election
            && sys.voter_records@[j].voter == sys.voter_records@[i].voter));
    }
}

} // verus!

