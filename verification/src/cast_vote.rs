//! Vote casting: the full validation cascade over one fixed-slot ballot,
//! followed by an atomic record-and-count update. Every check runs before
//! any mutation, so a failing ballot leaves both the election and the voter
//! record exactly as they were.

use vstd::prelude::*;
use crate::ballot::collect_minus_selections;
use crate::ballot::collect_plus_selections;
use crate::ballot::check_candidate_ids;
use crate::ballot::check_duplicates;
use crate::ballot::has_conflict;
use crate::ballot::has_internal_dup;
use crate::ballot::has_invalid_id;
use crate::ballot::minus_selections;
use crate::ballot::plus_selections;
use crate::budget::calculate_max_minus_votes;
use crate::budget::calculate_max_plus_votes;
use crate::budget::max_minus_spec;
use crate::budget::max_plus_spec;
use crate::errors::VotingError;
use crate::state::Election;
use crate::state::VoterRecord;

verus! {

/// The exact outcome of ballot validation: the first failing check in order
/// (voting window, prior vote, plus budget, minus budget, the two-plus-votes
/// floor for any minus vote, id range over the positive then negative lists,
/// duplicates, conflicts), or acceptance.
pub open spec fn cast_vote_check(
    e: Election,
    has_voted: bool,
    p1: Option<u8>,
    p2: Option<u8>,
    p3: Option<u8>,
    p4: Option<u8>,
    m1: Option<u8>,
    m2: Option<u8>,
    now: i64,
) -> Result<(), VotingError> {
    let plus = plus_selections(p1, p2, p3, p4);
    let minus = minus_selections(m1, m2);
    if !(e.start_time <= now && now <= e.end_time) {
        Err(VotingError::ElectionNotActive)
    } else if has_voted {
        Err(VotingError::AlreadyVoted)
    } else if plus.len() > max_plus_spec(e.num_winners, e.candidate_count) {
        Err(VotingError::TooManyPlusVotes)
    } else if minus.len() > max_minus_spec(e.num_winners, e.candidate_count, e.allow_minus_votes) {
        Err(VotingError::TooManyMinusVotes)
    } else if minus.len() > 0 && plus.len() < 2 {
        Err(VotingError::InsufficientPlusVotes)
    } else if has_invalid_id(plus, e.candidate_count) || has_invalid_id(minus, e.candidate_count) {
        Err(VotingError::InvalidCandidateId)
    } else if has_internal_dup(plus) {
        Err(VotingError::DuplicateVote)
    } else if has_conflict(plus, minus) {
        Err(VotingError::ConflictingVote)
    } else {
        Ok(())
    }
}

/// Casts one ballot on `election`, read at time `now`, into the fresh or
/// never-used voter record for `voter`.
///
/// `election_key` is the durable key the election is stored under, recorded
/// in the voter record as a back-reference. On success the six slots are
/// stored verbatim, `has_voted` is set, and the election's `voter_count`
/// advances by exactly one; on any error nothing changes.
pub fn cast_vote(
    election: &mut Election,
    election_key: u64,
    voter_record: &mut VoterRecord,
    voter: u64,
    plus_vote_1: Option<u8>,
    plus_vote_2: Option<u8>,
    plus_vote_3: Option<u8>,
    plus_vote_4: Option<u8>,
    minus_vote_1: Option<u8>,
    minus_vote_2: Option<u8>,
    now: i64,
) -> (r: Result<(), VotingError>)
    requires
        old(election).wf(),
        old(election).voter_count < u64::MAX,
    ensures
        final(election).wf(),
        r == cast_vote_check(
            *old(election),
            old(voter_record).has_voted,
            plus_vote_1,
            plus_vote_2,
            plus_vote_3,
            plus_vote_4,
            minus_vote_1,
            minus_vote_2,
            now,
        ),
        r is Ok ==> *final(election) == (Election {
            voter_count: (old(election).voter_count + 1) as u64,
            ..*old(election)
        }),
        r is Ok ==> *final(voter_record) == (VoterRecord {
            election: election_key,
            voter,
            plus_vote_1,
            plus_vote_2,
            plus_vote_3,
            plus_vote_4,
            minus_vote_1,
            minus_vote_2,
            has_voted: true,
        }),
        r is Err ==> *final(election) == *old(election),
        r is Err ==> *final(voter_record) == *old(voter_record),
        final(election).start_time == old(election).start_time,
        final(election).end_time == old(election).end_time,
        final(election).candidate_count == old(election).candidate_count,
{
    if !(election.start_time <= now && now <= election.end_time) {
        return Err(VotingError::ElectionNotActive);
    }
    if voter_record.has_voted {
        return Err(VotingError::AlreadyVoted);
    }

    let plus_votes = collect_plus_selections(plus_vote_1, plus_vote_2, plus_vote_3, plus_vote_4);
    let minus_votes = collect_minus_selections(minus_vote_1, minus_vote_2);

    let max_plus = calculate_max_plus_votes(election.num_winners, election.candidate_count);
    let max_minus = calculate_max_minus_votes(
        election.num_winners,
        election.candidate_count,
        election.allow_minus_votes,
    );

    if plus_votes.len() > max_plus as usize {
        return Err(VotingError::TooManyPlusVotes);
    }
    if minus_votes.len() > max_minus as usize {
        return Err(VotingError::TooManyMinusVotes);
    }
    if minus_votes.len() > 0 && plus_votes.len() < 2 {
        return Err(VotingError::InsufficientPlusVotes);
    }
    if let Err(err) = check_candidate_ids(&plus_votes, &minus_votes, election.candidate_count) {
        return Err(err);
    }
    if let Err(err) = check_duplicates(&plus_votes, &minus_votes) {
        return Err(err);
    }

    voter_record.election = election_key;
    voter_record.voter = voter;
    voter_record.plus_vote_1 = plus_vote_1;
    voter_record.plus_vote_2 = plus_vote_2;
    voter_record.plus_vote_3 = plus_vote_3;
    voter_record.plus_vote_4 = plus_vote_4;
    voter_record.minus_vote_1 = minus_vote_1;
    voter_record.minus_vote_2 = minus_vote_2;
    voter_record.has_voted = true;

    election.voter_count = election.voter_count + 1;

    Ok(())
}

} // verus!
