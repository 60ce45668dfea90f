//! Candidate registration: only the election's authority, only strictly
//! before voting opens, only while the pool is below its cap, and never after
//! finalization. Each accepted candidate takes the next sequential id.

use vstd::prelude::*;
use vstd::string::StrSliceExecFns;
use crate::errors::VotingError;
use crate::state::Candidate;
use crate::state::Election;
use crate::state::MAX_CANDIDATES;
use crate::state::MAX_DESCRIPTION_LEN;
use crate::state::MAX_NAME_LEN;

verus! {

/// The first failing registration check in order (finalized, name length,
/// description length, candidate cap, election already started), if any.
pub open spec fn add_candidate_check(
    e: Election,
    name: String,
    description: String,
    now: i64,
) -> Result<(), VotingError> {
    if e.is_finalized {
        Err(VotingError::ElectionFinalized)
    } else if name@.len() > MAX_NAME_LEN {
        Err(VotingError::NameTooLong)
    } else if description@.len() > MAX_DESCRIPTION_LEN {
        Err(VotingError::DescriptionTooLong)
    } else if e.candidate_count >= MAX_CANDIDATES {
        Err(VotingError::TooManyCandidates)
    } else if now >= e.start_time {
        Err(VotingError::ElectionStarted)
    } else {
        Ok(())
    }
}

/// Registers a candidate on `election`, read at time `now`.
///
/// The caller must already be authenticated as the election's authority (an
/// identity collaborator's job), and `election_key` is the durable key the
/// election is stored under, recorded in the candidate as a back-reference.
///
/// On success the new candidate carries id `old(election).candidate_count`,
/// zeroed tallies, and the counter advances by exactly one; on any error the
/// election is left untouched.
pub fn add_candidate(
    election: &mut Election,
    election_key: u64,
    authority: u64,
    name: String,
    description: String,
    now: i64,
) -> (r: Result<Candidate, VotingError>)
    requires
        old(election).wf(),
        old(election).authority == authority,
    ensures
        final(election).wf(),
        r is Err ==> *final(election) == *old(election),
        r matches Err(err) ==> add_candidate_check(*old(election), name, description, now) == Err::<(), VotingError>(err),
        r is Ok ==> add_candidate_check(*old(election), name, description, now) is Ok,
        r is Ok ==> *final(election) == (Election {
            candidate_count: (old(election).candidate_count + 1) as u8,
            ..*old(election)
        }),
        r matches Ok(c) ==> c == (Candidate {
            election: election_key,
            id: old(election).candidate_count,
            name,
            description,
            plus_votes: 0,
            minus_votes: 0,
        }),
        final(election).start_time == old(election).start_time,
        final(election).end_time == old(election).end_time,
{
    if election.is_finalized {
        return Err(VotingError::ElectionFinalized);
    }
    if name.as_str().unicode_len() > MAX_NAME_LEN {
        return Err(VotingError::NameTooLong);
    }
    if description.as_str().unicode_len() > MAX_DESCRIPTION_LEN {
        return Err(VotingError::DescriptionTooLong);
    }
    if election.candidate_count >= MAX_CANDIDATES {
        return Err(VotingError::TooManyCandidates);
    }
    if now >= election.start_time {
        return Err(VotingError::ElectionStarted);
    }
    let candidate = Candidate {
        election: election_key,
        id: election.candidate_count,
        name,
        description,
        plus_votes: 0,
        minus_votes: 0,
    };
    election.candidate_count = election.candidate_count + 1;
    Ok(candidate)
}

} // verus!
