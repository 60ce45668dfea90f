//! Election creation: validates the configuration and builds a fresh
//! election aggregate. Persisting it under a key that is not already taken
//! (create-if-absent keyed by authority and name) is the record store's job.

use vstd::prelude::*;
use vstd::string::StrSliceExecFns;
use crate::errors::VotingError;
use crate::state::Election;
use crate::state::MAX_DESCRIPTION_LEN;
use crate::state::MAX_NAME_LEN;

verus! {

/// The exact outcome of election creation: the first failing check in order
/// (time range, winner count, name length, description length), or the fresh
/// aggregate with both counters at zero and the finalized flag clear.
pub open spec fn initialize_election_spec(
    authority: u64,
    name: String,
    description: String,
    start_time: i64,
    end_time: i64,
    num_winners: u8,
    allow_minus_votes: bool,
) -> Result<Election, VotingError> {
    if start_time >= end_time {
        Err(VotingError::InvalidTimeRange)
    } else if num_winners == 0 {
        Err(VotingError::InvalidWinnerCount)
    } else if name@.len() > MAX_NAME_LEN {
        Err(VotingError::NameTooLong)
    } else if description@.len() > MAX_DESCRIPTION_LEN {
        Err(VotingError::DescriptionTooLong)
    } else {
        Ok(
            Election {
                authority,
                name,
                description,
                start_time,
                end_time,
                num_winners,
                allow_minus_votes,
                candidate_count: 0,
                voter_count: 0,
                is_finalized: false,
            },
        )
    }
}

/// Validates the configuration and returns the new election, or the first
/// failing check. A successful result is well-formed.
pub fn initialize_election(
    authority: u64,
    name: String,
    description: String,
    start_time: i64,
    end_time: i64,
    num_winners: u8,
    allow_minus_votes: bool,
) -> (r: Result<Election, VotingError>)
    ensures
        r == initialize_election_spec(
            authority,
            name,
            description,
            start_time,
            end_time,
            num_winners,
            allow_minus_votes,
        ),
        r matches Ok(e) ==> e.wf(),
{
    if start_time >= end_time {
        return Err(VotingError::InvalidTimeRange);
    }
    if num_winners == 0 {
        return Err(VotingError::InvalidWinnerCount);
    }
    if name.as_str().unicode_len() > MAX_NAME_LEN {
        return Err(VotingError::NameTooLong);
    }
    if description.as_str().unicode_len() > MAX_DESCRIPTION_LEN {
        return Err(VotingError::DescriptionTooLong);
    }
    Ok(
        Election {
            authority,
            name,
            description,
            start_time,
            end_time,
            num_winners,
            allow_minus_votes,
            candidate_count: 0,
            voter_count: 0,
            is_finalized: false,
        },
    )
}

} // verus!
