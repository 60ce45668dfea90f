//! Finalization: the one-way transition that closes an election. Allowed
//! only to the election's authority, only strictly after the voting window,
//! and only once.

use vstd::prelude::*;
use crate::errors::VotingError;
use crate::state::Election;

verus! {

/// The first failing finalization check in order (window not over yet,
/// already finalized), if any.
pub open spec fn finalize_election_check(e: Election, now: i64) -> Result<(), VotingError> {
    if now <= e.end_time {
        Err(VotingError::ElectionNotEnded)
    } else if e.is_finalized {
        Err(VotingError::ElectionFinalized)
    } else {
        Ok(())
    }
}

/// Finalizes `election`, read at time `now`.
///
/// The caller must already be authenticated as the election's authority. On
/// success only the `is_finalized` flag changes, from false to true; on any
/// error the election is left untouched.
pub fn finalize_election(election: &mut Election, authority: u64, now: i64) -> (r: Result<(), VotingError>)
    requires
        old(election).wf(),
        old(election).authority == authority,
    ensures
        final(election).wf(),
        r == finalize_election_check(*old(election), now),
        r is Ok ==> *final(election) == (Election { is_finalized: true, ..*old(election) }),
        r is Err ==> *final(election) == *old(election),
        final(election).start_time == old(election).start_time,
        final(election).end_time == old(election).end_time,
{
    if now <= election.end_time {
        return Err(VotingError::ElectionNotEnded);
    }
    if election.is_finalized {
        return Err(VotingError::ElectionFinalized);
    }
    election.is_finalized = true;
    Ok(())
}

} // verus!
