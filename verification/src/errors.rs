use vstd::prelude::*;

verus! {

/// Every way an election operation can be rejected. Each operation evaluates
/// its checks in a fixed order and aborts with the first failing one, leaving
/// all state untouched.
#[derive(Clone, Copy, Debug, PartialEq, Eq, Structural)]
pub enum VotingError {
    /// `start_time >= end_time` at election creation.
    InvalidTimeRange,
    /// `num_winners == 0` at election creation.
    InvalidWinnerCount,
    /// A name longer than 50 characters.
    NameTooLong,
    /// A description longer than 200 characters.
    DescriptionTooLong,
    /// The election has already been finalized.
    ElectionFinalized,
    /// The election already holds 50 candidates.
    TooManyCandidates,
    /// Candidates may only be added strictly before voting opens.
    ElectionStarted,
    /// A vote was cast outside the `[start_time, end_time]` window.
    ElectionNotActive,
    /// A voter record for this (election, voter) pair already exists.
    AlreadyVoted,
    /// More positive selections than the voter's plus budget.
    TooManyPlusVotes,
    /// More negative selections than the voter's minus budget.
    TooManyMinusVotes,
    /// A negative selection requires at least two positive selections.
    InsufficientPlusVotes,
    /// A selected candidate id is not in `[0, candidate_count)`.
    InvalidCandidateId,
    /// The same candidate id appears twice among the positive selections.
    DuplicateVote,
    /// A negative selection repeats an id already seen in this ballot.
    ConflictingVote,
    /// Finalization is only allowed strictly after `end_time`.
    ElectionNotEnded,
}

} // verus!
