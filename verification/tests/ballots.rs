use d21_voting::errors::VotingError;
use d21_voting::store::VotingSystem;

const ELECTION: u64 = 1;
const AUTHORITY: u64 = 10;
const VOTER: u64 = 77;
const START: i64 = 100;
const END: i64 = 200;

fn election_with_candidates(num_winners: u8, allow_minus_votes: bool, candidates: u8) -> VotingSystem {
    let mut sys = VotingSystem::new();
    let r = sys.initialize_election(
        ELECTION,
        AUTHORITY,
        String::from("city council"),
        String::from("annual seats"),
        START,
        END,
        num_winners,
        allow_minus_votes,
    );
    assert_eq!(r, Ok(()));
    for i in 0..candidates {
        let r = sys.add_candidate(ELECTION, AUTHORITY, format!("c{}", i), String::from(""), 50);
        assert_eq!(r, Ok(i));
    }
    sys
}

#[test]
fn vote_before_start_fails_regardless_of_ballot() {
    let mut sys = election_with_candidates(1, true, 5);
    let r = sys.cast_vote(ELECTION, VOTER, Some(99), Some(99), None, None, Some(99), None, 50);
    assert_eq!(r, Err(VotingError::ElectionNotActive));
    assert_eq!(sys.election_voter_count(ELECTION), Some(0));
}

#[test]
fn vote_after_end_fails_regardless_of_ballot() {
    let mut sys = election_with_candidates(1, true, 5);
    let r = sys.cast_vote(ELECTION, VOTER, Some(0), Some(1), None, None, None, None, 250);
    assert_eq!(r, Err(VotingError::ElectionNotActive));
}

#[test]
fn empty_ballot_accepted_at_window_boundaries() {
    let mut sys = election_with_candidates(1, false, 5);
    assert_eq!(sys.cast_vote(ELECTION, VOTER, None, None, None, None, None, None, START), Ok(()));
    assert_eq!(sys.cast_vote(ELECTION, 78, None, None, None, None, None, None, END), Ok(()));
    assert_eq!(sys.election_voter_count(ELECTION), Some(2));
}

#[test]
fn second_vote_fails_already_voted() {
    let mut sys = election_with_candidates(1, false, 5);
    assert_eq!(sys.cast_vote(ELECTION, VOTER, Some(0), None, None, None, None, None, 150), Ok(()));
    let r = sys.cast_vote(ELECTION, VOTER, Some(1), None, None, None, None, None, 151);
    assert_eq!(r, Err(VotingError::AlreadyVoted));
    assert_eq!(sys.election_voter_count(ELECTION), Some(1));
}

#[test]
fn too_many_plus_votes() {
    let mut sys = election_with_candidates(1, false, 5);
    let r = sys.cast_vote(ELECTION, VOTER, Some(0), Some(1), Some(2), None, None, None, 150);
    assert_eq!(r, Err(VotingError::TooManyPlusVotes));
}

#[test]
fn minus_vote_with_zero_minus_budget_fails() {
    let mut sys = election_with_candidates(1, true, 5);
    let r = sys.cast_vote(ELECTION, VOTER, Some(0), Some(1), None, None, Some(0), None, 150);
    assert_eq!(r, Err(VotingError::TooManyMinusVotes));
}

#[test]
fn minus_vote_without_allowance_fails() {
    let mut sys = election_with_candidates(2, false, 5);
    let r = sys.cast_vote(ELECTION, VOTER, Some(0), Some(1), None, None, Some(2), None, 150);
    assert_eq!(r, Err(VotingError::TooManyMinusVotes));
}

#[test]
fn minus_vote_needs_two_plus_votes() {
    let mut sys = election_with_candidates(2, true, 5);
    let r = sys.cast_vote(ELECTION, VOTER, None, None, None, None, Some(0), None, 150);
    assert_eq!(r, Err(VotingError::InsufficientPlusVotes));
}

#[test]
fn minus_vote_with_one_plus_vote_fails() {
    let mut sys = election_with_candidates(2, true, 5);
    let r = sys.cast_vote(ELECTION, VOTER, Some(0), None, None, None, Some(1), None, 150);
    assert_eq!(r, Err(VotingError::InsufficientPlusVotes));
}

#[test]
fn out_of_range_candidate_id_fails() {
    let mut sys = election_with_candidates(1, false, 3);
    let r = sys.cast_vote(ELECTION, VOTER, Some(5), None, None, None, None, None, 150);
    assert_eq!(r, Err(VotingError::InvalidCandidateId));
}

#[test]
fn out_of_range_minus_id_fails() {
    let mut sys = election_with_candidates(2, true, 5);
    let r = sys.cast_vote(ELECTION, VOTER, Some(0), Some(1), None, None, Some(9), None, 150);
    assert_eq!(r, Err(VotingError::InvalidCandidateId));
}

#[test]
fn repeated_plus_id_fails_duplicate_vote() {
    let mut sys = election_with_candidates(1, false, 5);
    let r = sys.cast_vote(ELECTION, VOTER, Some(0), Some(0), None, None, None, None, 150);
    assert_eq!(r, Err(VotingError::DuplicateVote));
}

#[test]
fn minus_id_repeating_plus_id_fails_conflicting_vote() {
    let mut sys = election_with_candidates(2, true, 5);
    let r = sys.cast_vote(ELECTION, VOTER, Some(0), Some(1), None, None, Some(0), None, 150);
    assert_eq!(r, Err(VotingError::ConflictingVote));
}

#[test]
fn repeated_minus_id_fails_conflicting_vote() {
    let mut sys = election_with_candidates(7, true, 10);
    let r = sys.cast_vote(ELECTION, VOTER, Some(0), Some(1), None, None, Some(3), Some(3), 150);
    assert_eq!(r, Err(VotingError::ConflictingVote));
}

#[test]
fn accepted_ballot_is_stored_verbatim() {
    let mut sys = election_with_candidates(2, true, 5);
    let r = sys.cast_vote(ELECTION, VOTER, Some(0), Some(1), None, None, Some(2), None, 150);
    assert_eq!(r, Ok(()));
    assert_eq!(sys.election_voter_count(ELECTION), Some(1));
    let rec = sys.find_voter_record(ELECTION, VOTER).unwrap();
    assert_eq!(rec.election, ELECTION);
    assert_eq!(rec.voter, VOTER);
    assert_eq!(rec.plus_vote_1, Some(0));
    assert_eq!(rec.plus_vote_2, Some(1));
    assert_eq!(rec.plus_vote_3, None);
    assert_eq!(rec.plus_vote_4, None);
    assert_eq!(rec.minus_vote_1, Some(2));
    assert_eq!(rec.minus_vote_2, None);
    assert!(rec.has_voted);
}

#[test]
fn rejected_ballot_leaves_no_record() {
    let mut sys = election_with_candidates(1, false, 5);
    let r = sys.cast_vote(ELECTION, VOTER, Some(0), Some(0), None, None, None, None, 150);
    assert_eq!(r, Err(VotingError::DuplicateVote));
    assert!(sys.find_voter_record(ELECTION, VOTER).is_none());
    assert_eq!(sys.election_voter_count(ELECTION), Some(0));
}

#[test]
fn distinct_voters_get_distinct_records() {
    let mut sys = election_with_candidates(1, false, 5);
    assert_eq!(sys.cast_vote(ELECTION, 77, Some(0), None, None, None, None, None, 150), Ok(()));
    assert_eq!(sys.cast_vote(ELECTION, 78, Some(1), None, None, None, None, None, 150), Ok(()));
    assert_eq!(sys.election_voter_count(ELECTION), Some(2));
    assert!(sys.find_voter_record(ELECTION, 77).is_some());
    assert!(sys.find_voter_record(ELECTION, 78).is_some());
}

#[test]
fn full_budget_ballot_accepted() {
    let mut sys = election_with_candidates(7, true, 10);
    let r = sys.cast_vote(ELECTION, VOTER, Some(0), Some(1), Some(2), Some(3), Some(4), Some(5), 150);
    assert_eq!(r, Ok(()));
}
