use d21_voting::add_candidate::add_candidate;
use d21_voting::cast_vote::cast_vote;
use d21_voting::errors::VotingError;
use d21_voting::finalize_election::finalize_election;
use d21_voting::initialize_election::initialize_election;
use d21_voting::state::VoterRecord;

fn fresh_record() -> VoterRecord {
    VoterRecord {
        election: 0,
        voter: 0,
        plus_vote_1: None,
        plus_vote_2: None,
        plus_vote_3: None,
        plus_vote_4: None,
        minus_vote_1: None,
        minus_vote_2: None,
        has_voted: false,
    }
}

#[test]
fn initialize_fills_every_field() {
    let e = initialize_election(10, String::from("mayor"), String::from("one seat"), 100, 200, 1, true)
        .unwrap();
    assert_eq!(e.authority, 10);
    assert_eq!(e.name, "mayor");
    assert_eq!(e.description, "one seat");
    assert_eq!(e.start_time, 100);
    assert_eq!(e.end_time, 200);
    assert_eq!(e.num_winners, 1);
    assert!(e.allow_minus_votes);
    assert_eq!(e.candidate_count, 0);
    assert_eq!(e.voter_count, 0);
    assert!(!e.is_finalized);
}

#[test]
fn initialize_checks_time_range_before_winner_count() {
    let r = initialize_election(10, String::from("e"), String::from("d"), 200, 100, 0, false);
    assert_eq!(r.unwrap_err(), VotingError::InvalidTimeRange);
}

#[test]
fn add_candidate_fills_record_and_advances_counter() {
    let mut e = initialize_election(10, String::from("mayor"), String::from(""), 100, 200, 1, false)
        .unwrap();
    let c = add_candidate(&mut e, 1, 10, String::from("ann"), String::from("bio"), 50).unwrap();
    assert_eq!(c.election, 1);
    assert_eq!(c.id, 0);
    assert_eq!(c.name, "ann");
    assert_eq!(c.description, "bio");
    assert_eq!(c.plus_votes, 0);
    assert_eq!(c.minus_votes, 0);
    assert_eq!(e.candidate_count, 1);
}

#[test]
fn cast_vote_marks_record_and_counts_voter() {
    let mut e = initialize_election(10, String::from("mayor"), String::from(""), 100, 200, 1, false)
        .unwrap();
    add_candidate(&mut e, 1, 10, String::from("ann"), String::from(""), 50).unwrap();
    add_candidate(&mut e, 1, 10, String::from("bob"), String::from(""), 50).unwrap();
    let mut rec = fresh_record();
    let r = cast_vote(&mut e, 1, &mut rec, 77, Some(0), None, None, None, None, None, 150);
    assert_eq!(r, Ok(()));
    assert!(rec.has_voted);
    assert_eq!(rec.election, 1);
    assert_eq!(rec.voter, 77);
    assert_eq!(rec.plus_vote_1, Some(0));
    assert_eq!(e.voter_count, 1);
}

#[test]
fn cast_vote_on_used_record_fails_already_voted() {
    let mut e = initialize_election(10, String::from("mayor"), String::from(""), 100, 200, 1, false)
        .unwrap();
    add_candidate(&mut e, 1, 10, String::from("ann"), String::from(""), 50).unwrap();
    add_candidate(&mut e, 1, 10, String::from("bob"), String::from(""), 50).unwrap();
    let mut rec = fresh_record();
    assert_eq!(cast_vote(&mut e, 1, &mut rec, 77, Some(0), None, None, None, None, None, 150), Ok(()));
    let r = cast_vote(&mut e, 1, &mut rec, 77, Some(1), None, None, None, None, None, 151);
    assert_eq!(r, Err(VotingError::AlreadyVoted));
    assert_eq!(e.voter_count, 1);
    assert_eq!(rec.plus_vote_1, Some(0));
}

#[test]
fn finalize_flips_only_the_flag() {
    let mut e = initialize_election(10, String::from("mayor"), String::from(""), 100, 200, 1, false)
        .unwrap();
    assert_eq!(finalize_election(&mut e, 10, 250), Ok(()));
    assert!(e.is_finalized);
    assert_eq!(finalize_election(&mut e, 10, 251), Err(VotingError::ElectionFinalized));
    assert_eq!(e.start_time, 100);
    assert_eq!(e.end_time, 200);
}
