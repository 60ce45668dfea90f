use d21_voting::budget::calculate_max_minus_votes;
use d21_voting::budget::calculate_max_plus_votes;

#[test]
fn one_winner_base_two() {
    assert_eq!(calculate_max_plus_votes(1, 10), 2);
}

#[test]
fn two_winners_base_three() {
    assert_eq!(calculate_max_plus_votes(2, 10), 3);
}

#[test]
fn three_winners_base_four() {
    assert_eq!(calculate_max_plus_votes(3, 10), 4);
}

#[test]
fn other_winners_base_is_winners_plus_one() {
    assert_eq!(calculate_max_plus_votes(4, 10), 5);
    assert_eq!(calculate_max_plus_votes(5, 10), 6);
    assert_eq!(calculate_max_plus_votes(10, 50), 11);
}

#[test]
fn base_two_capped_by_pool_of_two() {
    assert_eq!(calculate_max_plus_votes(1, 2), 1);
}

#[test]
fn cap_is_pool_minus_one() {
    assert_eq!(calculate_max_plus_votes(5, 3), 2);
    assert_eq!(calculate_max_plus_votes(2, 3), 2);
}

#[test]
fn empty_pool_gives_zero_budget() {
    assert_eq!(calculate_max_plus_votes(1, 0), 0);
    assert_eq!(calculate_max_plus_votes(9, 0), 0);
}

#[test]
fn single_candidate_gives_zero_budget() {
    assert_eq!(calculate_max_plus_votes(1, 1), 0);
}

#[test]
fn minus_budget_is_third_of_plus_budget() {
    assert_eq!(calculate_max_minus_votes(2, 5, true), 1);
    assert_eq!(calculate_max_minus_votes(5, 10, true), 2);
    assert_eq!(calculate_max_minus_votes(8, 50, true), 3);
}

#[test]
fn one_winner_minus_budget_is_zero() {
    assert_eq!(calculate_max_minus_votes(1, 5, true), 0);
}

#[test]
fn minus_budget_zero_when_disallowed() {
    assert_eq!(calculate_max_minus_votes(5, 10, false), 0);
    assert_eq!(calculate_max_minus_votes(2, 5, false), 0);
}
