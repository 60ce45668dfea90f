//! The vote budget calculator: how many positive and negative endorsements a
//! single voter may spend, derived from the number of winners being elected
//! and the size of the candidate pool.

use vstd::prelude::*;

verus! {

/// The base plus-vote budget for a given number of winners, before capping.
pub open spec fn base_votes(num_winners: u8) -> int {
    if num_winners == 1 {
        2
    } else if num_winners == 2 {
        3
    } else if num_winners == 3 {
        4
    } else {
        num_winners + 1
    }
}

/// The cap on the plus-vote budget: one less than the candidate pool, never
/// below zero, so a voter can never endorse every candidate.
pub open spec fn plus_cap(candidate_count: u8) -> int {
    if candidate_count == 0 {
        0
    } else {
        candidate_count - 1
    }
}

/// The maximum number of positive endorsements one voter may cast.
pub open spec fn max_plus_spec(num_winners: u8, candidate_count: u8) -> int {
    if base_votes(num_winners) <= plus_cap(candidate_count) {
        base_votes(num_winners)
    } else {
        plus_cap(candidate_count)
    }
}

/// The maximum number of negative endorsements one voter may cast: a third of
/// the plus budget (rounded toward zero) when the election allows minus
/// votes, otherwise zero.
pub open spec fn max_minus_spec(num_winners: u8, candidate_count: u8, allow_minus_votes: bool) -> int {
    if allow_minus_votes {
        max_plus_spec(num_winners, candidate_count) / 3
    } else {
        0
    }
}

/// Computes the plus-vote budget `min(base, candidate_count - 1)`, where the
/// subtraction saturates at zero.
pub fn calculate_max_plus_votes(num_winners: u8, candidate_count: u8) -> (r: u8)
    ensures
        r == max_plus_spec(num_winners, candidate_count),
{
    let base: u16 = match num_winners {
        1 => 2,
        2 => 3,
        3 => 4,
        _ => num_winners as u16 + 1,
    };
    let cap: u16 = if candidate_count == 0 {
        0
    } else {
        (candidate_count - 1) as u16
    };
    if base <= cap {
        base as u8
    } else {
        cap as u8
    }
}

/// Computes the minus-vote budget from the same configuration.
pub fn calculate_max_minus_votes(num_winners: u8, candidate_count: u8, allow_minus_votes: bool) -> (r: u8)
    ensures
        r == max_minus_spec(num_winners, candidate_count, allow_minus_votes),
{
    if allow_minus_votes {
        calculate_max_plus_votes(num_winners, candidate_count) / 3
    } else {
        0
    }
}

/// For small winner counts the plus budget is the winner count plus one
/// (except for a single winner, whose base is two), capped by the pool size.
pub proof fn lemma_max_plus_small_winners(c: u8)
    ensures
        max_plus_spec(1, c) == vstd::math::min(2, plus_cap(c)),
        max_plus_spec(2, c) == vstd::math::min(3, plus_cap(c)),
        max_plus_spec(3, c) == vstd::math::min(4, plus_cap(c)),
        max_plus_spec(5, c) == vstd::math::min(6, plus_cap(c)),
{
}

} // verus!
