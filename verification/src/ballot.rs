//! The ballot validator: turning the six fixed optional slots into selection
//! lists and running the order-sensitive duplicate/conflict detection.
//!
//! Detection walks the positive slots first, then the negative slots, against
//! one shared set of already-seen ids. A repeat inside the positive list is a
//! `DuplicateVote`; a negative selection repeating any earlier id (positive
//! or negative) is a `ConflictingVote`. The asymmetry is part of the
//! observable contract and is kept as is.

use vstd::prelude::*;
use crate::errors::VotingError;

verus! {

/// One optional slot as a zero- or one-element selection list.
pub open spec fn opt_seq(slot: Option<u8>) -> Seq<u8> {
    match slot {
        Some(id) => seq![id],
        None => Seq::empty(),
    }
}

/// The positive selections, in slot order, skipping empty slots.
pub open spec fn plus_selections(p1: Option<u8>, p2: Option<u8>, p3: Option<u8>, p4: Option<u8>) -> Seq<u8> {
    opt_seq(p1) + opt_seq(p2) + opt_seq(p3) + opt_seq(p4)
}

/// The negative selections, in slot order, skipping empty slots.
pub open spec fn minus_selections(m1: Option<u8>, m2: Option<u8>) -> Seq<u8> {
    opt_seq(m1) + opt_seq(m2)
}

/// Some id occurs twice within the one list.
pub open spec fn has_internal_dup(s: Seq<u8>) -> bool {
    exists|i: int, j: int| 0 <= i < j < s.len() && s[i] == s[j]
}

/// Some negative selection repeats an id seen earlier in the ballot: either a
/// positive selection or an earlier negative one.
pub open spec fn has_conflict(plus: Seq<u8>, minus: Seq<u8>) -> bool {
    has_internal_dup(minus) || exists|i: int| 0 <= i < minus.len() && plus.contains(minus[i])
}

/// Some selected id is outside `[0, candidate_count)`.
pub open spec fn has_invalid_id(s: Seq<u8>, candidate_count: u8) -> bool {
    exists|i: int| 0 <= i < s.len() && s[i] >= candidate_count
}

/// Collects the present values of four optional slots, in slot order.
pub fn collect_plus_selections(p1: Option<u8>, p2: Option<u8>, p3: Option<u8>, p4: Option<u8>) -> (v: Vec<u8>)
    ensures
        v@ == plus_selections(p1, p2, p3, p4),
{
    let mut v: Vec<u8> = Vec::new();
    if let Some(id) = p1 {
        v.push(id);
    }
    if let Some(id) = p2 {
        v.push(id);
    }
    if let Some(id) = p3 {
        v.push(id);
    }
    if let Some(id) = p4 {
        v.push(id);
    }
    proof {
        assert(v@ =~= plus_selections(p1, p2, p3, p4));
    }
    v
}

/// Collects the present values of two optional slots, in slot order.
pub fn collect_minus_selections(m1: Option<u8>, m2: Option<u8>) -> (v: Vec<u8>)
    ensures
        v@ == minus_selections(m1, m2),
{
    let mut v: Vec<u8> = Vec::new();
    if let Some(id) = m1 {
        v.push(id);
    }
    if let Some(id) = m2 {
        v.push(id);
    }
    proof {
        assert(v@ =~= minus_selections(m1, m2));
    }
    v
}

/// Whether `v` holds `x`.
fn contains_id(v: &Vec<u8>, x: u8) -> (b: bool)
    ensures
        b == v@.contains(x),
{
    let mut i: usize = 0;
    while i < v.len()
        invariant
            0 <= i <= v@.len(),
            forall|k: int| 0 <= k < i ==> v@[k] != x,
        decreases v@.len() - i,
    {
        if v[i] == x {
            return true;
        }
        i += 1;
    }
    false
}

/// Range-checks every selected id against the candidate pool, positive list
/// first, then negative.
pub fn check_candidate_ids(plus: &Vec<u8>, minus: &Vec<u8>, candidate_count: u8) -> (r: Result<(), VotingError>)
    ensures
        r is Ok <==> !has_invalid_id(plus@, candidate_count) && !has_invalid_id(minus@, candidate_count),
        r is Err ==> r == Err::<(), VotingError>(VotingError::InvalidCandidateId),
{
    let mut i: usize = 0;
    while i < plus.len()
        invariant
            0 <= i <= plus@.len(),
            forall|k: int| 0 <= k < i ==> plus@[k] < candidate_count,
        decreases plus@.len() - i,
    {
        if plus[i] >= candidate_count {
            return Err(VotingError::InvalidCandidateId);
        }
        i += 1;
    }
    let mut j: usize = 0;
    while j < minus.len()
        invariant
            0 <= j <= minus@.len(),
            forall|k: int| 0 <= k < j ==> minus@[k] < candidate_count,
        decreases minus@.len() - j,
    {
        if minus[j] >= candidate_count {
            return Err(VotingError::InvalidCandidateId);
        }
        j += 1;
    }
    Ok(())
}

/// The two-phase seen-set walk: inserts each positive selection, reporting a
/// repeat as `DuplicateVote`, then each negative selection into the same set,
/// reporting a repeat as `ConflictingVote`.
pub fn check_duplicates(plus: &Vec<u8>, minus: &Vec<u8>) -> (r: Result<(), VotingError>)
    ensures
        r is Ok <==> !has_internal_dup(plus@) && !has_conflict(plus@, minus@),
        r == Err::<(), VotingError>(VotingError::DuplicateVote) <==> has_internal_dup(plus@),
        r == Err::<(), VotingError>(VotingError::ConflictingVote) <==> !has_internal_dup(plus@) && has_conflict(plus@, minus@),
{
    let mut seen: Vec<u8> = Vec::new();
    let mut i: usize = 0;
    while i < plus.len()
        invariant
            0 <= i <= plus@.len(),
            seen@ == plus@.take(i as int),
            !has_internal_dup(plus@.take(i as int)),
        decreases plus@.len() - i,
    {
        if contains_id(&seen, plus[i]) {
            proof {
                let a = choose|a: int| 0 <= a < i && plus@.take(i as int)[a] == plus@[i as int];
                assert(plus@[a] == plus@[i as int]);
                assert(has_internal_dup(plus@));
            }
            return Err(VotingError::DuplicateVote);
        }
        seen.push(plus[i]);
        proof {
            assert(seen@ =~= plus@.take(i + 1));
            assert forall|a: int, b: int| 0 <= a < b < i + 1 implies #[trigger] plus@.take(i + 1)[a] != #[trigger] plus@.take(i + 1)[b] by {
                if b < i {
                    assert(!has_internal_dup(plus@.take(i as int)));
                    assert(plus@.take(i as int)[a] == plus@.take(i + 1)[a]);
                    assert(plus@.take(i as int)[b] == plus@.take(i + 1)[b]);
                } else {
                    assert(!plus@.take(i as int).contains(plus@[i as int]));
                    assert(plus@.take(i as int)[a] == plus@.take(i + 1)[a]);
                }
            }
        }
        i += 1;
    }
    proof {
        assert(plus@.take(plus@.len() as int) =~= plus@);
        assert(seen@ == plus@);
    }
    let mut j: usize = 0;
    while j < minus.len()
        invariant
            0 <= j <= minus@.len(),
            seen@ == plus@ + minus@.take(j as int),
            !has_internal_dup(plus@),
            !has_internal_dup(minus@.take(j as int)),
            forall|k: int| 0 <= k < j ==> !plus@.contains(minus@[k]),
        decreases minus@.len() - j,
    {
        if contains_id(&seen, minus[j]) {
            proof {
                let a = choose|a: int| 0 <= a < seen@.len() && seen@[a] == minus@[j as int];
                if a < plus@.len() {
                    assert(plus@[a] == minus@[j as int]);
                    assert(plus@.contains(minus@[j as int]));
                } else {
                    let b = a - plus@.len();
                    assert(minus@.take(j as int)[b] == minus@[j as int]);
                    assert(minus@[b] == minus@[j as int]);
                    assert(has_internal_dup(minus@));
                }
                assert(has_conflict(plus@, minus@));
            }
            return Err(VotingError::ConflictingVote);
        }
        proof {
            if plus@.contains(minus@[j as int]) {
                let a = choose|a: int| 0 <= a < plus@.len() && plus@[a] == minus@[j as int];
                assert(seen@[a] == minus@[j as int]);
                assert(seen@.contains(minus@[j as int]));
            }
        }
        seen.push(minus[j]);
        proof {
            assert(seen@ =~= plus@ + minus@.take(j + 1));
            assert forall|a: int, b: int| 0 <= a < b < j + 1 implies #[trigger] minus@.take(j + 1)[a] != #[trigger] minus@.take(j + 1)[b] by {
                let old_seen = plus@ + minus@.take(j as int);
                if b < j {
                    assert(minus@.take(j as int)[a] == minus@.take(j + 1)[a]);
                    assert(minus@.take(j as int)[b] == minus@.take(j + 1)[b]);
                } else {
                    assert(!old_seen.contains(minus@[j as int]));
                    assert(old_seen[plus@.len() + a] == minus@[a]);
                }
            }
        }
        j += 1;
    }
    proof {
        assert(minus@.take(minus@.len() as int) =~= minus@);
        if has_conflict(plus@, minus@) {
            if has_internal_dup(minus@) {
                assert(false);
            } else {
                let i0 = choose|i0: int| 0 <= i0 < minus@.len() && plus@.contains(minus@[i0]);
                assert(!plus@.contains(minus@[i0]));
            }
        }
    }
    Ok(())
}

} // verus!
