//! The lifecycle controller over an in-memory record store: one table per
//! record kind, keyed as the durable store keys them (elections by key,
//! candidates by (election, id), voter records by (election, voter)), with
//! create-if-absent semantics. Every operation validates first and mutates
//! only on success, so each call either fully applies or changes nothing.

use vstd::prelude::*;
use crate::add_candidate::add_candidate;
use crate::add_candidate::add_candidate_check;
use crate::cast_vote::cast_vote;
use crate::cast_vote::cast_vote_check;
use crate::errors::VotingError;
use crate::finalize_election::finalize_election;
use crate::finalize_election::finalize_election_check;
use crate::initialize_election::initialize_election;
use crate::initialize_election::initialize_election_spec;
use crate::state::Candidate;
use crate::state::Election;
use crate::state::VoterRecord;

verus! {

/// One stored election together with the durable key it lives under.
pub struct ElectionEntry {
    pub key: u64,
    pub election: Election,
}

/// The whole record set of the engine.
pub struct VotingSystem {
    pub elections: Vec<ElectionEntry>,
    pub candidates: Vec<Candidate>,
    pub voter_records: Vec<VoterRecord>,
}

impl VotingSystem {
    /// Some stored election carries this key.
    pub open spec fn has_election(self, key: u64) -> bool {
        exists|i: int| 0 <= i < self.elections@.len() && self.elections@[i].key == key
    }

    /// The position of the election stored under `key` (meaningful when the
    /// key is present and keys are unique).
    pub open spec fn election_index(self, key: u64) -> int {
        choose|i: int| 0 <= i < self.elections@.len() && self.elections@[i].key == key
    }

    /// The election stored under `key`.
    pub open spec fn spec_election(self, key: u64) -> Election {
        self.elections@[self.election_index(key)].election
    }

    /// Some stored voter record belongs to this (election, voter) pair.
    pub open spec fn has_voter_record(self, election_key: u64, voter: u64) -> bool {
        exists|i: int|
            0 <= i < self.voter_records@.len() && self.voter_records@[i].election == election_key
                && self.voter_records@[i].voter == voter
    }

    /// No two stored elections share a key.
    pub open spec fn election_keys_unique(self) -> bool {
        forall|i: int, j: int|
            0 <= i < j < self.elections@.len() ==> #[trigger] self.elections@[i].key != #[trigger] self.elections@[j].key
    }

    /// No two stored candidates share an (election, id) pair.
    pub open spec fn candidate_keys_unique(self) -> bool {
        forall|i: int, j: int|
            0 <= i < j < self.candidates@.len() ==> !(#[trigger] self.candidates@[i].election
                == #[trigger] self.candidates@[j].election && self.candidates@[i].id
                == self.candidates@[j].id)
    }

    /// No two stored voter records share an (election, voter) pair.
    pub open spec fn voter_record_keys_unique(self) -> bool {
        forall|i: int, j: int|
            0 <= i < j < self.voter_records@.len() ==> !(#[trigger] self.voter_records@[i].election
                == #[trigger] self.voter_records@[j].election && self.voter_records@[i].voter
                == self.voter_records@[j].voter)
    }

    /// Every stored candidate belongs to a stored election and its id lies
    /// below that election's candidate counter.
    pub open spec fn candidates_linked(self) -> bool {
        forall|i: int|
            0 <= i < self.candidates@.len() ==> exists|j: int|
                0 <= j < self.elections@.len() && #[trigger] self.elections@[j].key
                    == (#[trigger] self.candidates@[i]).election && self.candidates@[i].id
                    < self.elections@[j].election.candidate_count
    }

    /// Every stored voter record belongs to a stored election and marks a
    /// cast ballot.
    pub open spec fn voter_records_linked(self) -> bool {
        forall|i: int|
            0 <= i < self.voter_records@.len() ==> (#[trigger] self.voter_records@[i]).has_voted
                && exists|j: int|
                0 <= j < self.elections@.len() && #[trigger] self.elections@[j].key
                    == self.voter_records@[i].election
    }

    /// The store invariant: unique keys for all three record kinds,
    /// well-formed elections and candidates, and back-references that
    /// resolve.
    pub open spec fn wf(self) -> bool {
        &&& self.election_keys_unique()
        &&& self.candidate_keys_unique()
        &&& self.voter_record_keys_unique()
        &&& (forall|i: int|
            0 <= i < self.elections@.len() ==> (#[trigger] self.elections@[i]).election.wf())
        &&& (forall|i: int| 0 <= i < self.candidates@.len() ==> (#[trigger] self.candidates@[i]).wf())
        &&& self.candidates_linked()
        &&& self.voter_records_linked()
    }

    /// With unique keys, the stored position of a key is the only one that
    /// carries it.
    pub proof fn lemma_election_index_unique(self, key: u64, i: int)
        requires
            self.election_keys_unique(),
            0 <= i < self.elections@.len(),
            self.elections@[i].key == key,
        ensures
            self.has_election(key),
            self.election_index(key) == i,
            self.spec_election(key) == self.elections@[i].election,
    {
        assert(self.has_election(key));
        let c = self.election_index(key);
        if c != i {
            if c < i {
                assert(self.elections@[c].key != self.elections@[i].key);
            } else {
                assert(self.elections@[i].key != self.elections@[c].key);
            }
        }
    }

    /// An empty store: no records of any kind.
    pub fn new() -> (sys: VotingSystem)
        ensures
            sys.wf(),
            sys.elections@.len() == 0,
            sys.candidates@.len() == 0,
            sys.voter_records@.len() == 0,
    {
        VotingSystem { elections: Vec::new(), candidates: Vec::new(), voter_records: Vec::new() }
    }

    /// Linear lookup of an election by key.
    fn find_election_index(&self, key: u64) -> (r: Option<usize>)
        ensures
            match r {
                Some(i) => 0 <= i < self.elections@.len() && self.elections@[i as int].key == key,
                None => !self.has_election(key),
            },
    {
        let mut i: usize = 0;
        while i < self.elections.len()
            invariant
                0 <= i <= self.elections@.len(),
                forall|k: int| 0 <= k < i ==> (#[trigger] self.elections@[k]).key != key,
            decreases self.elections@.len() - i,
        {
            if self.elections[i].key == key {
                return Some(i);
            }
            i += 1;
        }
        None
    }

    /// Whether a voter record for this (election, voter) pair exists.
    pub fn voter_record_exists(&self, election_key: u64, voter: u64) -> (r: bool)
        ensures
            r == self.has_voter_record(election_key, voter),
    {
        let mut i: usize = 0;
        while i < self.voter_records.len()
            invariant
                0 <= i <= self.voter_records@.len(),
                forall|k: int|
                    0 <= k < i ==> !((#[trigger] self.voter_records@[k]).election == election_key
                        && self.voter_records@[k].voter == voter),
            decreases self.voter_records@.len() - i,
        {
            if self.voter_records[i].election == election_key && self.voter_records[i].voter == voter {
                return true;
            }
            i += 1;
        }
        false
    }

    /// Whether an election is stored under this key.
    pub fn election_exists(&self, key: u64) -> (r: bool)
        ensures
            r == self.has_election(key),
    {
        self.find_election_index(key).is_some()
    }

    /// The candidate counter of the election stored under `key`, if any.
    pub fn election_candidate_count(&self, key: u64) -> (r: Option<u8>)
        requires
            self.wf(),
        ensures
            r matches Some(c) ==> self.has_election(key) && c == self.spec_election(key).candidate_count,
            r is None <==> !self.has_election(key),
    {
        match self.find_election_index(key) {
            Some(i) => {
                proof {
                    self.lemma_election_index_unique(key, i as int);
                }
                Some(self.elections[i].election.candidate_count)
            },
            None => None,
        }
    }

    /// The ballot counter of the election stored under `key`, if any.
    pub fn election_voter_count(&self, key: u64) -> (r: Option<u64>)
        requires
            self.wf(),
        ensures
            r matches Some(c) ==> self.has_election(key) && c == self.spec_election(key).voter_count,
            r is None <==> !self.has_election(key),
    {
        match self.find_election_index(key) {
            Some(i) => {
                proof {
                    self.lemma_election_index_unique(key, i as int);
                }
                Some(self.elections[i].election.voter_count)
            },
            None => None,
        }
    }

    /// The finalized flag of the election stored under `key`, if any.
    pub fn election_is_finalized(&self, key: u64) -> (r: Option<bool>)
        requires
            self.wf(),
        ensures
            r matches Some(f) ==> self.has_election(key) && f == self.spec_election(key).is_finalized,
            r is None <==> !self.has_election(key),
    {
        match self.find_election_index(key) {
            Some(i) => {
                proof {
                    self.lemma_election_index_unique(key, i as int);
                }
                Some(self.elections[i].election.is_finalized)
            },
            None => None,
        }
    }

    /// A copy of the stored voter record for this (election, voter) pair, if
    /// any.
    pub fn find_voter_record(&self, election_key: u64, voter: u64) -> (r: Option<VoterRecord>)
        ensures
            r is Some <==> self.has_voter_record(election_key, voter),
            r matches Some(rec) ==> rec.election == election_key && rec.voter == voter && exists|i: int|
                0 <= i < self.voter_records@.len() && self.voter_records@[i] == rec,
    {
        let mut i: usize = 0;
        while i < self.voter_records.len()
            invariant
                0 <= i <= self.voter_records@.len(),
                forall|k: int|
                    0 <= k < i ==> !((#[trigger] self.voter_records@[k]).election == election_key
                        && self.voter_records@[k].voter == voter),
            decreases self.voter_records@.len() - i,
        {
            if self.voter_records[i].election == election_key && self.voter_records[i].voter == voter {
                return Some(self.voter_records[i]);
            }
            i += 1;
        }
        None
    }

    /// Creates an election under `election_key`, a fresh key the caller
    /// derives from (authority, name); the durable store guarantees by
    /// create-if-absent that a taken key never reaches the engine.
    ///
    /// On success the new aggregate is stored under the key; on any error the
    /// store is untouched and the error is the first failing configuration
    /// check.
    pub fn initialize_election(
        &mut self,
        election_key: u64,
        authority: u64,
        name: String,
        description: String,
        start_time: i64,
        end_time: i64,
        num_winners: u8,
        allow_minus_votes: bool,
    ) -> (r: Result<(), VotingError>)
        requires
            old(self).wf(),
            !old(self).has_election(election_key),
        ensures
            final(self).wf(),
            r is Ok <==> initialize_election_spec(
                authority,
                name,
                description,
                start_time,
                end_time,
                num_winners,
                allow_minus_votes,
            ) is Ok,
            r matches Err(err) ==> initialize_election_spec(
                authority,
                name,
                description,
                start_time,
                end_time,
                num_winners,
                allow_minus_votes,
            ) == Err::<Election, VotingError>(err),
            r is Err ==> *final(self) == *old(self),
            r is Ok ==> final(self).elections@ == old(self).elections@.push(
                ElectionEntry {
                    key: election_key,
                    election: initialize_election_spec(
                        authority,
                        name,
                        description,
                        start_time,
                        end_time,
                        num_winners,
                        allow_minus_votes,
                    )->Ok_0,
                },
            ),
            final(self).candidates@ == old(self).candidates@,
            final(self).voter_records@ == old(self).voter_records@,
            r is Ok ==> final(self).has_election(election_key),
            r is Ok ==> final(self).spec_election(election_key) == initialize_election_spec(
                authority,
                name,
                description,
                start_time,
                end_time,
                num_winners,
                allow_minus_votes,
            )->Ok_0,
    {
        let election = match initialize_election(
            authority,
            name,
            description,
            start_time,
            end_time,
            num_winners,
            allow_minus_votes,
        ) {
            Ok(e) => e,
            Err(err) => {
                return Err(err);
            },
        };
        let entry = ElectionEntry { key: election_key, election };
        self.elections.push(entry);
        proof {
            let n = old(self).elections@.len() as int;
            assert forall|i: int, j: int| 0 <= i < j < self.elections@.len() implies #[trigger] self.elections@[i].key
                != #[trigger] self.elections@[j].key by {
                if j == n {
                    assert(self.elections@[i] == old(self).elections@[i]);
                }
            }
            assert forall|i: int| 0 <= i < self.candidates@.len() implies exists|j: int|
                0 <= j < self.elections@.len() && #[trigger] self.elections@[j].key
                    == (#[trigger] self.candidates@[i]).election && self.candidates@[i].id
                    < self.elections@[j].election.candidate_count by {
                let j0 = choose|j: int|
                    0 <= j < old(self).elections@.len() && #[trigger] old(self).elections@[j].key
                        == self.candidates@[i].election && self.candidates@[i].id
                        < old(self).elections@[j].election.candidate_count;
                assert(self.elections@[j0].key == self.candidates@[i].election);
                assert(self.candidates@[i].id < self.elections@[j0].election.candidate_count);
            }
            assert forall|i: int| 0 <= i < self.voter_records@.len() implies (#[trigger] self.voter_records@[i]).has_voted
                && exists|j: int|
                0 <= j < self.elections@.len() && #[trigger] self.elections@[j].key
                    == self.voter_records@[i].election by {
                let j0 = choose|j: int|
                    0 <= j < old(self).elections@.len() && #[trigger] old(self).elections@[j].key
                        == self.voter_records@[i].election;
                assert(self.elections@[j0].key == self.voter_records@[i].election);
            }
            self.lemma_election_index_unique(election_key, n);
        }
        Ok(())
    }

    /// Registers a candidate on the election stored under `election_key`,
    /// read at time `now`. The caller must already be authenticated as that
    /// election's authority.
    ///
    /// On success the returned id is the next sequential one, the candidate
    /// record is stored under the fresh (election, id) key, and the
    /// election's counter advances by exactly one; on any error the store is
    /// untouched.
    pub fn add_candidate(
        &mut self,
        election_key: u64,
        authority: u64,
        name: String,
        description: String,
        now: i64,
    ) -> (r: Result<u8, VotingError>)
        requires
            old(self).wf(),
            old(self).has_election(election_key),
            old(self).spec_election(election_key).authority == authority,
        ensures
            final(self).wf(),
            r matches Err(err) ==> add_candidate_check(
                old(self).spec_election(election_key),
                name,
                description,
                now,
            ) == Err::<(), VotingError>(err),
            r is Ok ==> add_candidate_check(old(self).spec_election(election_key), name, description, now) is Ok,
            r matches Ok(id) ==> id == old(self).spec_election(election_key).candidate_count,
            r is Err ==> final(self).elections@ == old(self).elections@ && final(self).candidates@
                == old(self).candidates@,
            r is Ok ==> final(self).elections@ == old(self).elections@.update(
                old(self).election_index(election_key),
                ElectionEntry {
                    key: election_key,
                    election: Election {
                        candidate_count: (old(self).spec_election(election_key).candidate_count + 1) as u8,
                        ..old(self).spec_election(election_key)
                    },
                },
            ),
            r is Ok ==> final(self).candidates@ == old(self).candidates@.push(
                Candidate {
                    election: election_key,
                    id: old(self).spec_election(election_key).candidate_count,
                    name,
                    description,
                    plus_votes: 0,
                    minus_votes: 0,
                },
            ),
            final(self).voter_records@ == old(self).voter_records@,
            final(self).has_election(election_key),
            r is Ok ==> final(self).spec_election(election_key) == (Election {
                candidate_count: (old(self).spec_election(election_key).candidate_count + 1) as u8,
                ..old(self).spec_election(election_key)
            }),
            r is Err ==> final(self).spec_election(election_key) == old(self).spec_election(election_key),
            forall|k: u64|
                k != election_key && old(self).has_election(k) ==> #[trigger] final(self).has_election(k)
                    && final(self).spec_election(k) == old(self).spec_election(k),
    {
        let idx: usize = match self.find_election_index(election_key) {
            Some(i) => i,
            None => {
                proof {
                    assert(false);
                }
                0
            },
        };
        proof {
            old(self).lemma_election_index_unique(election_key, idx as int);
        }
        let ghost old_count = old(self).spec_election(election_key).candidate_count;
        let mut entry = self.elections.remove(idx);
        let r = add_candidate(&mut entry.election, election_key, authority, name, description, now);
        self.elections.insert(idx, entry);
        proof {
            assert forall|i: int| 0 <= i < self.elections@.len() implies self.elections@[i]
                == old(self).elections@.update(idx as int, ElectionEntry { key: election_key, election: entry.election })[i] by {
            }
            assert(self.elections@ =~= old(self).elections@.update(
                idx as int,
                ElectionEntry { key: election_key, election: entry.election },
            ));
            assert forall|i: int, j: int| 0 <= i < j < self.elections@.len() implies #[trigger] self.elections@[i].key
                != #[trigger] self.elections@[j].key by {
                assert(self.elections@[i].key == old(self).elections@[i].key);
                assert(self.elections@[j].key == old(self).elections@[j].key);
            }
            self.lemma_election_index_unique(election_key, idx as int);
            assert forall|k: u64|
                k != election_key && old(self).has_election(k) implies #[trigger] self.has_election(k)
                    && self.spec_election(k) == old(self).spec_election(k) by {
                let i0 = choose|i0: int|
                    0 <= i0 < old(self).elections@.len() && old(self).elections@[i0].key == k;
                old(self).lemma_election_index_unique(k, i0);
                assert(self.elections@[i0].key == k);
                self.lemma_election_index_unique(k, i0);
            }
            assert forall|i: int| 0 <= i < self.voter_records@.len() implies (#[trigger] self.voter_records@[i]).has_voted
                && exists|j: int|
                0 <= j < self.elections@.len() && #[trigger] self.elections@[j].key
                    == self.voter_records@[i].election by {
                let j0 = choose|j: int|
                    0 <= j < old(self).elections@.len() && #[trigger] old(self).elections@[j].key
                        == self.voter_records@[i].election;
                assert(self.elections@[j0].key == self.voter_records@[i].election);
            }
        }
        match r {
            Ok(candidate) => {
                let id = candidate.id;
                self.candidates.push(candidate);
                proof {
                    let n = old(self).candidates@.len() as int;
                    assert forall|i: int, j: int| 0 <= i < j < self.candidates@.len() implies !(
                        #[trigger] self.candidates@[i].election == #[trigger] self.candidates@[j].election
                        && self.candidates@[i].id == self.candidates@[j].id) by {
                        if j == n && self.candidates@[i].election == election_key {
                            let j0 = choose|j0: int|
                                0 <= j0 < old(self).elections@.len() && #[trigger] old(self).elections@[j0].key
                                    == old(self).candidates@[i].election && old(self).candidates@[i].id
                                    < old(self).elections@[j0].election.candidate_count;
                            old(self).lemma_election_index_unique(election_key, j0);
                            assert(j0 == idx as int);
                            assert(old(self).candidates@[i].id < old_count);
                        }
                    }
                    assert forall|i: int| 0 <= i < self.candidates@.len() implies exists|j: int|
                        0 <= j < self.elections@.len() && #[trigger] self.elections@[j].key
                            == (#[trigger] self.candidates@[i]).election && self.candidates@[i].id
                            < self.elections@[j].election.candidate_count by {
                        if i < n {
                            let j0 = choose|j0: int|
                                0 <= j0 < old(self).elections@.len() && #[trigger] old(self).elections@[j0].key
                                    == old(self).candidates@[i].election && old(self).candidates@[i].id
                                    < old(self).elections@[j0].election.candidate_count;
                            assert(self.elections@[j0].key == self.candidates@[i].election);
                            assert(self.candidates@[i].id < self.elections@[j0].election.candidate_count);
                        } else {
                            assert(self.elections@[idx as int].key == self.candidates@[i].election);
                            assert(self.candidates@[i].id < self.elections@[idx as int].election.candidate_count);
                        }
                    }
                    assert forall|k: u64|
                        k != election_key && old(self).has_election(k) implies #[trigger] self.has_election(k)
                            && self.spec_election(k) == old(self).spec_election(k) by {
                        let i0 = choose|i0: int|
                            0 <= i0 < old(self).elections@.len() && old(self).elections@[i0].key == k;
                        old(self).lemma_election_index_unique(k, i0);
                        assert(self.elections@[i0].key == k);
                        self.lemma_election_index_unique(k, i0);
                    }
                }
                Ok(id)
            },
            Err(err) => {
                proof {
                    assert(self.elections@ =~= old(self).elections@);
                }
                Err(err)
            },
        }
    }

    /// The exact outcome of casting a ballot through the store: the window
    /// check first, then the record-existence check (surfaced as
    /// `AlreadyVoted`), then the full ballot cascade on a fresh record.
    pub open spec fn cast_vote_outcome(
        self,
        election_key: u64,
        voter: u64,
        p1: Option<u8>,
        p2: Option<u8>,
        p3: Option<u8>,
        p4: Option<u8>,
        m1: Option<u8>,
        m2: Option<u8>,
        now: i64,
    ) -> Result<(), VotingError> {
        let e = self.spec_election(election_key);
        if !(e.start_time <= now && now <= e.end_time) {
            Err(VotingError::ElectionNotActive)
        } else if self.has_voter_record(election_key, voter) {
            Err(VotingError::AlreadyVoted)
        } else {
            cast_vote_check(e, false, p1, p2, p3, p4, m1, m2, now)
        }
    }

    /// Casts `voter`'s ballot on the election stored under `election_key`,
    /// read at time `now`. The caller must already be authenticated as
    /// `voter`.
    ///
    /// The voter record is created if absent; an existing record means the
    /// voter already cast a ballot here and the call fails `AlreadyVoted`.
    /// On success the record holds the six slots verbatim with `has_voted`
    /// set, and the election's `voter_count` advances by exactly one; on any
    /// error the store is untouched.
    pub fn cast_vote(
        &mut self,
        election_key: u64,
        voter: u64,
        plus_vote_1: Option<u8>,
        plus_vote_2: Option<u8>,
        plus_vote_3: Option<u8>,
        plus_vote_4: Option<u8>,
        minus_vote_1: Option<u8>,
        minus_vote_2: Option<u8>,
        now: i64,
    ) -> (r: Result<(), VotingError>)
        requires
            old(self).wf(),
            old(self).has_election(election_key),
            old(self).spec_election(election_key).voter_count < u64::MAX,
        ensures
            final(self).wf(),
            r == old(self).cast_vote_outcome(
                election_key,
                voter,
                plus_vote_1,
                plus_vote_2,
                plus_vote_3,
                plus_vote_4,
                minus_vote_1,
                minus_vote_2,
                now,
            ),
            r is Err ==> final(self).elections@ == old(self).elections@ && final(self).voter_records@
                == old(self).voter_records@,
            r is Ok ==> final(self).elections@ == old(self).elections@.update(
                old(self).election_index(election_key),
                ElectionEntry {
                    key: election_key,
                    election: Election {
                        voter_count: (old(self).spec_election(election_key).voter_count + 1) as u64,
                        ..old(self).spec_election(election_key)
                    },
                },
            ),
            r is Ok ==> final(self).voter_records@ == old(self).voter_records@.push(
                VoterRecord {
                    election: election_key,
                    voter,
                    plus_vote_1,
                    plus_vote_2,
                    plus_vote_3,
                    plus_vote_4,
                    minus_vote_1,
                    minus_vote_2,
                    has_voted: true,
                },
            ),
            final(self).candidates@ == old(self).candidates@,
            final(self).has_election(election_key),
            r is Ok ==> final(self).spec_election(election_key) == (Election {
                voter_count: (old(self).spec_election(election_key).voter_count + 1) as u64,
                ..old(self).spec_election(election_key)
            }),
            r is Err ==> final(self).spec_election(election_key) == old(self).spec_election(election_key),
            r is Ok ==> final(self).has_voter_record(election_key, voter),
            forall|k: u64|
                k != election_key && old(self).has_election(k) ==> #[trigger] final(self).has_election(k)
                    && final(self).spec_election(k) == old(self).spec_election(k),
    {
        let idx: usize = match self.find_election_index(election_key) {
            Some(i) => i,
            None => {
                proof {
                    assert(false);
                }
                0
            },
        };
        proof {
            old(self).lemma_election_index_unique(election_key, idx as int);
        }
        if !(self.elections[idx].election.start_time <= now && now <= self.elections[idx].election.end_time) {
            return Err(VotingError::ElectionNotActive);
        }
        if self.voter_record_exists(election_key, voter) {
            return Err(VotingError::AlreadyVoted);
        }
        let mut record = VoterRecord {
            election: 0,
            voter: 0,
            plus_vote_1: None,
            plus_vote_2: None,
            plus_vote_3: None,
            plus_vote_4: None,
            minus_vote_1: None,
            minus_vote_2: None,
            has_voted: false,
        };
        let mut entry = self.elections.remove(idx);
        let r = cast_vote(
            &mut entry.election,
            election_key,
            &mut record,
            voter,
            plus_vote_1,
            plus_vote_2,
            plus_vote_3,
            plus_vote_4,
            minus_vote_1,
            minus_vote_2,
            now,
        );
        self.elections.insert(idx, entry);
        proof {
            assert(self.elections@ =~= old(self).elections@.update(
                idx as int,
                ElectionEntry { key: election_key, election: entry.election },
            ));
            assert forall|i: int, j: int| 0 <= i < j < self.elections@.len() implies #[trigger] self.elections@[i].key
                != #[trigger] self.elections@[j].key by {
                assert(self.elections@[i].key == old(self).elections@[i].key);
                assert(self.elections@[j].key == old(self).elections@[j].key);
            }
            self.lemma_election_index_unique(election_key, idx as int);
            assert forall|i: int| 0 <= i < self.candidates@.len() implies exists|j: int|
                0 <= j < self.elections@.len() && #[trigger] self.elections@[j].key
                    == (#[trigger] self.candidates@[i]).election && self.candidates@[i].id
                    < self.elections@[j].election.candidate_count by {
                let j0 = choose|j0: int|
                    0 <= j0 < old(self).elections@.len() && #[trigger] old(self).elections@[j0].key
                        == self.candidates@[i].election && self.candidates@[i].id
                        < old(self).elections@[j0].election.candidate_count;
                assert(self.elections@[j0].key == self.candidates@[i].election);
                assert(self.candidates@[i].id < self.elections@[j0].election.candidate_count);
            }
        }
        match r {
            Ok(unit) => {
                self.voter_records.push(record);
                proof {
                    let n = old(self).voter_records@.len() as int;
                    assert forall|i: int, j: int| 0 <= i < j < self.voter_records@.len() implies !(
                        #[trigger] self.voter_records@[i].election == #[trigger] self.voter_records@[j].election
                        && self.voter_records@[i].voter == self.voter_records@[j].voter) by {
                        if j == n {
                            assert(!old(self).has_voter_record(election_key, voter));
                            assert(old(self).voter_records@[i] == self.voter_records@[i]);
                        }
                    }
                    assert forall|i: int| 0 <= i < self.voter_records@.len() implies (
                        #[trigger] self.voter_records@[i]).has_voted && exists|j: int|
                        0 <= j < self.elections@.len() && #[trigger] self.elections@[j].key
                            == self.voter_records@[i].election by {
                        if i < n {
                            let j0 = choose|j: int|
                                0 <= j < old(self).elections@.len() && #[trigger] old(self).elections@[j].key
                                    == self.voter_records@[i].election;
                            assert(self.elections@[j0].key == self.voter_records@[i].election);
                        } else {
                            assert(self.elections@[idx as int].key == self.voter_records@[i].election);
                        }
                    }
                    assert(self.voter_records@[n].election == election_key && self.voter_records@[n].voter == voter);
                    assert forall|k: u64|
                        k != election_key && old(self).has_election(k) implies #[trigger] self.has_election(k)
                            && self.spec_election(k) == old(self).spec_election(k) by {
                        let i0 = choose|i0: int|
                            0 <= i0 < old(self).elections@.len() && old(self).elections@[i0].key == k;
                        old(self).lemma_election_index_unique(k, i0);
                        assert(self.elections@[i0].key == k);
                        self.lemma_election_index_unique(k, i0);
                    }
                }
                Ok(unit)
            },
            Err(err) => {
                proof {
                    assert(self.elections@ =~= old(self).elections@);
                    assert forall|i: int| 0 <= i < self.voter_records@.len() implies (
                        #[trigger] self.voter_records@[i]).has_voted && exists|j: int|
                        0 <= j < self.elections@.len() && #[trigger] self.elections@[j].key
                            == self.voter_records@[i].election by {
                        let j0 = choose|j: int|
                            0 <= j < old(self).elections@.len() && #[trigger] old(self).elections@[j].key
                                == self.voter_records@[i].election;
                        assert(self.elections@[j0].key == self.voter_records@[i].election);
                    }
                    assert forall|k: u64|
                        k != election_key && old(self).has_election(k) implies #[trigger] self.has_election(k)
                            && self.spec_election(k) == old(self).spec_election(k) by {
                        let i0 = choose|i0: int|
                            0 <= i0 < old(self).elections@.len() && old(self).elections@[i0].key == k;
                        old(self).lemma_election_index_unique(k, i0);
                        assert(self.elections@[i0].key == k);
                        self.lemma_election_index_unique(k, i0);
                    }
                }
                Err(err)
            },
        }
    }

    /// Finalizes the election stored under `election_key`, read at time
    /// `now`. The caller must already be authenticated as that election's
    /// authority.
    ///
    /// On success only the `is_finalized` flag changes, from false to true;
    /// on any error the store is untouched.
    pub fn finalize_election(&mut self, election_key: u64, authority: u64, now: i64) -> (r: Result<
        (),
        VotingError,
    >)
        requires
            old(self).wf(),
            old(self).has_election(election_key),
            old(self).spec_election(election_key).authority == authority,
        ensures
            final(self).wf(),
            r == finalize_election_check(old(self).spec_election(election_key), now),
            r is Err ==> final(self).elections@ == old(self).elections@,
            r is Ok ==> final(self).elections@ == old(self).elections@.update(
                old(self).election_index(election_key),
                ElectionEntry {
                    key: election_key,
                    election: Election { is_finalized: true, ..old(self).spec_election(election_key) },
                },
            ),
            final(self).candidates@ == old(self).candidates@,
            final(self).voter_records@ == old(self).voter_records@,
            final(self).has_election(election_key),
            r is Ok ==> final(self).spec_election(election_key) == (Election {
                is_finalized: true,
                ..old(self).spec_election(election_key)
            }),
            r is Err ==> final(self).spec_election(election_key) == old(self).spec_election(election_key),
            forall|k: u64|
                k != election_key && old(self).has_election(k) ==> #[trigger] final(self).has_election(k)
                    && final(self).spec_election(k) == old(self).spec_election(k),
    {
        let idx: usize = match self.find_election_index(election_key) {
            Some(i) => i,
            None => {
                proof {
                    assert(false);
                }
                0
            },
        };
        proof {
            old(self).lemma_election_index_unique(election_key, idx as int);
        }
        let mut entry = self.elections.remove(idx);
        let r = finalize_election(&mut entry.election, authority, now);
        self.elections.insert(idx, entry);
        proof {
            assert(self.elections@ =~= old(self).elections@.update(
                idx as int,
                ElectionEntry { key: election_key, election: entry.election },
            ));
            if r is Err {
                assert(self.elections@ =~= old(self).elections@);
            }
            assert forall|i: int, j: int| 0 <= i < j < self.elections@.len() implies #[trigger] self.elections@[i].key
                != #[trigger] self.elections@[j].key by {
                assert(self.elections@[i].key == old(self).elections@[i].key);
                assert(self.elections@[j].key == old(self).elections@[j].key);
            }
            self.lemma_election_index_unique(election_key, idx as int);
            assert forall|i: int| 0 <= i < self.candidates@.len() implies exists|j: int|
                0 <= j < self.elections@.len() && #[trigger] self.elections@[j].key
                    == (#[trigger] self.candidates@[i]).election && self.candidates@[i].id
                    < self.elections@[j].election.candidate_count by {
                let j0 = choose|j0: int|
                    0 <= j0 < old(self).elections@.len() && #[trigger] old(self).elections@[j0].key
                        == self.candidates@[i].election && self.candidates@[i].id
                        < old(self).elections@[j0].election.candidate_count;
                assert(self.elections@[j0].key == self.candidates@[i].election);
                assert(self.candidates@[i].id < self.elections@[j0].election.candidate_count);
            }
            assert forall|i: int| 0 <= i < self.voter_records@.len() implies (#[trigger] self.voter_records@[i]).has_voted
                && exists|j: int|
                0 <= j < self.elections@.len() && #[trigger] self.elections@[j].key
                    == self.voter_records@[i].election by {
                let j0 = choose|j: int|
                    0 <= j < old(self).elections@.len() && #[trigger] old(self).elections@[j].key
                        == self.voter_records@[i].election;
                assert(self.elections@[j0].key == self.voter_records@[i].election);
            }
            assert forall|k: u64|
                k != election_key && old(self).has_election(k) implies #[trigger] self.has_election(k)
                    && self.spec_election(k) == old(self).spec_election(k) by {
                let i0 = choose|i0: int|
                    0 <= i0 < old(self).elections@.len() && old(self).elections@[i0].key == k;
                old(self).lemma_election_index_unique(k, i0);
                assert(self.elections@[i0].key == k);
                self.lemma_election_index_unique(k, i0);
            }
        }
        r
    }
}

} // verus!
