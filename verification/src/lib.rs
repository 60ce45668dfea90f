//! A D21-style "plus/minus" voting engine: a bounded set of candidates is
//! registered before voting opens, voters spend a bounded budget of positive
//! and negative endorsements during a fixed time window, and the election is
//! irreversibly closed afterwards.

pub mod add_candidate;
pub mod ballot;
pub mod budget;
pub mod cast_vote;
pub mod errors;
pub mod finalize_election;
pub mod laws;
pub mod initialize_election;
pub mod state;
pub mod store;
