//! Anima Flow: the verified core of an autonomous secretary agent.
use vstd::prelude::*;

pub mod brain;
pub mod config;
pub mod connectors;
pub mod context;
pub mod error;
pub mod id;
pub mod json;
pub mod seqs;
pub mod session;
pub mod skills;
pub mod text;
pub mod time;
pub mod types;

verus! {
}
