//! The decisions of an agent session: how submissions are dispatched, how input is queued for a
//! turn, how work is injected and recovered, and how agents steer each other.
//!
//! Every function here works on plain values. Work that waits on something else (a lock, a
//! channel, a store) is split into steps: a step takes the state and what just came back, and
//! says what to do next.
use vstd::prelude::*;

pub mod errors;
pub mod ids;
pub mod json;
pub mod protocol;
pub mod session;
pub mod session_index;
pub mod tasks;
pub mod text;
pub mod tools;

verus! {

} // verus!
