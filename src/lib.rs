//! Edits a file through one chat-completion round trip: the decisions of the
//! run (tracking gate, confirmation, instruction, reply, write, staging) are a
//! verified state machine, and the caller performs the actions it asks for.
use vstd::prelude::*;

pub mod answer;
pub mod edit;
pub mod laws;
pub mod request;
pub mod session;

verus! {

} // verus!
