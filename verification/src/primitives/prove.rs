//! Bodies of the prove route.

use crate::common::ProgramID;
use crate::program::ProgramInput;
use vstd::prelude::*;

verus! {

#[derive(Debug)]
pub struct ProveRequest {
    pub program_id: ProgramID,
    pub input: ProgramInput,
}

/// The proof that a backend made, of whatever type the backend has for it.
#[derive(Debug)]
pub struct ProveResponse<P> {
    pub program_id: ProgramID,
    pub proof: P,
}

} // verus!
