//! Bodies of the verify route.

use crate::common::ProgramID;
use vstd::prelude::*;

verus! {

/// A proof to check, of whatever type the backend has for it.
#[derive(Debug)]
pub struct VerifyRequest<P> {
    pub program_id: ProgramID,
    pub proof: P,
}

#[derive(Debug)]
pub struct VerifyResponse {
    pub program_id: ProgramID,
    pub verified: bool,
    pub public_values: Vec<u8>,
    /// Empty if the proof verified.
    pub failure_reason: String,
}

} // verus!
