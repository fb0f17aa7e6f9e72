//! Bodies of the execute route.

use crate::common::ProgramID;
use crate::program::ProgramInput;
use indexmap::IndexMap;
use std::time::Duration;
use vstd::prelude::*;

verus! {

/// `indexmap::IndexMap`, a map that keeps the order in which its keys were
/// inserted. The crate carries such maps from the backend's report to the
/// response and never looks inside.
#[verifier::external_type_specification]
#[verifier::external_body]
#[verifier::reject_recursive_types(K)]
#[verifier::reject_recursive_types(V)]
#[verifier::reject_recursive_types(S)]
pub struct ExIndexMap<K, V, S>(IndexMap<K, V, S>);

/// What a backend reports of one execution.
#[derive(Debug)]
pub struct ExecutionReport {
    /// Cycles the whole run took.
    pub total_num_cycles: u64,
    /// Cycles per named region, in the order in which the regions were
    /// entered first.
    pub region_cycles: IndexMap<String, u64>,
    /// Wall-clock time of the run.
    pub execution_duration: Duration,
}

#[derive(Debug)]
pub struct ExecuteRequest {
    pub program_id: ProgramID,
    pub input: ProgramInput,
}

#[derive(Debug)]
pub struct ExecuteResponse {
    pub program_id: ProgramID,
    pub total_num_cycles: u64,
    pub region_cycles: IndexMap<String, u64>,
    pub execution_time_duration: Duration,
    pub public_input: Vec<u8>,
}

} // verus!
