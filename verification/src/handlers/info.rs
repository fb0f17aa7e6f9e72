//! The info route.

use crate::app_state::AppState;
use crate::primitives::info::{CpuInfo, MemoryInfo, OsInfo, ServerInfoResponse};
use crate::program::{ProgramInstance, ProgramInstanceResponse};
use vstd::prelude::*;
use vstd::std_specs::convert::FromSpec;

verus! {

/// What is reported of each of `entries`, in the same order.
pub open spec fn reported<V>(entries: Seq<ProgramInstance<V>>) -> Seq<ProgramInstanceResponse> {
    Seq::new(entries.len(), |i: int| ProgramInstanceResponse::from_spec(&entries[i]))
}

/// Describes the server: the host as the caller found it, and every
/// registered program in the registry's order.
pub fn get_server_info<V>(
    state: &AppState<V>,
    cpu: CpuInfo,
    memory: MemoryInfo,
    os: OsInfo,
    architecture: String,
    gpu: String,
) -> (info: ServerInfoResponse)
    ensures
        info.cpu == cpu,
        info.memory == memory,
        info.os == os,
        info.architecture == architecture,
        info.gpu == gpu,
        info.program_instances@ == reported(state.entries()),
{
    let all = state.list();
    let mut program_instances: Vec<ProgramInstanceResponse> = Vec::new();
    let mut i: usize = 0;
    while i < all.len()
        invariant
            i <= all@.len(),
            program_instances@ == reported(all@.take(i as int)),
        decreases all@.len() - i,
    {
        program_instances.push(ProgramInstanceResponse::from(&all[i]));
        assert(program_instances@ =~= reported(all@.take(i + 1)));
        i = i + 1;
    }
    assert(all@.take(i as int) =~= all@);
    ServerInfoResponse { cpu, memory, os, architecture, gpu, program_instances }
}

} // verus!
