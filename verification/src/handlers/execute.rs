//! The execute route.

use crate::app_state::AppState;
use crate::common::ProgramID;
use crate::handlers::{find_program, is_backend_failure, is_not_found, StatusCode};
use crate::primitives::execute::{ExecuteRequest, ExecuteResponse, ExecutionReport};
use crate::program::{ProgramInput, ProgramInstance};
use crate::text::concat;
use vstd::prelude::*;

verus! {

/// Whether `r` answers an execution of the program `program_id` to which
/// the backend answered `outcome`. A run that succeeded is reported with
/// its public output and the figures of its report; a run that failed is a
/// server error that quotes the backend.
pub open spec fn execute_reply(
    program_id: ProgramID,
    outcome: Result<(Vec<u8>, ExecutionReport), String>,
    r: Result<ExecuteResponse, (StatusCode, String)>,
) -> bool {
    match outcome {
        Ok((public_output, report)) => {
            &&& r is Ok
            &&& r->Ok_0.program_id == program_id
            &&& r->Ok_0.total_num_cycles == report.total_num_cycles
            &&& r->Ok_0.region_cycles == report.region_cycles
            &&& r->Ok_0.execution_time_duration == report.execution_duration
            &&& r->Ok_0.public_input == public_output
        },
        Err(reason) => r is Err && is_backend_failure(
            r->Err_0,
            "Failed to execute program: "@,
            reason@,
        ),
    }
}

/// Whether `r` answers the request `req` against the registry `programs`,
/// with `run` standing for the backend's execution: not found if the
/// identity is not registered; else the backend registered under it is run
/// once on the request's input, and its answer decides.
pub open spec fn execute_outcome<
    V,
    F: FnOnce(&V, ProgramInput) -> Result<(Vec<u8>, ExecutionReport), String>,
>(
    programs: Map<Seq<char>, ProgramInstance<V>>,
    req: ExecuteRequest,
    run: F,
    r: Result<ExecuteResponse, (StatusCode, String)>,
) -> bool {
    if programs.contains_key(req.program_id@) {
        exists|outcome: Result<(Vec<u8>, ExecutionReport), String>|
            {
                &&& #[trigger] run.ensures(
                    (&programs[req.program_id@].zkvm_instance.vm, req.input),
                    outcome,
                )
                &&& execute_reply(req.program_id, outcome, r)
            }
    } else {
        r is Err && is_not_found(r->Err_0)
    }
}

/// Turns the backend's answer to an execution into the response.
pub fn execute_response(
    program_id: ProgramID,
    outcome: Result<(Vec<u8>, ExecutionReport), String>,
) -> (r: Result<ExecuteResponse, (StatusCode, String)>)
    ensures
        execute_reply(program_id, outcome, r),
{
    match outcome {
        Ok((public_input, report)) => Ok(
            ExecuteResponse {
                program_id,
                total_num_cycles: report.total_num_cycles,
                region_cycles: report.region_cycles,
                execution_time_duration: report.execution_duration,
                public_input,
            },
        ),
        Err(reason) => Err(
            (
                StatusCode::InternalServerError,
                concat("Failed to execute program: ", reason.as_str()),
            ),
        ),
    }
}

/// Handles an execute request: looks the program up and has `run` execute
/// it on the request's input.
pub fn execute_program<V, F>(state: &AppState<V>, req: ExecuteRequest, run: F) -> (r: Result<
    ExecuteResponse,
    (StatusCode, String),
>) where F: FnOnce(&V, ProgramInput) -> Result<(Vec<u8>, ExecutionReport), String>
    requires
        state@.contains_key(req.program_id@) ==> run.requires(
            (&state@[req.program_id@].zkvm_instance.vm, req.input),
        ),
    ensures
        execute_outcome(state@, req, run, r),
{
    match find_program(state, &req.program_id) {
        Err(error) => Err(error),
        Ok(program) => {
            let outcome = run(&program.zkvm_instance.vm, req.input);
            execute_response(req.program_id, outcome)
        },
    }
}

} // verus!
