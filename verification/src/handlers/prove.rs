//! The prove route.

use crate::app_state::AppState;
use crate::common::ProgramID;
use crate::handlers::{find_program, is_backend_failure, is_not_found, StatusCode};
use crate::primitives::prove::{ProveRequest, ProveResponse};
use crate::program::{ProgramInput, ProgramInstance};
use crate::text::concat;
use vstd::prelude::*;

verus! {

/// Whether `r` answers a proving run of the program `program_id` to which
/// the backend answered `outcome`: the proof as it came, or a server error
/// that quotes the backend.
pub open spec fn prove_reply<P>(
    program_id: ProgramID,
    outcome: Result<P, String>,
    r: Result<ProveResponse<P>, (StatusCode, String)>,
) -> bool {
    match outcome {
        Ok(proof) => r is Ok && r->Ok_0.program_id == program_id && r->Ok_0.proof == proof,
        Err(reason) => r is Err && is_backend_failure(
            r->Err_0,
            "Failed to prove program: "@,
            reason@,
        ),
    }
}

/// Whether `r` answers the request `req` against the registry `programs`,
/// with `run` standing for the backend's prover: not found if the identity
/// is not registered; else the backend registered under it is run once on
/// the request's input, and its answer decides.
pub open spec fn prove_outcome<V, P, F: FnOnce(&V, ProgramInput) -> Result<P, String>>(
    programs: Map<Seq<char>, ProgramInstance<V>>,
    req: ProveRequest,
    run: F,
    r: Result<ProveResponse<P>, (StatusCode, String)>,
) -> bool {
    if programs.contains_key(req.program_id@) {
        exists|outcome: Result<P, String>|
            {
                &&& #[trigger] run.ensures(
                    (&programs[req.program_id@].zkvm_instance.vm, req.input),
                    outcome,
                )
                &&& prove_reply(req.program_id, outcome, r)
            }
    } else {
        r is Err && is_not_found(r->Err_0)
    }
}

/// Turns the backend's answer to a proving run into the response.
pub fn prove_response<P>(program_id: ProgramID, outcome: Result<P, String>) -> (r: Result<
    ProveResponse<P>,
    (StatusCode, String),
>)
    ensures
        prove_reply(program_id, outcome, r),
{
    match outcome {
        Ok(proof) => Ok(ProveResponse { program_id, proof }),
        Err(reason) => Err(
            (StatusCode::InternalServerError, concat("Failed to prove program: ", reason.as_str())),
        ),
    }
}

/// Handles a prove request: looks the program up and has `run` prove its
/// execution on the request's input.
pub fn prove_program<V, P, F>(state: &AppState<V>, req: ProveRequest, run: F) -> (r: Result<
    ProveResponse<P>,
    (StatusCode, String),
>) where F: FnOnce(&V, ProgramInput) -> Result<P, String>
    requires
        state@.contains_key(req.program_id@) ==> run.requires(
            (&state@[req.program_id@].zkvm_instance.vm, req.input),
        ),
    ensures
        prove_outcome(state@, req, run, r),
{
    match find_program(state, &req.program_id) {
        Err(error) => Err(error),
        Ok(program) => {
            let outcome = run(&program.zkvm_instance.vm, req.input);
            prove_response(req.program_id, outcome)
        },
    }
}

} // verus!
