//! The verify route.

use crate::app_state::AppState;
use crate::common::ProgramID;
use crate::handlers::{find_program, is_not_found, StatusCode};
use crate::primitives::verify::{VerifyRequest, VerifyResponse};
use crate::program::ProgramInstance;
use vstd::prelude::*;

verus! {

/// Whether `response` reports a check of a proof for the program
/// `program_id` to which the backend answered `outcome`. A proof that the
/// backend accepts is verified, with the public values the backend read
/// from it and no reason; one that it refuses is not verified, with the
/// backend's message as the reason and no public values.
pub open spec fn verify_reply(
    program_id: ProgramID,
    outcome: Result<Vec<u8>, String>,
    response: VerifyResponse,
) -> bool {
    &&& response.program_id == program_id
    &&& match outcome {
        Ok(public_values) => {
            &&& response.verified
            &&& response.public_values == public_values
            &&& response.failure_reason@ == Seq::<char>::empty()
        },
        Err(reason) => {
            &&& !response.verified
            &&& response.public_values@ == Seq::<u8>::empty()
            &&& response.failure_reason == reason
        },
    }
}

/// Whether `r` answers the request `req` against the registry `programs`,
/// with `run` standing for the backend's verifier: not found if the
/// identity is not registered; else the backend registered under it checks
/// the request's proof once, and the response reports what it answered.
/// A refused proof is a response, not an error.
pub open spec fn verify_outcome<V, P, F: FnOnce(&V, &P) -> Result<Vec<u8>, String>>(
    programs: Map<Seq<char>, ProgramInstance<V>>,
    req: VerifyRequest<P>,
    run: F,
    r: Result<VerifyResponse, (StatusCode, String)>,
) -> bool {
    if programs.contains_key(req.program_id@) {
        exists|outcome: Result<Vec<u8>, String>|
            {
                &&& #[trigger] run.ensures(
                    (&programs[req.program_id@].zkvm_instance.vm, &req.proof),
                    outcome,
                )
                &&& r is Ok
                &&& verify_reply(req.program_id, outcome, r->Ok_0)
            }
    } else {
        r is Err && is_not_found(r->Err_0)
    }
}

/// Turns the backend's answer to a proof check into the response.
pub fn verify_response(program_id: ProgramID, outcome: Result<Vec<u8>, String>) -> (response:
    VerifyResponse)
    ensures
        verify_reply(program_id, outcome, response),
{
    match outcome {
        Ok(public_values) => VerifyResponse {
            program_id,
            verified: true,
            public_values,
            failure_reason: String::new(),
        },
        Err(reason) => VerifyResponse {
            program_id,
            verified: false,
            public_values: Vec::new(),
            failure_reason: reason,
        },
    }
}

/// Handles a verify request: looks the program up and has `run` check the
/// request's proof.
pub fn verify_proof<V, P, F>(state: &AppState<V>, req: VerifyRequest<P>, run: F) -> (r: Result<
    VerifyResponse,
    (StatusCode, String),
>) where F: FnOnce(&V, &P) -> Result<Vec<u8>, String>
    requires
        state@.contains_key(req.program_id@) ==> run.requires(
            (&state@[req.program_id@].zkvm_instance.vm, &req.proof),
        ),
    ensures
        verify_outcome(state@, req, run, r),
{
    match find_program(state, &req.program_id) {
        Err(error) => Err(error),
        Ok(program) => {
            let outcome = run(&program.zkvm_instance.vm, &req.proof);
            Ok(verify_response(req.program_id, outcome))
        },
    }
}

} // verus!
