//! The handlers of the server's routes: look the program up, have the
//! backend work, and turn what it answered into a response.

pub mod execute;
pub mod info;
pub mod prove;
pub mod verify;

use crate::app_state::AppState;
use crate::common::ProgramID;
use crate::handlers::execute::execute_outcome;
use crate::handlers::prove::prove_outcome;
use crate::handlers::verify::verify_outcome;
use crate::primitives::execute::{ExecuteRequest, ExecuteResponse, ExecutionReport};
use crate::primitives::prove::{ProveRequest, ProveResponse};
use crate::primitives::verify::{VerifyRequest, VerifyResponse};
use crate::program::{ProgramInput, ProgramInstance};
use vstd::prelude::*;

verus! {

/// The largest request body the server takes, in bytes: room for a proof
/// or an input of some hundred megabytes.
pub const MAX_BODY_BYTES: usize = 400 * 1024 * 1024;

/// The HTTP statuses with which a handler reports a failure.
#[derive(Debug, Clone, Copy, PartialEq, Eq, Structural)]
pub enum StatusCode {
    /// 404: no program is registered under the identity.
    NotFound,
    /// 500: the backend failed.
    InternalServerError,
}

impl StatusCode {
    /// The status as a number.
    pub open spec fn spec_as_u16(self) -> u16 {
        match self {
            StatusCode::NotFound => 404,
            StatusCode::InternalServerError => 500,
        }
    }

    /// The status as a number.
    #[verifier::when_used_as_spec(spec_as_u16)]
    pub fn as_u16(self) -> (code: u16)
        ensures
            code == self.spec_as_u16(),
    {
        match self {
            StatusCode::NotFound => 404,
            StatusCode::InternalServerError => 500,
        }
    }
}

/// Whether `error` is the answer to a request for a program that is not
/// registered: status 404 with the message "Program not found".
pub open spec fn is_not_found(error: (StatusCode, String)) -> bool {
    error.0 == StatusCode::NotFound && error.1@ == "Program not found"@
}

/// Whether `error` is the answer to a request on which the backend failed
/// with `reason`: status 500 with `prefix` before the backend's message.
pub open spec fn is_backend_failure(
    error: (StatusCode, String),
    prefix: Seq<char>,
    reason: Seq<char>,
) -> bool {
    error.0 == StatusCode::InternalServerError && error.1@ == prefix + reason
}

/// The program that a request names, or the not-found answer.
pub fn find_program<'a, V>(state: &'a AppState<V>, program_id: &ProgramID) -> (r: Result<
    &'a ProgramInstance<V>,
    (StatusCode, String),
>)
    ensures
        match r {
            Ok(program) => {
                &&& state@.contains_key(program_id@)
                &&& *program == state@[program_id@]
                &&& program.program_id@ == program_id@
            },
            Err(error) => !state@.contains_key(program_id@) && is_not_found(error),
        },
{
    match state.lookup(program_id) {
        Some(program) => Ok(program),
        None => Err((StatusCode::NotFound, "Program not found".to_owned())),
    }
}

/// A request that names an identity under which nothing is registered is
/// answered alike on every route: with status 404 and the message "Program
/// not found", whatever the backend would have done.
pub proof fn lemma_unregistered_is_not_found<
    V,
    P,
    FE: FnOnce(&V, ProgramInput) -> Result<(Vec<u8>, ExecutionReport), String>,
    FP: FnOnce(&V, ProgramInput) -> Result<P, String>,
    FV: FnOnce(&V, &P) -> Result<Vec<u8>, String>,
>(
    programs: Map<Seq<char>, ProgramInstance<V>>,
    execute_req: ExecuteRequest,
    execute_run: FE,
    executed: Result<ExecuteResponse, (StatusCode, String)>,
    prove_req: ProveRequest,
    prove_run: FP,
    proved: Result<ProveResponse<P>, (StatusCode, String)>,
    verify_req: VerifyRequest<P>,
    verify_run: FV,
    verified: Result<VerifyResponse, (StatusCode, String)>,
)
    requires
        !programs.contains_key(execute_req.program_id@),
        !programs.contains_key(prove_req.program_id@),
        !programs.contains_key(verify_req.program_id@),
        execute_outcome(programs, execute_req, execute_run, executed),
        prove_outcome(programs, prove_req, prove_run, proved),
        verify_outcome(programs, verify_req, verify_run, verified),
    ensures
        executed is Err && is_not_found(executed->Err_0) && executed->Err_0.0.as_u16() == 404,
        proved is Err && is_not_found(proved->Err_0) && proved->Err_0.0.as_u16() == 404,
        verified is Err && is_not_found(verified->Err_0) && verified->Err_0.0.as_u16() == 404,
{
}

} // verus!
