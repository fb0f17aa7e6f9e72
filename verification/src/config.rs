//! Start-up configuration.

use vstd::prelude::*;

verus! {

/// What the server is started with: where to listen and which programs to
/// make ready, in order.
#[derive(Debug)]
pub struct PoostConfig {
    pub server_url: String,
    pub program_instances: Vec<ProgramInstanceParams>,
}

/// One configured program: its display name, the vendor name of its backend
/// and where its source lies.
#[derive(Debug)]
pub struct ProgramInstanceParams {
    pub name: String,
    pub zkvm_name: String,
    pub program_path: String,
}

} // verus!
