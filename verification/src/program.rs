//! Program instances: what the registry holds for each program.

use crate::common::{
    parse_vendor_spec, program_id_spec, zkVMInstance, zkVMVendor, ProgramError, ProgramID,
};
use crate::text::concat;
use vstd::prelude::*;

verus! {

/// The input of an execution or a proof: the bytes handed to the program.
#[derive(Debug, Clone)]
pub struct ProgramInput {
    pub input: Vec<u8>,
}

/// A registered program: its display name, its identity and its backend.
#[derive(Debug)]
pub struct ProgramInstance<V> {
    pub name: String,
    pub program_id: ProgramID,
    pub zkvm_instance: zkVMInstance<V>,
}

/// What is reported of a registered program: its name, its identity and the
/// vendor of its backend.
#[derive(Debug, Clone)]
pub struct ProgramInstanceResponse {
    pub name: String,
    pub program_id: ProgramID,
    pub zkvm_instance: zkVMVendor,
}

impl<V> vstd::std_specs::convert::FromSpecImpl<&ProgramInstance<V>> for ProgramInstanceResponse {
    open spec fn obeys_from_spec() -> bool {
        true
    }

    open spec fn from_spec(value: &ProgramInstance<V>) -> Self {
        ProgramInstanceResponse {
            name: value.name,
            program_id: value.program_id,
            zkvm_instance: value.zkvm_instance.vendor,
        }
    }
}

impl<V> From<&ProgramInstance<V>> for ProgramInstanceResponse {
    fn from(value: &ProgramInstance<V>) -> (response: Self) {
        ProgramInstanceResponse {
            name: value.name.clone(),
            program_id: ProgramID(value.program_id.0.clone()),
            zkvm_instance: value.zkvm_instance.vendor,
        }
    }
}

/// The message of the error for a vendor name that did not parse, where
/// `reason` is the parser's own message.
pub open spec fn vendor_parse_failure(reason: Seq<char>) -> Seq<char> {
    "Failed to parse zkVM vendor name: "@ + reason
}

/// Whether `r` is what comes of a program called `name`, configured for
/// `vendor_name`, once the backend of `vendor` has answered with `built`:
/// on compiled bytes and a runtime, the instance that holds them under the
/// identity of those bytes; on a failure, the backend's message.
pub open spec fn instance_of_build<V>(
    name: String,
    vendor_name: Seq<char>,
    vendor: zkVMVendor,
    built: Result<(Vec<u8>, V), String>,
    r: Result<ProgramInstance<V>, ProgramError>,
) -> bool {
    match built {
        Ok((elf, vm)) => {
            &&& r is Ok
            &&& r->Ok_0.name == name
            &&& r->Ok_0.program_id@ == program_id_spec(vendor_name, elf@)
            &&& r->Ok_0.zkvm_instance.vendor == vendor
            &&& r->Ok_0.zkvm_instance.vm == vm
        },
        Err(reason) => r == Err::<ProgramInstance<V>, ProgramError>(ProgramError::Backend(reason)),
    }
}

/// Whether `r` is what making a program ready returns, where `build` stands
/// for the backend: an unsupported vendor name is refused before the backend
/// is asked; otherwise the backend is asked once, for the parsed vendor and
/// the configured path, and its answer decides.
pub open spec fn instance_outcome<V, F: FnOnce(zkVMVendor, String) -> Result<(Vec<u8>, V), String>>(
    name: String,
    program_path: String,
    zkvm_vendor_name: String,
    build: F,
    r: Result<ProgramInstance<V>, ProgramError>,
) -> bool {
    match parse_vendor_spec(zkvm_vendor_name@) {
        Err(reason) => {
            &&& r matches Err(ProgramError::UnsupportedVendor(message))
            &&& message@ == vendor_parse_failure(reason)
        },
        Ok(vendor) => exists|built: Result<(Vec<u8>, V), String>|
            {
                &&& #[trigger] build.ensures((vendor, program_path), built)
                &&& instance_of_build(name, zkvm_vendor_name@, vendor, built, r)
            },
    }
}

impl<V> ProgramInstance<V> {
    /// Assembles the instance from what the backend answered: the compiled
    /// program's bytes and its runtime, or why there is none.
    pub fn from_build(
        name: String,
        zkvm_vendor_name: String,
        vendor: zkVMVendor,
        built: Result<(Vec<u8>, V), String>,
    ) -> (r: Result<Self, ProgramError>)
        ensures
            instance_of_build(name, zkvm_vendor_name@, vendor, built, r),
    {
        match built {
            Ok((elf, vm)) => {
                let zkvm_instance = zkVMInstance::new(vendor, vm);
                match ProgramID::new(zkvm_vendor_name, elf) {
                    Ok(program_id) => Ok(ProgramInstance { name, program_id, zkvm_instance }),
                    Err(e) => Err(e),
                }
            },
            Err(reason) => Err(ProgramError::Backend(reason)),
        }
    }

    /// Makes a configured program ready: parses the vendor name, has `build`
    /// compile the program at `program_path` and bring up its runtime, and
    /// derives the identity from the vendor name as configured and the
    /// compiled bytes.
    pub fn new<F>(name: String, program_path: String, zkvm_vendor_name: String, build: F) -> (r:
        Result<Self, ProgramError>) where F: FnOnce(zkVMVendor, String) -> Result<(Vec<u8>, V), String>
        requires
            forall|vendor: zkVMVendor| build.requires((vendor, program_path)),
        ensures
            instance_outcome(name, program_path, zkvm_vendor_name, build, r),
    {
        match zkVMVendor::from_str(zkvm_vendor_name.as_str()) {
            Err(reason) => {
                let message = concat("Failed to parse zkVM vendor name: ", reason.as_str());
                Err(ProgramError::UnsupportedVendor(message))
            },
            Ok(vendor) => {
                let built = build(vendor, program_path);
                ProgramInstance::from_build(name, zkvm_vendor_name, vendor, built)
            },
        }
    }
}

} // verus!
