//! Program identities, backend vendors and backend handles.

use crate::hashing::{
    hex_alphabet, hex_encode, hex_lower, lemma_hex_lower_injective, lemma_hex_lower_shape, sha256,
    sha256_digest,
};
use crate::text::{concat, lowercase, str_eq, to_lowercase};
use vstd::prelude::*;
use vstd::string::*;
use vstd::utf8::*;

verus! {

/// Content-addressed identity of a compiled program: 64 lower-case
/// hexadecimal digits.
#[derive(Debug, Clone, Hash)]
pub struct ProgramID(pub String);

impl View for ProgramID {
    type V = Seq<char>;

    open spec fn view(&self) -> Seq<char> {
        self.0@
    }
}

impl PartialEq for ProgramID {
    fn eq(&self, other: &Self) -> (same: bool) {
        self.0 == other.0
    }
}

impl Eq for ProgramID {}

impl vstd::std_specs::cmp::PartialEqSpecImpl for ProgramID {
    open spec fn obeys_eq_spec() -> bool {
        true
    }

    open spec fn eq_spec(&self, other: &Self) -> bool {
        self.0@ == other.0@
    }
}

/// The identity of the program that `vendor_name` compiled to `elf`: the
/// SHA-256 digest of the vendor name's UTF-8 bytes followed by `elf`, in
/// hexadecimal.
pub open spec fn program_id_spec(vendor_name: Seq<char>, elf: Seq<u8>) -> Seq<char> {
    hex_lower(sha256_digest(encode_utf8(vendor_name) + elf))
}

/// The supported proving backends.
#[derive(Debug, Clone, Copy, PartialEq, Eq, Structural)]
#[allow(non_camel_case_types)]
pub enum zkVMVendor {
    Airbender,
    Jolt,
    Miden,
    Nexus,
    Openvm,
    Pico,
    Risc0,
    SP1,
    Ziren,
    Zisk,
}

/// The vendor whose lower-case name is `name`, if there is one.
pub open spec fn vendor_named(name: Seq<char>) -> Option<zkVMVendor> {
    if name == "airbender"@ {
        Some(zkVMVendor::Airbender)
    } else if name == "jolt"@ {
        Some(zkVMVendor::Jolt)
    } else if name == "miden"@ {
        Some(zkVMVendor::Miden)
    } else if name == "nexus"@ {
        Some(zkVMVendor::Nexus)
    } else if name == "openvm"@ {
        Some(zkVMVendor::Openvm)
    } else if name == "pico"@ {
        Some(zkVMVendor::Pico)
    } else if name == "risc0"@ {
        Some(zkVMVendor::Risc0)
    } else if name == "sp1"@ {
        Some(zkVMVendor::SP1)
    } else if name == "ziren"@ {
        Some(zkVMVendor::Ziren)
    } else if name == "zisk"@ {
        Some(zkVMVendor::Zisk)
    } else {
        None
    }
}

/// The message for a vendor name that is not supported. It quotes the name
/// as it was given, not its lower-case form.
pub open spec fn unsupported_vendor_message(given: Seq<char>) -> Seq<char> {
    "Unsupported zkVM type: "@ + given + ". Supported types are: risc0, sp1"@
}

/// What parsing `given` as a vendor name returns: the vendor named by the
/// lower-case form of `given`, or the message for an unsupported name.
pub open spec fn parse_vendor_spec(given: Seq<char>) -> Result<zkVMVendor, Seq<char>> {
    match vendor_named(lowercase(given)) {
        Some(vendor) => Ok(vendor),
        None => Err(unsupported_vendor_message(given)),
    }
}

impl zkVMVendor {
    /// The vendor's name: lower case, as it is written in configuration
    /// and on the wire.
    pub open spec fn spec_name(self) -> Seq<char> {
        match self {
            zkVMVendor::Airbender => "airbender"@,
            zkVMVendor::Jolt => "jolt"@,
            zkVMVendor::Miden => "miden"@,
            zkVMVendor::Nexus => "nexus"@,
            zkVMVendor::Openvm => "openvm"@,
            zkVMVendor::Pico => "pico"@,
            zkVMVendor::Risc0 => "risc0"@,
            zkVMVendor::SP1 => "sp1"@,
            zkVMVendor::Ziren => "ziren"@,
            zkVMVendor::Zisk => "zisk"@,
        }
    }

    /// The vendor's name.
    pub fn name(&self) -> (name: &'static str)
        ensures
            name@ == self.spec_name(),
    {
        match self {
            zkVMVendor::Airbender => "airbender",
            zkVMVendor::Jolt => "jolt",
            zkVMVendor::Miden => "miden",
            zkVMVendor::Nexus => "nexus",
            zkVMVendor::Openvm => "openvm",
            zkVMVendor::Pico => "pico",
            zkVMVendor::Risc0 => "risc0",
            zkVMVendor::SP1 => "sp1",
            zkVMVendor::Ziren => "ziren",
            zkVMVendor::Zisk => "zisk",
        }
    }

    /// The vendor's name as an owned string.
    pub fn to_string(&self) -> (name: String)
        ensures
            name@ == self.spec_name(),
    {
        self.name().to_owned()
    }

    /// Looks a vendor up by its exact lower-case name.
    pub fn from_lowercase(name: &str) -> (found: Option<zkVMVendor>)
        ensures
            found == vendor_named(name@),
    {
        if str_eq(name, "airbender") {
            Some(zkVMVendor::Airbender)
        } else if str_eq(name, "jolt") {
            Some(zkVMVendor::Jolt)
        } else if str_eq(name, "miden") {
            Some(zkVMVendor::Miden)
        } else if str_eq(name, "nexus") {
            Some(zkVMVendor::Nexus)
        } else if str_eq(name, "openvm") {
            Some(zkVMVendor::Openvm)
        } else if str_eq(name, "pico") {
            Some(zkVMVendor::Pico)
        } else if str_eq(name, "risc0") {
            Some(zkVMVendor::Risc0)
        } else if str_eq(name, "sp1") {
            Some(zkVMVendor::SP1)
        } else if str_eq(name, "ziren") {
            Some(zkVMVendor::Ziren)
        } else if str_eq(name, "zisk") {
            Some(zkVMVendor::Zisk)
        } else {
            None
        }
    }

    /// Parses a vendor name without regard to case. Any other text is
    /// rejected with a message that quotes it.
    pub fn from_str(s: &str) -> (r: Result<zkVMVendor, String>)
        ensures
            match parse_vendor_spec(s@) {
                Ok(vendor) => r == Ok::<zkVMVendor, String>(vendor),
                Err(message) => r is Err && r->Err_0@ == message,
            },
    {
        let lower = to_lowercase(s);
        match zkVMVendor::from_lowercase(lower.as_str()) {
            Some(vendor) => Ok(vendor),
            None => {
                let mut message = concat("Unsupported zkVM type: ", s);
                message.append(". Supported types are: risc0, sp1");
                Err(message)
            },
        }
    }
}

impl std::str::FromStr for zkVMVendor {
    type Err = String;

    /// Parses a vendor name without regard to case, as the inherent
    /// `from_str` does.
    fn from_str(s: &str) -> (r: Result<Self, Self::Err>)
        ensures
            match parse_vendor_spec(s@) {
                Ok(vendor) => r == Ok::<zkVMVendor, String>(vendor),
                Err(message) => r is Err && r->Err_0@ == message,
            },
    {
        zkVMVendor::from_str(s)
    }
}

/// Every vendor is found under its own name, and under no other text.
pub proof fn lemma_vendor_named_iff(name: Seq<char>, vendor: zkVMVendor)
    ensures
        vendor_named(name) == Some(vendor) <==> name == vendor.spec_name(),
{
    reveal_strlit("airbender");
    reveal_strlit("jolt");
    reveal_strlit("miden");
    reveal_strlit("nexus");
    reveal_strlit("openvm");
    reveal_strlit("pico");
    reveal_strlit("risc0");
    reveal_strlit("sp1");
    reveal_strlit("ziren");
    reveal_strlit("zisk");
    if name == vendor.spec_name() {
        assert(name.len() == vendor.spec_name().len());
        assert(name[0] == vendor.spec_name()[0]);
    }
}

/// Equal vendor names and equal compiled bytes give equal identities.
pub proof fn lemma_program_id_deterministic(
    vendor_a: Seq<char>,
    elf_a: Seq<u8>,
    vendor_b: Seq<char>,
    elf_b: Seq<u8>,
)
    requires
        vendor_a == vendor_b,
        elf_a == elf_b,
    ensures
        program_id_spec(vendor_a, elf_a) == program_id_spec(vendor_b, elf_b),
{
}

/// Two identities are equal exactly when the digests under them are: the
/// hexadecimal text adds no collision of its own.
pub proof fn lemma_program_id_collision(
    vendor_a: Seq<char>,
    elf_a: Seq<u8>,
    vendor_b: Seq<char>,
    elf_b: Seq<u8>,
)
    ensures
        program_id_spec(vendor_a, elf_a) == program_id_spec(vendor_b, elf_b) <==> sha256_digest(
            encode_utf8(vendor_a) + elf_a,
        ) == sha256_digest(encode_utf8(vendor_b) + elf_b),
{
    if program_id_spec(vendor_a, elf_a) == program_id_spec(vendor_b, elf_b) {
        lemma_hex_lower_injective(
            sha256_digest(encode_utf8(vendor_a) + elf_a),
            sha256_digest(encode_utf8(vendor_b) + elf_b),
        );
    }
}

/// The identity depends on the vendor name's bytes followed by the compiled
/// bytes, and on nothing else: where a name and program run together into
/// the same bytes as another name and program, the identities are equal.
pub proof fn lemma_program_id_of_concatenation(
    vendor_a: Seq<char>,
    elf_a: Seq<u8>,
    vendor_b: Seq<char>,
    elf_b: Seq<u8>,
)
    requires
        encode_utf8(vendor_a) + elf_a == encode_utf8(vendor_b) + elf_b,
    ensures
        program_id_spec(vendor_a, elf_a) == program_id_spec(vendor_b, elf_b),
{
}

/// Why a program could not be made ready at start-up.
#[derive(Debug, Clone)]
pub enum ProgramError {
    /// The configured vendor name is not one of the supported backends. Holds
    /// the full message.
    UnsupportedVendor(String),
    /// The backend could not compile the program or bring up its runtime.
    /// Holds the backend's own message.
    Backend(String),
}

/// A backend handle: the vendor it belongs to and the object that runs,
/// proves and verifies. The crate never looks inside `vm`; it hands it to
/// the closures that make the backend calls.
#[derive(Debug, Clone)]
#[allow(non_camel_case_types)]
pub struct zkVMInstance<V> {
    pub vendor: zkVMVendor,
    pub vm: V,
}

impl<V> zkVMInstance<V> {
    pub fn new(vendor: zkVMVendor, vm: V) -> (instance: Self)
        ensures
            instance.vendor == vendor,
            instance.vm == vm,
    {
        Self { vendor, vm }
    }
}

impl ProgramError {
    /// The error's message.
    pub open spec fn spec_message(self) -> Seq<char> {
        match self {
            ProgramError::UnsupportedVendor(message) => message@,
            ProgramError::Backend(message) => message@,
        }
    }

    /// The error's message.
    pub fn to_string(&self) -> (message: String)
        ensures
            message@ == self.spec_message(),
    {
        match self {
            ProgramError::UnsupportedVendor(message) => message.clone(),
            ProgramError::Backend(message) => message.clone(),
        }
    }
}

impl ProgramID {
    /// Derives the identity of a compiled program from the vendor name as
    /// configured and the compiled bytes. Never fails.
    pub fn new(zkvm_vendor_name: String, elf_bytes: Vec<u8>) -> (r: Result<Self, ProgramError>)
        ensures
            r is Ok,
            r->Ok_0@ == program_id_spec(zkvm_vendor_name@, elf_bytes@),
            r->Ok_0@.len() == 64,
            forall|i: int| 0 <= i < 64 ==> hex_alphabet().contains(#[trigger] r->Ok_0@[i]),
    {
        let mut data = zkvm_vendor_name.as_str().as_bytes_vec();
        data.extend_from_slice(elf_bytes.as_slice());
        assert(data@ =~= encode_utf8(zkvm_vendor_name@) + elf_bytes@);
        let digest = sha256(data.as_slice());
        let hash_hex = hex_encode(digest.as_slice());
        proof {
            lemma_hex_lower_shape(digest@);
        }
        Ok(ProgramID(hash_hex))
    }
}

} // verus!
