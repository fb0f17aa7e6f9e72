use poost::common::{zkVMInstance, zkVMVendor, ProgramError, ProgramID};
use sha2::{Digest, Sha256};

fn id_of(vendor: &str, bytes: &[u8]) -> ProgramID {
    ProgramID::new(vendor.to_string(), bytes.to_vec()).unwrap()
}

#[test]
fn test_zkvm_type_parsing() {
    // Test all variants in enum definition order
    assert_eq!(
        "airbender".parse::<zkVMVendor>().unwrap(),
        zkVMVendor::Airbender
    );
    assert_eq!("jolt".parse::<zkVMVendor>().unwrap(), zkVMVendor::Jolt);
    assert_eq!("miden".parse::<zkVMVendor>().unwrap(), zkVMVendor::Miden);
    assert_eq!("nexus".parse::<zkVMVendor>().unwrap(), zkVMVendor::Nexus);
    assert_eq!("openvm".parse::<zkVMVendor>().unwrap(), zkVMVendor::Openvm);
    assert_eq!("pico".parse::<zkVMVendor>().unwrap(), zkVMVendor::Pico);
    assert_eq!("risc0".parse::<zkVMVendor>().unwrap(), zkVMVendor::Risc0);
    assert_eq!("sp1".parse::<zkVMVendor>().unwrap(), zkVMVendor::SP1);
    assert_eq!("ziren".parse::<zkVMVendor>().unwrap(), zkVMVendor::Ziren);
    assert_eq!("zisk".parse::<zkVMVendor>().unwrap(), zkVMVendor::Zisk);

    // Test case insensitivity
    assert_eq!("RISC0".parse::<zkVMVendor>().unwrap(), zkVMVendor::Risc0);
    assert_eq!("SP1".parse::<zkVMVendor>().unwrap(), zkVMVendor::SP1);
    assert_eq!(
        "Airbender".parse::<zkVMVendor>().unwrap(),
        zkVMVendor::Airbender
    );

    // Test invalid inputs
    assert!("invalid".parse::<zkVMVendor>().is_err());
    assert!("".parse::<zkVMVendor>().is_err());
}

#[test]
fn vendor_from_str_matches_parse() {
    assert_eq!(zkVMVendor::from_str("OpenVM"), Ok(zkVMVendor::Openvm));
    assert_eq!(zkVMVendor::from_str("zIsK"), Ok(zkVMVendor::Zisk));
    assert_eq!("PICO".parse::<zkVMVendor>(), zkVMVendor::from_str("PICO"));
}

#[test]
fn vendor_parsing_lowers_beyond_ascii() {
    // U+212A KELVIN SIGN has the lower-case form `k`.
    assert_eq!(zkVMVendor::from_str("ZIS\u{212A}"), Ok(zkVMVendor::Zisk));
}

#[test]
fn vendor_parsing_rejects_near_misses() {
    assert!(zkVMVendor::from_str("risc").is_err());
    assert!(zkVMVendor::from_str("risc00").is_err());
    assert!(zkVMVendor::from_str(" risc0").is_err());
    assert!(zkVMVendor::from_str("sp2").is_err());
    assert!(zkVMVendor::from_str("risc0\n").is_err());
}

#[test]
fn unsupported_vendor_message_quotes_the_name_as_given() {
    assert_eq!(
        zkVMVendor::from_str("invalid"),
        Err("Unsupported zkVM type: invalid. Supported types are: risc0, sp1".to_string())
    );
    assert_eq!(
        zkVMVendor::from_str("CairoVM"),
        Err("Unsupported zkVM type: CairoVM. Supported types are: risc0, sp1".to_string())
    );
    assert_eq!(
        zkVMVendor::from_str(""),
        Err("Unsupported zkVM type: . Supported types are: risc0, sp1".to_string())
    );
}

#[test]
fn from_lowercase_is_exact() {
    assert_eq!(zkVMVendor::from_lowercase("risc0"), Some(zkVMVendor::Risc0));
    assert_eq!(zkVMVendor::from_lowercase("sp1"), Some(zkVMVendor::SP1));
    assert_eq!(zkVMVendor::from_lowercase("RISC0"), None);
    assert_eq!(zkVMVendor::from_lowercase("Sp1"), None);
    assert_eq!(zkVMVendor::from_lowercase(""), None);
}

#[test]
fn vendor_names_are_lower_case_and_parse_back() {
    let all = [
        (zkVMVendor::Airbender, "airbender"),
        (zkVMVendor::Jolt, "jolt"),
        (zkVMVendor::Miden, "miden"),
        (zkVMVendor::Nexus, "nexus"),
        (zkVMVendor::Openvm, "openvm"),
        (zkVMVendor::Pico, "pico"),
        (zkVMVendor::Risc0, "risc0"),
        (zkVMVendor::SP1, "sp1"),
        (zkVMVendor::Ziren, "ziren"),
        (zkVMVendor::Zisk, "zisk"),
    ];
    for (vendor, name) in all {
        assert_eq!(vendor.name(), name);
        assert_eq!(vendor.to_string(), name.to_string());
        assert_eq!(zkVMVendor::from_lowercase(name), Some(vendor));
        assert_eq!(zkVMVendor::from_str(&name.to_uppercase()), Ok(vendor));
    }
}

#[test]
fn program_id_of_risc0_prog() {
    let id = id_of("risc0", b"PROG");
    assert_eq!(
        id.0,
        "d4861e758051866e889514c4bdba82135ed8e77617a5f834560a55168aa23f8b"
    );
    let mut hasher = Sha256::new();
    hasher.update(b"risc0");
    hasher.update(b"PROG");
    assert_eq!(id.0, hex::encode(hasher.finalize()));
    assert_eq!(id.0, hex::encode(Sha256::digest(b"risc0PROG")));
}

#[test]
fn program_id_known_digests() {
    // SHA-256 of "abc" and of the empty string.
    assert_eq!(
        id_of("abc", b"").0,
        "ba7816bf8f01cfea414140de5dae2223b00361a396177a9cb410ff61f20015ad"
    );
    assert_eq!(
        id_of("", b"").0,
        "e3b0c44298fc1c149afbf4c8996fb92427ae41e4649b934ca495991b7852b855"
    );
}

#[test]
fn program_id_hashes_vendor_name_as_utf8() {
    assert_eq!(
        id_of("zkvm-\u{e9}", &[0x00, 0xff]).0,
        "df9a83c15df29e90cca2cd3af9f29751f939b9920ebdd28e25ad380a534808bf"
    );
}

#[test]
fn program_id_is_deterministic() {
    let a = id_of("risc0", b"PROG");
    let b = id_of("risc0", b"PROG");
    assert_eq!(a, b);
    assert_eq!(a.0, b.0);
}

#[test]
fn program_id_changes_with_vendor_or_bytes() {
    let base = id_of("risc0", b"PROG");
    let other_vendor = id_of("sp1", b"PROG");
    let other_bytes = id_of("risc0", b"PROH");
    assert_ne!(base, other_vendor);
    assert_ne!(base, other_bytes);
    assert_eq!(
        other_vendor.0,
        "4d0a60e3fe43c4016654e09cf9053c52864f519b35678dff7f6d057d02b443cf"
    );
    assert_eq!(
        other_bytes.0,
        "79a81e0b6041dc73a05323cb717ddbf15170380c3d89c1f678126b6a6f583546"
    );
}

#[test]
fn program_id_keeps_the_case_of_the_vendor_name() {
    assert_eq!(
        id_of("RISC0", b"PROG").0,
        "c37581e8ea7d2bb6aa3206419013f6383f3540d5caf3e0fb8584c8023a401a12"
    );
    assert_ne!(id_of("RISC0", b"PROG"), id_of("risc0", b"PROG"));
}

#[test]
fn program_id_depends_on_the_concatenation_alone() {
    assert_eq!(id_of("a", b"bc"), id_of("ab", b"c"));
    assert_eq!(id_of("a", b"bc"), id_of("abc", b""));
}

#[test]
fn program_id_is_64_lower_case_hex_digits() {
    for (vendor, bytes) in [("risc0", &b"PROG"[..]), ("", &b""[..]), ("zisk", &[0u8; 1000][..])] {
        let id = id_of(vendor, bytes);
        assert_eq!(id.0.len(), 64);
        assert!(id
            .0
            .chars()
            .all(|c| c.is_ascii_digit() || ('a'..='f').contains(&c)));
    }
}

#[test]
fn program_id_never_fails() {
    assert!(ProgramID::new(String::new(), Vec::new()).is_ok());
    assert!(ProgramID::new("not a vendor".to_string(), vec![1, 2, 3]).is_ok());
}

#[test]
fn program_id_equality_is_by_text() {
    let a = ProgramID("abc".to_string());
    let b = ProgramID("abc".to_string());
    let c = ProgramID("abd".to_string());
    assert!(a == b);
    assert!(a != c);
    assert_eq!(a.clone(), a);
}

#[test]
fn zkvm_instance_holds_vendor_and_backend() {
    let instance = zkVMInstance::new(zkVMVendor::Jolt, 17u32);
    assert_eq!(instance.vendor, zkVMVendor::Jolt);
    assert_eq!(instance.vm, 17);
    let copy = instance.clone();
    assert_eq!(copy.vendor, zkVMVendor::Jolt);
    assert_eq!(copy.vm, 17);
}

#[test]
fn program_error_message() {
    let a = ProgramError::UnsupportedVendor("no such vendor".to_string());
    let b = ProgramError::Backend("compiler missing".to_string());
    assert_eq!(a.to_string(), "no such vendor");
    assert_eq!(b.to_string(), "compiler missing");
}
