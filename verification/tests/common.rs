use poost::common::{vendor_from_lowercase, zkVMVendor, Operation, ProgramID};

#[test]
fn test_zkvm_type_parsing() {
    assert_eq!("risc0".parse::<zkVMVendor>().unwrap(), zkVMVendor::Risc0);
    assert_eq!("sp1".parse::<zkVMVendor>().unwrap(), zkVMVendor::SP1);
    assert!("invalid".parse::<zkVMVendor>().is_err());
    assert!("".parse::<zkVMVendor>().is_err());
}

#[test]
fn parsing_ignores_case() {
    assert_eq!("SP1".parse::<zkVMVendor>().unwrap(), zkVMVendor::SP1);
    assert_eq!("Risc0".parse::<zkVMVendor>().unwrap(), zkVMVendor::Risc0);
    assert_eq!(zkVMVendor::parse("RISC0"), Ok(zkVMVendor::Risc0));
    assert_eq!(zkVMVendor::parse("sP1"), Ok(zkVMVendor::SP1));
}

#[test]
fn parsing_rejects_near_misses() {
    assert!(zkVMVendor::parse(" sp1").is_err());
    assert!(zkVMVendor::parse("sp1 ").is_err());
    assert!(zkVMVendor::parse("sp").is_err());
    assert!(zkVMVendor::parse("risc").is_err());
    assert!(zkVMVendor::parse("risc00").is_err());
}

#[test]
fn parsing_error_quotes_the_name_as_given() {
    assert_eq!(
        zkVMVendor::parse("Jolt"),
        Err("Unsupported zkVM type: Jolt. Supported types are: risc0, sp1".to_string())
    );
    assert_eq!(
        "".parse::<zkVMVendor>(),
        Err("Unsupported zkVM type: . Supported types are: risc0, sp1".to_string())
    );
}

#[test]
fn vendor_from_lowercase_compares_exactly() {
    assert_eq!(vendor_from_lowercase("sp1", "SP1"), Ok(zkVMVendor::SP1));
    assert_eq!(vendor_from_lowercase("risc0", "whatever"), Ok(zkVMVendor::Risc0));
    assert_eq!(
        vendor_from_lowercase("SP1", "SP1"),
        Err("Unsupported zkVM type: SP1. Supported types are: risc0, sp1".to_string())
    );
    assert_eq!(
        vendor_from_lowercase("jolt", "JOLT"),
        Err("Unsupported zkVM type: JOLT. Supported types are: risc0, sp1".to_string())
    );
}

#[test]
fn vendor_names() {
    assert_eq!(zkVMVendor::Risc0.to_string(), "risc0");
    assert_eq!(zkVMVendor::SP1.to_string(), "sp1");
}

#[test]
fn vendor_names_parse_back() {
    for vendor in [zkVMVendor::Risc0, zkVMVendor::SP1] {
        assert_eq!(zkVMVendor::parse(&vendor.to_string()), Ok(vendor));
    }
}

#[test]
fn operation_names() {
    assert_eq!(Operation::Execute.to_string(), "execute");
    assert_eq!(Operation::Prove.to_string(), "prove");
    assert_eq!(Operation::Verify.to_string(), "verify");
}

#[test]
fn only_sp1_has_an_engine() {
    for op in [Operation::Execute, Operation::Prove, Operation::Verify] {
        assert!(zkVMVendor::SP1.is_supported(op));
        assert!(!zkVMVendor::Risc0.is_supported(op));
    }
}

#[test]
fn program_id_of_a_vendor_is_its_name() {
    assert_eq!(ProgramID::from(zkVMVendor::SP1), ProgramID("sp1".to_string()));
    assert_eq!(ProgramID::from(zkVMVendor::Risc0), ProgramID("risc0".to_string()));
}

#[test]
fn program_ids_compare_by_text() {
    let a = ProgramID("p1".to_string());
    assert_eq!(a.clone(), a);
    assert_eq!(a, ProgramID("p1".to_string()));
    assert_ne!(a, ProgramID("p2".to_string()));
    assert_ne!(a, ProgramID("P1".to_string()));
    assert_ne!(a, ProgramID(String::new()));
}
