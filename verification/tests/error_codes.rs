use spoovault_stellar::MockAaError;

#[test]
fn bad_signature_has_contract_error_code_one() {
    assert_eq!(MockAaError::BadSignature.code(), 1);
}

#[test]
fn code_one_decodes_to_bad_signature() {
    assert_eq!(MockAaError::from_code(1), Some(MockAaError::BadSignature));
}

#[test]
fn codes_of_no_error_decode_to_none() {
    assert_eq!(MockAaError::from_code(0), None);
    assert_eq!(MockAaError::from_code(2), None);
    assert_eq!(MockAaError::from_code(u32::MAX), None);
}

#[test]
fn error_code_round_trips() {
    let e = MockAaError::BadSignature;
    assert_eq!(MockAaError::from_code(e.code()), Some(e));
}

#[test]
fn error_code_matches_soroban_contract_error() {
    let sdk_error = soroban_sdk::Error::from_contract_error(MockAaError::BadSignature.code());
    assert_eq!(sdk_error, soroban_sdk::Error::from_contract_error(1));
}
