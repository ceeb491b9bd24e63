use poost::common::{zkVMVendor, AppState, ProgramID};
use poost::endpoints::prove::ProveRequest;
use poost::endpoints::verify::{verify_on, verify_response, VerifyRequest};
use poost::endpoints::{prove_program, verify_proof};
use poost::mock_zkvm::{bytes_equal, MockZkVM};
use poost::program::ProgramInput;
use poost::status::StatusCode;
use poost::zkvm::{Engine, EngineError, ExecutionReport, ProvingReport, Verdict};

#[test]
fn test_verify_proof_success() {
    let program_id = ProgramID::from(zkVMVendor::SP1);
    let mock_zkvm = MockZkVM::default();

    let mut state = AppState::new();
    state.register(program_id.clone(), zkVMVendor::SP1, mock_zkvm);

    let request = ProveRequest {
        program_id: program_id.clone(),
        input: ProgramInput { value1: 42, value2: 10 },
    };

    let result = prove_program(&state, request).unwrap();

    // Create a request
    let request = VerifyRequest { program_id: result.program_id.clone(), proof: result.proof.clone() };

    // Call the handler
    let response = verify_proof(&state, request).unwrap();

    // Verify the response
    assert_eq!(response.program_id, program_id);
    assert!(response.verified);
}

#[test]
fn test_verify_proof_invalid_proof() {
    let mut state = AppState::new();
    let program_id = ProgramID::from(zkVMVendor::SP1);

    let mock_zkvm = MockZkVM::default();
    state.register(program_id.clone(), zkVMVendor::SP1, mock_zkvm);

    let request = VerifyRequest { program_id: program_id.clone(), proof: b"invalid_proof".to_vec() };

    let result = verify_proof(&state, request);
    // The endpoint returns a result if the verification fails.
    // We need to check the proof response to know whether it failed
    // verification and for what reason.
    assert!(result.is_ok());
    assert!(!result.unwrap().verified);
}

#[test]
fn test_verify_proof_not_found() {
    let state: AppState<MockZkVM> = AppState::new();

    let request = VerifyRequest {
        program_id: ProgramID("non_existent".to_string()),
        proof: b"example_proof".to_vec(),
    };

    let result = verify_proof(&state, request);

    assert!(result.is_err());
    let (status, message) = result.unwrap_err();
    assert_eq!(status, StatusCode::NotFound);
    assert_eq!(message, "Program not found");
}

#[test]
fn accepted_proof_has_no_failure_reason() {
    let mut state = AppState::new();
    state.register(ProgramID("p1".to_string()), zkVMVendor::SP1, MockZkVM::default());

    let request =
        VerifyRequest { program_id: ProgramID("p1".to_string()), proof: b"mock_proof".to_vec() };
    let response = verify_proof(&state, request).unwrap();

    assert!(response.verified);
    assert_eq!(response.failure_reason, "");
}

#[test]
fn unrelated_bytes_are_rejected_with_a_reason() {
    let mut state = AppState::new();
    state.register(ProgramID("p1".to_string()), zkVMVendor::SP1, MockZkVM::default());

    for proof in [b"example_proof".to_vec(), Vec::new(), b"mock_proo".to_vec(), b"mock_proof ".to_vec()]
    {
        let request = VerifyRequest { program_id: ProgramID("p1".to_string()), proof };
        let response = verify_proof(&state, request).unwrap();
        assert!(!response.verified);
        assert_eq!(response.failure_reason, "invalid proof");
    }
}

#[test]
fn every_single_byte_change_of_the_proof_is_rejected() {
    let mut state = AppState::new();
    state.register(ProgramID("p1".to_string()), zkVMVendor::SP1, MockZkVM::default());

    let valid = MockZkVM::proof_bytes();
    for position in 0..valid.len() {
        for bit in 0..8 {
            let mut tampered = valid.clone();
            tampered[position] ^= 1 << bit;
            let request =
                VerifyRequest { program_id: ProgramID("p1".to_string()), proof: tampered };
            let response = verify_proof(&state, request).unwrap();
            assert!(!response.verified);
            assert!(!response.failure_reason.is_empty());
        }
    }
}

/// An engine whose verifier never reaches a verdict.
struct CrashingVerifier;

impl Engine for CrashingVerifier {
    fn execute(&self, inputs: &ProgramInput) -> Result<ExecutionReport, EngineError> {
        MockZkVM::default().execute(inputs)
    }

    fn prove(&self, inputs: &ProgramInput) -> Result<(Vec<u8>, ProvingReport), EngineError> {
        MockZkVM::default().prove(inputs)
    }

    fn verify(&self, _proof: &[u8]) -> Result<Verdict, EngineError> {
        Err(EngineError { message: "verifier crashed".to_string() })
    }
}

/// An engine that rejects every proof without giving a reason.
struct TerseVerifier;

impl Engine for TerseVerifier {
    fn execute(&self, inputs: &ProgramInput) -> Result<ExecutionReport, EngineError> {
        MockZkVM::default().execute(inputs)
    }

    fn prove(&self, inputs: &ProgramInput) -> Result<(Vec<u8>, ProvingReport), EngineError> {
        MockZkVM::default().prove(inputs)
    }

    fn verify(&self, _proof: &[u8]) -> Result<Verdict, EngineError> {
        Ok(Verdict::Rejected(String::new()))
    }
}

#[test]
fn crashed_verifier_is_an_internal_error_and_no_rejection() {
    let mut state = AppState::new();
    state.register(ProgramID("p1".to_string()), zkVMVendor::SP1, CrashingVerifier);

    for proof in [b"mock_proof".to_vec(), b"anything".to_vec(), Vec::new()] {
        let request = VerifyRequest { program_id: ProgramID("p1".to_string()), proof };
        let result = verify_proof(&state, request);
        assert!(result.is_err());
        let (status, message) = result.unwrap_err();
        assert_eq!(status, StatusCode::InternalServerError);
        assert_eq!(message, "Failed to verify proof: verifier crashed");
        assert!(status.is_server_fault());
    }
}

#[test]
fn rejection_without_reason_is_still_a_verdict() {
    let mut state = AppState::new();
    state.register(ProgramID("p1".to_string()), zkVMVendor::SP1, TerseVerifier);

    let request =
        VerifyRequest { program_id: ProgramID("p1".to_string()), proof: b"mock_proof".to_vec() };
    let response = verify_proof(&state, request).unwrap();
    assert!(!response.verified);
    assert_eq!(response.failure_reason, "");
}

#[test]
fn verify_on_a_vendor_without_engine_is_unsupported() {
    let mut state = AppState::new();
    state.register(ProgramID("r0".to_string()), zkVMVendor::Risc0, MockZkVM::default());

    let request =
        VerifyRequest { program_id: ProgramID("r0".to_string()), proof: b"mock_proof".to_vec() };
    let (status, message) = verify_proof(&state, request).unwrap_err();

    assert_eq!(status, StatusCode::UnsupportedOperation);
    assert_eq!(message, "Operation verify is not implemented for risc0");
}

#[test]
fn verify_on_works_after_the_lookup() {
    let mut state = AppState::new();
    state.register(ProgramID("p1".to_string()), zkVMVendor::SP1, MockZkVM::default());
    let found = state.lookup(&ProgramID("p1".to_string()));
    let request =
        VerifyRequest { program_id: ProgramID("p1".to_string()), proof: b"mock_proof".to_vec() };
    assert!(verify_on(found, request).unwrap().verified);
}

#[test]
fn verify_response_turns_a_fault_into_an_internal_error() {
    let fault = EngineError { message: "out of memory".to_string() };
    let (status, message) =
        verify_response(ProgramID("p1".to_string()), Err(fault)).unwrap_err();
    assert_eq!(status, StatusCode::InternalServerError);
    assert_eq!(message, "Failed to verify proof: out of memory");

    let fault = EngineError { message: String::new() };
    let (status, message) =
        verify_response(ProgramID("p1".to_string()), Err(fault)).unwrap_err();
    assert_eq!(status, StatusCode::InternalServerError);
    assert_eq!(message, "Failed to verify proof: ");
}

#[test]
fn verify_response_turns_a_rejection_into_a_verdict() {
    let accepted = verify_response(ProgramID("p1".to_string()), Ok(Verdict::Accepted)).unwrap();
    assert_eq!(accepted.program_id, ProgramID("p1".to_string()));
    assert!(accepted.verified);
    assert_eq!(accepted.failure_reason, "");

    let verdict = Verdict::Rejected("pairing check failed".to_string());
    let rejected = verify_response(ProgramID("p1".to_string()), Ok(verdict)).unwrap();
    assert_eq!(rejected.program_id, ProgramID("p1".to_string()));
    assert!(!rejected.verified);
    assert_eq!(rejected.failure_reason, "pairing check failed");
}

#[test]
fn mock_engine_verifies_only_its_own_proof() {
    let vm = MockZkVM::default();
    assert!(matches!(vm.verify(b"mock_proof"), Ok(Verdict::Accepted)));
    assert!(matches!(vm.verify(b"mock_proof!"), Ok(Verdict::Rejected(reason)) if reason == "invalid proof"));
    assert!(matches!(vm.verify(b""), Ok(Verdict::Rejected(reason)) if reason == "invalid proof"));
    let (proof, report) = vm.prove(&ProgramInput::test_input()).unwrap();
    assert!(matches!(vm.verify(&proof), Ok(Verdict::Accepted)));
    assert_eq!(report.proving_time_milliseconds, 1);
}

#[test]
fn bytes_equal_compares_contents() {
    assert!(bytes_equal(b"", b""));
    assert!(bytes_equal(b"abc", b"abc"));
    assert!(!bytes_equal(b"abc", b"abd"));
    assert!(!bytes_equal(b"abc", b"ab"));
    assert!(!bytes_equal(b"", b"a"));
}
