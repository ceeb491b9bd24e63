use poost::client::{endpoint_url, verification_summary};
use poost::common::ProgramID;
use poost::endpoints::verify::VerifyResponse;

#[test]
fn endpoint_url_joins_server_and_route() {
    assert_eq!(endpoint_url("http://localhost:3000", "verify"), "http://localhost:3000/verify");
    assert_eq!(endpoint_url("http://localhost:3000", "info"), "http://localhost:3000/info");
}

#[test]
fn endpoint_url_drops_trailing_slashes() {
    assert_eq!(endpoint_url("http://localhost:3000/", "execute"), "http://localhost:3000/execute");
    assert_eq!(endpoint_url("http://localhost:3000///", "prove"), "http://localhost:3000/prove");
    assert_eq!(endpoint_url("http://host/api/", "prove"), "http://host/api/prove");
    assert_eq!(endpoint_url("///", "prove"), "/prove");
    assert_eq!(endpoint_url("", ""), "/");
}

#[test]
fn endpoint_url_keeps_inner_slashes() {
    assert_eq!(endpoint_url("http://host//api", "verify"), "http://host//api/verify");
}

#[test]
fn accepted_proof_is_summarised_as_success() {
    let response = VerifyResponse {
        program_id: ProgramID("sp1".to_string()),
        verified: true,
        failure_reason: String::new(),
    };
    assert_eq!(
        verification_summary(&response),
        Ok("Verification succeeded for program sp1".to_string())
    );
}

#[test]
fn rejected_proof_is_summarised_as_failure() {
    let response = VerifyResponse {
        program_id: ProgramID("sp1".to_string()),
        verified: false,
        failure_reason: "invalid proof".to_string(),
    };
    assert_eq!(
        verification_summary(&response),
        Err("Verification FAILED: invalid proof".to_string())
    );
}
