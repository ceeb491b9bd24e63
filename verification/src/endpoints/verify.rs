//! Checking a proof against a registered program.

use crate::common::{zkVMInstance, AppState, Operation, ProgramID};
use crate::status::{
    engine_failure, is_engine_failure, is_not_found, is_unimplemented, not_found, unimplemented,
    StatusCode,
};
use crate::endpoints::prove::{prove_dispatched, ProveRequest, ProveResponse};
use crate::program::ProgramInput;
use crate::zkvm::{may_prove, may_verify, Engine, EngineError, ProvingReport, Verdict};
use vstd::prelude::*;

verus! {

/// A request to check a proof against a registered program.
#[derive(Debug)]
pub struct VerifyRequest {
    pub program_id: ProgramID,
    pub proof: Vec<u8>,
}

/// The verdict on a proof. A rejected proof is a verdict, not a failure of
/// the request; an engine that could not reach a verdict is a failure.
#[derive(Debug)]
pub struct VerifyResponse {
    pub program_id: ProgramID,
    pub verified: bool,
    /// Empty if the proof was accepted; otherwise the engine's reason.
    pub failure_reason: String,
}

/// The text that precedes an engine's message when the engine fails to
/// reach a verdict.
pub open spec fn verify_failure_context() -> Seq<char> {
    "Failed to verify proof: "@
}

/// `res` is the answer to a verify request for `program_id` whose engine
/// returned `outcome`: an accepted proof is reported as verified, with no
/// reason; a rejected proof is reported as not verified, with the engine's
/// reason, and is no failure of the request; a fault of the engine becomes
/// an internal error that quotes the engine's message.
pub open spec fn verify_outcome(
    program_id: Seq<char>,
    outcome: Result<Verdict, EngineError>,
    res: Result<VerifyResponse, (StatusCode, String)>,
) -> bool {
    match outcome {
        Ok(Verdict::Accepted) => res matches Ok(response) && response.program_id@ == program_id
            && response.verified && response.failure_reason@ == Seq::<char>::empty(),
        Ok(Verdict::Rejected(reason)) => res matches Ok(response) && response.program_id@
            == program_id && !response.verified && response.failure_reason@ == reason@,
        Err(fault) => is_engine_failure(verify_failure_context(), fault.message@, res),
    }
}

/// `res` is an answer that a verify request `req` may get from `instance`:
/// a vendor that cannot verify is reported as such and the engine is left
/// alone; otherwise the engine checks the request's proof and what it
/// returns is packaged.
pub open spec fn verify_on_instance<E: Engine>(
    instance: zkVMInstance<E>,
    req: VerifyRequest,
    res: Result<VerifyResponse, (StatusCode, String)>,
) -> bool {
    if !instance.vendor.supports(Operation::Verify) {
        is_unimplemented(Operation::Verify, instance.vendor, res)
    } else {
        exists|outcome: Result<Verdict, EngineError>|
            may_verify(instance.vm, req.proof@, outcome) && #[trigger] verify_outcome(
                req.program_id@,
                outcome,
                res,
            )
    }
}

/// `res` is an answer that a verify request `req` may get when the lookup of
/// its identifier gave `entry`.
pub open spec fn verify_dispatched<E: Engine>(
    entry: Option<zkVMInstance<E>>,
    req: VerifyRequest,
    res: Result<VerifyResponse, (StatusCode, String)>,
) -> bool {
    match entry {
        None => is_not_found(res),
        Some(instance) => verify_on_instance(instance, req, res),
    }
}

/// Packages what an engine returned for a verify request.
pub fn verify_response(program_id: ProgramID, outcome: Result<Verdict, EngineError>) -> (res:
    Result<VerifyResponse, (StatusCode, String)>)
    ensures
        verify_outcome(program_id@, outcome, res),
{
    match outcome {
        Ok(Verdict::Accepted) => Ok(
            VerifyResponse { program_id, verified: true, failure_reason: String::new() },
        ),
        Ok(Verdict::Rejected(reason)) => Ok(
            VerifyResponse { program_id, verified: false, failure_reason: reason },
        ),
        Err(fault) => Err(engine_failure("Failed to verify proof: ", fault.message.as_str())),
    }
}

/// Answers a verify request given the registry's entry for its identifier,
/// without touching the registry: the caller may have released it already.
pub fn verify_on<E: Engine>(entry: Option<&zkVMInstance<E>>, req: VerifyRequest) -> (res: Result<
    VerifyResponse,
    (StatusCode, String),
>)
    ensures
        match entry {
            Some(instance) => verify_on_instance(*instance, req, res),
            None => is_not_found(res),
        },
{
    match entry {
        None => Err(not_found()),
        Some(instance) => {
            if !instance.vendor.is_supported(Operation::Verify) {
                Err(unimplemented(Operation::Verify, instance.vendor))
            } else {
                let outcome = instance.vm.verify(req.proof.as_slice());
                verify_response(req.program_id, outcome)
            }
        },
    }
}

/// Answers a verify request: looks the program up, checks that its vendor
/// can verify, hands the proof to the engine and packages what it returns.
/// The registry is only read.
pub fn verify_proof<E: Engine>(state: &AppState<E>, req: VerifyRequest) -> (res: Result<
    VerifyResponse,
    (StatusCode, String),
>)
    ensures
        verify_dispatched(state.entry(req.program_id@), req, res),
{
    let entry = state.lookup(&req.program_id);
    verify_on(entry, req)
}

/// A verify request for an identifier that the registry does not hold is
/// answered with the not-found failure.
pub proof fn lemma_verify_unregistered<E: Engine>(
    state: AppState<E>,
    req: VerifyRequest,
    res: Result<VerifyResponse, (StatusCode, String)>,
)
    requires
        !state@.contains_key(req.program_id@),
        verify_dispatched(state.entry(req.program_id@), req, res),
    ensures
        is_not_found(res),
{
}

/// A verify request for a program whose vendor cannot verify is answered
/// with the unsupported-operation failure, never with an engine failure.
pub proof fn lemma_verify_unsupported<E: Engine>(
    instance: zkVMInstance<E>,
    req: VerifyRequest,
    res: Result<VerifyResponse, (StatusCode, String)>,
)
    requires
        !instance.vendor.supports(Operation::Verify),
        verify_on_instance(instance, req, res),
    ensures
        is_unimplemented(Operation::Verify, instance.vendor, res),
        res matches Err((status, _)) && !status.server_fault(),
{
}

/// The engine `vm` reaches a verdict on the proof `proof` whenever it is asked.
pub open spec fn engine_decides<E: Engine>(vm: E, proof: Seq<u8>) -> bool {
    forall|outcome: Result<Verdict, EngineError>| #[trigger]
        may_verify(vm, proof, outcome) ==> outcome is Ok
}

/// The engine `vm` fails to reach a verdict on the proof `proof` whenever it is asked.
pub open spec fn engine_faults<E: Engine>(vm: E, proof: Seq<u8>) -> bool {
    forall|outcome: Result<Verdict, EngineError>| #[trigger]
        may_verify(vm, proof, outcome) ==> outcome is Err
}

/// The engine `vm` rejects the proof `proof`, and says why, whenever it is asked.
pub open spec fn engine_rejects<E: Engine>(vm: E, proof: Seq<u8>) -> bool {
    forall|outcome: Result<Verdict, EngineError>| #[trigger]
        may_verify(vm, proof, outcome) ==> (outcome matches Ok(Verdict::Rejected(reason))
            && reason@.len() > 0)
}

/// The engine `vm` accepts every proof that it can itself produce.
pub open spec fn engine_consistent<E: Engine>(vm: E) -> bool {
    forall|
        inputs: ProgramInput,
        proof: Vec<u8>,
        report: ProvingReport,
        outcome: Result<Verdict, EngineError>,
    |
        #[trigger] may_prove(vm, inputs, Ok::<(Vec<u8>, ProvingReport), EngineError>((proof, report)))
            && #[trigger] may_verify(vm, proof@, outcome) ==> outcome matches Ok(
            Verdict::Accepted,
        )
}

/// Where the engine reaches a verdict, a verify request for a program whose
/// vendor can verify is answered with a response, whichever way the engine
/// decided: a proof that does not verify is never reported as a failure of
/// the request.
pub proof fn lemma_verify_answers_with_a_verdict<E: Engine>(
    instance: zkVMInstance<E>,
    req: VerifyRequest,
    res: Result<VerifyResponse, (StatusCode, String)>,
)
    requires
        instance.vendor.supports(Operation::Verify),
        engine_decides(instance.vm, req.proof@),
        verify_on_instance(instance, req, res),
    ensures
        res matches Ok(response) && response.program_id@ == req.program_id@ && (response.verified
            ==> response.failure_reason@.len() == 0),
{
}

/// Where the engine fails to reach a verdict, a verify request is answered
/// with an internal error and never with a response that calls the proof
/// rejected.
pub proof fn lemma_verifier_fault_is_a_failure<E: Engine>(
    instance: zkVMInstance<E>,
    req: VerifyRequest,
    res: Result<VerifyResponse, (StatusCode, String)>,
)
    requires
        instance.vendor.supports(Operation::Verify),
        engine_faults(instance.vm, req.proof@),
        verify_on_instance(instance, req, res),
    ensures
        res matches Err((status, _)) && status == StatusCode::InternalServerError
            && status.server_fault(),
{
}

/// A verify request fails only where the engine failed to reach a verdict,
/// and then with an internal error: a response that calls the proof not
/// verified always stands for a verdict of the engine.
pub proof fn lemma_verify_tells_fault_from_rejection(
    program_id: Seq<char>,
    outcome: Result<Verdict, EngineError>,
    res: Result<VerifyResponse, (StatusCode, String)>,
)
    requires
        verify_outcome(program_id, outcome, res),
    ensures
        res is Err <==> outcome is Err,
        res matches Ok(response) ==> (response.verified <==> outcome matches Ok(Verdict::Accepted)),
        res matches Err((status, _)) ==> status.server_fault(),
{
}

/// A proof that the engine rejects with a reason is answered with a response
/// that says so and carries a reason that is not empty.
pub proof fn lemma_rejected_proof_is_reported<E: Engine>(
    instance: zkVMInstance<E>,
    req: VerifyRequest,
    res: Result<VerifyResponse, (StatusCode, String)>,
)
    requires
        instance.vendor.supports(Operation::Verify),
        engine_rejects(instance.vm, req.proof@),
        verify_on_instance(instance, req, res),
    ensures
        res matches Ok(response) && !response.verified && response.failure_reason@.len() > 0,
{
}

/// Where an engine accepts its own proofs, the proof that a prove request
/// returned is reported as verified when it is handed back for the same
/// program.
pub proof fn lemma_verify_after_prove<E: Engine>(
    state: AppState<E>,
    prove_req: ProveRequest,
    proved: Result<ProveResponse, (StatusCode, String)>,
    verify_req: VerifyRequest,
    verified: Result<VerifyResponse, (StatusCode, String)>,
)
    requires
        state@.contains_key(prove_req.program_id@) ==> engine_consistent(
            state@[prove_req.program_id@].vm,
        ),
        prove_dispatched(state.entry(prove_req.program_id@), prove_req, proved),
        proved matches Ok(response) && verify_req.proof@ == response.proof@,
        verify_req.program_id@ == prove_req.program_id@,
        verify_dispatched(state.entry(verify_req.program_id@), verify_req, verified),
    ensures
        verified matches Ok(response) && response.verified && response.failure_reason@.len() == 0,
{
}

} // verus!
