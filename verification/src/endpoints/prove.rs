//! Running a registered program and producing a proof of the run.

use crate::common::{zkVMInstance, AppState, Operation, ProgramID};
use crate::program::ProgramInput;
use crate::status::{
    engine_failure, is_engine_failure, is_not_found, is_unimplemented, not_found, unimplemented,
    StatusCode,
};
use crate::zkvm::{may_prove, Engine, EngineError, ProvingReport};
use vstd::prelude::*;

verus! {

/// A request to prove a run of a registered program on an input.
#[derive(Debug)]
pub struct ProveRequest {
    pub program_id: ProgramID,
    pub input: ProgramInput,
}

/// A proof and the time it took to produce.
#[derive(Debug)]
pub struct ProveResponse {
    pub program_id: ProgramID,
    pub proof: Vec<u8>,
    pub proving_time_milliseconds: u128,
}

/// The text that precedes an engine's message when proving fails.
pub open spec fn prove_failure_context() -> Seq<char> {
    "Failed to generate proof: "@
}

/// `res` is the answer to a prove request for `program_id` whose engine
/// returned `outcome`: a proof and its proving time are relayed unchanged, a
/// fault becomes an internal error that quotes the engine's message.
pub open spec fn prove_outcome(
    program_id: Seq<char>,
    outcome: Result<(Vec<u8>, ProvingReport), EngineError>,
    res: Result<ProveResponse, (StatusCode, String)>,
) -> bool {
    match outcome {
        Ok((proof, report)) => res matches Ok(response) && response.program_id@ == program_id
            && response.proof@ == proof@ && response.proving_time_milliseconds
            == report.proving_time_milliseconds,
        Err(fault) => is_engine_failure(prove_failure_context(), fault.message@, res),
    }
}

/// `res` is an answer that a prove request `req` may get from `instance`: a
/// vendor that cannot prove is reported as such and the engine is left
/// alone; otherwise the engine proves a run on the request's input and its
/// result is packaged.
pub open spec fn prove_on_instance<E: Engine>(
    instance: zkVMInstance<E>,
    req: ProveRequest,
    res: Result<ProveResponse, (StatusCode, String)>,
) -> bool {
    if !instance.vendor.supports(Operation::Prove) {
        is_unimplemented(Operation::Prove, instance.vendor, res)
    } else {
        exists|outcome: Result<(Vec<u8>, ProvingReport), EngineError>|
            may_prove(instance.vm, req.input, outcome) && #[trigger] prove_outcome(
                req.program_id@,
                outcome,
                res,
            )
    }
}

/// `res` is an answer that a prove request `req` may get when the lookup of
/// its identifier gave `entry`.
pub open spec fn prove_dispatched<E: Engine>(
    entry: Option<zkVMInstance<E>>,
    req: ProveRequest,
    res: Result<ProveResponse, (StatusCode, String)>,
) -> bool {
    match entry {
        None => is_not_found(res),
        Some(instance) => prove_on_instance(instance, req, res),
    }
}

/// Packages what an engine returned for a prove request.
pub fn prove_response(
    program_id: ProgramID,
    outcome: Result<(Vec<u8>, ProvingReport), EngineError>,
) -> (res: Result<ProveResponse, (StatusCode, String)>)
    ensures
        prove_outcome(program_id@, outcome, res),
{
    match outcome {
        Ok((proof, report)) => Ok(
            ProveResponse {
                program_id,
                proof,
                proving_time_milliseconds: report.proving_time_milliseconds,
            },
        ),
        Err(fault) => Err(engine_failure("Failed to generate proof: ", fault.message.as_str())),
    }
}

/// Answers a prove request given the registry's entry for its identifier,
/// without touching the registry: the caller may have released it already.
pub fn prove_on<E: Engine>(entry: Option<&zkVMInstance<E>>, req: ProveRequest) -> (res: Result<
    ProveResponse,
    (StatusCode, String),
>)
    ensures
        match entry {
            Some(instance) => prove_on_instance(*instance, req, res),
            None => is_not_found(res),
        },
{
    match entry {
        None => Err(not_found()),
        Some(instance) => {
            if !instance.vendor.is_supported(Operation::Prove) {
                Err(unimplemented(Operation::Prove, instance.vendor))
            } else {
                let outcome = instance.vm.prove(&req.input);
                prove_response(req.program_id, outcome)
            }
        },
    }
}

/// Answers a prove request: looks the program up, checks that its vendor can
/// prove, runs the engine and packages the result. The registry is only read.
pub fn prove_program<E: Engine>(state: &AppState<E>, req: ProveRequest) -> (res: Result<
    ProveResponse,
    (StatusCode, String),
>)
    ensures
        prove_dispatched(state.entry(req.program_id@), req, res),
{
    let entry = state.lookup(&req.program_id);
    prove_on(entry, req)
}

/// A prove request for an identifier that the registry does not hold is
/// answered with the not-found failure.
pub proof fn lemma_prove_unregistered<E: Engine>(
    state: AppState<E>,
    req: ProveRequest,
    res: Result<ProveResponse, (StatusCode, String)>,
)
    requires
        !state@.contains_key(req.program_id@),
        prove_dispatched(state.entry(req.program_id@), req, res),
    ensures
        is_not_found(res),
{
}

/// A prove request for a program whose vendor cannot prove is answered with
/// the unsupported-operation failure, never with an engine failure.
pub proof fn lemma_prove_unsupported<E: Engine>(
    instance: zkVMInstance<E>,
    req: ProveRequest,
    res: Result<ProveResponse, (StatusCode, String)>,
)
    requires
        !instance.vendor.supports(Operation::Prove),
        prove_on_instance(instance, req, res),
    ensures
        is_unimplemented(Operation::Prove, instance.vendor, res),
        res matches Err((status, _)) && !status.server_fault(),
{
}

} // verus!
