//! Running a registered program and reporting its cycle counts.

use crate::common::{zkVMInstance, AppState, Operation, ProgramID};
use crate::program::ProgramInput;
use crate::status::{
    engine_failure, is_engine_failure, is_not_found, is_unimplemented, not_found, unimplemented,
    StatusCode,
};
use crate::zkvm::{may_execute, Engine, EngineError, ExecutionReport};
use indexmap::IndexMap;
use std::time::{Duration, Instant};
use vstd::prelude::*;

verus! {

#[verifier::external_type_specification]
#[verifier::external_body]
pub struct ExInstant(Instant);

/// Calls `Instant::now`, which reads the monotonic clock.
#[verifier::external_body]
fn clock_now() -> Instant {
    Instant::now()
}

/// Calls `Instant::elapsed`, which reads the monotonic clock again and
/// returns the time that has passed since `start`.
#[verifier::external_body]
fn clock_elapsed(start: &Instant) -> Duration {
    start.elapsed()
}

/// A request to run a registered program on an input.
#[derive(Debug)]
pub struct ExecuteRequest {
    pub program_id: ProgramID,
    pub input: ProgramInput,
}

/// The cycle counts of a run and the time the run took.
#[derive(Debug)]
pub struct ExecuteResponse {
    pub program_id: ProgramID,
    pub total_num_cycles: u64,
    pub region_cycles: IndexMap<String, u64>,
    pub execution_time_duration: Duration,
}

/// The text that precedes an engine's message when a run fails.
pub open spec fn execute_failure_context() -> Seq<char> {
    "Failed to execute program: "@
}

/// `res` is the answer to an execute request for `program_id` whose engine
/// returned `outcome` after `elapsed`: a report is relayed unchanged, a fault
/// becomes an internal error that quotes the engine's message.
pub open spec fn execute_outcome(
    program_id: Seq<char>,
    outcome: Result<ExecutionReport, EngineError>,
    elapsed: Duration,
    res: Result<ExecuteResponse, (StatusCode, String)>,
) -> bool {
    match outcome {
        Ok(report) => res matches Ok(response) && response.program_id@ == program_id
            && response.total_num_cycles == report.total_num_cycles && response.region_cycles
            == report.region_cycles && response.execution_time_duration == elapsed,
        Err(fault) => is_engine_failure(execute_failure_context(), fault.message@, res),
    }
}

/// `res` is an answer that an execute request `req` may get from `instance`:
/// a vendor that cannot execute is reported as such and the engine is left
/// alone; otherwise the engine runs on the request's input and its result is
/// packaged.
pub open spec fn execute_on_instance<E: Engine>(
    instance: zkVMInstance<E>,
    req: ExecuteRequest,
    res: Result<ExecuteResponse, (StatusCode, String)>,
) -> bool {
    if !instance.vendor.supports(Operation::Execute) {
        is_unimplemented(Operation::Execute, instance.vendor, res)
    } else {
        exists|outcome: Result<ExecutionReport, EngineError>, elapsed: Duration|
            may_execute(instance.vm, req.input, outcome) && #[trigger] execute_outcome(
                req.program_id@,
                outcome,
                elapsed,
                res,
            )
    }
}

/// `res` is an answer that an execute request `req` may get when the lookup
/// of its identifier gave `entry`.
pub open spec fn execute_dispatched<E: Engine>(
    entry: Option<zkVMInstance<E>>,
    req: ExecuteRequest,
    res: Result<ExecuteResponse, (StatusCode, String)>,
) -> bool {
    match entry {
        None => is_not_found(res),
        Some(instance) => execute_on_instance(instance, req, res),
    }
}

/// Packages what an engine returned for an execute request.
pub fn execute_response(
    program_id: ProgramID,
    outcome: Result<ExecutionReport, EngineError>,
    elapsed: Duration,
) -> (res: Result<ExecuteResponse, (StatusCode, String)>)
    ensures
        execute_outcome(program_id@, outcome, elapsed, res),
{
    match outcome {
        Ok(report) => Ok(
            ExecuteResponse {
                program_id,
                total_num_cycles: report.total_num_cycles,
                region_cycles: report.region_cycles,
                execution_time_duration: elapsed,
            },
        ),
        Err(fault) => Err(engine_failure("Failed to execute program: ", fault.message.as_str())),
    }
}

/// Answers an execute request given the registry's entry for its identifier,
/// without touching the registry: the caller may have released it already.
pub fn execute_on<E: Engine>(entry: Option<&zkVMInstance<E>>, req: ExecuteRequest) -> (res: Result<
    ExecuteResponse,
    (StatusCode, String),
>)
    ensures
        match entry {
            Some(instance) => execute_on_instance(*instance, req, res),
            None => is_not_found(res),
        },
{
    match entry {
        None => Err(not_found()),
        Some(instance) => {
            if !instance.vendor.is_supported(Operation::Execute) {
                Err(unimplemented(Operation::Execute, instance.vendor))
            } else {
                let start = clock_now();
                let outcome = instance.vm.execute(&req.input);
                let elapsed = clock_elapsed(&start);
                execute_response(req.program_id, outcome, elapsed)
            }
        },
    }
}

/// Answers an execute request: looks the program up, checks that its vendor
/// can execute, runs the engine and packages the result. The registry is
/// only read.
pub fn execute_program<E: Engine>(state: &AppState<E>, req: ExecuteRequest) -> (res: Result<
    ExecuteResponse,
    (StatusCode, String),
>)
    ensures
        execute_dispatched(state.entry(req.program_id@), req, res),
{
    let entry = state.lookup(&req.program_id);
    execute_on(entry, req)
}

/// An execute request for an identifier that the registry does not hold is
/// answered with the not-found failure.
pub proof fn lemma_execute_unregistered<E: Engine>(
    state: AppState<E>,
    req: ExecuteRequest,
    res: Result<ExecuteResponse, (StatusCode, String)>,
)
    requires
        !state@.contains_key(req.program_id@),
        execute_dispatched(state.entry(req.program_id@), req, res),
    ensures
        is_not_found(res),
{
}

/// An execute request for a program whose vendor cannot execute is answered
/// with the unsupported-operation failure, never with an engine failure.
pub proof fn lemma_execute_unsupported<E: Engine>(
    instance: zkVMInstance<E>,
    req: ExecuteRequest,
    res: Result<ExecuteResponse, (StatusCode, String)>,
)
    requires
        !instance.vendor.supports(Operation::Execute),
        execute_on_instance(instance, req, res),
    ensures
        is_unimplemented(Operation::Execute, instance.vendor, res),
        res matches Err((status, _)) && !status.server_fault(),
{
}

} // verus!
