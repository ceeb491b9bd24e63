//! The capability interface that every backend engine offers, and the plain
//! values that cross it.

use crate::program::ProgramInput;
use indexmap::IndexMap;
use vstd::prelude::*;

verus! {

#[verifier::external_type_specification]
#[verifier::external_body]
#[verifier::reject_recursive_types(K)]
#[verifier::reject_recursive_types(V)]
#[verifier::reject_recursive_types(S)]
pub struct ExIndexMap<K, V, S>(IndexMap<K, V, S>);

/// The region labels and their cycle counts that a map holds, in insertion order.
pub uninterp spec fn region_entries(m: IndexMap<String, u64>) -> Seq<(Seq<char>, u64)>;

/// Calls `IndexMap::new`, which creates a map without entries.
#[verifier::external_body]
pub(crate) fn empty_region_cycles() -> (res: IndexMap<String, u64>)
    ensures
        region_entries(res) == Seq::<(Seq<char>, u64)>::empty(),
{
    IndexMap::new()
}

/// What an engine reports after running a program without proving it.
#[derive(Debug)]
pub struct ExecutionReport {
    /// The total number of cycles the run took.
    pub total_num_cycles: u64,
    /// The cycles spent in each named region, in the order the regions were entered.
    pub region_cycles: IndexMap<String, u64>,
}

/// What an engine reports besides the proof after proving a run.
#[derive(Debug)]
pub struct ProvingReport {
    /// The whole milliseconds that proving took.
    pub proving_time_milliseconds: u128,
}

/// What an engine found when it checked a proof.
#[derive(Debug)]
pub enum Verdict {
    /// The proof is valid for the program.
    Accepted,
    /// The proof is not valid for the program, for the reason given.
    Rejected(String),
}

/// A fault raised by an engine, with the engine's own message. A fault is no
/// statement about a proof: an engine that checked a proof and found it
/// wanting returns a `Verdict`.
#[derive(Debug)]
pub struct EngineError {
    pub message: String,
}

/// The contract between the gateway and a loaded program's engine. The
/// gateway promises nothing about what an engine returns; it only relays it.
pub trait Engine {
    /// Runs the program on `inputs` without producing a proof.
    fn execute(&self, inputs: &ProgramInput) -> Result<ExecutionReport, EngineError>;

    /// Runs the program on `inputs` and produces a proof of the run.
    fn prove(&self, inputs: &ProgramInput) -> Result<(Vec<u8>, ProvingReport), EngineError>;

    /// Checks a proof. A proof that does not verify is a verdict; an `Err`
    /// says that the engine could not reach one.
    fn verify(&self, proof: &[u8]) -> Result<Verdict, EngineError>;
}

/// `r` is a result that `vm.execute(inputs)` may return.
pub open spec fn may_execute<E: Engine>(vm: E, inputs: ProgramInput, r: Result<
    ExecutionReport,
    EngineError,
>) -> bool {
    call_ensures(E::execute, (&vm, &inputs), r)
}

/// `r` is a result that `vm.prove(inputs)` may return.
pub open spec fn may_prove<E: Engine>(vm: E, inputs: ProgramInput, r: Result<
    (Vec<u8>, ProvingReport),
    EngineError,
>) -> bool {
    call_ensures(E::prove, (&vm, &inputs), r)
}

/// `r` is a result that `vm.verify(proof)` may return for a proof with the bytes `proof`.
pub open spec fn may_verify<E: Engine>(vm: E, proof: Seq<u8>, r: Result<
    Verdict,
    EngineError,
>) -> bool {
    exists|p: &[u8]| p@ == proof && call_ensures(E::verify, (&vm, p), r)
}

} // verus!
