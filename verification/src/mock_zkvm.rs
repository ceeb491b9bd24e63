//! A lightweight engine with fixed answers, for exercising the gateway
//! without a real backend.

use crate::common::{zkVMInstance, Operation};
use crate::endpoints::execute::{execute_on_instance, ExecuteRequest, ExecuteResponse};
use crate::endpoints::verify::{engine_consistent, engine_decides, engine_rejects};
use crate::program::ProgramInput;
use crate::status::StatusCode;
use crate::zkvm::{
    empty_region_cycles, region_entries, Engine, EngineError, ExecutionReport, ProvingReport,
    Verdict,
};
use vstd::prelude::*;

verus! {

/// The bytes of the only proof the mock engine produces and accepts: the
/// ASCII text `mock_proof`.
pub open spec fn mock_proof() -> Seq<u8> {
    seq![109u8, 111u8, 99u8, 107u8, 95u8, 112u8, 114u8, 111u8, 111u8, 102u8]
}

/// The cycle count that the mock engine reports for every run.
pub const MOCK_TOTAL_CYCLES: u64 = 100;

/// The proving time, in milliseconds, that the mock engine reports for every proof.
pub const MOCK_PROVING_MILLISECONDS: u128 = 1;

/// Whether two byte slices hold the same bytes.
pub fn bytes_equal(a: &[u8], b: &[u8]) -> (res: bool)
    ensures
        res == (a@ == b@),
{
    if a.len() != b.len() {
        return false;
    }
    let mut i: usize = 0;
    while i < a.len()
        invariant
            a@.len() == b@.len(),
            i <= a@.len(),
            forall|j: int| 0 <= j < i ==> a@[j] == b@[j],
        decreases a.len() - i,
    {
        if a[i] != b[i] {
            return false;
        }
        i += 1;
    }
    assert(a@ =~= b@);
    true
}

/// An engine that ignores its input, reports the same run every time, and
/// accepts exactly one proof.
#[derive(Debug)]
pub struct MockZkVM;

impl Default for MockZkVM {
    fn default() -> (res: Self) {
        MockZkVM
    }
}

impl MockZkVM {
    /// The proof that `prove` returns, as owned bytes.
    pub fn proof_bytes() -> (res: Vec<u8>)
        ensures
            res@ == mock_proof(),
    {
        let res: Vec<u8> = vec![109u8, 111u8, 99u8, 107u8, 95u8, 112u8, 114u8, 111u8, 111u8, 102u8];
        assert(res@ =~= mock_proof());
        res
    }
}

impl Engine for MockZkVM {
    /// Reports `MOCK_TOTAL_CYCLES` cycles and no regions, whatever the input.
    fn execute(&self, inputs: &ProgramInput) -> (res: Result<ExecutionReport, EngineError>)
        ensures
            res matches Ok(report) && report.total_num_cycles == MOCK_TOTAL_CYCLES
                && region_entries(report.region_cycles) == Seq::<(Seq<char>, u64)>::empty(),
    {
        Ok(ExecutionReport { total_num_cycles: MOCK_TOTAL_CYCLES, region_cycles: empty_region_cycles() })
    }

    /// Returns the fixed proof and a proving time of one millisecond.
    fn prove(&self, inputs: &ProgramInput) -> (res: Result<(Vec<u8>, ProvingReport), EngineError>)
        ensures
            res matches Ok((proof, report)) && proof@ == mock_proof()
                && report.proving_time_milliseconds == MOCK_PROVING_MILLISECONDS,
    {
        Ok(
            (
                MockZkVM::proof_bytes(),
                ProvingReport { proving_time_milliseconds: MOCK_PROVING_MILLISECONDS },
            ),
        )
    }

    /// Accepts the fixed proof and rejects every other byte string with the
    /// reason `invalid proof`. It never fails to reach a verdict.
    fn verify(&self, proof: &[u8]) -> (res: Result<Verdict, EngineError>)
        ensures
            match res {
                Ok(Verdict::Accepted) => proof@ == mock_proof(),
                Ok(Verdict::Rejected(reason)) => proof@ != mock_proof() && reason@
                    == "invalid proof"@,
                Err(_) => false,
            },
    {
        let expected = MockZkVM::proof_bytes();
        if bytes_equal(proof, expected.as_slice()) {
            Ok(Verdict::Accepted)
        } else {
            Ok(Verdict::Rejected("invalid proof".to_string()))
        }
    }
}

/// The mock engine accepts the proof that it produces.
pub proof fn lemma_mock_is_consistent(vm: MockZkVM)
    ensures
        engine_consistent(vm),
{
}

/// The mock engine reaches a verdict on every byte string.
pub proof fn lemma_mock_decides(vm: MockZkVM, proof: Seq<u8>)
    ensures
        engine_decides(vm, proof),
{
}

/// The mock engine rejects every byte string but its fixed proof, and gives
/// a reason.
pub proof fn lemma_mock_rejects_other_proofs(vm: MockZkVM, proof: Seq<u8>)
    requires
        proof != mock_proof(),
    ensures
        engine_rejects(vm, proof),
{
    reveal_strlit("invalid proof");
}

/// Changing any one byte of the mock engine's proof gives a byte string that
/// the mock engine rejects with a reason.
pub proof fn lemma_mock_rejects_tampered_proof(vm: MockZkVM, position: int, byte: u8)
    requires
        0 <= position < mock_proof().len(),
        byte != mock_proof()[position],
    ensures
        engine_rejects(vm, mock_proof().update(position, byte)),
{
    let tampered = mock_proof().update(position, byte);
    assert(tampered[position] != mock_proof()[position]);
    lemma_mock_rejects_other_proofs(vm, tampered);
}

/// Whatever the input, an execute request answered by the mock engine
/// reports `MOCK_TOTAL_CYCLES` cycles and no regions.
pub proof fn lemma_mock_execute_answer(
    instance: zkVMInstance<MockZkVM>,
    req: ExecuteRequest,
    res: Result<ExecuteResponse, (StatusCode, String)>,
)
    requires
        instance.vendor.supports(Operation::Execute),
        execute_on_instance(instance, req, res),
    ensures
        res matches Ok(response) && response.program_id@ == req.program_id@
            && response.total_num_cycles == MOCK_TOTAL_CYCLES && region_entries(
            response.region_cycles,
        ).len() == 0,
{
}

} // verus!
