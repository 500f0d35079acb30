//! Instruction-processing handler for a "safe transfer" of fungible value
//! between two token holdings. The destination holding may not exist yet and
//! is provisioned on demand; the token accounting program governing the
//! transfer may be one of two incompatible variants. The handler validates an
//! untyped instruction buffer and a fixed-order account list, decides whether
//! the destination must be created, and routes to the correct transfer
//! capability, failing closed on anything it does not recognise.
//!
//! The handler itself performs no ledger mutation: it returns a
//! [`processor::safe_transfer::TransferPlan`] naming the external capability
//! invocations that an execution shell performs in order, driven by
//! [`execution::Execution`], stopping at the first failure, so that any
//! failure aborts the whole operation.
use vstd::prelude::*;

pub mod account;
pub mod error;
pub mod execution;
pub mod processor;

verus! {

/// Entry point: processes one instruction against the supplied account
/// sequence, exactly as [`processor::Processor::process`] does.
pub fn process_instruction(
    program_id: &account::Pubkey,
    accounts: &Vec<account::AccountMeta>,
    instruction_data: &[u8],
) -> (r: Result<processor::safe_transfer::TransferPlan, error::AppError>)
    ensures
        r == processor::spec_process(instruction_data@, accounts@),
        r is Ok ==> r->Ok_0.wf(),
{
    processor::Processor::process(program_id, accounts, instruction_data)
}

} // verus!
