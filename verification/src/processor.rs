//! Root dispatch: instruction decoding and opcode routing.
//!
//! The processor splits the raw instruction buffer into a one-byte opcode
//! and an opaque payload, and routes opcode `0` — the only one defined — to
//! the safe-transfer flow. Every other opcode, and the empty buffer, fails
//! with `InvalidInstruction`. Any failure at any step is terminal: the
//! processor either returns a complete transfer plan or an error, never a
//! partial result.
use vstd::prelude::*;

use crate::account::{AccountMeta, Pubkey};
use crate::error::AppError;

pub mod safe_transfer;

use safe_transfer::{
    spec_empty_owner_marker, spec_is_transfer, spec_le_amount, spec_legacy_token_program_id,
    spec_safe_transfer, spec_token_2022_program_id, Command, TokenProgramVariant, TransferPlan,
};

verus! {

/// The opcode of the safe-transfer operation, the only one defined.
pub const SAFE_TRANSFER_OPCODE: u8 = 0;

/// Root dispatch of one instruction.
pub struct Processor {}

/// What processing an instruction buffer against an account sequence
/// yields: the empty buffer and any opcode other than the safe-transfer one
/// are rejected outright; the safe-transfer flow sees the remaining payload
/// and decides the rest.
pub open spec fn spec_process(data: Seq<u8>, accounts: Seq<AccountMeta>) -> Result<
    TransferPlan,
    AppError,
> {
    if data.len() == 0 {
        Err(AppError::InvalidInstruction)
    } else if data[0] != SAFE_TRANSFER_OPCODE {
        Err(AppError::InvalidInstruction)
    } else {
        spec_safe_transfer(accounts, data.skip(1))
    }
}

impl Processor {
    /// Splits the instruction buffer into opcode and payload and dispatches
    /// on the opcode. The returned plan carries every decision of the
    /// invocation; the processor itself mutates nothing.
    pub fn process(program_id: &Pubkey, accounts: &Vec<AccountMeta>, data: &[u8]) -> (r: Result<
        TransferPlan,
        AppError,
    >)
        ensures
            r == spec_process(data@, accounts@),
            r is Ok ==> r->Ok_0.wf(),
    {
        if data.len() == 0 {
            return Err(AppError::InvalidInstruction);
        }
        let discriminator: u8 = data[0];
        let instruction_data: &[u8] = &data[1..data.len()];
        proof {
            assert(instruction_data@ =~= data@.skip(1));
        }
        if discriminator == SAFE_TRANSFER_OPCODE {
            safe_transfer::invoke(program_id, accounts, instruction_data)
        } else {
            Err(AppError::InvalidInstruction)
        }
    }
}

/// Law: the empty instruction buffer always fails with `InvalidInstruction`,
/// whatever accounts are supplied.
pub proof fn lemma_empty_buffer_rejected(data: Seq<u8>, accounts: Seq<AccountMeta>)
    requires
        data.len() == 0,
    ensures
        spec_process(data, accounts) == Err::<TransferPlan, AppError>(AppError::InvalidInstruction),
{
}

/// Law: a buffer whose first byte is not the safe-transfer opcode fails with
/// `InvalidInstruction`, regardless of payload content and accounts; neither
/// is inspected.
pub proof fn lemma_opcode_gate(data: Seq<u8>, accounts: Seq<AccountMeta>)
    requires
        data.len() > 0,
        data[0] != SAFE_TRANSFER_OPCODE,
    ensures
        spec_process(data, accounts) == Err::<TransferPlan, AppError>(AppError::InvalidInstruction),
{
}

/// Law: with the safe-transfer opcode, an account sequence shorter than the
/// seven required roles fails with `InvalidAccount`, whatever the payload.
pub proof fn lemma_account_arity(data: Seq<u8>, accounts: Seq<AccountMeta>)
    requires
        data.len() > 0,
        data[0] == SAFE_TRANSFER_OPCODE,
        accounts.len() < 7,
    ensures
        spec_process(data, accounts) == Err::<TransferPlan, AppError>(AppError::InvalidAccount),
{
}

/// Law: only the first seven accounts are consulted; trailing extras never
/// change the outcome.
pub proof fn lemma_only_first_seven_consulted(data: Seq<u8>, accounts: Seq<AccountMeta>)
    requires
        accounts.len() >= 7,
    ensures
        spec_process(data, accounts) == spec_process(data, accounts.take(7)),
{
}

/// Law: with the safe-transfer opcode and enough accounts, a payload whose
/// length is not 8 bytes fails with `InvalidSafeTransferParameters`, and
/// whenever processing succeeds the planned amount is exactly the
/// little-endian value the 8-byte payload encodes.
pub proof fn lemma_payload_shape(data: Seq<u8>, accounts: Seq<AccountMeta>)
    requires
        data.len() > 0,
        data[0] == SAFE_TRANSFER_OPCODE,
        accounts.len() >= 7,
    ensures
        data.len() != 9 ==> spec_process(data, accounts) == Err::<TransferPlan, AppError>(
            AppError::InvalidSafeTransferParameters,
        ),
        spec_process(data, accounts) is Ok ==> spec_process(data, accounts)->Ok_0.amount
            == spec_le_amount(data.skip(1)),
{
}

/// Law: the destination is provisioned exactly when its ownership marker is
/// the empty sentinel, and then by the first command of the plan, once,
/// before the transfer; with any other marker no provisioning command exists
/// in the plan at all.
pub proof fn lemma_conditional_provisioning(data: Seq<u8>, accounts: Seq<AccountMeta>)
    requires
        spec_process(data, accounts) is Ok,
    ensures
        accounts.len() >= 7,
        ({
            let plan = spec_process(data, accounts)->Ok_0;
            let cmds = plan.spec_commands();
            &&& plan.create_destination == (accounts[3].owner@ == spec_empty_owner_marker())
            &&& plan.create_destination ==> cmds.len() == 2 && cmds[0]
                == Command::CreateDestination && spec_is_transfer(cmds[1])
            &&& !plan.create_destination ==> cmds.len() == 1 && spec_is_transfer(cmds[0])
            &&& forall|i: int|
                0 <= i < cmds.len() && cmds[i] == Command::CreateDestination
                    ==> plan.create_destination && i == 0
        }),
{
}

/// Law: routing is exclusive and fails closed. The `token_program` identity
/// alone selects the transfer capability: the legacy identity routes to the
/// legacy transfer, the variant-2 identity to the variant-2 transfer, and
/// any other identity fails with `InvalidTokenProgram` so that no transfer
/// is planned; a successful plan holds exactly one transfer command, as its
/// last command.
pub proof fn lemma_exclusive_routing(data: Seq<u8>, accounts: Seq<AccountMeta>)
    requires
        data.len() == 9,
        data[0] == SAFE_TRANSFER_OPCODE,
        accounts.len() >= 7,
    ensures
        ({
            let key = accounts[6].key@;
            let r = spec_process(data, accounts);
            &&& key == spec_legacy_token_program_id() ==> r is Ok && r->Ok_0.variant
                == TokenProgramVariant::Legacy
            &&& key == spec_token_2022_program_id() ==> r is Ok && r->Ok_0.variant
                == TokenProgramVariant::V2
            &&& key != spec_legacy_token_program_id() && key != spec_token_2022_program_id()
                ==> r == Err::<TransferPlan, AppError>(AppError::InvalidTokenProgram)
            &&& r is Ok ==> ({
                let cmds = r->Ok_0.spec_commands();
                &&& spec_is_transfer(cmds.last())
                &&& (cmds.last() is TransferLegacy <==> key == spec_legacy_token_program_id())
                &&& (cmds.last() is TransferV2 <==> key == spec_token_2022_program_id())
                &&& forall|i: int|
                    0 <= i < cmds.len() && spec_is_transfer(cmds[i]) ==> i == cmds.len() - 1
            })
        }),
{
    assert(spec_legacy_token_program_id()[4] != spec_token_2022_program_id()[4]);
}

/// Law: in every plan, the provisioning command strictly precedes every
/// transfer command. A run driven by [`crate::execution::Execution`] hands
/// commands out in this order and hands out nothing once a failure is
/// reported, so a transfer capability is never invoked after provisioning
/// has failed; and because the processor plans nothing on error, a failed
/// instruction plans no invocation at all.
pub proof fn lemma_creation_precedes_transfer(plan: TransferPlan)
    ensures
        ({
            let cmds = plan.spec_commands();
            forall|i: int, j: int|
                0 <= i < cmds.len() && 0 <= j < cmds.len() && cmds[i]
                    == Command::CreateDestination && spec_is_transfer(cmds[j]) ==> i < j
        }),
{
}

} // verus!
