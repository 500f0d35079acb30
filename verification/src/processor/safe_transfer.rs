//! The safe-transfer flow: parameter codec, provisioning check and transfer
//! routing.
//!
//! The flow validates the account roles and the parameter payload, decides
//! whether the destination holding must be provisioned first, and resolves
//! which of two incompatible token accounting variants governs the transfer.
//! It performs no ledger mutation itself: its result is a [`TransferPlan`],
//! whose [`TransferPlan::commands`] lists the external capability invocations
//! an execution shell must perform in order, stopping at the first failure.
use vstd::prelude::*;

use crate::account::{bind_accounts, pubkey_eq, spec_bind_accounts, AccountMeta, Pubkey};
use crate::error::AppError;

verus! {

/// Typed parameter record of the safe-transfer opcode, decoded from the
/// instruction payload.
#[derive(Clone, Copy, Debug, PartialEq, Eq, Structural)]
pub struct SafeTransferParameters {
    /// Amount of fungible value to move, in base units.
    pub amount: u64,
}

impl Default for SafeTransferParameters {
    fn default() -> (d: Self)
        ensures
            d.amount == 0,
    {
        SafeTransferParameters { amount: 0 }
    }
}

/// The unsigned 64-bit value that a little-endian 8-byte payload encodes.
pub open spec fn spec_le_amount(payload: Seq<u8>) -> u64
    recommends
        payload.len() == 8,
{
    ((payload[0] as int) + (payload[1] as int) * 0x100 + (payload[2] as int) * 0x1_0000 + (
    payload[3] as int) * 0x100_0000 + (payload[4] as int) * 0x1_0000_0000 + (payload[5] as int)
        * 0x100_0000_0000 + (payload[6] as int) * 0x1_0000_0000_0000 + (payload[7] as int)
        * 0x100_0000_0000_0000) as u64
}

/// The little-endian 8-byte encoding of an amount; byte `i` is digit `i` in
/// base 256.
pub open spec fn spec_amount_le_bytes(amount: u64) -> Seq<u8> {
    seq![
        (amount % 0x100) as u8,
        ((amount / 0x100) % 0x100) as u8,
        ((amount / 0x1_0000) % 0x100) as u8,
        ((amount / 0x100_0000) % 0x100) as u8,
        ((amount / 0x1_0000_0000) % 0x100) as u8,
        ((amount / 0x100_0000_0000) % 0x100) as u8,
        ((amount / 0x1_0000_0000_0000) % 0x100) as u8,
        ((amount / 0x100_0000_0000_0000) % 0x100) as u8,
    ]
}

/// What the parameter codec yields: the fixed-width record for an exactly
/// 8-byte payload, `InvalidSafeTransferParameters` for any other length.
/// Trailing or missing bytes are an error, never ignored or zero-filled.
pub open spec fn spec_decode_params(payload: Seq<u8>) -> Result<SafeTransferParameters, AppError> {
    if payload.len() == 8 {
        Ok(SafeTransferParameters { amount: spec_le_amount(payload) })
    } else {
        Err(AppError::InvalidSafeTransferParameters)
    }
}

/// Deserialises the instruction payload into the safe-transfer parameter
/// record. The payload must match the fixed-width encoding exactly; no
/// partial result is returned on failure.
pub fn decode_params(payload: &[u8]) -> (r: Result<SafeTransferParameters, AppError>)
    ensures
        r == spec_decode_params(payload@),
{
    if payload.len() != 8 {
        return Err(AppError::InvalidSafeTransferParameters);
    }
    let amount: u64 = (payload[0] as u64) + (payload[1] as u64) * 0x100 + (payload[2] as u64)
        * 0x1_0000 + (payload[3] as u64) * 0x100_0000 + (payload[4] as u64) * 0x1_0000_0000 + (
    payload[5] as u64) * 0x100_0000_0000 + (payload[6] as u64) * 0x1_0000_0000_0000 + (
    payload[7] as u64) * 0x100_0000_0000_0000;
    Ok(SafeTransferParameters { amount })
}

/// Decoding inverts encoding: an 8-byte payload decodes to exactly the
/// amount whose little-endian encoding it is.
pub proof fn lemma_amount_round_trip(amount: u64)
    ensures
        spec_amount_le_bytes(amount).len() == 8,
        spec_le_amount(spec_amount_le_bytes(amount)) == amount,
{
    let a = amount as int;
    assert(a == 0x100 * (a / 0x100) + a % 0x100);
    assert(a / 0x100 == 0x100 * (a / 0x1_0000) + (a / 0x100) % 0x100) by (nonlinear_arith);
    assert(a / 0x1_0000 == 0x100 * (a / 0x100_0000) + (a / 0x1_0000) % 0x100) by (nonlinear_arith);
    assert(a / 0x100_0000 == 0x100 * (a / 0x1_0000_0000) + (a / 0x100_0000) % 0x100)
        by (nonlinear_arith);
    assert(a / 0x1_0000_0000 == 0x100 * (a / 0x100_0000_0000) + (a / 0x1_0000_0000) % 0x100)
        by (nonlinear_arith);
    assert(a / 0x100_0000_0000 == 0x100 * (a / 0x1_0000_0000_0000) + (a / 0x100_0000_0000) % 0x100)
        by (nonlinear_arith);
    assert(a / 0x1_0000_0000_0000 == 0x100 * (a / 0x100_0000_0000_0000) + (a / 0x1_0000_0000_0000)
        % 0x100) by (nonlinear_arith);
    assert(a / 0x100_0000_0000_0000 < 0x100);
    assert((a / 0x100_0000_0000_0000) % 0x100 == a / 0x100_0000_0000_0000);
}

/// Identity of the legacy token accounting program.
pub open spec fn spec_legacy_token_program_id() -> Seq<u8> {
    seq![
        6u8, 221u8, 246u8, 225u8, 215u8, 101u8, 161u8, 147u8, 217u8, 203u8, 225u8, 70u8, 206u8,
        235u8, 121u8, 172u8, 28u8, 180u8, 133u8, 237u8, 95u8, 91u8, 55u8, 145u8, 58u8, 140u8,
        245u8, 133u8, 126u8, 255u8, 0u8, 169u8,
    ]
}

/// Identity of the variant-2 ("2022") token accounting program.
pub open spec fn spec_token_2022_program_id() -> Seq<u8> {
    seq![
        6u8, 221u8, 246u8, 225u8, 238u8, 117u8, 143u8, 222u8, 24u8, 66u8, 93u8, 188u8, 228u8,
        108u8, 205u8, 218u8, 182u8, 26u8, 252u8, 77u8, 131u8, 185u8, 13u8, 39u8, 254u8, 189u8,
        249u8, 40u8, 216u8, 161u8, 139u8, 252u8,
    ]
}

/// Identity of the legacy token accounting program, as a key value.
pub fn legacy_token_program_id() -> (r: Pubkey)
    ensures
        r@ == spec_legacy_token_program_id(),
{
    let r: Pubkey = [
        6, 221, 246, 225, 215, 101, 161, 147, 217, 203, 225, 70, 206, 235, 121, 172, 28, 180, 133,
        237, 95, 91, 55, 145, 58, 140, 245, 133, 126, 255, 0, 169,
    ];
    proof {
        assert(r@ =~= spec_legacy_token_program_id());
    }
    r
}

/// Identity of the variant-2 token accounting program, as a key value.
pub fn token_2022_program_id() -> (r: Pubkey)
    ensures
        r@ == spec_token_2022_program_id(),
{
    let r: Pubkey = [
        6, 221, 246, 225, 238, 117, 143, 222, 24, 66, 93, 188, 228, 108, 205, 218, 182, 26, 252,
        77, 131, 185, 13, 39, 254, 189, 249, 40, 216, 161, 139, 252,
    ];
    proof {
        assert(r@ =~= spec_token_2022_program_id());
    }
    r
}

/// Which token accounting variant a `token_program` identity selects. A
/// closed dispatch key, recomputed per invocation and never stored; an
/// identity matching neither known program is `Unknown`, an explicit third
/// outcome rather than a default branch, so that routing fails closed.
#[derive(Clone, Copy, Debug, PartialEq, Eq, Structural)]
pub enum TokenProgramVariant {
    Legacy,
    V2,
    Unknown,
}

/// The variant that a given `token_program` identity resolves to.
pub open spec fn spec_resolve_token_program(key: Seq<u8>) -> TokenProgramVariant {
    if key == spec_legacy_token_program_id() {
        TokenProgramVariant::Legacy
    } else if key == spec_token_2022_program_id() {
        TokenProgramVariant::V2
    } else {
        TokenProgramVariant::Unknown
    }
}

/// Resolves the token accounting variant from the `token_program` role's
/// identity, by comparison against the two well-known constant identities.
pub fn resolve_token_program(key: &Pubkey) -> (v: TokenProgramVariant)
    ensures
        v == spec_resolve_token_program(key@),
{
    let legacy = legacy_token_program_id();
    if pubkey_eq(key, &legacy) {
        return TokenProgramVariant::Legacy;
    }
    let v2 = token_2022_program_id();
    if pubkey_eq(key, &v2) {
        return TokenProgramVariant::V2;
    }
    TokenProgramVariant::Unknown
}

/// The empty sentinel: the ownership marker an account holds before any
/// program has initialised it.
pub open spec fn spec_empty_owner_marker() -> Seq<u8> {
    Seq::new(32, |i: int| 0u8)
}

/// Provisioning check: the destination must be created exactly when its
/// current ownership marker equals the empty sentinel.
pub fn needs_creation(owner_marker: &Pubkey) -> (r: bool)
    ensures
        r == (owner_marker@ == spec_empty_owner_marker()),
{
    let mut i: usize = 0;
    while i < 32
        invariant
            0 <= i <= 32,
            forall|j: int| 0 <= j < i ==> owner_marker@[j] == 0u8,
        decreases 32 - i,
    {
        if owner_marker[i] != 0 {
            return false;
        }
        i = i + 1;
    }
    proof {
        assert(owner_marker@ =~= spec_empty_owner_marker());
    }
    true
}

/// One external capability invocation the execution shell must perform. The
/// shell performs the commands of a plan in order and stops at the first
/// failure; it never reorders, repeats or continues past one.
#[derive(Clone, Copy, Debug, PartialEq, Eq, Structural)]
pub enum Command {
    /// Provision the destination holding: create `to` for `owner`/`mint`,
    /// funded by `authority`, with `system_program` and `token_program` as
    /// collaborators.
    CreateDestination,
    /// Move `amount` with the legacy transfer capability, as
    /// `(from, to, authority, amount)`.
    TransferLegacy { amount: u64 },
    /// Move `amount` with the variant-2 transfer capability, as
    /// `(from, to, authority, amount, token_program_identity)`; this variant
    /// needs the program identity passed explicitly.
    TransferV2 { amount: u64 },
}

/// Whether a command invokes one of the two transfer capabilities.
pub open spec fn spec_is_transfer(c: Command) -> bool {
    c is TransferLegacy || c is TransferV2
}

/// The decision a validated safe-transfer instruction dispatches to: whether
/// the destination holding must be provisioned first, which token accounting
/// variant governs the transfer, and the amount to move.
#[derive(Clone, Copy, Debug, PartialEq, Eq, Structural)]
pub struct TransferPlan {
    /// The destination's ownership marker equals the empty sentinel, so the
    /// account-creation capability must run before the transfer.
    pub create_destination: bool,
    /// The resolved dispatch key; never `Unknown` in a plan the processor
    /// returns.
    pub variant: TokenProgramVariant,
    /// Amount of fungible value to move.
    pub amount: u64,
}

impl TransferPlan {
    /// A plan the processor returns routes to a known variant.
    pub open spec fn wf(self) -> bool {
        self.variant != TokenProgramVariant::Unknown
    }

    /// The single transfer invocation this plan routes to.
    pub open spec fn spec_transfer_command(self) -> Command {
        if self.variant == TokenProgramVariant::Legacy {
            Command::TransferLegacy { amount: self.amount }
        } else {
            Command::TransferV2 { amount: self.amount }
        }
    }

    /// The external invocations this plan prescribes, in order: provisioning
    /// first where needed, then exactly one transfer.
    pub open spec fn spec_commands(self) -> Seq<Command> {
        if self.create_destination {
            seq![Command::CreateDestination, self.spec_transfer_command()]
        } else {
            seq![self.spec_transfer_command()]
        }
    }

    /// The ordered command list the execution shell performs.
    pub fn commands(&self) -> (r: Vec<Command>)
        ensures
            r@ == self.spec_commands(),
    {
        let mut r: Vec<Command> = Vec::new();
        if self.create_destination {
            r.push(Command::CreateDestination);
        }
        if self.variant == TokenProgramVariant::Legacy {
            r.push(Command::TransferLegacy { amount: self.amount });
        } else {
            r.push(Command::TransferV2 { amount: self.amount });
        }
        proof {
            assert(r@ =~= self.spec_commands());
        }
        r
    }
}

/// What the safe-transfer flow decides for a payload and account sequence:
/// the account roles must be structurally complete, the payload must decode,
/// and the `token_program` identity must resolve to a known variant; the
/// resulting plan provisions the destination exactly when its ownership
/// marker is the empty sentinel.
pub open spec fn spec_safe_transfer(accounts: Seq<AccountMeta>, payload: Seq<u8>) -> Result<
    TransferPlan,
    AppError,
> {
    if spec_bind_accounts(accounts) is Err {
        Err(AppError::InvalidAccount)
    } else if spec_decode_params(payload) is Err {
        Err(AppError::InvalidSafeTransferParameters)
    } else {
        let roles = spec_bind_accounts(accounts)->Ok_0;
        let params = spec_decode_params(payload)->Ok_0;
        let variant = spec_resolve_token_program(roles.token_program.key@);
        if variant is Unknown {
            Err(AppError::InvalidTokenProgram)
        } else {
            Ok(TransferPlan {
                create_destination: roles.to.owner@ == spec_empty_owner_marker(),
                variant,
                amount: params.amount,
            })
        }
    }
}

/// The safe-transfer opcode: binds the account roles, decodes the parameter
/// record, resolves the governing token accounting variant and returns the
/// plan of external invocations. Fails without a plan on any violation, so
/// no partial dispatch can occur.
pub fn invoke(_program_id: &Pubkey, accounts: &Vec<AccountMeta>, instruction_data: &[u8]) -> (r:
    Result<TransferPlan, AppError>)
    ensures
        r == spec_safe_transfer(accounts@, instruction_data@),
        r is Ok ==> r->Ok_0.wf(),
{
    let roles = match bind_accounts(accounts) {
        Ok(roles) => roles,
        Err(e) => { return Err(e) },
    };
    let params = match decode_params(instruction_data) {
        Ok(params) => params,
        Err(e) => { return Err(e) },
    };
    let variant = resolve_token_program(&roles.token_program.key);
    if variant == TokenProgramVariant::Unknown {
        return Err(AppError::InvalidTokenProgram);
    }
    Ok(
        TransferPlan {
            create_destination: needs_creation(&roles.to.owner),
            variant,
            amount: params.amount,
        },
    )
}

} // verus!
