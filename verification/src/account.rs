//! Account roles and the positional account binder.
//!
//! The caller supplies an ordered sequence of account handles; the binder
//! interprets them positionally into seven named roles. It establishes
//! structural completeness only (arity and order): validating that each
//! role's content is appropriate for its use is delegated to the external
//! capability that consumes it, which performs those checks itself.
use vstd::prelude::*;

use crate::error::AppError;

verus! {

/// A 32-byte account identity, as the ledger addresses accounts.
pub type Pubkey = [u8; 32];

/// What the handler reads of an account handle: its identity and its current
/// ownership marker. All other account content is opaque to the handler and
/// consumed only by the external capabilities.
#[derive(Clone, Copy, Debug)]
pub struct AccountMeta {
    /// The account's identity.
    pub key: Pubkey,
    /// The account's current ownership marker; all zero until some program
    /// has initialised the account.
    pub owner: Pubkey,
}

/// The seven account roles of a safe transfer, in the fixed positional order
/// the protocol prescribes.
#[derive(Clone, Copy, Debug)]
pub struct AccountRoles {
    /// Fee payer and transfer authority (signer).
    pub authority: AccountMeta,
    /// Source token holding.
    pub from: AccountMeta,
    /// Logical owner of the destination holding.
    pub owner: AccountMeta,
    /// Destination token holding, possibly not yet provisioned.
    pub to: AccountMeta,
    /// Token type descriptor.
    pub mint: AccountMeta,
    /// Account-creation capability.
    pub system_program: AccountMeta,
    /// Identifies which token accounting variant governs the transfer.
    pub token_program: AccountMeta,
}

/// The roles that a well-formed account sequence binds to: the first seven
/// entries, in order. Shorter sequences bind to `InvalidAccount`; entries
/// beyond the seventh are ignored.
pub open spec fn spec_bind_accounts(accounts: Seq<AccountMeta>) -> Result<AccountRoles, AppError> {
    if accounts.len() < 7 {
        Err(AppError::InvalidAccount)
    } else {
        Ok(AccountRoles {
            authority: accounts[0],
            from: accounts[1],
            owner: accounts[2],
            to: accounts[3],
            mint: accounts[4],
            system_program: accounts[5],
            token_program: accounts[6],
        })
    }
}

/// Binds the account sequence to the seven named roles, by position alone.
pub fn bind_accounts(accounts: &Vec<AccountMeta>) -> (r: Result<AccountRoles, AppError>)
    ensures
        r == spec_bind_accounts(accounts@),
{
    if accounts.len() < 7 {
        return Err(AppError::InvalidAccount);
    }
    Ok(AccountRoles {
        authority: accounts[0],
        from: accounts[1],
        owner: accounts[2],
        to: accounts[3],
        mint: accounts[4],
        system_program: accounts[5],
        token_program: accounts[6],
    })
}

/// Byte-wise equality of two account identities.
pub fn pubkey_eq(a: &Pubkey, b: &Pubkey) -> (r: bool)
    ensures
        r == (a@ == b@),
{
    let mut i: usize = 0;
    while i < 32
        invariant
            0 <= i <= 32,
            forall|j: int| 0 <= j < i ==> a@[j] == b@[j],
        decreases 32 - i,
    {
        if a[i] != b[i] {
            return false;
        }
        i = i + 1;
    }
    proof {
        assert(a@ =~= b@);
    }
    true
}

} // verus!
