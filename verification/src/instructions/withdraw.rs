//! Debiting collateral from a vault.

use vstd::prelude::*;
use crate::errors::PerpsError;
use crate::identity::Identity;
use crate::state::vault::UserVault;

verus! {

/// What a withdrawal works on: the caller and the vault to take from.
#[derive(Clone, Copy, Debug, PartialEq, Eq)]
pub struct Withdraw {
    pub user: Identity,
    pub user_vault: UserVault,
}

/// What `handle_withdraw` makes of the records, or why it is rejected.
pub open spec fn withdraw_spec(ctx: Withdraw, amount: u64) -> Result<Withdraw, PerpsError> {
    if ctx.user_vault.owner != ctx.user {
        Err(PerpsError::Unauthorized)
    } else {
        match ctx.user_vault.withdraw_spec(amount) {
            Ok(vault) => Ok(Withdraw { user_vault: vault, ..ctx }),
            Err(e) => Err(e),
        }
    }
}

/// Debits `amount` of collateral from the caller's vault. The caller moves
/// the same amount out of custody; the two take effect together. Locked
/// collateral stays where it is.
///
/// Fails with `Unauthorized` when the vault is not the caller's, with
/// `ZeroAmount` when `amount` is zero, with `MathOverflow` when the vault has
/// more locked than it holds, and with `InsufficientBalance` when `amount` is
/// more than is available, in this order. A failed call changes nothing.
pub fn handle_withdraw(ctx: &mut Withdraw, amount: u64) -> (r: Result<(), PerpsError>)
    ensures
        match withdraw_spec(*old(ctx), amount) {
            Ok(next) => r is Ok && *final(ctx) == next,
            Err(e) => r == Err::<(), PerpsError>(e) && *final(ctx) == *old(ctx),
        },
        old(ctx).user_vault.wf() ==> final(ctx).user_vault.wf(),
{
    if ctx.user_vault.owner != ctx.user {
        return Err(PerpsError::Unauthorized);
    }
    let mut vault: UserVault = ctx.user_vault;
    match vault.withdraw(amount) {
        Ok(()) => {},
        Err(e) => {
            return Err(e);
        },
    }
    ctx.user_vault = vault;
    Ok(())
}

} // verus!
