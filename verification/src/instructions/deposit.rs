//! Crediting collateral to a vault.

use vstd::prelude::*;
use crate::errors::PerpsError;
use crate::identity::Identity;
use crate::state::vault::UserVault;

verus! {

/// What a deposit works on: the depositor and their vault. Where the
/// depositor has no vault yet, the caller hands in an empty one.
#[derive(Clone, Copy, Debug, PartialEq, Eq)]
pub struct Deposit {
    pub user: Identity,
    pub user_vault: UserVault,
}

/// What `handle_deposit` makes of the records, or why it is rejected.
pub open spec fn deposit_spec(ctx: Deposit, amount: u64) -> Result<Deposit, PerpsError> {
    match ctx.user_vault.deposit_spec(amount) {
        Ok(vault) => Ok(Deposit { user_vault: UserVault { owner: ctx.user, ..vault }, ..ctx }),
        Err(e) => Err(e),
    }
}

/// Credits `amount` of collateral to the depositor's vault, which from then
/// on is theirs. The caller moves the same amount into custody; the two take
/// effect together.
///
/// Fails with `ZeroAmount` when `amount` is zero, and with `MathOverflow`
/// when the vault cannot hold that much more. A failed call changes nothing.
pub fn handle_deposit(ctx: &mut Deposit, amount: u64) -> (r: Result<(), PerpsError>)
    ensures
        match deposit_spec(*old(ctx), amount) {
            Ok(next) => r is Ok && *final(ctx) == next,
            Err(e) => r == Err::<(), PerpsError>(e) && *final(ctx) == *old(ctx),
        },
        old(ctx).user_vault.wf() ==> final(ctx).user_vault.wf(),
{
    let mut vault: UserVault = ctx.user_vault;
    match vault.deposit(amount) {
        Ok(()) => {},
        Err(e) => {
            return Err(e);
        },
    }
    vault.owner = ctx.user;
    ctx.user_vault = vault;
    Ok(())
}

} // verus!
