//! Closing a position.

use vstd::prelude::*;
use crate::errors::PerpsError;
use crate::identity::Identity;
use crate::state::global::{GlobalState, PriceFeed};
use crate::state::position::{Direction, Position};
use crate::state::vault::UserVault;

verus! {

/// What closing a position works on: the caller, their vault, the position,
/// the protocol and the oracle.
#[derive(Clone, Copy, Debug, PartialEq, Eq)]
pub struct ClosePosition {
    pub user: Identity,
    pub user_vault: UserVault,
    pub position: Position,
    pub global_state: GlobalState,
    pub price_feed: PriceFeed,
}

/// Collateral that a vault with `deposited` holds once a position with this
/// margin has been settled with this profit or loss. A profit is added. Of a
/// loss the vault bears what the margin covers, and never more than it holds.
pub open spec fn settled_amount(deposited: int, margin: int, pnl: int) -> int {
    if pnl >= 0 {
        deposited + pnl
    } else {
        let loss = if -pnl < margin {
            -pnl
        } else {
            margin
        };
        if loss <= deposited {
            deposited - loss
        } else {
            0
        }
    }
}

/// Open interest left when a position of this notional value leaves it: never
/// below zero.
pub open spec fn reduced_open_interest(open_interest: int, notional: int) -> int {
    if notional <= open_interest {
        open_interest - notional
    } else {
        0
    }
}

/// What `handle_close_position` makes of the records, or why it is rejected.
pub open spec fn close_position_spec(ctx: ClosePosition, now: i64) -> Result<
    ClosePosition,
    PerpsError,
> {
    if ctx.user_vault.owner != ctx.user || ctx.position.owner != ctx.user {
        Err(PerpsError::Unauthorized)
    } else if !ctx.position.is_open {
        Err(PerpsError::PositionNotOpen)
    } else {
        match ctx.price_feed.price_at(now) {
            Err(e) => Err(e),
            Ok(price) => {
                let position = ctx.position;
                let vault = ctx.user_vault;
                let pnl = position.pnl_at(price);
                let notional = position.entry_notional_value();
                let settled = settled_amount(
                    vault.deposited_amount as int,
                    position.margin as int,
                    pnl,
                );
                let open_interest = ctx.global_state.open_interest(position.direction);
                if pnl < i64::MIN || pnl > i64::MAX || notional > u64::MAX || position.margin
                    > vault.locked_margin || settled > u64::MAX {
                    Err(PerpsError::MathOverflow)
                } else {
                    Ok(
                        ClosePosition {
                            user_vault: UserVault {
                                deposited_amount: settled as u64,
                                locked_margin: (vault.locked_margin - position.margin) as u64,
                                ..vault
                            },
                            position: Position { is_open: false, ..position },
                            global_state: ctx.global_state.with_open_interest(
                                position.direction,
                                reduced_open_interest(open_interest as int, notional) as u64,
                            ),
                            ..ctx
                        },
                    )
                }
            },
        }
    }
}

/// Closes the caller's position at the oracle's price. The margin is
/// released from the locked collateral. A profit is credited to the vault; of
/// a loss the vault bears what the margin covers. The position's notional
/// value at its entry price leaves the open interest of its side, and the
/// position is closed for good.
///
/// Fails, in this order, with
/// - `Unauthorized` when the vault or the position is not the caller's,
/// - `PositionNotOpen` when the position is not open,
/// - `OracleStale` or `OracleInvalidPrice` when the oracle has no usable
///   price,
/// - `MathOverflow` when the profit or loss does not fit a signed 64-bit
///   number, the notional value does not fit 64 bits, the vault has less
///   locked than the margin, or cannot hold the profit.
///
/// A failed call changes nothing.
pub fn handle_close_position(ctx: &mut ClosePosition, now: i64) -> (r: Result<(), PerpsError>)
    ensures
        match close_position_spec(*old(ctx), now) {
            Ok(next) => r is Ok && *final(ctx) == next,
            Err(e) => r == Err::<(), PerpsError>(e) && *final(ctx) == *old(ctx),
        },
        old(ctx).user_vault.wf() ==> final(ctx).user_vault.wf(),
        final(ctx).global_state.wf() == old(ctx).global_state.wf(),
        !old(ctx).position.is_open ==> r is Err,
        r is Ok ==> !final(ctx).position.is_open,
{
    if ctx.user_vault.owner != ctx.user || ctx.position.owner != ctx.user {
        return Err(PerpsError::Unauthorized);
    }
    if !ctx.position.is_open {
        return Err(PerpsError::PositionNotOpen);
    }
    let price: u64 = match ctx.price_feed.current_price(now) {
        Ok(price) => price,
        Err(e) => {
            return Err(e);
        },
    };
    let position: Position = ctx.position;
    let pnl: i64 = match position.pnl(price) {
        Ok(pnl) => pnl,
        Err(e) => {
            return Err(e);
        },
    };
    let notional: u64 = match position.entry_notional() {
        Ok(notional) => notional,
        Err(e) => {
            return Err(e);
        },
    };
    let mut vault: UserVault = ctx.user_vault;
    match vault.unlock(position.margin) {
        Ok(()) => {},
        Err(e) => {
            return Err(e);
        },
    }
    if pnl >= 0 {
        match vault.deposited_amount.checked_add(pnl as u64) {
            Some(sum) => {
                vault.deposited_amount = sum;
            },
            None => {
                return Err(PerpsError::MathOverflow);
            },
        }
    } else {
        let loss: u64 = (-(pnl as i128)) as u64;
        let borne: u64 = if loss < position.margin {
            loss
        } else {
            position.margin
        };
        vault.deposited_amount = vault.deposited_amount.saturating_sub(borne);
    }
    ctx.user_vault = vault;
    match position.direction {
        Direction::Long => {
            ctx.global_state.total_long_oi = ctx.global_state.total_long_oi.saturating_sub(
                notional,
            );
        },
        Direction::Short => {
            ctx.global_state.total_short_oi = ctx.global_state.total_short_oi.saturating_sub(
                notional,
            );
        },
    }
    ctx.position.is_open = false;
    Ok(())
}

} // verus!
