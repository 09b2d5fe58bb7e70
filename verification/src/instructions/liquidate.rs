//! Liquidating a position that has fallen under the maintenance margin.

use vstd::prelude::*;
use crate::constants::BPS_PRECISION;
use crate::errors::PerpsError;
use crate::identity::Identity;
use crate::instructions::close_position::reduced_open_interest;
use crate::state::global::{GlobalState, PriceFeed};
use crate::state::position::{Direction, Position};
use crate::state::vault::UserVault;

verus! {

/// What a liquidation works on: the liquidator and their vault (an empty one
/// where they have none yet), the position, the vault of the position's
/// owner, the protocol and the oracle. The two vaults are different records.
#[derive(Clone, Copy, Debug, PartialEq, Eq)]
pub struct Liquidate {
    pub liquidator: Identity,
    pub liquidator_vault: UserVault,
    pub position: Position,
    pub owner_vault: UserVault,
    pub global_state: GlobalState,
    pub price_feed: PriceFeed,
}

/// Whether a position with this margin ratio may be liquidated: only when
/// the ratio is strictly under the maintenance margin.
pub open spec fn liquidatable(margin_ratio: u64, maintenance_margin_bps: u64) -> bool {
    margin_ratio < maintenance_margin_bps
}

/// The liquidator's fee: this many basis points of the margin.
pub open spec fn liquidation_fee_value(margin: int, liquidation_fee_bps: int) -> int {
    margin * liquidation_fee_bps / (BPS_PRECISION as int)
}

/// Margin of a position with the profit or loss applied, not below zero.
pub open spec fn effective_margin_value(margin: int, pnl: int) -> int {
    if margin + pnl >= 0 {
        margin + pnl
    } else {
        0
    }
}

/// What is left of the effective margin for the owner once the fee is taken,
/// not below zero.
pub open spec fn remaining_margin_value(effective_margin: int, fee: int) -> int {
    if fee <= effective_margin {
        effective_margin - fee
    } else {
        0
    }
}

/// Collateral that the owner's vault with `deposited` holds after the
/// liquidation: the margin is replaced by what remains of it. The vault never
/// goes below zero.
pub open spec fn liquidated_amount(deposited: int, margin: int, remaining: int) -> int {
    if remaining >= margin {
        deposited + (remaining - margin)
    } else if margin - remaining <= deposited {
        deposited - (margin - remaining)
    } else {
        0
    }
}

/// What `handle_liquidate` makes of the records, or why it is rejected.
pub open spec fn liquidate_spec(ctx: Liquidate, now: i64) -> Result<Liquidate, PerpsError> {
    if !ctx.position.is_open {
        Err(PerpsError::PositionNotOpen)
    } else {
        match ctx.price_feed.price_at(now) {
            Err(e) => Err(e),
            Ok(price) => match ctx.position.margin_ratio_at(price) {
                Err(e) => Err(e),
                Ok(margin_ratio) => if !liquidatable(
                    margin_ratio,
                    ctx.global_state.maintenance_margin_bps,
                ) {
                    Err(PerpsError::PositionNotLiquidatable)
                } else {
                    let position = ctx.position;
                    let owner = ctx.owner_vault;
                    let margin = position.margin as int;
                    let pnl = position.pnl_at(price);
                    let fee = liquidation_fee_value(
                        margin,
                        ctx.global_state.liquidation_fee_bps as int,
                    );
                    let notional = position.entry_notional_value();
                    let effective_margin = effective_margin_value(margin, pnl);
                    let remaining = remaining_margin_value(effective_margin, fee);
                    let owner_amount = liquidated_amount(
                        owner.deposited_amount as int,
                        margin,
                        remaining,
                    );
                    let open_interest = ctx.global_state.open_interest(position.direction);
                    if fee > u64::MAX || notional > u64::MAX || effective_margin > u64::MAX
                        || margin > owner.locked_margin || owner_amount > u64::MAX
                        || ctx.liquidator_vault.deposited_amount + fee > u64::MAX {
                        Err(PerpsError::MathOverflow)
                    } else {
                        Ok(
                            Liquidate {
                                liquidator_vault: UserVault {
                                    owner: ctx.liquidator,
                                    deposited_amount: (ctx.liquidator_vault.deposited_amount
                                        + fee) as u64,
                                    ..ctx.liquidator_vault
                                },
                                position: Position { is_open: false, ..position },
                                owner_vault: UserVault {
                                    deposited_amount: owner_amount as u64,
                                    locked_margin: (owner.locked_margin - margin) as u64,
                                    ..owner
                                },
                                global_state: ctx.global_state.with_open_interest(
                                    position.direction,
                                    reduced_open_interest(open_interest as int, notional) as u64,
                                ),
                                ..ctx
                            },
                        )
                    }
                },
            },
        }
    }
}

/// Liquidates a position whose margin ratio at the oracle's price is under
/// the protocol's maintenance margin. Anybody may do so.
///
/// The liquidator's fee is the protocol's share of the position's margin, and
/// is credited to the liquidator's vault, which from then on is theirs. The
/// owner is left with the margin after the profit or loss and the fee, not
/// less than nothing: their vault releases the margin from the locked
/// collateral, and holds the difference between the margin and what is left
/// of it less (or more), never going below zero. The position's notional
/// value at its entry price leaves the open interest of its side, and the
/// position is closed for good.
///
/// Fails, in this order, with
/// - `PositionNotOpen` when the position is not open,
/// - `OracleStale` or `OracleInvalidPrice` when the oracle has no usable
///   price,
/// - `MathOverflow` when the profit or loss does not fit a signed 64-bit
///   number, or the margin ratio does not fit 64 bits,
/// - `PositionNotLiquidatable` when the margin ratio is not under the
///   maintenance margin,
/// - `MathOverflow` when the fee, the notional value or the margin with the
///   profit does not fit 64 bits, the owner's vault has less locked than the
///   margin, or one of the vaults cannot hold what it is credited.
///
/// A failed call changes nothing.
pub fn handle_liquidate(ctx: &mut Liquidate, now: i64) -> (r: Result<(), PerpsError>)
    ensures
        match liquidate_spec(*old(ctx), now) {
            Ok(next) => r is Ok && *final(ctx) == next,
            Err(e) => r == Err::<(), PerpsError>(e) && *final(ctx) == *old(ctx),
        },
        old(ctx).owner_vault.wf() ==> final(ctx).owner_vault.wf(),
        old(ctx).liquidator_vault.wf() ==> final(ctx).liquidator_vault.wf(),
        final(ctx).global_state.wf() == old(ctx).global_state.wf(),
        !old(ctx).position.is_open ==> r is Err,
        r is Ok ==> !final(ctx).position.is_open,
{
    if !ctx.position.is_open {
        return Err(PerpsError::PositionNotOpen);
    }
    let price: u64 = match ctx.price_feed.current_price(now) {
        Ok(price) => price,
        Err(e) => {
            return Err(e);
        },
    };
    let position: Position = ctx.position;
    let pnl: i64 = match position.pnl(price) {
        Ok(pnl) => pnl,
        Err(e) => {
            return Err(e);
        },
    };
    let margin_ratio: u64 = match position.margin_ratio(price) {
        Ok(margin_ratio) => margin_ratio,
        Err(e) => {
            return Err(e);
        },
    };
    if margin_ratio >= ctx.global_state.maintenance_margin_bps {
        return Err(PerpsError::PositionNotLiquidatable);
    }
    let margin: u64 = position.margin;
    let fee: u64 = match liquidation_fee(margin, ctx.global_state.liquidation_fee_bps) {
        Ok(fee) => fee,
        Err(e) => {
            return Err(e);
        },
    };
    let notional: u64 = match position.entry_notional() {
        Ok(notional) => notional,
        Err(e) => {
            return Err(e);
        },
    };
    let effective_margin: u64 = if pnl >= 0 {
        match margin.checked_add(pnl as u64) {
            Some(sum) => sum,
            None => {
                return Err(PerpsError::MathOverflow);
            },
        }
    } else {
        let loss: u64 = (-(pnl as i128)) as u64;
        margin.saturating_sub(loss)
    };
    let remaining: u64 = effective_margin.saturating_sub(fee);
    let mut owner_vault: UserVault = ctx.owner_vault;
    match owner_vault.unlock(margin) {
        Ok(()) => {},
        Err(e) => {
            return Err(e);
        },
    }
    if remaining >= margin {
        match owner_vault.deposited_amount.checked_add(remaining - margin) {
            Some(sum) => {
                owner_vault.deposited_amount = sum;
            },
            None => {
                return Err(PerpsError::MathOverflow);
            },
        }
    } else {
        owner_vault.deposited_amount = owner_vault.deposited_amount.saturating_sub(
            margin - remaining,
        );
    }
    let mut liquidator_vault: UserVault = ctx.liquidator_vault;
    liquidator_vault.owner = ctx.liquidator;
    match liquidator_vault.deposited_amount.checked_add(fee) {
        Some(sum) => {
            liquidator_vault.deposited_amount = sum;
        },
        None => {
            return Err(PerpsError::MathOverflow);
        },
    }
    ctx.owner_vault = owner_vault;
    ctx.liquidator_vault = liquidator_vault;
    match position.direction {
        Direction::Long => {
            ctx.global_state.total_long_oi = ctx.global_state.total_long_oi.saturating_sub(
                notional,
            );
        },
        Direction::Short => {
            ctx.global_state.total_short_oi = ctx.global_state.total_short_oi.saturating_sub(
                notional,
            );
        },
    }
    ctx.position.is_open = false;
    Ok(())
}

/// The liquidator's fee on a position with this margin.
///
/// Fails with `MathOverflow` exactly when the fee does not fit 64 bits.
pub fn liquidation_fee(margin: u64, liquidation_fee_bps: u64) -> (r: Result<u64, PerpsError>)
    ensures
        r == crate::math::fixed_point::checked_u64(
            liquidation_fee_value(margin as int, liquidation_fee_bps as int),
        ),
{
    assert(0 <= margin * liquidation_fee_bps <= 0xffff_ffff_ffff_ffff * 0xffff_ffff_ffff_ffff)
        by (nonlinear_arith)
        requires
            0 <= margin <= 0xffff_ffff_ffff_ffff,
            0 <= liquidation_fee_bps <= 0xffff_ffff_ffff_ffff,
    ;
    let fee: u128 = (margin as u128) * (liquidation_fee_bps as u128) / (BPS_PRECISION as u128);
    if fee > 0xffff_ffff_ffff_ffff {
        Err(PerpsError::MathOverflow)
    } else {
        Ok(fee as u64)
    }
}

/// A position whose margin ratio is exactly the maintenance margin cannot be
/// liquidated; one whose ratio is one basis point under it can. In general a
/// liquidation is rejected with `PositionNotLiquidatable` exactly when the
/// ratio is not under the maintenance margin.
pub proof fn lemma_liquidation_threshold(ctx: Liquidate, now: i64, price: u64, margin_ratio: u64)
    requires
        ctx.position.is_open,
        ctx.price_feed.price_at(now) == Ok::<u64, PerpsError>(price),
        ctx.position.margin_ratio_at(price) == Ok::<u64, PerpsError>(margin_ratio),
    ensures
        margin_ratio >= ctx.global_state.maintenance_margin_bps <==> liquidate_spec(ctx, now)
            == Err::<Liquidate, PerpsError>(PerpsError::PositionNotLiquidatable),
        margin_ratio == ctx.global_state.maintenance_margin_bps ==> !liquidatable(
            margin_ratio,
            ctx.global_state.maintenance_margin_bps,
        ),
        margin_ratio == ctx.global_state.maintenance_margin_bps - 1 ==> liquidatable(
            margin_ratio,
            ctx.global_state.maintenance_margin_bps,
        ),
{
}

} // verus!
