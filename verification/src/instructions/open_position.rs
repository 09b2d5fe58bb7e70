//! Opening a position.

use vstd::prelude::*;
use crate::errors::PerpsError;
use crate::identity::Identity;
use crate::math::fixed_point::{calculate_notional, notional_value};
use crate::state::global::{GlobalState, PriceFeed};
use crate::state::position::{Direction, Position};
use crate::state::vault::UserVault;

verus! {

/// What the caller asks for when opening a position.
#[derive(Clone, Copy, Debug, PartialEq, Eq)]
pub struct OpenPositionParams {
    pub direction: Direction,
    pub size: u64,
    pub leverage: u64,
}

/// What opening a position works on: the caller, their vault, the record that
/// becomes the position, the protocol and the oracle.
#[derive(Clone, Copy, Debug, PartialEq, Eq)]
pub struct OpenPosition {
    pub user: Identity,
    pub user_vault: UserVault,
    pub position: Position,
    pub global_state: GlobalState,
    pub price_feed: PriceFeed,
}

/// Margin that a position of this notional value takes at this leverage.
pub open spec fn required_margin_value(notional: int, leverage: int) -> int
    recommends
        leverage > 0,
{
    notional / leverage
}

/// What `handle_open_position` makes of the records, or why it is rejected.
pub open spec fn open_position_spec(ctx: OpenPosition, params: OpenPositionParams, now: i64)
    -> Result<OpenPosition, PerpsError> {
    if ctx.user_vault.owner != ctx.user {
        Err(PerpsError::Unauthorized)
    } else if ctx.global_state.is_paused {
        Err(PerpsError::ProtocolPaused)
    } else if params.size == 0 {
        Err(PerpsError::ZeroSize)
    } else if params.leverage == 0 || params.leverage > ctx.global_state.max_leverage {
        Err(PerpsError::InvalidLeverage)
    } else {
        match ctx.price_feed.price_at(now) {
            Err(e) => Err(e),
            Ok(price) => {
                let notional = notional_value(params.size as int, price as int);
                let required_margin = required_margin_value(notional, params.leverage as int);
                let open_interest = ctx.global_state.open_interest(params.direction);
                if notional > u64::MAX {
                    Err(PerpsError::MathOverflow)
                } else {
                    match ctx.user_vault.lock_spec(required_margin as u64) {
                        Err(e) => Err(e),
                        Ok(vault) => if open_interest + notional > u64::MAX
                            || ctx.global_state.next_position_id + 1 > u64::MAX {
                            Err(PerpsError::MathOverflow)
                        } else {
                            Ok(
                                OpenPosition {
                                    user_vault: vault,
                                    position: Position {
                                        owner: ctx.user,
                                        position_id: ctx.global_state.next_position_id,
                                        direction: params.direction,
                                        size: params.size,
                                        entry_price: price,
                                        leverage: params.leverage,
                                        margin: required_margin as u64,
                                        last_funding_time: now,
                                        cumulative_funding: 0,
                                        is_open: true,
                                    },
                                    global_state: GlobalState {
                                        next_position_id: (ctx.global_state.next_position_id
                                            + 1) as u64,
                                        ..ctx.global_state.with_open_interest(
                                            params.direction,
                                            (open_interest + notional) as u64,
                                        )
                                    },
                                    ..ctx
                                },
                            )
                        },
                    }
                }
            },
        }
    }
}

/// Opens a position of `params.size` at the oracle's price: its notional
/// value is the size at that price, and its margin the notional value divided
/// by the leverage. The margin is locked in the caller's vault, the notional
/// value is added to the open interest of the position's side, and the
/// position gets the protocol's next number.
///
/// Fails, in this order, with
/// - `Unauthorized` when the vault is not the caller's,
/// - `ProtocolPaused` when the protocol is paused,
/// - `ZeroSize` when the size is zero,
/// - `InvalidLeverage` when the leverage is zero or above the protocol's
///   maximum,
/// - `OracleStale` or `OracleInvalidPrice` when the oracle has no usable
///   price,
/// - `MathOverflow` when the notional value does not fit 64 bits, or the
///   vault has more locked than it holds,
/// - `InsufficientMargin` when the margin is more than the vault has
///   available,
/// - `MathOverflow` when the open interest or the position number would not
///   fit 64 bits.
///
/// A failed call changes nothing.
pub fn handle_open_position(ctx: &mut OpenPosition, params: OpenPositionParams, now: i64) -> (r:
    Result<(), PerpsError>)
    ensures
        match open_position_spec(*old(ctx), params, now) {
            Ok(next) => r is Ok && *final(ctx) == next,
            Err(e) => r == Err::<(), PerpsError>(e) && *final(ctx) == *old(ctx),
        },
        old(ctx).user_vault.wf() ==> final(ctx).user_vault.wf(),
        final(ctx).global_state.wf() == old(ctx).global_state.wf(),
        r is Ok ==> {
            &&& final(ctx).position.is_open
            &&& final(ctx).position.margin == final(ctx).user_vault.locked_margin - old(
                ctx,
            ).user_vault.locked_margin
            &&& final(ctx).user_vault.deposited_amount == old(ctx).user_vault.deposited_amount
            &&& final(ctx).user_vault.available_value() == old(ctx).user_vault.available_value()
                - final(ctx).position.margin
            &&& final(ctx).global_state.next_position_id > final(ctx).position.position_id
        },
{
    if ctx.user_vault.owner != ctx.user {
        return Err(PerpsError::Unauthorized);
    }
    if ctx.global_state.is_paused {
        return Err(PerpsError::ProtocolPaused);
    }
    if params.size == 0 {
        return Err(PerpsError::ZeroSize);
    }
    if params.leverage == 0 || params.leverage > ctx.global_state.max_leverage {
        return Err(PerpsError::InvalidLeverage);
    }
    let price: u64 = match ctx.price_feed.current_price(now) {
        Ok(price) => price,
        Err(e) => {
            return Err(e);
        },
    };
    let notional: u64 = match calculate_notional(params.size, price) {
        Ok(notional) => notional,
        Err(e) => {
            return Err(e);
        },
    };
    let required_margin: u64 = notional / params.leverage;
    let mut vault: UserVault = ctx.user_vault;
    match vault.lock(required_margin) {
        Ok(()) => {},
        Err(e) => {
            return Err(e);
        },
    }
    let open_interest: u64 = match params.direction {
        Direction::Long => ctx.global_state.total_long_oi,
        Direction::Short => ctx.global_state.total_short_oi,
    };
    let open_interest: u64 = match open_interest.checked_add(notional) {
        Some(sum) => sum,
        None => {
            return Err(PerpsError::MathOverflow);
        },
    };
    let position_id: u64 = ctx.global_state.next_position_id;
    let next_position_id: u64 = match position_id.checked_add(1) {
        Some(next) => next,
        None => {
            return Err(PerpsError::MathOverflow);
        },
    };
    ctx.position = Position {
        owner: ctx.user,
        position_id,
        direction: params.direction,
        size: params.size,
        entry_price: price,
        leverage: params.leverage,
        margin: required_margin,
        last_funding_time: now,
        cumulative_funding: 0,
        is_open: true,
    };
    ctx.user_vault = vault;
    match params.direction {
        Direction::Long => {
            ctx.global_state.total_long_oi = open_interest;
        },
        Direction::Short => {
            ctx.global_state.total_short_oi = open_interest;
        },
    }
    ctx.global_state.next_position_id = next_position_id;
    Ok(())
}

} // verus!
