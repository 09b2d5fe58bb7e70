//! Setting up the protocol and its oracle.

use vstd::prelude::*;
use crate::constants::{LIQUIDATION_FEE_BPS, MAINTENANCE_MARGIN_BPS, MAX_LEVERAGE};
use crate::errors::PerpsError;
use crate::identity::Identity;
use crate::state::global::{GlobalState, PriceFeed};

verus! {

/// What setting up the protocol works on: who will run it, the collateral
/// asset and the treasury, and the two records to fill in.
#[derive(Clone, Copy, Debug, PartialEq, Eq)]
pub struct Initialize {
    pub authority: Identity,
    pub usdc_mint: Identity,
    pub treasury: Identity,
    pub global_state: GlobalState,
    pub price_feed: PriceFeed,
}

/// The protocol as it is set up at time `now`: no open interest, no funding
/// accrued, the default risk parameters, not paused.
pub open spec fn initial_global_state(
    authority: Identity,
    usdc_mint: Identity,
    treasury: Identity,
    now: i64,
) -> GlobalState {
    GlobalState {
        authority,
        usdc_mint,
        treasury,
        total_long_oi: 0,
        total_short_oi: 0,
        last_funding_time: now,
        cumulative_funding_rate_long: 0,
        cumulative_funding_rate_short: 0,
        max_leverage: MAX_LEVERAGE,
        maintenance_margin_bps: MAINTENANCE_MARGIN_BPS,
        liquidation_fee_bps: LIQUIDATION_FEE_BPS,
        next_position_id: 0,
        is_paused: false,
    }
}

/// The oracle as it is set up: no price published yet.
pub open spec fn initial_price_feed(authority: Identity) -> PriceFeed {
    PriceFeed { authority, price: 0, timestamp: 0 }
}

/// What `handle_initialize` makes of the records. It is never rejected.
pub open spec fn initialize_spec(ctx: Initialize, now: i64) -> Result<Initialize, PerpsError> {
    Ok(
        Initialize {
            global_state: initial_global_state(ctx.authority, ctx.usdc_mint, ctx.treasury, now),
            price_feed: initial_price_feed(ctx.authority),
            ..ctx
        },
    )
}

/// Sets up the protocol and its oracle, both run by `ctx.authority`. Whatever
/// the two records held before is replaced. It always succeeds.
pub fn handle_initialize(ctx: &mut Initialize, now: i64) -> (r: Result<(), PerpsError>)
    ensures
        match initialize_spec(*old(ctx), now) {
            Ok(next) => r is Ok && *final(ctx) == next,
            Err(e) => r == Err::<(), PerpsError>(e) && *final(ctx) == *old(ctx),
        },
        r is Ok,
        final(ctx).global_state.wf(),
{
    ctx.global_state = GlobalState {
        authority: ctx.authority,
        usdc_mint: ctx.usdc_mint,
        treasury: ctx.treasury,
        total_long_oi: 0,
        total_short_oi: 0,
        last_funding_time: now,
        cumulative_funding_rate_long: 0,
        cumulative_funding_rate_short: 0,
        max_leverage: MAX_LEVERAGE,
        maintenance_margin_bps: MAINTENANCE_MARGIN_BPS,
        liquidation_fee_bps: LIQUIDATION_FEE_BPS,
        next_position_id: 0,
        is_paused: false,
    };
    ctx.price_feed = PriceFeed { authority: ctx.authority, price: 0, timestamp: 0 };
    Ok(())
}

} // verus!
