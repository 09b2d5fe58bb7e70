//! Settling funding between the two sides.

use vstd::prelude::*;
use crate::constants::FUNDING_INTERVAL;
use crate::errors::PerpsError;
use crate::math::fixed_point::{calculate_funding_rate, funding_rate_value};
use crate::state::global::{GlobalState, PriceFeed};

verus! {

/// What a funding settlement works on: the protocol and the oracle.
#[derive(Clone, Copy, Debug, PartialEq, Eq)]
pub struct ApplyFunding {
    pub global_state: GlobalState,
    pub price_feed: PriceFeed,
}

/// What `handle_apply_funding` makes of the records, or why it is rejected.
pub open spec fn apply_funding_spec(ctx: ApplyFunding, now: i64) -> Result<
    ApplyFunding,
    PerpsError,
> {
    let global = ctx.global_state;
    let time_elapsed = now - global.last_funding_time;
    if time_elapsed < i64::MIN || time_elapsed > i64::MAX {
        Err(PerpsError::MathOverflow)
    } else if time_elapsed < FUNDING_INTERVAL {
        Err(PerpsError::FundingIntervalNotElapsed)
    } else {
        match ctx.price_feed.price_at(now) {
            Err(e) => Err(e),
            Ok(_) => {
                let rate = funding_rate_value(
                    global.total_long_oi as int,
                    global.total_short_oi as int,
                );
                let long = global.cumulative_funding_rate_long + rate;
                let short = global.cumulative_funding_rate_short - rate;
                if long < i128::MIN || long > i128::MAX || short < i128::MIN || short
                    > i128::MAX {
                    Err(PerpsError::MathOverflow)
                } else {
                    Ok(
                        ApplyFunding {
                            global_state: GlobalState {
                                cumulative_funding_rate_long: long as i128,
                                cumulative_funding_rate_short: short as i128,
                                last_funding_time: now,
                                ..global
                            },
                            ..ctx
                        },
                    )
                }
            },
        }
    }
}

/// Settles funding at time `now`: the funding rate that the open interest of
/// the two sides gives is added to the accumulator of the longs and taken
/// from that of the shorts, and `now` becomes the time of the last
/// settlement. Positions and vaults are not touched.
///
/// Fails, in this order, with
/// - `MathOverflow` when the time since the last settlement does not fit a
///   signed 64-bit number,
/// - `FundingIntervalNotElapsed` when less than the funding interval has
///   passed since the last settlement,
/// - `OracleStale` or `OracleInvalidPrice` when the oracle has no usable
///   price,
/// - `MathOverflow` when an accumulator would not fit 128 bits.
///
/// A failed call changes nothing.
pub fn handle_apply_funding(ctx: &mut ApplyFunding, now: i64) -> (r: Result<(), PerpsError>)
    ensures
        match apply_funding_spec(*old(ctx), now) {
            Ok(next) => r is Ok && *final(ctx) == next,
            Err(e) => r == Err::<(), PerpsError>(e) && *final(ctx) == *old(ctx),
        },
        old(ctx).global_state.wf() ==> final(ctx).global_state.wf(),
{
    let time_elapsed: i64 = match now.checked_sub(ctx.global_state.last_funding_time) {
        Some(elapsed) => elapsed,
        None => {
            return Err(PerpsError::MathOverflow);
        },
    };
    if time_elapsed < FUNDING_INTERVAL {
        return Err(PerpsError::FundingIntervalNotElapsed);
    }
    match ctx.price_feed.current_price(now) {
        Ok(_) => {},
        Err(e) => {
            return Err(e);
        },
    }
    let rate: i64 = match calculate_funding_rate(
        ctx.global_state.total_long_oi,
        ctx.global_state.total_short_oi,
    ) {
        Ok(rate) => rate,
        Err(e) => {
            return Err(e);
        },
    };
    let long: i128 = match ctx.global_state.cumulative_funding_rate_long.checked_add(rate as i128) {
        Some(sum) => sum,
        None => {
            return Err(PerpsError::MathOverflow);
        },
    };
    let short: i128 = match ctx.global_state.cumulative_funding_rate_short.checked_sub(
        rate as i128,
    ) {
        Some(difference) => difference,
        None => {
            return Err(PerpsError::MathOverflow);
        },
    };
    ctx.global_state.cumulative_funding_rate_long = long;
    ctx.global_state.cumulative_funding_rate_short = short;
    ctx.global_state.last_funding_time = now;
    Ok(())
}

} // verus!
