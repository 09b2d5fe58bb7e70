//! Publishing a price.

use vstd::prelude::*;
use crate::errors::PerpsError;
use crate::identity::Identity;
use crate::state::global::{GlobalState, PriceFeed};

verus! {

/// What publishing a price works on: the caller, the protocol (for its
/// authority) and the oracle.
#[derive(Clone, Copy, Debug, PartialEq, Eq)]
pub struct SetPrice {
    pub authority: Identity,
    pub global_state: GlobalState,
    pub price_feed: PriceFeed,
}

/// What `handle_set_price` makes of the records, or why it is rejected.
pub open spec fn set_price_spec(ctx: SetPrice, price: u64, now: i64) -> Result<
    SetPrice,
    PerpsError,
> {
    if ctx.global_state.authority != ctx.authority {
        Err(PerpsError::Unauthorized)
    } else if price == 0 {
        Err(PerpsError::InvalidParameter)
    } else {
        Ok(SetPrice { price_feed: PriceFeed { price, timestamp: now, ..ctx.price_feed }, ..ctx })
    }
}

/// Publishes `price` as the oracle's sample of time `now`, replacing the one
/// before.
///
/// Fails with `Unauthorized` when the caller is not the protocol's authority,
/// and else with `InvalidParameter` when `price` is zero. A failed call
/// changes nothing.
pub fn handle_set_price(ctx: &mut SetPrice, price: u64, now: i64) -> (r: Result<(), PerpsError>)
    ensures
        match set_price_spec(*old(ctx), price, now) {
            Ok(next) => r is Ok && *final(ctx) == next,
            Err(e) => r == Err::<(), PerpsError>(e) && *final(ctx) == *old(ctx),
        },
        r is Ok ==> final(ctx).price_feed.price_at(now) == Ok::<u64, PerpsError>(price),
{
    if ctx.global_state.authority != ctx.authority {
        return Err(PerpsError::Unauthorized);
    }
    if price == 0 {
        return Err(PerpsError::InvalidParameter);
    }
    ctx.price_feed.price = price;
    ctx.price_feed.timestamp = now;
    Ok(())
}

} // verus!
