//! The protocol's own record and the price oracle.

use vstd::prelude::*;
use crate::constants::MAX_ORACLE_STALENESS;
use crate::errors::PerpsError;
use crate::identity::Identity;
use crate::state::position::Direction;

verus! {

/// The protocol's single record: who runs it, what it accepts as collateral,
/// the open interest of both sides, the funding accumulators, the risk
/// parameters, and the number that the next position gets.
#[derive(Clone, Copy, Debug, PartialEq, Eq)]
pub struct GlobalState {
    pub authority: Identity,
    /// The collateral asset.
    pub usdc_mint: Identity,
    /// Where the collateral is kept.
    pub treasury: Identity,
    /// Notional value of all open long positions.
    pub total_long_oi: u64,
    /// Notional value of all open short positions.
    pub total_short_oi: u64,
    pub last_funding_time: i64,
    pub cumulative_funding_rate_long: i128,
    /// Always the opposite of `cumulative_funding_rate_long`.
    pub cumulative_funding_rate_short: i128,
    pub max_leverage: u64,
    pub maintenance_margin_bps: u64,
    pub liquidation_fee_bps: u64,
    pub next_position_id: u64,
    /// While set, no position can be opened.
    pub is_paused: bool,
}

impl GlobalState {
    /// The two funding accumulators mirror each other.
    pub open spec fn wf(&self) -> bool {
        self.cumulative_funding_rate_long == -self.cumulative_funding_rate_short
    }

    /// Open interest of the given side.
    pub open spec fn open_interest(&self, direction: Direction) -> u64 {
        match direction {
            Direction::Long => self.total_long_oi,
            Direction::Short => self.total_short_oi,
        }
    }

    /// This record with the open interest of the given side set to `value`.
    pub open spec fn with_open_interest(self, direction: Direction, value: u64) -> GlobalState {
        match direction {
            Direction::Long => GlobalState { total_long_oi: value, ..self },
            Direction::Short => GlobalState { total_short_oi: value, ..self },
        }
    }
}

impl Default for GlobalState {
    /// An empty record: no authority, no open interest, all parameters zero.
    fn default() -> (r: GlobalState)
        ensures
            r == (GlobalState {
                authority: Identity::zero(),
                usdc_mint: Identity::zero(),
                treasury: Identity::zero(),
                total_long_oi: 0,
                total_short_oi: 0,
                last_funding_time: 0,
                cumulative_funding_rate_long: 0,
                cumulative_funding_rate_short: 0,
                max_leverage: 0,
                maintenance_margin_bps: 0,
                liquidation_fee_bps: 0,
                next_position_id: 0,
                is_paused: false,
            }),
            r.wf(),
    {
        GlobalState {
            authority: Identity::default(),
            usdc_mint: Identity::default(),
            treasury: Identity::default(),
            total_long_oi: 0,
            total_short_oi: 0,
            last_funding_time: 0,
            cumulative_funding_rate_long: 0,
            cumulative_funding_rate_short: 0,
            max_leverage: 0,
            maintenance_margin_bps: 0,
            liquidation_fee_bps: 0,
            next_position_id: 0,
            is_paused: false,
        }
    }
}

/// The price oracle: the last price that its authority published, and when.
/// Only the latest sample is kept.
#[derive(Clone, Copy, Debug, PartialEq, Eq)]
pub struct PriceFeed {
    pub authority: Identity,
    /// Price at the scale of prices. Zero is no price.
    pub price: u64,
    /// When the price was published, in seconds.
    pub timestamp: i64,
}

impl PriceFeed {
    /// The price that an operation at time `now` works with: the sample, if
    /// it is no older than the staleness limit and is not zero.
    pub open spec fn price_at(&self, now: i64) -> Result<u64, PerpsError> {
        if now - self.timestamp > MAX_ORACLE_STALENESS {
            Err(PerpsError::OracleStale)
        } else if self.price == 0 {
            Err(PerpsError::OracleInvalidPrice)
        } else {
            Ok(self.price)
        }
    }

    /// The price that an operation at time `now` works with.
    ///
    /// Fails with `OracleStale` when the sample is older than the staleness
    /// limit, and else with `OracleInvalidPrice` when the price is zero.
    pub fn current_price(&self, now: i64) -> (r: Result<u64, PerpsError>)
        ensures
            r == self.price_at(now),
            r matches Ok(price) ==> price > 0,
    {
        let age: i128 = (now as i128) - (self.timestamp as i128);
        if age > MAX_ORACLE_STALENESS as i128 {
            Err(PerpsError::OracleStale)
        } else if self.price == 0 {
            Err(PerpsError::OracleInvalidPrice)
        } else {
            Ok(self.price)
        }
    }
}

impl Default for PriceFeed {
    /// An oracle that has no authority and has not published a price.
    fn default() -> (r: PriceFeed)
        ensures
            r == (PriceFeed { authority: Identity::zero(), price: 0, timestamp: 0 }),
    {
        PriceFeed { authority: Identity::default(), price: 0, timestamp: 0 }
    }
}

} // verus!
