//! Positions and their direction.

use vstd::prelude::*;
use crate::errors::PerpsError;
use crate::identity::Identity;
use crate::math::fixed_point::{
    calculate_margin_ratio, calculate_notional, calculate_pnl, checked_i64, checked_u64,
    margin_ratio_value, notional_value, pnl_value,
};

verus! {

/// The side of the market a position is on.
#[derive(Clone, Copy, Debug, PartialEq, Eq, Structural)]
pub enum Direction {
    Long,
    Short,
}

impl Default for Direction {
    fn default() -> (r: Direction)
        ensures
            r == Direction::Long,
    {
        Direction::Long
    }
}

/// One margined position. It is made by opening it, and ends when it is
/// closed or liquidated: a position that is no longer open never changes
/// again, and its number is not given to another.
#[derive(Clone, Copy, Debug, PartialEq, Eq)]
pub struct Position {
    pub owner: Identity,
    /// Number of the position in the order of opening.
    pub position_id: u64,
    pub direction: Direction,
    /// Size in base units, at the scale of sizes.
    pub size: u64,
    /// Oracle price at which the position was opened, at the scale of prices.
    pub entry_price: u64,
    pub leverage: u64,
    /// Collateral committed when the position was opened. While the position
    /// is open, this much is locked in the owner's vault.
    pub margin: u64,
    pub last_funding_time: i64,
    /// Funding accrued and not yet settled.
    pub cumulative_funding: i64,
    pub is_open: bool,
}

impl Position {
    /// Notional value of the position at its entry price.
    pub open spec fn entry_notional_value(&self) -> int {
        notional_value(self.size as int, self.entry_price as int)
    }

    /// Notional value of the position at its entry price: what it added to the
    /// open interest of its side when it was opened.
    ///
    /// Fails with `MathOverflow` exactly when the value does not fit 64 bits.
    pub fn entry_notional(&self) -> (r: Result<u64, PerpsError>)
        ensures
            r == checked_u64(self.entry_notional_value()),
    {
        calculate_notional(self.size, self.entry_price)
    }

    /// Profit or loss of the position at `price`.
    pub open spec fn pnl_at(&self, price: u64) -> int {
        pnl_value(self.direction, self.size as int, self.entry_price as int, price as int)
    }

    /// Profit or loss of the position at `price`.
    ///
    /// Fails with `MathOverflow` exactly when the amount does not fit a
    /// signed 64-bit number.
    pub fn pnl(&self, price: u64) -> (r: Result<i64, PerpsError>)
        ensures
            r == checked_i64(self.pnl_at(price)),
    {
        calculate_pnl(self.direction, self.size, self.entry_price, price)
    }

    /// Margin ratio of the position at `price`, in basis points.
    pub open spec fn margin_ratio_at(&self, price: u64) -> Result<u64, PerpsError> {
        match checked_i64(self.pnl_at(price)) {
            Err(e) => Err(e),
            Ok(pnl) => checked_u64(
                margin_ratio_value(self.margin as int, pnl as int, self.size as int, price as int),
            ),
        }
    }

    /// Margin ratio of the position at `price`, in basis points: its margin
    /// with the profit or loss at that price applied, over its notional value
    /// at that price.
    ///
    /// Fails with `MathOverflow` exactly when the profit or loss does not fit
    /// a signed 64-bit number, or the ratio does not fit 64 bits.
    pub fn margin_ratio(&self, price: u64) -> (r: Result<u64, PerpsError>)
        ensures
            r == self.margin_ratio_at(price),
    {
        match self.pnl(price) {
            Err(e) => Err(e),
            Ok(pnl) => calculate_margin_ratio(self.margin, pnl, self.size, price),
        }
    }
}

impl Default for Position {
    /// An empty record: a long position of size zero that is not open.
    fn default() -> (r: Position)
        ensures
            r == (Position {
                owner: Identity::zero(),
                position_id: 0,
                direction: Direction::Long,
                size: 0,
                entry_price: 0,
                leverage: 0,
                margin: 0,
                last_funding_time: 0,
                cumulative_funding: 0,
                is_open: false,
            }),
    {
        Position {
            owner: Identity::default(),
            position_id: 0,
            direction: Direction::Long,
            size: 0,
            entry_price: 0,
            leverage: 0,
            margin: 0,
            last_funding_time: 0,
            cumulative_funding: 0,
            is_open: false,
        }
    }
}

} // verus!
