//! Fixed-point scales and protocol-wide parameters.

use vstd::prelude::*;

verus! {

/// Scale of a price: six decimal places.
pub const PRICE_PRECISION: u64 = 1_000_000;

/// Scale of a position size: nine decimal places.
pub const SIZE_PRECISION: u64 = 1_000_000_000;

/// One whole, in basis points.
pub const BPS_PRECISION: u64 = 10_000;

/// Highest leverage a new protocol accepts.
pub const MAX_LEVERAGE: u64 = 50;

/// Margin ratio, in basis points, under which a new protocol lets a position
/// be liquidated.
pub const MAINTENANCE_MARGIN_BPS: u64 = 500;

/// Share of a liquidated position's margin, in basis points, that a new
/// protocol awards to the liquidator.
pub const LIQUIDATION_FEE_BPS: u64 = 50;

/// Age in seconds beyond which an oracle sample is no longer used.
pub const MAX_ORACLE_STALENESS: i64 = 30;

/// Seconds that have to pass between two funding settlements.
pub const FUNDING_INTERVAL: i64 = 3600;

/// Scale of a funding rate: six decimal places.
pub const FUNDING_RATE_PRECISION: u128 = 1_000_000;

} // verus!
