//! Fixed-point formulas: notional value, profit and loss, margin ratio,
//! liquidation price and funding.
//!
//! Magnitudes are unsigned 64-bit integers; intermediate products are taken in
//! 128 bits. Every quotient is rounded toward zero. A result that does not fit
//! the type it is returned in is an error, never a wrapped or clamped number.

use vstd::prelude::*;
use vstd::arithmetic::div_mod::{lemma_div_is_ordered, lemma_div_multiples_vanish};
use crate::constants::{BPS_PRECISION, FUNDING_INTERVAL, FUNDING_RATE_PRECISION, SIZE_PRECISION};
use crate::errors::PerpsError;
use crate::state::position::Direction;

verus! {

/// The quotient of `a` by a positive `b`, rounded toward zero.
pub open spec fn div_toward_zero(a: int, b: int) -> int
    recommends
        b > 0,
{
    if a >= 0 {
        a / b
    } else {
        -((-a) / b)
    }
}

/// `v` as an unsigned 64-bit number, where it is one.
pub open spec fn checked_u64(v: int) -> Result<u64, PerpsError> {
    if 0 <= v <= u64::MAX {
        Ok(v as u64)
    } else {
        Err(PerpsError::MathOverflow)
    }
}

/// `v` as a signed 64-bit number, where it is one.
pub open spec fn checked_i64(v: int) -> Result<i64, PerpsError> {
    if i64::MIN <= v <= i64::MAX {
        Ok(v as i64)
    } else {
        Err(PerpsError::MathOverflow)
    }
}

/// Value in collateral units of `size` base units at `price`.
pub open spec fn notional_value(size: int, price: int) -> int {
    size * price / (SIZE_PRECISION as int)
}

/// Profit (positive) or loss (negative) of a position of `size` entered at
/// `entry_price`, valued at `current_price`.
pub open spec fn pnl_value(
    direction: Direction,
    size: int,
    entry_price: int,
    current_price: int,
) -> int {
    let long = div_toward_zero((current_price - entry_price) * size, SIZE_PRECISION as int);
    match direction {
        Direction::Long => long,
        Direction::Short => -long,
    }
}

/// Margin left in a position, in basis points of its notional value at
/// `current_price`. Zero where no margin is left or the notional value is zero.
pub open spec fn margin_ratio_value(margin: int, pnl: int, size: int, current_price: int) -> int {
    let effective_margin = margin + pnl;
    let notional = notional_value(size, current_price);
    if effective_margin <= 0 || notional == 0 {
        0
    } else {
        effective_margin * (BPS_PRECISION as int) / notional
    }
}

/// Price at which the loss of a position uses up its whole margin. For a long
/// position it is not below zero.
pub open spec fn liquidation_price_value(
    direction: Direction,
    entry_price: int,
    margin: int,
    size: int,
) -> int
    recommends
        size > 0,
{
    let margin_per_unit = margin * (SIZE_PRECISION as int) / size;
    match direction {
        Direction::Long => if margin_per_unit <= entry_price {
            entry_price - margin_per_unit
        } else {
            0
        },
        Direction::Short => entry_price + margin_per_unit,
    }
}

/// Funding rate for the given open interest of the two sides: their imbalance
/// as a share of the whole. Positive where longs pay shorts.
pub open spec fn funding_rate_value(long_oi: int, short_oi: int) -> int {
    if long_oi + short_oi == 0 {
        0
    } else {
        div_toward_zero((long_oi - short_oi) * (FUNDING_RATE_PRECISION as int), long_oi + short_oi)
    }
}

/// Funding owed by a position of `size` over `time_elapsed` seconds at `rate`.
/// Positive where the position pays, negative where it receives.
pub open spec fn funding_payment_value(
    size: int,
    direction: Direction,
    rate: int,
    time_elapsed: int,
) -> int {
    let signed_rate = match direction {
        Direction::Long => rate,
        Direction::Short => -rate,
    };
    div_toward_zero(
        size * signed_rate * time_elapsed,
        (FUNDING_INTERVAL as int) * (FUNDING_RATE_PRECISION as int),
    )
}

proof fn lemma_u64_product_fits(a: u64, b: u64)
    ensures
        0 <= a * b <= 0xffff_ffff_ffff_fffe_0000_0000_0000_0001,
{
    assert(0 <= a * b <= 0xffff_ffff_ffff_ffff * 0xffff_ffff_ffff_ffff) by (nonlinear_arith)
        requires
            0 <= a <= 0xffff_ffff_ffff_ffff,
            0 <= b <= 0xffff_ffff_ffff_ffff,
    ;
}

/// A product is the product of the magnitudes, with the sign that the signs of
/// the factors give.
proof fn lemma_mul_sign(a: int, b: int)
    ensures
        (a >= 0 && b >= 0) || (a <= 0 && b <= 0) ==> a * b == vstd::math::abs(a) * vstd::math::abs(
            b,
        ),
        (a >= 0 && b <= 0) || (a <= 0 && b >= 0) ==> a * b == -(vstd::math::abs(a)
            * vstd::math::abs(b)),
{
    assert((-a) * b == -(a * b)) by (nonlinear_arith);
    assert(a * (-b) == -(a * b)) by (nonlinear_arith);
    assert((-a) * (-b) == a * b) by (nonlinear_arith);
}

/// The signed number with the given sign and magnitude.
fn signed_i64(positive: bool, magnitude: u128) -> (r: Result<i64, PerpsError>)
    ensures
        r == checked_i64(
            if positive {
                magnitude as int
            } else {
                -(magnitude as int)
            },
        ),
{
    if positive {
        if magnitude > 0x7fff_ffff_ffff_ffff {
            Err(PerpsError::MathOverflow)
        } else {
            Ok(magnitude as i64)
        }
    } else {
        if magnitude > 0x8000_0000_0000_0000 {
            Err(PerpsError::MathOverflow)
        } else {
            let wide: i128 = -(magnitude as i128);
            Ok(wide as i64)
        }
    }
}

/// Notional value of `size` at `price`.
///
/// Fails with `MathOverflow` exactly when the value does not fit 64 bits.
pub fn calculate_notional(size: u64, price: u64) -> (r: Result<u64, PerpsError>)
    ensures
        r == checked_u64(notional_value(size as int, price as int)),
{
    proof {
        lemma_u64_product_fits(size, price);
    }
    let product: u128 = (size as u128) * (price as u128);
    let notional: u128 = product / (SIZE_PRECISION as u128);
    if notional > 0xffff_ffff_ffff_ffff {
        Err(PerpsError::MathOverflow)
    } else {
        Ok(notional as u64)
    }
}

/// Profit or loss of a position, in collateral units: the price move times
/// the size for a long position, the opposite for a short one. Positive where
/// the owner gains.
///
/// Fails with `MathOverflow` exactly when the amount does not fit a signed
/// 64-bit number.
pub fn calculate_pnl(direction: Direction, size: u64, entry_price: u64, current_price: u64) -> (r:
    Result<i64, PerpsError>)
    ensures
        r == checked_i64(
            pnl_value(direction, size as int, entry_price as int, current_price as int),
        ),
{
    let rising: bool = current_price >= entry_price;
    let price_move: u64 = if rising {
        current_price - entry_price
    } else {
        entry_price - current_price
    };
    proof {
        lemma_u64_product_fits(price_move, size);
    }
    let product: u128 = (price_move as u128) * (size as u128);
    let magnitude: u128 = product / (SIZE_PRECISION as u128);
    let gains: bool = match direction {
        Direction::Long => rising,
        Direction::Short => !rising,
    };
    proof {
        let signed_move = current_price as int - entry_price as int;
        let long = div_toward_zero(signed_move * size, SIZE_PRECISION as int);
        lemma_mul_sign(signed_move, size as int);
        assert(long == if rising {
            magnitude as int
        } else {
            -(magnitude as int)
        });
    }
    signed_i64(gains, magnitude)
}

/// Margin ratio of a position in basis points: its margin with the profit or
/// loss applied, over its notional value at `current_price`. Zero where no
/// margin is left, or where the notional value is zero.
///
/// Fails with `MathOverflow` exactly when the ratio does not fit 64 bits.
pub fn calculate_margin_ratio(margin: u64, pnl: i64, size: u64, current_price: u64) -> (r: Result<
    u64,
    PerpsError,
>)
    ensures
        r == checked_u64(
            margin_ratio_value(margin as int, pnl as int, size as int, current_price as int),
        ),
{
    let effective_margin: i128 = (margin as i128) + (pnl as i128);
    if effective_margin <= 0 {
        return Ok(0);
    }
    proof {
        lemma_u64_product_fits(size, current_price);
    }
    let notional: u128 = (size as u128) * (current_price as u128) / (SIZE_PRECISION as u128);
    if notional == 0 {
        return Ok(0);
    }
    let ratio: u128 = (effective_margin as u128) * (BPS_PRECISION as u128) / notional;
    if ratio > 0xffff_ffff_ffff_ffff {
        Err(PerpsError::MathOverflow)
    } else {
        Ok(ratio as u64)
    }
}

/// Price at which a position's margin is used up: the entry price less the
/// margin per unit of size for a long position (zero where that would be
/// negative), the entry price plus it for a short one.
///
/// Fails with `MathOverflow` when `size` is zero, and otherwise exactly when
/// the price does not fit 64 bits.
pub fn calculate_liquidation_price(direction: Direction, entry_price: u64, margin: u64, size: u64)
    -> (r: Result<u64, PerpsError>)
    ensures
        size == 0 ==> r == Err::<u64, PerpsError>(PerpsError::MathOverflow),
        size > 0 ==> r == checked_u64(
            liquidation_price_value(direction, entry_price as int, margin as int, size as int),
        ),
{
    if size == 0 {
        return Err(PerpsError::MathOverflow);
    }
    proof {
        lemma_u64_product_fits(margin, SIZE_PRECISION);
    }
    let margin_per_unit: u128 = (margin as u128) * (SIZE_PRECISION as u128) / (size as u128);
    match direction {
        Direction::Long => {
            if margin_per_unit <= entry_price as u128 {
                Ok((entry_price as u128 - margin_per_unit) as u64)
            } else {
                Ok(0)
            }
        },
        Direction::Short => {
            let price: u128 = (entry_price as u128) + margin_per_unit;
            if price > 0xffff_ffff_ffff_ffff {
                Err(PerpsError::MathOverflow)
            } else {
                Ok(price as u64)
            }
        },
    }
}

/// Funding rate for the open interest of the two sides: their difference over
/// their sum, at the scale of funding rates. Zero where both are zero;
/// positive where longs pay shorts. It never fails, and the rate is never
/// beyond one whole either way.
pub fn calculate_funding_rate(long_oi: u64, short_oi: u64) -> (r: Result<i64, PerpsError>)
    ensures
        r == Ok::<i64, PerpsError>(funding_rate_value(long_oi as int, short_oi as int) as i64),
        -(FUNDING_RATE_PRECISION as int) <= funding_rate_value(long_oi as int, short_oi as int)
            <= FUNDING_RATE_PRECISION as int,
{
    let total_oi: u128 = (long_oi as u128) + (short_oi as u128);
    if total_oi == 0 {
        return Ok(0);
    }
    let longs_heavier: bool = long_oi >= short_oi;
    let imbalance: u64 = if longs_heavier {
        long_oi - short_oi
    } else {
        short_oi - long_oi
    };
    let scaled: u128 = (imbalance as u128) * FUNDING_RATE_PRECISION;
    let magnitude: u128 = scaled / total_oi;
    proof {
        let total = total_oi as int;
        let unit = FUNDING_RATE_PRECISION as int;
        assert(scaled <= unit * total) by (nonlinear_arith)
            requires
                scaled == imbalance * unit,
                imbalance <= total,
                unit >= 0,
        ;
        lemma_div_is_ordered(scaled as int, unit * total, total);
        lemma_div_multiples_vanish(unit, total);
        assert(magnitude <= unit);
    }
    if longs_heavier {
        Ok(magnitude as i64)
    } else {
        let wide: i128 = -(magnitude as i128);
        Ok(wide as i64)
    }
}

/// Funding owed by a position over `time_elapsed` seconds: its size times the
/// rate (taken with the opposite sign for a short position) times the share
/// of the funding interval that has passed. Positive where the position pays.
/// Zero where the rate or the time is zero.
///
/// Fails with `MathOverflow` exactly when the amount does not fit a signed
/// 64-bit number.
pub fn calculate_funding_payment(size: u64, direction: Direction, rate: i64, time_elapsed: i64)
    -> (r: Result<i64, PerpsError>)
    ensures
        r == checked_i64(
            funding_payment_value(size as int, direction, rate as int, time_elapsed as int),
        ),
        rate == 0 || time_elapsed == 0 ==> r == Ok::<i64, PerpsError>(0),
{
    let ghost signed_rate: int = match direction {
        Direction::Long => rate as int,
        Direction::Short => -(rate as int),
    };
    let ghost exact: int = size * signed_rate * time_elapsed;
    let ghost period: int = (FUNDING_INTERVAL as int) * (FUNDING_RATE_PRECISION as int);
    if rate == 0 || time_elapsed == 0 {
        proof {
            assert(exact == 0) by (nonlinear_arith)
                requires
                    exact == size * signed_rate * time_elapsed,
                    signed_rate == 0 || time_elapsed == 0,
            ;
        }
        return Ok(0);
    }
    let rate_wide: i128 = rate as i128;
    let time_wide: i128 = time_elapsed as i128;
    let rate_magnitude: u128 = if rate_wide < 0 {
        (-rate_wide) as u128
    } else {
        rate_wide as u128
    };
    let time_magnitude: u128 = if time_wide < 0 {
        (-time_wide) as u128
    } else {
        time_wide as u128
    };
    let rate_pays: bool = match direction {
        Direction::Long => rate > 0,
        Direction::Short => rate < 0,
    };
    let pays: bool = rate_pays == (time_elapsed > 0);
    proof {
        assert(0 <= size * rate_magnitude <= 0xffff_ffff_ffff_ffff * 0x8000_0000_0000_0000)
            by (nonlinear_arith)
            requires
                0 <= size <= 0xffff_ffff_ffff_ffff,
                0 <= rate_magnitude <= 0x8000_0000_0000_0000,
        ;
    }
    let per_second: u128 = (size as u128) * rate_magnitude;
    proof {
        lemma_mul_sign(size as int, signed_rate);
        lemma_mul_sign(size * signed_rate, time_elapsed as int);
        assert(vstd::math::abs(exact) == per_second * time_magnitude);
        assert(pays ==> exact >= 0);
        assert(!pays ==> exact <= 0);
        assert(period == 3_600_000_000);
    }
    match per_second.checked_mul(time_magnitude) {
        None => {
            proof {
                lemma_div_is_ordered(
                    0x1_0000_0000_0000_0000_0000_0000_0000_0000int,
                    vstd::math::abs(exact) as int,
                    period,
                );
            }
            Err(PerpsError::MathOverflow)
        },
        Some(total) => {
            let magnitude: u128 = total / 3_600_000_000;
            signed_i64(pays, magnitude)
        },
    }
}

/// The funding rate has the sign of the imbalance: it is positive only where
/// the longs hold more than the shorts, so that longs pay, and negative only
/// where the shorts hold more.
pub proof fn lemma_funding_rate_sign(long_oi: int, short_oi: int)
    requires
        0 <= long_oi,
        0 <= short_oi,
    ensures
        long_oi >= short_oi ==> funding_rate_value(long_oi, short_oi) >= 0,
        long_oi <= short_oi ==> funding_rate_value(long_oi, short_oi) <= 0,
        long_oi == short_oi ==> funding_rate_value(long_oi, short_oi) == 0,
{
    let total = long_oi + short_oi;
    let unit = FUNDING_RATE_PRECISION as int;
    if total > 0 {
        if long_oi >= short_oi {
            vstd::arithmetic::div_mod::lemma_div_pos_is_pos((long_oi - short_oi) * unit, total);
        }
        if long_oi <= short_oi {
            vstd::arithmetic::div_mod::lemma_div_pos_is_pos((short_oi - long_oi) * unit, total);
            assert(-((long_oi - short_oi) * unit) == (short_oi - long_oi) * unit);
        }
    }
}

/// A long position's profit is the rise of the price times its size, at the
/// scale of sizes. It is never negative while the price has not fallen, and
/// it is positive exactly when the rise times the size makes up one unit.
pub proof fn lemma_long_gains_when_price_rises(size: int, entry_price: int, current_price: int)
    requires
        0 <= size,
        entry_price <= current_price,
    ensures
        pnl_value(Direction::Long, size, entry_price, current_price) == (current_price
            - entry_price) * size / (SIZE_PRECISION as int),
        pnl_value(Direction::Long, size, entry_price, current_price) >= 0,
        pnl_value(Direction::Long, size, entry_price, current_price) > 0 <==> (current_price
            - entry_price) * size >= SIZE_PRECISION,
{
    assert((current_price - entry_price) * size >= 0) by (nonlinear_arith)
        requires
            0 <= size,
            entry_price <= current_price,
    ;
}

/// A short position's profit or loss is the opposite of that of a long
/// position of the same size and prices.
pub proof fn lemma_short_mirrors_long(size: int, entry_price: int, current_price: int)
    ensures
        pnl_value(Direction::Short, size, entry_price, current_price) == -pnl_value(
            Direction::Long,
            size,
            entry_price,
            current_price,
        ),
{
}

} // verus!
