//! Arithmetic of the engine.

pub mod fixed_point;

pub use fixed_point::{
    calculate_funding_payment, calculate_funding_rate, calculate_liquidation_price,
    calculate_margin_ratio, calculate_notional, calculate_pnl,
};
