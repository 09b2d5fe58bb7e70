//! The operations of the engine, one module each.
//!
//! An operation works on the records it is handed, and on nothing else: the
//! caller looks them up, hands them over together with the time, and stores
//! them afterwards. Every check is made before anything is changed, so an
//! operation takes effect as a whole or not at all.

pub mod apply_funding;
pub mod close_position;
pub mod deposit;
pub mod initialize;
pub mod liquidate;
pub mod open_position;
pub mod set_price;
pub mod withdraw;

pub use apply_funding::{handle_apply_funding, ApplyFunding};
pub use close_position::{handle_close_position, ClosePosition};
pub use deposit::{handle_deposit, Deposit};
pub use initialize::{handle_initialize, Initialize};
pub use liquidate::{handle_liquidate, liquidation_fee, Liquidate};
pub use open_position::{handle_open_position, OpenPosition, OpenPositionParams};
pub use set_price::{handle_set_price, SetPrice};
pub use withdraw::{handle_withdraw, Withdraw};
