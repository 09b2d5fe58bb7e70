//! Accounting engine for a leveraged perpetual-futures venue with one
//! collateral asset and one synthetic instrument.
//!
//! The engine keeps the books: who has deposited how much collateral, how
//! much of it is committed to open positions, what the open positions of each
//! side are worth, and what funding has accrued between the two sides. It
//! moves no funds, reads no clock and stores nothing. Its caller hands each
//! operation the records it works on and the time, moves the collateral that
//! a deposit or withdrawal stands for, and stores the records afterwards.
//!
//! - [`math`] holds the fixed-point formulas.
//! - [`state`] holds the records: the protocol, the oracle, the vaults and
//!   the positions.
//! - [`instructions`] holds the operations. Each one takes effect as a whole
//!   or is rejected and changes nothing.
//! - [`operation`] treats an operation and its records as one value, and
//!   states what holds of every operation.
//! - [`book`] states what holds of all records together after any sequence
//!   of operations.
//!
//! Amounts of collateral and prices have six decimal places, sizes nine.

pub mod book;
pub mod constants;
pub mod errors;
pub mod identity;
pub mod instructions;
pub mod math;
pub mod operation;
pub mod state;
