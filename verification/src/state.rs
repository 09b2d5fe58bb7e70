//! The records that the engine keeps.

pub mod global;
pub mod position;
pub mod vault;

pub use global::{GlobalState, PriceFeed};
pub use position::{Direction, Position};
pub use vault::UserVault;
