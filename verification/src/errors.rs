//! The reasons for which an operation is rejected.

use vstd::prelude::*;

verus! {

/// Why an operation was rejected. A rejected operation changes nothing.
#[derive(Clone, Copy, Debug, PartialEq, Eq, Structural)]
pub enum PerpsError {
    InsufficientMargin,
    MaxLeverageExceeded,
    OracleStale,
    OracleInvalidPrice,
    PositionNotLiquidatable,
    PositionNotOpen,
    ProtocolPaused,
    InsufficientBalance,
    MathOverflow,
    InvalidParameter,
    Unauthorized,
    FundingIntervalNotElapsed,
    InvalidLeverage,
    ZeroSize,
    ZeroAmount,
}

impl PerpsError {
    /// The error in words.
    pub open spec fn message_text(self) -> Seq<char> {
        match self {
            PerpsError::InsufficientMargin => "Insufficient margin for this position"@,
            PerpsError::MaxLeverageExceeded => "Maximum leverage exceeded"@,
            PerpsError::OracleStale => "Oracle price is stale"@,
            PerpsError::OracleInvalidPrice => "Oracle price is invalid"@,
            PerpsError::PositionNotLiquidatable => "Position is not liquidatable"@,
            PerpsError::PositionNotOpen => "Position is not open"@,
            PerpsError::ProtocolPaused => "Protocol is paused"@,
            PerpsError::InsufficientBalance => "Insufficient balance for withdrawal"@,
            PerpsError::MathOverflow => "Math overflow"@,
            PerpsError::InvalidParameter => "Invalid parameter"@,
            PerpsError::Unauthorized => "Unauthorized access"@,
            PerpsError::FundingIntervalNotElapsed => "Funding interval not elapsed"@,
            PerpsError::InvalidLeverage => "Invalid leverage value"@,
            PerpsError::ZeroSize => "Position size must be greater than zero"@,
            PerpsError::ZeroAmount => "Withdrawal amount must be greater than zero"@,
        }
    }

    /// The error in words, for the caller to show.
    pub fn message(&self) -> (r: &'static str)
        ensures
            r@ == self.message_text(),
    {
        match self {
            PerpsError::InsufficientMargin => "Insufficient margin for this position",
            PerpsError::MaxLeverageExceeded => "Maximum leverage exceeded",
            PerpsError::OracleStale => "Oracle price is stale",
            PerpsError::OracleInvalidPrice => "Oracle price is invalid",
            PerpsError::PositionNotLiquidatable => "Position is not liquidatable",
            PerpsError::PositionNotOpen => "Position is not open",
            PerpsError::ProtocolPaused => "Protocol is paused",
            PerpsError::InsufficientBalance => "Insufficient balance for withdrawal",
            PerpsError::MathOverflow => "Math overflow",
            PerpsError::InvalidParameter => "Invalid parameter",
            PerpsError::Unauthorized => "Unauthorized access",
            PerpsError::FundingIntervalNotElapsed => "Funding interval not elapsed",
            PerpsError::InvalidLeverage => "Invalid leverage value",
            PerpsError::ZeroSize => "Position size must be greater than zero",
            PerpsError::ZeroAmount => "Withdrawal amount must be greater than zero",
        }
    }
}

} // verus!
