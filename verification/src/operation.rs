//! The operations taken together: each one, with the records it is handed
//! and its arguments, as one value.
//!
//! This is how the rules that hold of every operation are stated. The engine
//! itself is called through the functions of `instructions`.

use vstd::prelude::*;
use crate::errors::PerpsError;
use crate::instructions::apply_funding::{apply_funding_spec, handle_apply_funding, ApplyFunding};
use crate::instructions::close_position::{
    close_position_spec, handle_close_position, ClosePosition,
};
use crate::instructions::deposit::{deposit_spec, handle_deposit, Deposit};
use crate::instructions::initialize::{handle_initialize, initialize_spec, Initialize};
use crate::instructions::liquidate::{handle_liquidate, liquidate_spec, Liquidate};
use crate::instructions::open_position::{
    handle_open_position, open_position_spec, OpenPosition, OpenPositionParams,
};
use crate::instructions::set_price::{handle_set_price, set_price_spec, SetPrice};
use crate::instructions::withdraw::{handle_withdraw, withdraw_spec, Withdraw};

verus! {

/// One operation: the records it works on, its arguments, and the time where
/// it reads the clock.
#[derive(Clone, Copy, Debug, PartialEq, Eq)]
pub enum Operation {
    Initialize { setup: Initialize, now: i64 },
    SetPrice { publication: SetPrice, price: u64, now: i64 },
    Deposit { deposit: Deposit, amount: u64 },
    Withdraw { withdrawal: Withdraw, amount: u64 },
    OpenPosition { opening: OpenPosition, params: OpenPositionParams, now: i64 },
    ClosePosition { closing: ClosePosition, now: i64 },
    Liquidate { liquidation: Liquidate, now: i64 },
    ApplyFunding { funding: ApplyFunding, now: i64 },
}

/// What the operation does: the same operation with the records as it leaves
/// them, or the reason for which it is rejected.
pub open spec fn outcome(operation: Operation) -> Result<Operation, PerpsError> {
    match operation {
        Operation::Initialize { setup, now } => match initialize_spec(setup, now) {
            Ok(next) => Ok(Operation::Initialize { setup: next, now }),
            Err(e) => Err(e),
        },
        Operation::SetPrice { publication, price, now } => match set_price_spec(
            publication,
            price,
            now,
        ) {
            Ok(next) => Ok(Operation::SetPrice { publication: next, price, now }),
            Err(e) => Err(e),
        },
        Operation::Deposit { deposit, amount } => match deposit_spec(deposit, amount) {
            Ok(next) => Ok(Operation::Deposit { deposit: next, amount }),
            Err(e) => Err(e),
        },
        Operation::Withdraw { withdrawal, amount } => match withdraw_spec(withdrawal, amount) {
            Ok(next) => Ok(Operation::Withdraw { withdrawal: next, amount }),
            Err(e) => Err(e),
        },
        Operation::OpenPosition { opening, params, now } => match open_position_spec(
            opening,
            params,
            now,
        ) {
            Ok(next) => Ok(Operation::OpenPosition { opening: next, params, now }),
            Err(e) => Err(e),
        },
        Operation::ClosePosition { closing, now } => match close_position_spec(closing, now) {
            Ok(next) => Ok(Operation::ClosePosition { closing: next, now }),
            Err(e) => Err(e),
        },
        Operation::Liquidate { liquidation, now } => match liquidate_spec(liquidation, now) {
            Ok(next) => Ok(Operation::Liquidate { liquidation: next, now }),
            Err(e) => Err(e),
        },
        Operation::ApplyFunding { funding, now } => match apply_funding_spec(funding, now) {
            Ok(next) => Ok(Operation::ApplyFunding { funding: next, now }),
            Err(e) => Err(e),
        },
    }
}

/// The operation as it stands once it has run: with the new records where it
/// took effect, unchanged where it was rejected.
pub open spec fn after(operation: Operation) -> Operation {
    match outcome(operation) {
        Ok(next) => next,
        Err(_) => operation,
    }
}

impl Operation {
    /// Runs the operation on its records: they are changed as the operation
    /// says, or left as they are where it is rejected.
    pub fn run(&mut self) -> (r: Result<(), PerpsError>)
        ensures
            match outcome(*old(self)) {
                Ok(next) => r is Ok && *final(self) == next,
                Err(e) => r == Err::<(), PerpsError>(e) && *final(self) == *old(self),
            },
            *final(self) == after(*old(self)),
    {
        match self {
            Operation::Initialize { setup, now } => handle_initialize(setup, *now),
            Operation::SetPrice { publication, price, now } => handle_set_price(
                publication,
                *price,
                *now,
            ),
            Operation::Deposit { deposit, amount } => handle_deposit(deposit, *amount),
            Operation::Withdraw { withdrawal, amount } => handle_withdraw(withdrawal, *amount),
            Operation::OpenPosition { opening, params, now } => handle_open_position(
                opening,
                *params,
                *now,
            ),
            Operation::ClosePosition { closing, now } => handle_close_position(closing, *now),
            Operation::Liquidate { liquidation, now } => handle_liquidate(liquidation, *now),
            Operation::ApplyFunding { funding, now } => handle_apply_funding(funding, *now),
        }
    }
}

/// An operation that is rejected changes none of its records. Tried again
/// with the same arguments on the records it left, at the same time, it is
/// rejected again for the same reason, and again changes nothing.
pub proof fn lemma_rejection_repeats(operation: Operation)
    requires
        outcome(operation) is Err,
    ensures
        after(operation) == operation,
        outcome(after(operation)) == outcome(operation),
        after(after(operation)) == operation,
{
}

} // verus!
