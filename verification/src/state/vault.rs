//! The collateral vault: one owner's ledger of deposited and locked
//! collateral.

use vstd::prelude::*;
use crate::errors::PerpsError;
use crate::identity::Identity;

verus! {

/// Collateral of one owner. `deposited_amount` is all of it, and
/// `locked_margin` the part that is committed to open positions.
///
/// A vault is made empty and is never deleted. The operations below keep
/// `locked_margin <= deposited_amount`.
#[derive(Clone, Copy, Debug, PartialEq, Eq)]
pub struct UserVault {
    pub owner: Identity,
    pub deposited_amount: u64,
    pub locked_margin: u64,
}

impl UserVault {
    /// No more collateral is locked than the vault holds.
    pub open spec fn wf(&self) -> bool {
        self.locked_margin <= self.deposited_amount
    }

    /// Collateral that is free to be withdrawn or committed.
    pub open spec fn available_value(&self) -> int {
        self.deposited_amount - self.locked_margin
    }

    /// The empty vault of `owner`.
    pub fn new(owner: Identity) -> (r: UserVault)
        ensures
            r == (UserVault { owner, deposited_amount: 0, locked_margin: 0 }),
            r.wf(),
    {
        UserVault { owner, deposited_amount: 0, locked_margin: 0 }
    }

    /// Collateral that is free to be withdrawn or committed.
    ///
    /// Fails with `MathOverflow` exactly when more is locked than the vault
    /// holds.
    pub fn available(&self) -> (r: Result<u64, PerpsError>)
        ensures
            self.wf() ==> r == Ok::<u64, PerpsError>(self.available_value() as u64),
            !self.wf() ==> r == Err::<u64, PerpsError>(PerpsError::MathOverflow),
    {
        match self.deposited_amount.checked_sub(self.locked_margin) {
            Some(available) => Ok(available),
            None => Err(PerpsError::MathOverflow),
        }
    }

    /// What `deposit` makes of the vault.
    pub open spec fn deposit_spec(self, amount: u64) -> Result<UserVault, PerpsError> {
        if amount == 0 {
            Err(PerpsError::ZeroAmount)
        } else if self.deposited_amount + amount > u64::MAX {
            Err(PerpsError::MathOverflow)
        } else {
            Ok(UserVault { deposited_amount: (self.deposited_amount + amount) as u64, ..self })
        }
    }

    /// Adds `amount` to the collateral held.
    ///
    /// Fails with `ZeroAmount` when `amount` is zero, and with `MathOverflow`
    /// when the sum does not fit 64 bits. A failed call changes nothing.
    pub fn deposit(&mut self, amount: u64) -> (r: Result<(), PerpsError>)
        ensures
            match old(self).deposit_spec(amount) {
                Ok(next) => r is Ok && *final(self) == next,
                Err(e) => r == Err::<(), PerpsError>(e) && *final(self) == *old(self),
            },
            old(self).wf() ==> final(self).wf(),
    {
        if amount == 0 {
            return Err(PerpsError::ZeroAmount);
        }
        match self.deposited_amount.checked_add(amount) {
            Some(total) => {
                self.deposited_amount = total;
                Ok(())
            },
            None => Err(PerpsError::MathOverflow),
        }
    }

    /// What `withdraw` makes of the vault.
    pub open spec fn withdraw_spec(self, amount: u64) -> Result<UserVault, PerpsError> {
        if amount == 0 {
            Err(PerpsError::ZeroAmount)
        } else if !self.wf() {
            Err(PerpsError::MathOverflow)
        } else if amount > self.available_value() {
            Err(PerpsError::InsufficientBalance)
        } else {
            Ok(UserVault { deposited_amount: (self.deposited_amount - amount) as u64, ..self })
        }
    }

    /// Takes `amount` out of the collateral held.
    ///
    /// Fails with `ZeroAmount` when `amount` is zero, with `MathOverflow` when
    /// more is locked than the vault holds, and with `InsufficientBalance`
    /// when `amount` is more than is available. A failed call changes nothing.
    pub fn withdraw(&mut self, amount: u64) -> (r: Result<(), PerpsError>)
        ensures
            match old(self).withdraw_spec(amount) {
                Ok(next) => r is Ok && *final(self) == next,
                Err(e) => r == Err::<(), PerpsError>(e) && *final(self) == *old(self),
            },
            old(self).wf() ==> final(self).wf(),
    {
        if amount == 0 {
            return Err(PerpsError::ZeroAmount);
        }
        let available: u64 = match self.available() {
            Ok(available) => available,
            Err(e) => {
                return Err(e);
            },
        };
        if amount > available {
            return Err(PerpsError::InsufficientBalance);
        }
        self.deposited_amount = self.deposited_amount - amount;
        Ok(())
    }

    /// What `lock` makes of the vault.
    pub open spec fn lock_spec(self, amount: u64) -> Result<UserVault, PerpsError> {
        if !self.wf() {
            Err(PerpsError::MathOverflow)
        } else if amount > self.available_value() {
            Err(PerpsError::InsufficientMargin)
        } else {
            Ok(UserVault { locked_margin: (self.locked_margin + amount) as u64, ..self })
        }
    }

    /// Commits `amount` of the available collateral to a position.
    ///
    /// Fails with `MathOverflow` when more is locked than the vault holds,
    /// and with `InsufficientMargin` when `amount` is more than is available.
    /// A failed call changes nothing.
    pub fn lock(&mut self, amount: u64) -> (r: Result<(), PerpsError>)
        ensures
            match old(self).lock_spec(amount) {
                Ok(next) => r is Ok && *final(self) == next,
                Err(e) => r == Err::<(), PerpsError>(e) && *final(self) == *old(self),
            },
            old(self).wf() ==> final(self).wf(),
    {
        let available: u64 = match self.available() {
            Ok(available) => available,
            Err(e) => {
                return Err(e);
            },
        };
        if amount > available {
            return Err(PerpsError::InsufficientMargin);
        }
        self.locked_margin = self.locked_margin + amount;
        Ok(())
    }

    /// What `unlock` makes of the vault.
    pub open spec fn unlock_spec(self, amount: u64) -> Result<UserVault, PerpsError> {
        if amount > self.locked_margin {
            Err(PerpsError::MathOverflow)
        } else {
            Ok(UserVault { locked_margin: (self.locked_margin - amount) as u64, ..self })
        }
    }

    /// Releases `amount` of the locked collateral.
    ///
    /// Fails with `MathOverflow` exactly when less than `amount` is locked. A
    /// failed call changes nothing.
    pub fn unlock(&mut self, amount: u64) -> (r: Result<(), PerpsError>)
        ensures
            match old(self).unlock_spec(amount) {
                Ok(next) => r is Ok && *final(self) == next,
                Err(e) => r == Err::<(), PerpsError>(e) && *final(self) == *old(self),
            },
            old(self).wf() ==> final(self).wf(),
    {
        match self.locked_margin.checked_sub(amount) {
            Some(locked) => {
                self.locked_margin = locked;
                Ok(())
            },
            None => Err(PerpsError::MathOverflow),
        }
    }
}

impl Default for UserVault {
    /// The empty vault that has no owner yet.
    fn default() -> (r: UserVault)
        ensures
            r == (UserVault { owner: Identity::zero(), deposited_amount: 0, locked_margin: 0 }),
            r.wf(),
    {
        UserVault { owner: Identity::default(), deposited_amount: 0, locked_margin: 0 }
    }
}

} // verus!
