use silensis::errors::PerpsError;
use silensis::identity::Identity;
use silensis::state::UserVault;

fn vault_owner() -> Identity {
    Identity::new([7u8; 32])
}

fn vault_with(deposited_amount: u64, locked_margin: u64) -> UserVault {
    UserVault { owner: vault_owner(), deposited_amount, locked_margin }
}

#[test]
fn new_vault_is_empty() {
    let vault = UserVault::new(vault_owner());
    assert_eq!(vault, vault_with(0, 0));
    assert_eq!(vault.available(), Ok(0));
}

#[test]
fn default_vault_is_empty_and_has_no_owner() {
    let vault = UserVault::default();
    assert_eq!(vault.owner, Identity::new([0u8; 32]));
    assert_eq!(vault.deposited_amount, 0);
    assert_eq!(vault.locked_margin, 0);
}

#[test]
fn available_is_deposited_less_locked() {
    assert_eq!(vault_with(1000, 0).available(), Ok(1000));
    assert_eq!(vault_with(1000, 400).available(), Ok(600));
    assert_eq!(vault_with(1000, 1000).available(), Ok(0));
}

#[test]
fn available_of_an_inconsistent_vault_is_an_overflow() {
    assert_eq!(vault_with(1000, 1001).available(), Err(PerpsError::MathOverflow));
}

#[test]
fn deposit_adds_to_the_deposited_amount() {
    let mut vault = vault_with(1000, 400);
    assert_eq!(vault.deposit(250), Ok(()));
    assert_eq!(vault, vault_with(1250, 400));
}

#[test]
fn vault_deposit_of_zero_is_rejected() {
    let mut vault = vault_with(1000, 400);
    assert_eq!(vault.deposit(0), Err(PerpsError::ZeroAmount));
    assert_eq!(vault, vault_with(1000, 400));
}

#[test]
fn deposit_that_overflows_is_rejected() {
    let mut vault = vault_with(u64::MAX - 5, 0);
    assert_eq!(vault.deposit(6), Err(PerpsError::MathOverflow));
    assert_eq!(vault, vault_with(u64::MAX - 5, 0));
    assert_eq!(vault.deposit(5), Ok(()));
    assert_eq!(vault, vault_with(u64::MAX, 0));
}

#[test]
fn withdraw_takes_from_the_deposited_amount() {
    let mut vault = vault_with(1000, 400);
    assert_eq!(vault.withdraw(600), Ok(()));
    assert_eq!(vault, vault_with(400, 400));
}

#[test]
fn vault_withdraw_of_zero_is_rejected() {
    let mut vault = vault_with(1000, 400);
    assert_eq!(vault.withdraw(0), Err(PerpsError::ZeroAmount));
    assert_eq!(vault, vault_with(1000, 400));
}

#[test]
fn withdraw_of_more_than_available_is_rejected() {
    let mut vault = vault_with(1000, 400);
    assert_eq!(vault.withdraw(601), Err(PerpsError::InsufficientBalance));
    assert_eq!(vault, vault_with(1000, 400));
}

#[test]
fn withdraw_from_an_inconsistent_vault_is_an_overflow() {
    let mut vault = vault_with(10, 11);
    assert_eq!(vault.withdraw(1), Err(PerpsError::MathOverflow));
    assert_eq!(vault, vault_with(10, 11));
    assert_eq!(vault.withdraw(0), Err(PerpsError::ZeroAmount));
}

#[test]
fn lock_commits_available_collateral() {
    let mut vault = vault_with(1000, 400);
    assert_eq!(vault.lock(600), Ok(()));
    assert_eq!(vault, vault_with(1000, 1000));
    assert_eq!(vault.lock(0), Ok(()));
    assert_eq!(vault, vault_with(1000, 1000));
}

#[test]
fn lock_of_more_than_available_is_rejected() {
    let mut vault = vault_with(1000, 400);
    assert_eq!(vault.lock(601), Err(PerpsError::InsufficientMargin));
    assert_eq!(vault, vault_with(1000, 400));
}

#[test]
fn lock_in_an_inconsistent_vault_is_an_overflow() {
    let mut vault = vault_with(10, 11);
    assert_eq!(vault.lock(0), Err(PerpsError::MathOverflow));
    assert_eq!(vault, vault_with(10, 11));
}

#[test]
fn unlock_releases_locked_collateral() {
    let mut vault = vault_with(1000, 400);
    assert_eq!(vault.unlock(150), Ok(()));
    assert_eq!(vault, vault_with(1000, 250));
    assert_eq!(vault.unlock(250), Ok(()));
    assert_eq!(vault, vault_with(1000, 0));
}

#[test]
fn unlock_of_more_than_locked_is_an_overflow() {
    let mut vault = vault_with(1000, 400);
    assert_eq!(vault.unlock(401), Err(PerpsError::MathOverflow));
    assert_eq!(vault, vault_with(1000, 400));
}

#[test]
fn vault_never_has_more_locked_than_deposited() {
    let mut vault = UserVault::new(vault_owner());
    let steps: [(u8, u64); 12] = [
        (0, 500),
        (2, 300),
        (1, 200),
        (1, 1),
        (2, 1),
        (3, 100),
        (1, 100),
        (0, u64::MAX),
        (2, 1000),
        (3, 1000),
        (3, 200),
        (1, 200),
    ];
    for (kind, amount) in steps {
        let _ = match kind {
            0 => vault.deposit(amount),
            1 => vault.withdraw(amount),
            2 => vault.lock(amount),
            _ => vault.unlock(amount),
        };
        assert!(vault.locked_margin <= vault.deposited_amount);
    }
    assert_eq!(vault, vault_with(0, 0));
}
