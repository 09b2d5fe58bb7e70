use silensis::errors::PerpsError;
use silensis::identity::Identity;
use silensis::instructions::{
    handle_apply_funding, handle_close_position, handle_deposit, handle_liquidate,
    handle_open_position, handle_set_price, handle_withdraw, ApplyFunding, ClosePosition, Deposit,
    Liquidate, OpenPosition, OpenPositionParams, SetPrice, Withdraw,
};
use silensis::math::calculate_pnl;
use silensis::operation::Operation;
use silensis::state::{Direction, GlobalState, Position, PriceFeed, UserVault};

const SIZE_UNIT: u64 = 1_000_000_000;
const PRICE_UNIT: u64 = 1_000_000;

fn member(n: u8) -> Identity {
    Identity::new([n; 32])
}

fn new_protocol() -> GlobalState {
    GlobalState {
        authority: member(1),
        usdc_mint: member(200),
        treasury: member(201),
        total_long_oi: 0,
        total_short_oi: 0,
        last_funding_time: 0,
        cumulative_funding_rate_long: 0,
        cumulative_funding_rate_short: 0,
        max_leverage: 50,
        maintenance_margin_bps: 500,
        liquidation_fee_bps: 50,
        next_position_id: 0,
        is_paused: false,
    }
}

fn sample(price: u64) -> PriceFeed {
    PriceFeed { authority: member(1), price, timestamp: 1000 }
}

fn sum_of_open_notional(positions: &[Position], direction: Direction) -> u64 {
    let mut sum: u64 = 0;
    for position in positions {
        if position.is_open && position.direction == direction {
            sum += (position.size as u128 * position.entry_price as u128 / 1_000_000_000) as u64;
        }
    }
    sum
}

fn sum_of_open_margin(positions: &[Position], owner: Identity) -> u64 {
    let mut sum: u64 = 0;
    for position in positions {
        if position.is_open && position.owner == owner {
            sum += position.margin;
        }
    }
    sum
}

fn check_vault(vault: &UserVault, positions: &[Position]) {
    assert!(vault.locked_margin <= vault.deposited_amount);
    assert_eq!(vault.locked_margin, sum_of_open_margin(positions, vault.owner));
}

fn check_book(global: &GlobalState, positions: &[Position]) {
    assert_eq!(global.total_long_oi, sum_of_open_notional(positions, Direction::Long));
    assert_eq!(global.total_short_oi, sum_of_open_notional(positions, Direction::Short));
    assert_eq!(global.next_position_id, positions.len() as u64);
    for (index, position) in positions.iter().enumerate() {
        assert_eq!(position.position_id, index as u64);
    }
}

fn open_in_book(
    global: &mut GlobalState,
    positions: &mut Vec<Position>,
    vault: &mut UserVault,
    price: u64,
    direction: Direction,
    size: u64,
    leverage: u64,
) -> Result<(), PerpsError> {
    let mut ctx = OpenPosition {
        user: vault.owner,
        user_vault: *vault,
        position: Position::default(),
        global_state: *global,
        price_feed: sample(price),
    };
    let result = handle_open_position(&mut ctx, OpenPositionParams { direction, size, leverage }, 1000);
    *global = ctx.global_state;
    *vault = ctx.user_vault;
    if result.is_ok() {
        positions.push(ctx.position);
    }
    result
}

fn close_in_book(
    global: &mut GlobalState,
    positions: &mut Vec<Position>,
    vault: &mut UserVault,
    price: u64,
    index: usize,
) -> Result<(), PerpsError> {
    let mut ctx = ClosePosition {
        user: vault.owner,
        user_vault: *vault,
        position: positions[index],
        global_state: *global,
        price_feed: sample(price),
    };
    let result = handle_close_position(&mut ctx, 1000);
    *global = ctx.global_state;
    *vault = ctx.user_vault;
    positions[index] = ctx.position;
    result
}

fn liquidate_in_book(
    global: &mut GlobalState,
    positions: &mut Vec<Position>,
    owner_vault: &mut UserVault,
    liquidator_vault: &mut UserVault,
    price: u64,
    index: usize,
) -> Result<(), PerpsError> {
    let mut ctx = Liquidate {
        liquidator: member(9),
        liquidator_vault: *liquidator_vault,
        position: positions[index],
        owner_vault: *owner_vault,
        global_state: *global,
        price_feed: sample(price),
    };
    let result = handle_liquidate(&mut ctx, 1000);
    *global = ctx.global_state;
    *owner_vault = ctx.owner_vault;
    *liquidator_vault = ctx.liquidator_vault;
    positions[index] = ctx.position;
    result
}

#[test]
fn open_interest_is_the_sum_over_open_positions() {
    let mut global = new_protocol();
    let mut positions: Vec<Position> = Vec::new();
    let mut alice = UserVault { owner: member(3), deposited_amount: 1000 * PRICE_UNIT, locked_margin: 0 };
    let mut bob = UserVault { owner: member(4), deposited_amount: 50 * PRICE_UNIT, locked_margin: 0 };
    let mut keeper = UserVault::default();
    check_book(&global, &positions);
    check_vault(&alice, &positions);
    check_vault(&bob, &positions);

    let p = 100 * PRICE_UNIT;
    assert_eq!(open_in_book(&mut global, &mut positions, &mut alice, p, Direction::Long, SIZE_UNIT, 10), Ok(()));
    check_book(&global, &positions);
    check_vault(&alice, &positions);
    check_vault(&bob, &positions);
    assert_eq!(open_in_book(&mut global, &mut positions, &mut bob, p, Direction::Short, 3 * SIZE_UNIT, 20), Ok(()));
    check_book(&global, &positions);
    check_vault(&alice, &positions);
    check_vault(&bob, &positions);
    assert_eq!(open_in_book(&mut global, &mut positions, &mut alice, 101 * PRICE_UNIT, Direction::Long, 1_234_567_891, 7), Ok(()));
    check_book(&global, &positions);
    check_vault(&alice, &positions);
    check_vault(&bob, &positions);
    assert_eq!(
        open_in_book(&mut global, &mut positions, &mut bob, p, Direction::Long, 900 * SIZE_UNIT, 2),
        Err(PerpsError::InsufficientMargin)
    );
    check_book(&global, &positions);
    check_vault(&alice, &positions);
    check_vault(&bob, &positions);
    assert_eq!(global.total_long_oi, 100 * PRICE_UNIT + 124_691_356);
    assert_eq!(global.total_short_oi, 300 * PRICE_UNIT);
    assert_eq!(positions.len(), 3);

    assert_eq!(close_in_book(&mut global, &mut positions, &mut alice, 120 * PRICE_UNIT, 0), Ok(()));
    check_book(&global, &positions);
    check_vault(&alice, &positions);
    check_vault(&bob, &positions);
    assert_eq!(
        close_in_book(&mut global, &mut positions, &mut alice, 120 * PRICE_UNIT, 0),
        Err(PerpsError::PositionNotOpen)
    );
    check_book(&global, &positions);
    check_vault(&alice, &positions);
    check_vault(&bob, &positions);
    assert_eq!(
        liquidate_in_book(&mut global, &mut positions, &mut bob, &mut keeper, 100 * PRICE_UNIT, 1),
        Err(PerpsError::PositionNotLiquidatable)
    );
    check_book(&global, &positions);
    check_vault(&alice, &positions);
    check_vault(&bob, &positions);
    assert_eq!(
        liquidate_in_book(&mut global, &mut positions, &mut bob, &mut keeper, 104 * PRICE_UNIT, 1),
        Ok(())
    );
    check_book(&global, &positions);
    check_vault(&alice, &positions);
    check_vault(&bob, &positions);
    assert_eq!(global.total_short_oi, 0);
    assert_eq!(global.total_long_oi, 124_691_356);
    assert_eq!(open_in_book(&mut global, &mut positions, &mut bob, p, Direction::Short, SIZE_UNIT, 50), Ok(()));
    check_book(&global, &positions);
    check_vault(&alice, &positions);
    check_vault(&bob, &positions);
    assert_eq!(close_in_book(&mut global, &mut positions, &mut alice, 90 * PRICE_UNIT, 2), Ok(()));
    check_book(&global, &positions);
    check_vault(&alice, &positions);
    check_vault(&bob, &positions);
    assert_eq!(global.total_long_oi, 0);
    assert_eq!(global.total_short_oi, 100 * PRICE_UNIT);
    assert_eq!(positions.len(), 4);
    assert_eq!(keeper.owner, member(9));

    for vault in [alice, bob, keeper] {
        assert!(vault.locked_margin <= vault.deposited_amount);
    }
}

#[test]
fn vaults_stay_consistent_through_every_operation() {
    let mut global = new_protocol();
    let mut positions: Vec<Position> = Vec::new();
    let mut vault = UserVault::default();
    let mut keeper = UserVault::default();
    let user = member(3);

    let mut deposit = Deposit { user, user_vault: vault };
    assert_eq!(handle_deposit(&mut deposit, 30 * PRICE_UNIT), Ok(()));
    vault = deposit.user_vault;
    assert!(vault.locked_margin <= vault.deposited_amount);

    for leverage in [10u64, 20, 50, 5] {
        let _ = open_in_book(&mut global, &mut positions, &mut vault, 100 * PRICE_UNIT, Direction::Long, SIZE_UNIT, leverage);
        assert!(vault.locked_margin <= vault.deposited_amount);
    }
    assert_eq!(positions.len(), 3);
    assert_eq!(vault.locked_margin, 17 * PRICE_UNIT);

    let mut withdraw = Withdraw { user, user_vault: vault };
    assert_eq!(handle_withdraw(&mut withdraw, 14 * PRICE_UNIT), Err(PerpsError::InsufficientBalance));
    assert_eq!(handle_withdraw(&mut withdraw, 13 * PRICE_UNIT), Ok(()));
    vault = withdraw.user_vault;
    assert_eq!(vault.deposited_amount, vault.locked_margin);

    assert_eq!(close_in_book(&mut global, &mut positions, &mut vault, 40 * PRICE_UNIT, 0), Ok(()));
    assert!(vault.locked_margin <= vault.deposited_amount);
    assert_eq!(vault.deposited_amount, 7 * PRICE_UNIT);
    assert_eq!(vault.locked_margin, 7 * PRICE_UNIT);

    assert_eq!(
        liquidate_in_book(&mut global, &mut positions, &mut vault, &mut keeper, 40 * PRICE_UNIT, 1),
        Ok(())
    );
    assert!(vault.locked_margin <= vault.deposited_amount);
    assert!(keeper.locked_margin <= keeper.deposited_amount);
    assert_eq!(vault.locked_margin, 2 * PRICE_UNIT);
    assert_eq!(vault.deposited_amount, 2 * PRICE_UNIT);
    assert_eq!(keeper.deposited_amount, 25_000);

    assert_eq!(close_in_book(&mut global, &mut positions, &mut vault, 400 * PRICE_UNIT, 2), Ok(()));
    assert_eq!(vault.locked_margin, 0);
    assert_eq!(vault.deposited_amount, 302 * PRICE_UNIT);
    check_book(&global, &positions);
}

#[test]
fn pnl_of_long_from_100_to_110_is_ten_times_size() {
    for size in [1u64, 99_999_999, 100_000_000, SIZE_UNIT, 7 * SIZE_UNIT + 5, u64::MAX] {
        let expected = (10u128 * size as u128 / 1_000_000_000) as i64;
        assert_eq!(calculate_pnl(Direction::Long, size, 100, 110), Ok(expected));
        assert_eq!(calculate_pnl(Direction::Short, size, 100, 110), Ok(-expected));
        assert_eq!(expected > 0, size >= 100_000_000);
    }
    assert_eq!(calculate_pnl(Direction::Long, SIZE_UNIT, 100, 110), Ok(10));
    assert_eq!(calculate_pnl(Direction::Short, SIZE_UNIT, 100, 110), Ok(-10));
}

#[test]
fn rejected_operations_fail_again_in_the_same_way() {
    let user = member(3);
    let vault = UserVault { owner: user, deposited_amount: 5 * PRICE_UNIT, locked_margin: 0 };

    let mut deposit = Deposit { user, user_vault: vault };
    for _ in 0..3 {
        assert_eq!(handle_deposit(&mut deposit, 0), Err(PerpsError::ZeroAmount));
        assert_eq!(deposit, Deposit { user, user_vault: vault });
    }

    let mut withdraw = Withdraw { user, user_vault: vault };
    for _ in 0..3 {
        assert_eq!(handle_withdraw(&mut withdraw, 6 * PRICE_UNIT), Err(PerpsError::InsufficientBalance));
        assert_eq!(withdraw, Withdraw { user, user_vault: vault });
    }

    let mut publish = SetPrice { authority: user, global_state: new_protocol(), price_feed: sample(7) };
    let before = publish;
    for _ in 0..3 {
        assert_eq!(handle_set_price(&mut publish, 9, 2000), Err(PerpsError::Unauthorized));
        assert_eq!(publish, before);
    }

    let mut open = OpenPosition {
        user,
        user_vault: vault,
        position: Position::default(),
        global_state: new_protocol(),
        price_feed: sample(100 * PRICE_UNIT),
    };
    let before = open;
    let params = OpenPositionParams { direction: Direction::Long, size: SIZE_UNIT, leverage: 10 };
    for _ in 0..3 {
        assert_eq!(handle_open_position(&mut open, params, 1000), Err(PerpsError::InsufficientMargin));
        assert_eq!(open, before);
    }

    let mut close = ClosePosition {
        user,
        user_vault: vault,
        position: Position { owner: user, ..Position::default() },
        global_state: new_protocol(),
        price_feed: sample(100 * PRICE_UNIT),
    };
    let before = close;
    for _ in 0..3 {
        assert_eq!(handle_close_position(&mut close, 1000), Err(PerpsError::PositionNotOpen));
        assert_eq!(close, before);
    }

    let mut liquidate = Liquidate {
        liquidator: member(9),
        liquidator_vault: UserVault::default(),
        position: Position { owner: user, is_open: true, size: SIZE_UNIT, entry_price: 100, margin: 50, ..Position::default() },
        owner_vault: UserVault { owner: user, deposited_amount: 50, locked_margin: 50 },
        global_state: new_protocol(),
        price_feed: sample(100),
    };
    let before = liquidate;
    for _ in 0..3 {
        assert_eq!(handle_liquidate(&mut liquidate, 1000), Err(PerpsError::PositionNotLiquidatable));
        assert_eq!(liquidate, before);
    }

    let mut funding = ApplyFunding { global_state: new_protocol(), price_feed: sample(100) };
    let before = funding;
    for _ in 0..3 {
        assert_eq!(handle_apply_funding(&mut funding, 3599), Err(PerpsError::FundingIntervalNotElapsed));
        assert_eq!(funding, before);
    }
}

#[test]
fn every_error_but_one_is_returned_by_some_operation() {
    let user = member(3);
    let vault = UserVault { owner: user, deposited_amount: 5 * PRICE_UNIT, locked_margin: 0 };
    let open = OpenPosition {
        user,
        user_vault: vault,
        position: Position::default(),
        global_state: new_protocol(),
        price_feed: sample(100 * PRICE_UNIT),
    };
    let params = OpenPositionParams { direction: Direction::Short, size: SIZE_UNIT, leverage: 50 };
    let mut seen: Vec<PerpsError> = Vec::new();

    seen.push(handle_open_position(&mut { open }, OpenPositionParams { leverage: 10, ..params }, 1000).unwrap_err());
    seen.push(handle_open_position(&mut { open }, params, 1031).unwrap_err());
    seen.push(handle_open_position(&mut OpenPosition { price_feed: sample(0), ..open }, params, 1000).unwrap_err());
    seen.push(handle_open_position(&mut OpenPosition { global_state: GlobalState { is_paused: true, ..new_protocol() }, ..open }, params, 1000).unwrap_err());
    seen.push(handle_open_position(&mut { open }, OpenPositionParams { leverage: 51, ..params }, 1000).unwrap_err());
    seen.push(handle_open_position(&mut { open }, OpenPositionParams { size: 0, ..params }, 1000).unwrap_err());
    seen.push(handle_open_position(&mut OpenPosition { user: member(4), ..open }, params, 1000).unwrap_err());
    seen.push(handle_open_position(&mut OpenPosition { price_feed: sample(u64::MAX), ..open }, OpenPositionParams { size: u64::MAX, ..params }, 1000).unwrap_err());
    seen.push(handle_withdraw(&mut Withdraw { user, user_vault: vault }, u64::MAX).unwrap_err());
    seen.push(handle_deposit(&mut Deposit { user, user_vault: vault }, 0).unwrap_err());
    seen.push(handle_set_price(&mut SetPrice { authority: member(1), global_state: new_protocol(), price_feed: sample(1) }, 0, 0).unwrap_err());
    seen.push(handle_apply_funding(&mut ApplyFunding { global_state: new_protocol(), price_feed: sample(1) }, 1).unwrap_err());
    let mut opened = open;
    assert_eq!(handle_open_position(&mut opened, OpenPositionParams { leverage: 20, ..params }, 1000), Ok(()));
    let mut liquidation = Liquidate {
        liquidator: member(9),
        liquidator_vault: UserVault::default(),
        position: opened.position,
        owner_vault: opened.user_vault,
        global_state: opened.global_state,
        price_feed: sample(100 * PRICE_UNIT),
    };
    seen.push(handle_liquidate(&mut liquidation, 1000).unwrap_err());
    liquidation.position.is_open = false;
    seen.push(handle_liquidate(&mut liquidation, 1000).unwrap_err());

    assert_eq!(
        seen,
        vec![
            PerpsError::InsufficientMargin,
            PerpsError::OracleStale,
            PerpsError::OracleInvalidPrice,
            PerpsError::ProtocolPaused,
            PerpsError::InvalidLeverage,
            PerpsError::ZeroSize,
            PerpsError::Unauthorized,
            PerpsError::MathOverflow,
            PerpsError::InsufficientBalance,
            PerpsError::ZeroAmount,
            PerpsError::InvalidParameter,
            PerpsError::FundingIntervalNotElapsed,
            PerpsError::PositionNotLiquidatable,
            PerpsError::PositionNotOpen,
        ]
    );
    assert!(!seen.contains(&PerpsError::MaxLeverageExceeded));
}

#[test]
fn operation_runs_as_its_function_does() {
    let user = member(3);
    let vault = UserVault { owner: user, deposited_amount: 20 * PRICE_UNIT, locked_margin: 0 };
    let opening = OpenPosition {
        user,
        user_vault: vault,
        position: Position::default(),
        global_state: new_protocol(),
        price_feed: sample(100 * PRICE_UNIT),
    };
    let params = OpenPositionParams { direction: Direction::Long, size: SIZE_UNIT, leverage: 10 };
    let mut direct = opening;
    assert_eq!(handle_open_position(&mut direct, params, 1000), Ok(()));
    let mut operation = Operation::OpenPosition { opening, params, now: 1000 };
    assert_eq!(operation.run(), Ok(()));
    assert_eq!(operation, Operation::OpenPosition { opening: direct, params, now: 1000 });
    assert_eq!(operation.run(), Ok(()));
    assert_eq!(operation.run(), Err(PerpsError::InsufficientMargin));

    let mut deposit = Operation::Deposit { deposit: Deposit { user, user_vault: vault }, amount: 5 };
    assert_eq!(deposit.run(), Ok(()));
    assert_eq!(
        deposit,
        Operation::Deposit {
            deposit: Deposit {
                user,
                user_vault: UserVault { deposited_amount: 20 * PRICE_UNIT + 5, ..vault }
            },
            amount: 5
        }
    );
}

#[test]
fn rejected_operation_run_again_is_rejected_again() {
    let user = member(3);
    let vault = UserVault { owner: user, deposited_amount: 20, locked_margin: 5 };
    let rejected: [(Operation, PerpsError); 5] = [
        (
            Operation::Withdraw { withdrawal: Withdraw { user, user_vault: vault }, amount: 16 },
            PerpsError::InsufficientBalance,
        ),
        (
            Operation::Deposit { deposit: Deposit { user, user_vault: vault }, amount: 0 },
            PerpsError::ZeroAmount,
        ),
        (
            Operation::SetPrice {
                publication: SetPrice {
                    authority: user,
                    global_state: new_protocol(),
                    price_feed: sample(1),
                },
                price: 5,
                now: 1000,
            },
            PerpsError::Unauthorized,
        ),
        (
            Operation::ApplyFunding {
                funding: ApplyFunding { global_state: new_protocol(), price_feed: sample(1) },
                now: 3599,
            },
            PerpsError::FundingIntervalNotElapsed,
        ),
        (
            Operation::ClosePosition {
                closing: ClosePosition {
                    user,
                    user_vault: vault,
                    position: Position { owner: user, is_open: true, ..Position::default() },
                    global_state: new_protocol(),
                    price_feed: sample(1),
                },
                now: 1031,
            },
            PerpsError::OracleStale,
        ),
    ];
    for (operation, error) in rejected {
        let mut running = operation;
        for _ in 0..3 {
            assert_eq!(running.run(), Err(error));
            assert_eq!(running, operation);
        }
    }
}
