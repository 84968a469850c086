use microstable::ratio::{is_healthy, ratio_of, PARITY_PRICE};
use microstable::{
    close, deposit_weth_mint_shusd, initialize, liquidate, plan_deposit, plan_liquidation,
    plan_partial_withdraw, update_collateral_price, update_min_ratio, withdraw_partial,
    withdraw_weth, AssetError, DepositState, DepositWeth, ErrorCode, Initialize, Ledger,
    PartialWithdraw, Pubkey, WithdrawWeth,
};

const ADMIN: Pubkey = Pubkey(1, 0, 0, 0);
const ALICE: Pubkey = Pubkey(10, 0, 0, 0);
const BOB: Pubkey = Pubkey(10, 0, 0, 1);
const CAROL: Pubkey = Pubkey(12, 7, 7, 7);
const WETH: Pubkey = Pubkey(100, 0, 0, 0);
const SHUSD: Pubkey = Pubkey(200, 0, 0, 0);

fn setup(min_ratio: u64) -> Ledger {
    let mut l = Ledger::new();
    let ctx = Initialize { deployer: ADMIN, weth_mint: WETH, shusd_mint: SHUSD };
    assert_eq!(initialize(&mut l, &ctx, min_ratio), Ok(()));
    l
}

fn deposit(l: &mut Ledger, who: Pubkey, amount: u64, mint: u64) -> Result<(), ErrorCode> {
    let ctx = DepositWeth { depositor: who, amount, mint_amount: mint };
    deposit_weth_mint_shusd(l, &ctx, Ok(()))
}

fn pos(owner: Pubkey, c: u64, d: u64) -> DepositState {
    DepositState { owner, collateral_amount: c, debt_amount: d }
}

#[test]
fn mint_rejected_just_under_minimum_ratio() {
    let mut l = setup(150);
    assert_eq!(deposit(&mut l, ALICE, 200, 134), Err(ErrorCode::CollateralRatioTooLow));
    assert_eq!(l.position(ALICE), None);
    assert_eq!(deposit(&mut l, ALICE, 200, 133), Ok(()));
    assert_eq!(l.position(ALICE), Some(pos(ALICE, 200, 133)));
}

#[test]
fn zero_deposit_is_refused_and_creates_nothing() {
    let mut l = setup(150);
    assert_eq!(deposit(&mut l, ALICE, 0, 0), Err(ErrorCode::InvalidAmount));
    assert_eq!(l.position(ALICE), None);
}

#[test]
fn positions_of_different_owners_are_independent() {
    let mut l = setup(150);
    deposit(&mut l, ALICE, 300, 100).unwrap();
    deposit(&mut l, BOB, 500, 200).unwrap();
    let w = WithdrawWeth { depositor: ALICE };
    assert_eq!(withdraw_weth(&mut l, &w, Ok(())), Ok(pos(ALICE, 300, 100)));
    assert_eq!(l.position(BOB), Some(pos(BOB, 500, 200)));
    deposit(&mut l, ALICE, 160, 100).unwrap();
    update_collateral_price(&mut l, ADMIN, 8_750).unwrap();
    assert_eq!(liquidate(&mut l, CAROL, ALICE, Ok(())), Ok(pos(ALICE, 160, 100)));
    assert_eq!(l.position(BOB), Some(pos(BOB, 500, 200)));
    assert_eq!(l.position(ALICE), None);
}

#[test]
fn liquidation_only_under_minimum_ratio() {
    let mut l = setup(150);
    deposit(&mut l, ALICE, 160, 100).unwrap();
    assert_eq!(ratio_of(160, 100, PARITY_PRICE), 160);
    assert_eq!(liquidate(&mut l, CAROL, ALICE, Ok(())), Err(ErrorCode::PositionHealthy));
    assert_eq!(l.position(ALICE), Some(pos(ALICE, 160, 100)));
    update_collateral_price(&mut l, ADMIN, 8_750).unwrap();
    assert_eq!(ratio_of(160, 100, 8_750), 140);
    assert_eq!(plan_liquidation(&l, ALICE), Ok(pos(ALICE, 160, 100)));
    assert_eq!(liquidate(&mut l, CAROL, ALICE, Ok(())), Ok(pos(ALICE, 160, 100)));
    assert_eq!(l.position(ALICE), None);
}

#[test]
fn owner_may_liquidate_too() {
    let mut l = setup(150);
    deposit(&mut l, ALICE, 160, 100).unwrap();
    update_collateral_price(&mut l, ADMIN, 8_750).unwrap();
    assert_eq!(liquidate(&mut l, ALICE, ALICE, Ok(())), Ok(pos(ALICE, 160, 100)));
}

#[test]
fn initialize_twice_and_low_ratio() {
    let mut l = setup(150);
    let ctx = Initialize { deployer: ADMIN, weth_mint: WETH, shusd_mint: SHUSD };
    assert_eq!(initialize(&mut l, &ctx, 150), Err(ErrorCode::AlreadyInitialized));
    let mut fresh = Ledger::new();
    assert_eq!(initialize(&mut fresh, &ctx, 99), Err(ErrorCode::InvalidConfiguration));
    assert_eq!(fresh.params(), None);
    assert_eq!(initialize(&mut fresh, &ctx, 100), Ok(()));
}

#[test]
fn initialize_records_parameters() {
    let l = setup(175);
    let s = l.params().unwrap();
    assert_eq!(s.min_collat_ratio, 175);
    assert_eq!(s.weth_mint, WETH);
    assert_eq!(s.shusd_mint, SHUSD);
    assert_eq!(s.authority, ADMIN);
    assert_eq!(s.collateral_price, PARITY_PRICE);
}

#[test]
fn close_twice_fails_second_time() {
    let mut l = setup(150);
    deposit(&mut l, ALICE, 100, 0).unwrap();
    assert_eq!(close(&mut l, ALICE), Err(ErrorCode::PositionNotEmpty));
    let w = PartialWithdraw { depositor: ALICE, collateral_amount: 100, repay_amount: 0 };
    assert_eq!(withdraw_partial(&mut l, &w, Ok(())), Ok(pos(ALICE, 0, 0)));
    assert_eq!(close(&mut l, ALICE), Ok(()));
    assert_eq!(close(&mut l, ALICE), Err(ErrorCode::PositionNotFound));
}

#[test]
fn deposit_then_full_withdraw_round_trip() {
    let mut l = setup(150);
    deposit(&mut l, ALICE, 500, 0).unwrap();
    let w = WithdrawWeth { depositor: ALICE };
    let released = withdraw_weth(&mut l, &w, Ok(())).unwrap();
    assert_eq!(released.collateral_amount, 500);
    assert_eq!(released.debt_amount, 0);
    assert_eq!(l.position(ALICE), None);
    assert_eq!(withdraw_weth(&mut l, &w, Ok(())), Err(ErrorCode::PositionNotFound));
}

#[test]
fn positions_stay_healthy_after_operations() {
    let mut l = setup(150);
    deposit(&mut l, ALICE, 300, 200).unwrap();
    let p = l.position(ALICE).unwrap();
    assert!(is_healthy(p.collateral_amount, p.debt_amount, PARITY_PRICE, 150));
    let w = PartialWithdraw { depositor: ALICE, collateral_amount: 1, repay_amount: 0 };
    assert_eq!(withdraw_partial(&mut l, &w, Ok(())), Err(ErrorCode::CollateralRatioTooLow));
    let w = PartialWithdraw { depositor: ALICE, collateral_amount: 150, repay_amount: 100 };
    assert_eq!(withdraw_partial(&mut l, &w, Ok(())), Ok(pos(ALICE, 150, 100)));
    let p = l.position(ALICE).unwrap();
    assert!(is_healthy(p.collateral_amount, p.debt_amount, PARITY_PRICE, 150));
}

#[test]
fn deposit_adds_to_existing_position() {
    let mut l = setup(150);
    deposit(&mut l, ALICE, 300, 100).unwrap();
    deposit(&mut l, ALICE, 150, 100).unwrap();
    assert_eq!(l.position(ALICE), Some(pos(ALICE, 450, 200)));
    assert_eq!(deposit(&mut l, ALICE, 1, 200), Err(ErrorCode::CollateralRatioTooLow));
    assert_eq!(l.position(ALICE), Some(pos(ALICE, 450, 200)));
}

#[test]
fn collateral_top_up_allowed_when_unhealthy() {
    let mut l = setup(150);
    deposit(&mut l, ALICE, 160, 100).unwrap();
    update_collateral_price(&mut l, ADMIN, 5_000).unwrap();
    assert_eq!(deposit(&mut l, ALICE, 10, 0), Ok(()));
    assert_eq!(l.position(ALICE), Some(pos(ALICE, 170, 100)));
    assert_eq!(deposit(&mut l, ALICE, 10, 1), Err(ErrorCode::CollateralRatioTooLow));
}

#[test]
fn collateral_overflow_is_refused() {
    let mut l = setup(150);
    deposit(&mut l, ALICE, u64::MAX, 0).unwrap();
    assert_eq!(deposit(&mut l, ALICE, 1, 0), Err(ErrorCode::ArithmeticOverflow));
    assert_eq!(l.position(ALICE), Some(pos(ALICE, u64::MAX, 0)));
}

#[test]
fn debt_overflow_is_refused() {
    let mut l = setup(100);
    deposit(&mut l, ALICE, u64::MAX - 1, u64::MAX - 1).unwrap();
    assert_eq!(deposit(&mut l, ALICE, 1, 2), Err(ErrorCode::ArithmeticOverflow));
}

#[test]
fn largest_amounts_ratio_does_not_overflow() {
    assert_eq!(ratio_of(u64::MAX, 1, u64::MAX), (u64::MAX as u128) * (u64::MAX as u128) / 100);
    assert_eq!(ratio_of(u64::MAX, u64::MAX, PARITY_PRICE), 100);
    assert!(is_healthy(0, 0, 0, 1_000));
    assert!(!is_healthy(0, 1, PARITY_PRICE, 100));
}

#[test]
fn deposit_requires_parameters() {
    let mut l = Ledger::new();
    assert_eq!(deposit(&mut l, ALICE, 10, 0), Err(ErrorCode::NotInitialized));
}

#[test]
fn failed_transfers_leave_ledger_unchanged() {
    let mut l = setup(150);
    let ctx = DepositWeth { depositor: ALICE, amount: 300, mint_amount: 100 };
    assert_eq!(plan_deposit(&l, &ctx), Ok(pos(ALICE, 300, 100)));
    assert_eq!(
        deposit_weth_mint_shusd(&mut l, &ctx, Err(AssetError::Transfer)),
        Err(ErrorCode::TransferError)
    );
    assert_eq!(l.position(ALICE), None);
    assert_eq!(
        deposit_weth_mint_shusd(&mut l, &ctx, Err(AssetError::Mint)),
        Err(ErrorCode::MintError)
    );
    deposit_weth_mint_shusd(&mut l, &ctx, Ok(())).unwrap();
    let w = WithdrawWeth { depositor: ALICE };
    assert_eq!(withdraw_weth(&mut l, &w, Err(AssetError::Burn)), Err(ErrorCode::BurnError));
    assert_eq!(l.position(ALICE), Some(pos(ALICE, 300, 100)));
    let pw = PartialWithdraw { depositor: ALICE, collateral_amount: 10, repay_amount: 10 };
    assert_eq!(withdraw_partial(&mut l, &pw, Err(AssetError::Burn)), Err(ErrorCode::BurnError));
    assert_eq!(l.position(ALICE), Some(pos(ALICE, 300, 100)));
    update_collateral_price(&mut l, ADMIN, 1_000).unwrap();
    assert_eq!(liquidate(&mut l, BOB, ALICE, Err(AssetError::Transfer)), Err(ErrorCode::TransferError));
    assert_eq!(l.position(ALICE), Some(pos(ALICE, 300, 100)));
}

#[test]
fn partial_withdraw_errors() {
    let mut l = Ledger::new();
    let w = PartialWithdraw { depositor: ALICE, collateral_amount: 1, repay_amount: 0 };
    assert_eq!(plan_partial_withdraw(&l, &w), Err(ErrorCode::NotInitialized));
    let ctx = Initialize { deployer: ADMIN, weth_mint: WETH, shusd_mint: SHUSD };
    initialize(&mut l, &ctx, 150).unwrap();
    assert_eq!(plan_partial_withdraw(&l, &w), Err(ErrorCode::PositionNotFound));
    deposit(&mut l, ALICE, 300, 100).unwrap();
    let zero = PartialWithdraw { depositor: ALICE, collateral_amount: 0, repay_amount: 0 };
    assert_eq!(plan_partial_withdraw(&l, &zero), Err(ErrorCode::InvalidAmount));
    let over_repay = PartialWithdraw { depositor: ALICE, collateral_amount: 0, repay_amount: 101 };
    assert_eq!(plan_partial_withdraw(&l, &over_repay), Err(ErrorCode::InvalidAmount));
    let over_coll = PartialWithdraw { depositor: ALICE, collateral_amount: 301, repay_amount: 100 };
    assert_eq!(plan_partial_withdraw(&l, &over_coll), Err(ErrorCode::ArithmeticUnderflow));
    let all = PartialWithdraw { depositor: ALICE, collateral_amount: 300, repay_amount: 100 };
    assert_eq!(withdraw_partial(&mut l, &all, Ok(())), Ok(pos(ALICE, 0, 0)));
}

#[test]
fn liquidation_errors() {
    let mut l = Ledger::new();
    assert_eq!(plan_liquidation(&l, ALICE), Err(ErrorCode::NotInitialized));
    let ctx = Initialize { deployer: ADMIN, weth_mint: WETH, shusd_mint: SHUSD };
    initialize(&mut l, &ctx, 150).unwrap();
    assert_eq!(liquidate(&mut l, BOB, ALICE, Ok(())), Err(ErrorCode::PositionNotFound));
    deposit(&mut l, ALICE, 10, 0).unwrap();
    update_collateral_price(&mut l, ADMIN, 0).unwrap();
    assert_eq!(liquidate(&mut l, BOB, ALICE, Ok(())), Err(ErrorCode::PositionHealthy));
}

#[test]
fn parameter_updates_need_authority() {
    let mut l = Ledger::new();
    assert_eq!(update_min_ratio(&mut l, ADMIN, 200), Err(ErrorCode::NotInitialized));
    let ctx = Initialize { deployer: ADMIN, weth_mint: WETH, shusd_mint: SHUSD };
    initialize(&mut l, &ctx, 150).unwrap();
    assert_eq!(update_min_ratio(&mut l, BOB, 200), Err(ErrorCode::Unauthorized));
    assert_eq!(update_min_ratio(&mut l, ADMIN, 99), Err(ErrorCode::InvalidConfiguration));
    assert_eq!(update_collateral_price(&mut l, BOB, 5), Err(ErrorCode::Unauthorized));
    assert_eq!(l.params().unwrap().min_collat_ratio, 150);
    assert_eq!(update_min_ratio(&mut l, ADMIN, 200), Ok(()));
    assert_eq!(l.params().unwrap().min_collat_ratio, 200);
}

#[test]
fn raised_minimum_makes_position_liquidatable() {
    let mut l = setup(150);
    deposit(&mut l, ALICE, 160, 100).unwrap();
    update_min_ratio(&mut l, ADMIN, 170).unwrap();
    assert_eq!(liquidate(&mut l, BOB, ALICE, Ok(())), Ok(pos(ALICE, 160, 100)));
}

#[test]
fn single_position_updates() {
    let mut p = DepositState::empty(ALICE);
    assert_eq!(p.increase_collateral(0), Err(ErrorCode::InvalidAmount));
    assert_eq!(p.increase_collateral(200), Ok(()));
    assert_eq!(p.increase_debt(0, PARITY_PRICE, 150), Err(ErrorCode::InvalidAmount));
    assert_eq!(p.increase_debt(134, PARITY_PRICE, 150), Err(ErrorCode::CollateralRatioTooLow));
    assert_eq!(p.increase_debt(133, PARITY_PRICE, 150), Ok(()));
    assert_eq!(p.decrease_debt(134), Err(ErrorCode::InvalidAmount));
    assert_eq!(p.decrease_collateral(201, PARITY_PRICE, 150), Err(ErrorCode::ArithmeticUnderflow));
    assert_eq!(p.decrease_collateral(1, PARITY_PRICE, 150), Err(ErrorCode::CollateralRatioTooLow));
    assert_eq!(p.decrease_debt(33), Ok(()));
    assert_eq!(p.decrease_collateral(50, PARITY_PRICE, 150), Ok(()));
    assert_eq!(p, pos(ALICE, 150, 100));
}

#[test]
fn restore_rebuilds_positions() {
    let params = setup(150).params();
    let records = vec![pos(ALICE, 300, 100), pos(BOB, 50, 0)];
    let l = Ledger::restore(params, &records).unwrap();
    assert_eq!(l.params(), params);
    assert_eq!(l.position(ALICE), Some(pos(ALICE, 300, 100)));
    assert_eq!(l.position(BOB), Some(pos(BOB, 50, 0)));
    assert_eq!(l.position(CAROL), None);
    let twice = vec![pos(ALICE, 300, 100), pos(BOB, 50, 0), pos(ALICE, 1, 0)];
    assert!(Ledger::restore(params, &twice).is_none());
    let mut bad = params.unwrap();
    bad.min_collat_ratio = 99;
    assert!(Ledger::restore(Some(bad), &records).is_none());
    assert!(Ledger::restore(None, &Vec::new()).is_some());
}
