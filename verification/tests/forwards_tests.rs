//! End-to-end tests of the escrow engine against real token ledgers.

use kale_forwards::errors::ContractError;
use kale_forwards::forwards::ForwardsContract;
use kale_forwards::forwards::PositionStatus;
use kale_forwards::token::FKaleToken;

const CONTRACT: u64 = 77;
const ADMIN: u64 = 1;
const USER: u64 = 10;
const USER_B: u64 = 11;
const KALE_SAC: u64 = 3;
const XLM_SAC: u64 = 4;
const FKALE_TOKEN: u64 = 5;

const DAY: u64 = 24 * 60 * 60;
const LOCK: u64 = 30 * DAY;

struct World {
    engine: ForwardsContract,
    xlm: FKaleToken,
    kale: FKaleToken,
    fkale: FKaleToken,
}

/// An initialized deployment: the engine administers the claim-token ledger,
/// an outside party administers the two asset ledgers.
fn deploy() -> World {
    let mut xlm = FKaleToken::new();
    xlm.initialize(ADMIN, 7, "Lumens".to_string(), "XLM".to_string())
        .unwrap();
    let mut kale = FKaleToken::new();
    kale.initialize(ADMIN, 7, "Kale".to_string(), "KALE".to_string())
        .unwrap();
    let mut fkale = FKaleToken::new();
    fkale
        .initialize(CONTRACT, 7, "Future KALE".to_string(), "fKALE".to_string())
        .unwrap();
    let mut engine = ForwardsContract::new(CONTRACT);
    engine
        .initialize(ADMIN, KALE_SAC, XLM_SAC, FKALE_TOKEN)
        .unwrap();
    World {
        engine,
        xlm,
        kale,
        fkale,
    }
}

/// Gives `user` reserve asset and an allowance so the engine can escrow it.
fn fund_xlm(w: &mut World, user: u64, amount: i128) {
    w.xlm.mint(ADMIN, user, amount).unwrap();
    w.xlm.approve(user, CONTRACT, amount, 0).unwrap();
}

/// Gives `user` settlement asset and an allowance so the engine can take it.
fn fund_kale(w: &mut World, user: u64, amount: i128) {
    w.kale.mint(ADMIN, user, amount).unwrap();
    w.kale.approve(user, CONTRACT, amount, 0).unwrap();
}

#[test]
fn full_settlement_cycle() {
    let mut w = deploy();
    fund_xlm(&mut w, USER, 100);

    let minted = w
        .engine
        .buy_fkale(&mut w.xlm, &mut w.fkale, USER, 5, 1_000)
        .unwrap();
    assert_eq!(minted, 5_000);
    let p = w.engine.get_user_position(USER).unwrap();
    assert_eq!(p.fkale_amount, 5_000);
    assert_eq!(p.xlm_locked, 5);
    assert_eq!(p.created_at, 1_000);
    assert_eq!(p.maturity_date, 1_000 + LOCK);
    assert_eq!(p.status, PositionStatus::Active);
    assert_eq!(w.xlm.balance(USER), 95);
    assert_eq!(w.xlm.balance(CONTRACT), 5);
    assert_eq!(w.fkale.balance(USER), 5_000);

    fund_kale(&mut w, USER, 5_000);
    w.engine
        .deposit_kale_for_redemption(&mut w.kale, USER, 5_000)
        .unwrap();
    assert_eq!(w.engine.get_total_kale_available(), 5_000);
    let p = w.engine.get_user_position(USER).unwrap();
    assert_eq!(p.kale_delivered, 5_000);

    assert!(!w.engine.can_withdraw_xlm(USER, 1_000 + LOCK - 1));
    assert!(w.engine.can_withdraw_xlm(USER, 1_000 + LOCK));

    let returned = w
        .engine
        .withdraw_xlm(&mut w.xlm, USER, 1_000 + LOCK)
        .unwrap();
    assert_eq!(returned, 5);
    assert_eq!(w.xlm.balance(USER), 100);
    let p = w.engine.get_user_position(USER).unwrap();
    assert_eq!(p.status, PositionStatus::Redeemed);

    let again = w.engine.withdraw_xlm(&mut w.xlm, USER, 1_000 + LOCK);
    assert_eq!(again, Err(ContractError::PositionAlreadyRedeemed));
}

#[test]
fn under_delivery_is_liquidated() {
    let mut w = deploy();
    fund_xlm(&mut w, USER, 100);
    w.engine
        .buy_fkale(&mut w.xlm, &mut w.fkale, USER, 5, 1_000)
        .unwrap();

    fund_kale(&mut w, USER, 3_000);
    w.engine
        .deposit_kale_for_redemption(&mut w.kale, USER, 3_000)
        .unwrap();

    // not yet matured: neither path is open
    assert_eq!(
        w.engine.withdraw_xlm(&mut w.xlm, USER, 1_000),
        Err(ContractError::PositionNotMatured)
    );
    assert_eq!(
        w.engine
            .liquidate_position(&mut w.xlm, ADMIN, USER, 1_000),
        Err(ContractError::PositionNotMatured)
    );

    // matured but under-delivered: withdrawal is refused, liquidation seizes
    assert_eq!(
        w.engine.withdraw_xlm(&mut w.xlm, USER, 1_000 + LOCK),
        Err(ContractError::InsufficientKaleDeposited)
    );
    let seized = w
        .engine
        .liquidate_position(&mut w.xlm, ADMIN, USER, 1_000 + LOCK)
        .unwrap();
    assert_eq!(seized, 5);
    assert_eq!(w.xlm.balance(ADMIN), 5);
    let p = w.engine.get_user_position(USER).unwrap();
    assert_eq!(p.status, PositionStatus::Liquidated);

    // the terminal state reuses the withdrawal path's error code
    assert_eq!(
        w.engine.withdraw_xlm(&mut w.xlm, USER, 1_000 + LOCK),
        Err(ContractError::PositionAlreadyRedeemed)
    );
    assert_eq!(
        w.engine
            .liquidate_position(&mut w.xlm, ADMIN, USER, 1_000 + LOCK),
        Err(ContractError::PositionAlreadyLiquidated)
    );
}

#[test]
fn fully_delivered_position_cannot_be_liquidated() {
    let mut w = deploy();
    fund_xlm(&mut w, USER, 100);
    w.engine
        .buy_fkale(&mut w.xlm, &mut w.fkale, USER, 5, 1_000)
        .unwrap();
    fund_kale(&mut w, USER, 5_000);
    w.engine
        .deposit_kale_for_redemption(&mut w.kale, USER, 5_000)
        .unwrap();
    assert_eq!(
        w.engine
            .liquidate_position(&mut w.xlm, ADMIN, USER, 1_000 + LOCK),
        Err(ContractError::InsufficientKaleDeposited)
    );
}

#[test]
fn liquidation_requires_the_configured_administrator() {
    let mut w = deploy();
    fund_xlm(&mut w, USER, 100);
    w.engine
        .buy_fkale(&mut w.xlm, &mut w.fkale, USER, 5, 1_000)
        .unwrap();
    assert_eq!(
        w.engine
            .liquidate_position(&mut w.xlm, USER_B, USER, 1_000 + LOCK),
        Err(ContractError::Unauthorized)
    );
}

#[test]
fn redemption_capacity_is_global() {
    let mut w = deploy();
    // user A opens a position and delivers settlement into the shared pool
    fund_xlm(&mut w, USER, 100);
    w.engine
        .buy_fkale(&mut w.xlm, &mut w.fkale, USER, 5, 1_000)
        .unwrap();
    fund_kale(&mut w, USER, 5_000);
    w.engine
        .deposit_kale_for_redemption(&mut w.kale, USER, 5_000)
        .unwrap();

    // user B never deposited anything; claim tokens alone suffice
    w.fkale.mint(CONTRACT, USER_B, 2_000).unwrap();
    let paid = w
        .engine
        .redeem_fkale(&mut w.kale, &mut w.fkale, USER_B, 2_000)
        .unwrap();
    assert_eq!(paid, 2_000);
    assert_eq!(w.kale.balance(USER_B), 2_000);
    assert_eq!(w.fkale.balance(USER_B), 0);
    assert_eq!(w.engine.get_total_kale_available(), 3_000);
}

#[test]
fn redemption_beyond_pool_changes_nothing() {
    let mut w = deploy();
    fund_xlm(&mut w, USER, 100);
    w.engine
        .buy_fkale(&mut w.xlm, &mut w.fkale, USER, 5, 1_000)
        .unwrap();
    fund_kale(&mut w, USER, 3_000);
    w.engine
        .deposit_kale_for_redemption(&mut w.kale, USER, 3_000)
        .unwrap();

    let fkale_before = w.fkale.balance(USER);
    let kale_before = w.kale.balance(USER);
    let supply_before = w.fkale.total_supply();
    assert_eq!(
        w.engine
            .redeem_fkale(&mut w.kale, &mut w.fkale, USER, 5_000),
        Err(ContractError::InsufficientKaleDeposited)
    );
    // no burn and no transfer happened
    assert_eq!(w.fkale.balance(USER), fkale_before);
    assert_eq!(w.kale.balance(USER), kale_before);
    assert_eq!(w.fkale.total_supply(), supply_before);
    assert_eq!(w.engine.get_total_kale_available(), 3_000);
}

#[test]
fn redemption_requires_claim_balance() {
    let mut w = deploy();
    fund_xlm(&mut w, USER, 100);
    w.engine
        .buy_fkale(&mut w.xlm, &mut w.fkale, USER, 5, 1_000)
        .unwrap();
    fund_kale(&mut w, USER, 5_000);
    w.engine
        .deposit_kale_for_redemption(&mut w.kale, USER, 5_000)
        .unwrap();
    // user B holds no claim tokens at all
    assert_eq!(
        w.engine
            .redeem_fkale(&mut w.kale, &mut w.fkale, USER_B, 1_000),
        Err(ContractError::InsufficientBalance)
    );
}

#[test]
fn pool_counter_tracks_deposits_minus_redemptions() {
    let mut w = deploy();
    fund_xlm(&mut w, USER, 100);
    w.engine
        .buy_fkale(&mut w.xlm, &mut w.fkale, USER, 10, 1_000)
        .unwrap();
    assert_eq!(w.engine.get_total_kale_available(), 0);
    fund_kale(&mut w, USER, 9_000);
    w.engine
        .deposit_kale_for_redemption(&mut w.kale, USER, 4_000)
        .unwrap();
    w.engine
        .deposit_kale_for_redemption(&mut w.kale, USER, 5_000)
        .unwrap();
    assert_eq!(w.engine.get_total_kale_available(), 9_000);
    w.engine
        .redeem_fkale(&mut w.kale, &mut w.fkale, USER, 6_000)
        .unwrap();
    assert_eq!(w.engine.get_total_kale_available(), 3_000);
}

#[test]
fn claim_always_matches_locked_reserve_at_the_rate() {
    let mut w = deploy();
    fund_xlm(&mut w, USER, 100);
    w.engine
        .buy_fkale(&mut w.xlm, &mut w.fkale, USER, 5, 1_000)
        .unwrap();
    let p = w.engine.get_user_position(USER).unwrap();
    assert_eq!(p.fkale_amount, p.xlm_locked * 1_000);
    w.engine
        .buy_fkale(&mut w.xlm, &mut w.fkale, USER, 7, 2_000)
        .unwrap();
    let p = w.engine.get_user_position(USER).unwrap();
    assert_eq!(p.fkale_amount, p.xlm_locked * 1_000);
    assert_eq!(p.xlm_locked, 12);
}

#[test]
fn top_up_keeps_the_first_maturity() {
    let mut w = deploy();
    fund_xlm(&mut w, USER, 100);
    w.engine
        .buy_fkale(&mut w.xlm, &mut w.fkale, USER, 5, 1_000)
        .unwrap();
    w.engine
        .buy_fkale(&mut w.xlm, &mut w.fkale, USER, 3, 50_000)
        .unwrap();
    let p = w.engine.get_user_position(USER).unwrap();
    assert_eq!(p.created_at, 1_000);
    assert_eq!(p.maturity_date, 1_000 + LOCK);
}

#[test]
fn deposits_are_accepted_after_maturity_while_active() {
    let mut w = deploy();
    fund_xlm(&mut w, USER, 100);
    w.engine
        .buy_fkale(&mut w.xlm, &mut w.fkale, USER, 5, 1_000)
        .unwrap();
    fund_kale(&mut w, USER, 5_000);
    // the engine takes no timestamp for deposits: status alone gates them
    w.engine
        .deposit_kale_for_redemption(&mut w.kale, USER, 5_000)
        .unwrap();
    assert_eq!(w.engine.get_total_kale_available(), 5_000);
}

#[test]
fn lifecycle_errors() {
    let mut engine = ForwardsContract::new(CONTRACT);
    let mut xlm = FKaleToken::new();
    let mut kale = FKaleToken::new();
    let mut fkale = FKaleToken::new();

    // nothing works before initialization
    assert_eq!(
        engine.buy_fkale(&mut xlm, &mut fkale, USER, 5, 1_000),
        Err(ContractError::NotInitialized)
    );
    assert_eq!(
        engine.deposit_kale_for_redemption(&mut kale, USER, 5),
        Err(ContractError::NotInitialized)
    );
    assert_eq!(
        engine.redeem_fkale(&mut kale, &mut fkale, USER, 5),
        Err(ContractError::NotInitialized)
    );
    assert_eq!(
        engine.withdraw_xlm(&mut xlm, USER, 1_000),
        Err(ContractError::NotInitialized)
    );
    assert_eq!(
        engine.liquidate_position(&mut xlm, ADMIN, USER, 1_000),
        Err(ContractError::NotInitialized)
    );
    assert_eq!(engine.get_contract_data(), None);
    assert_eq!(engine.get_total_kale_available(), 0);

    engine
        .initialize(ADMIN, KALE_SAC, XLM_SAC, FKALE_TOKEN)
        .unwrap();
    let data = engine.get_contract_data().unwrap();
    assert_eq!(data.admin, ADMIN);
    assert_eq!(data.exchange_rate, 1_000);
    assert_eq!(data.lock_period_days, 30);

    // a second initialization is refused
    assert_eq!(
        engine.initialize(ADMIN, KALE_SAC, XLM_SAC, FKALE_TOKEN),
        Err(ContractError::AlreadyInitialized)
    );
}

#[test]
fn input_and_state_errors() {
    let mut w = deploy();
    assert_eq!(
        w.engine.buy_fkale(&mut w.xlm, &mut w.fkale, USER, 0, 1_000),
        Err(ContractError::InvalidAmount)
    );
    assert_eq!(
        w.engine.buy_fkale(&mut w.xlm, &mut w.fkale, USER, -3, 1_000),
        Err(ContractError::InvalidAmount)
    );
    assert_eq!(
        w.engine.deposit_kale_for_redemption(&mut w.kale, USER, 0),
        Err(ContractError::InvalidAmount)
    );
    assert_eq!(
        w.engine.redeem_fkale(&mut w.kale, &mut w.fkale, USER, 0),
        Err(ContractError::InvalidAmount)
    );
    // no position yet
    assert_eq!(
        w.engine.deposit_kale_for_redemption(&mut w.kale, USER, 5),
        Err(ContractError::PositionNotFound)
    );
    assert_eq!(
        w.engine.withdraw_xlm(&mut w.xlm, USER, 1_000),
        Err(ContractError::PositionNotFound)
    );
    assert_eq!(
        w.engine.liquidate_position(&mut w.xlm, ADMIN, USER, 1_000),
        Err(ContractError::PositionNotFound)
    );
    assert_eq!(w.engine.get_user_position(USER), None);
    assert!(!w.engine.can_withdraw_xlm(USER, 1_000));

    // a purchase without reserve backing is refused by the ledger state
    assert_eq!(
        w.engine.buy_fkale(&mut w.xlm, &mut w.fkale, USER, 5, 1_000),
        Err(ContractError::InsufficientBalance)
    );
}

#[test]
fn purchase_overflow_is_an_error() {
    let mut w = deploy();
    fund_xlm(&mut w, USER, i128::MAX);
    assert_eq!(
        w.engine
            .buy_fkale(&mut w.xlm, &mut w.fkale, USER, i128::MAX / 2, 1_000),
        Err(ContractError::OverflowError)
    );
    // nothing moved
    assert_eq!(w.xlm.balance(USER), i128::MAX);
    assert_eq!(w.engine.get_user_position(USER), None);
}

#[test]
fn maturity_beyond_time_range_is_an_error() {
    let mut w = deploy();
    fund_xlm(&mut w, USER, 100);
    assert_eq!(
        w.engine
            .buy_fkale(&mut w.xlm, &mut w.fkale, USER, 5, u64::MAX),
        Err(ContractError::OverflowError)
    );
    assert_eq!(w.xlm.balance(USER), 100);
    assert_eq!(w.fkale.balance(USER), 0);
}

#[test]
fn purchase_needs_engine_to_administer_claim_ledger() {
    let mut w = deploy();
    fund_xlm(&mut w, USER, 100);
    // rotate the claim ledger's administrator away from the engine
    w.fkale.set_admin(CONTRACT, ADMIN).unwrap();
    assert_eq!(
        w.engine.buy_fkale(&mut w.xlm, &mut w.fkale, USER, 5, 1_000),
        Err(ContractError::Unauthorized)
    );
    assert_eq!(w.xlm.balance(USER), 100);
}

#[test]
fn top_up_on_terminal_position_is_refused() {
    let mut w = deploy();
    fund_xlm(&mut w, USER, 100);
    w.engine
        .buy_fkale(&mut w.xlm, &mut w.fkale, USER, 5, 1_000)
        .unwrap();
    w.engine
        .liquidate_position(&mut w.xlm, ADMIN, USER, 1_000 + LOCK)
        .unwrap();
    let claim_before = w.fkale.balance(USER);
    let reserve_before = w.xlm.balance(USER);
    assert_eq!(
        w.engine
            .buy_fkale(&mut w.xlm, &mut w.fkale, USER, 3, 1_000 + LOCK),
        Err(ContractError::PositionAlreadyRedeemed)
    );
    // nothing moved and the position is untouched
    assert_eq!(w.fkale.balance(USER), claim_before);
    assert_eq!(w.xlm.balance(USER), reserve_before);
    let p = w.engine.get_user_position(USER).unwrap();
    assert_eq!(p.xlm_locked, 5);
    assert_eq!(p.status, PositionStatus::Liquidated);
}

#[test]
fn deposit_on_terminal_position_is_refused() {
    let mut w = deploy();
    fund_xlm(&mut w, USER, 100);
    w.engine
        .buy_fkale(&mut w.xlm, &mut w.fkale, USER, 5, 1_000)
        .unwrap();
    w.engine
        .liquidate_position(&mut w.xlm, ADMIN, USER, 1_000 + LOCK)
        .unwrap();
    fund_kale(&mut w, USER, 1_000);
    assert_eq!(
        w.engine.deposit_kale_for_redemption(&mut w.kale, USER, 1_000),
        Err(ContractError::PositionAlreadyRedeemed)
    );
}
