//! Tests of the token ledger on its own.

use kale_forwards::errors::TokenError;
use kale_forwards::token::FKaleToken;

const ADMIN: u64 = 1;
const ALICE: u64 = 2;
const BOB: u64 = 3;
const CAROL: u64 = 4;

fn ledger() -> FKaleToken {
    let mut t = FKaleToken::new();
    t.initialize(ADMIN, 9, "Token".to_string(), "TOK".to_string())
        .unwrap();
    t
}

#[test]
fn fresh_ledger_has_defaults() {
    let t = FKaleToken::new();
    assert_eq!(t.decimals(), 7);
    assert_eq!(t.name(), "Future KALE");
    assert_eq!(t.symbol(), "fKALE");
    assert_eq!(t.total_supply(), 0);
    assert_eq!(t.balance(ALICE), 0);
    assert_eq!(t.allowance(ALICE, BOB), 0);
    assert_eq!(t.admin(), None);
}

#[test]
fn initialize_sets_metadata_once() {
    let mut t = FKaleToken::new();
    t.initialize(ADMIN, 9, "Token".to_string(), "TOK".to_string())
        .unwrap();
    assert_eq!(t.admin(), Some(ADMIN));
    assert_eq!(t.decimals(), 9);
    assert_eq!(t.name(), "Token");
    assert_eq!(t.symbol(), "TOK");
    assert_eq!(
        t.initialize(BOB, 6, "Other".to_string(), "OTH".to_string()),
        Err(TokenError::AlreadyInitialized)
    );
    assert_eq!(t.admin(), Some(ADMIN));
}

#[test]
fn mint_is_administrator_only() {
    let mut t = ledger();
    assert_eq!(t.mint(ALICE, ALICE, 100), Err(TokenError::Unauthorized));
    t.mint(ADMIN, ALICE, 100).unwrap();
    assert_eq!(t.balance(ALICE), 100);
    assert_eq!(t.total_supply(), 100);
    assert_eq!(t.mint(ADMIN, ALICE, -1), Err(TokenError::NegativeAmount));

    let mut fresh = FKaleToken::new();
    assert_eq!(fresh.mint(ADMIN, ALICE, 1), Err(TokenError::NotInitialized));
}

#[test]
fn transfer_moves_exactly_the_amount() {
    let mut t = ledger();
    t.mint(ADMIN, ALICE, 100).unwrap();
    t.transfer(ALICE, BOB, 30).unwrap();
    assert_eq!(t.balance(ALICE), 70);
    assert_eq!(t.balance(BOB), 30);
    assert_eq!(t.total_supply(), 100);
    assert_eq!(t.transfer(ALICE, BOB, -1), Err(TokenError::NegativeAmount));
    assert_eq!(
        t.transfer(ALICE, BOB, 71),
        Err(TokenError::InsufficientBalance)
    );
}

#[test]
fn transfer_to_self_changes_nothing() {
    let mut t = ledger();
    t.mint(ADMIN, ALICE, 100).unwrap();
    t.transfer(ALICE, ALICE, 60).unwrap();
    assert_eq!(t.balance(ALICE), 100);
}

#[test]
fn transfer_from_consumes_the_allowance() {
    let mut t = ledger();
    t.mint(ADMIN, ALICE, 100).unwrap();
    t.approve(ALICE, BOB, 50, 0).unwrap();
    assert_eq!(t.allowance(ALICE, BOB), 50);
    assert_eq!(
        t.transfer_from(BOB, ALICE, CAROL, 51),
        Err(TokenError::InsufficientAllowance)
    );
    t.transfer_from(BOB, ALICE, CAROL, 20).unwrap();
    assert_eq!(t.balance(ALICE), 80);
    assert_eq!(t.balance(CAROL), 20);
    assert_eq!(t.allowance(ALICE, BOB), 30);
    // the allowance may exceed the balance; the balance then decides
    t.approve(ALICE, BOB, 1_000, 0).unwrap();
    assert_eq!(
        t.transfer_from(BOB, ALICE, CAROL, 81),
        Err(TokenError::InsufficientBalance)
    );
}

#[test]
fn approve_rejects_negative_amounts() {
    let mut t = ledger();
    assert_eq!(t.approve(ALICE, BOB, -5, 0), Err(TokenError::NegativeAmount));
    assert_eq!(t.allowance(ALICE, BOB), 0);
}

#[test]
fn burn_is_administrator_only_and_shrinks_supply() {
    let mut t = ledger();
    t.mint(ADMIN, ALICE, 100).unwrap();
    assert_eq!(t.burn(ALICE, ALICE, 10), Err(TokenError::Unauthorized));
    t.burn(ADMIN, ALICE, 10).unwrap();
    assert_eq!(t.balance(ALICE), 90);
    assert_eq!(t.total_supply(), 90);
    assert_eq!(
        t.burn(ADMIN, ALICE, 91),
        Err(TokenError::InsufficientBalance)
    );
}

#[test]
fn burn_from_consumes_the_allowance() {
    let mut t = ledger();
    t.mint(ADMIN, ALICE, 100).unwrap();
    t.approve(ALICE, BOB, 40, 0).unwrap();
    assert_eq!(
        t.burn_from(ADMIN, BOB, ALICE, 41),
        Err(TokenError::InsufficientAllowance)
    );
    t.burn_from(ADMIN, BOB, ALICE, 25).unwrap();
    assert_eq!(t.balance(ALICE), 75);
    assert_eq!(t.allowance(ALICE, BOB), 15);
    assert_eq!(t.total_supply(), 75);
    assert_eq!(
        t.burn_from(CAROL, BOB, ALICE, 1),
        Err(TokenError::Unauthorized)
    );
}

#[test]
fn mint_overflow_is_an_error() {
    let mut t = ledger();
    t.mint(ADMIN, ALICE, i128::MAX).unwrap();
    assert_eq!(t.mint(ADMIN, ALICE, 1), Err(TokenError::OverflowError));
    assert_eq!(t.mint(ADMIN, BOB, 1), Err(TokenError::OverflowError));
    assert_eq!(t.balance(ALICE), i128::MAX);
    assert_eq!(t.total_supply(), i128::MAX);
}

#[test]
fn set_admin_rotates_the_role() {
    let mut t = ledger();
    assert_eq!(t.set_admin(BOB, BOB), Err(TokenError::Unauthorized));
    t.set_admin(ADMIN, BOB).unwrap();
    assert_eq!(t.admin(), Some(BOB));
    assert_eq!(t.mint(ADMIN, ALICE, 1), Err(TokenError::Unauthorized));
    t.mint(BOB, ALICE, 1).unwrap();

    let mut fresh = FKaleToken::new();
    assert_eq!(fresh.set_admin(ADMIN, BOB), Err(TokenError::NotInitialized));
}
