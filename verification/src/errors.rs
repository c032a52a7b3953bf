//! Error taxonomy of the escrow engine and of the token ledger.

use vstd::prelude::*;

verus! {

/// Errors returned by the escrow engine.  Every precondition of an operation
/// is checked before any ledger effect, so an error means nothing changed.
#[derive(Clone, Copy, Debug, PartialEq, Eq, Structural)]
pub enum ContractError {
    /// The engine was initialized twice.
    AlreadyInitialized,
    /// The engine (or a ledger an operation needs) was never initialized.
    NotInitialized,
    /// The caller is not the required party.
    Unauthorized,
    /// The amount is zero or negative.
    InvalidAmount,
    /// The user has no position.
    PositionNotFound,
    /// The position has not reached its maturity date.
    PositionNotMatured,
    /// The redemption pool, or the position's delivered amount, falls short.
    InsufficientKaleDeposited,
    /// The position is already in a terminal state (withdrawal path).
    PositionAlreadyRedeemed,
    /// The position is already in a terminal state (liquidation path).
    PositionAlreadyLiquidated,
    /// A ledger balance or allowance falls short.
    InsufficientBalance,
    /// An accumulation would overflow the monetary range.
    OverflowError,
}

/// Errors returned by the token ledger.
#[derive(Clone, Copy, Debug, PartialEq, Eq, Structural)]
pub enum TokenError {
    /// The ledger was initialized twice.
    AlreadyInitialized,
    /// The ledger was never initialized (no administrator is set).
    NotInitialized,
    /// The caller is not the ledger's administrator.
    Unauthorized,
    /// The amount is negative.
    NegativeAmount,
    /// The holder's balance falls short.
    InsufficientBalance,
    /// The spender's allowance falls short.
    InsufficientAllowance,
    /// The update would overflow the monetary range.
    OverflowError,
}

/// How a ledger failure inside an escrow operation surfaces to the caller:
/// the whole operation aborts with the corresponding engine error.
pub open spec fn spec_map_token_error(e: TokenError) -> ContractError {
    match e {
        TokenError::AlreadyInitialized => ContractError::AlreadyInitialized,
        TokenError::NotInitialized => ContractError::NotInitialized,
        TokenError::Unauthorized => ContractError::Unauthorized,
        TokenError::NegativeAmount => ContractError::InvalidAmount,
        TokenError::InsufficientBalance => ContractError::InsufficientBalance,
        TokenError::InsufficientAllowance => ContractError::InsufficientBalance,
        TokenError::OverflowError => ContractError::OverflowError,
    }
}

/// Executable form of [`spec_map_token_error`].
pub fn map_token_error(e: TokenError) -> (r: ContractError)
    ensures
        r == spec_map_token_error(e),
{
    match e {
        TokenError::AlreadyInitialized => ContractError::AlreadyInitialized,
        TokenError::NotInitialized => ContractError::NotInitialized,
        TokenError::Unauthorized => ContractError::Unauthorized,
        TokenError::NegativeAmount => ContractError::InvalidAmount,
        TokenError::InsufficientBalance => ContractError::InsufficientBalance,
        TokenError::InsufficientAllowance => ContractError::InsufficientBalance,
        TokenError::OverflowError => ContractError::OverflowError,
    }
}

} // verus!
