//! A collateralized forward-settlement library.
//!
//! A user locks a reserve asset and is minted a synthetic claim token at a
//! fixed exchange rate; before reclaiming the locked reserve the user must
//! deliver a settlement asset covering the claim.  After maturity an
//! administrator may seize the reserve of an under-delivered position.
//!
//! The escrow state machine ([`forwards::ForwardsContract`]) and the token
//! ledger ([`token::FKaleToken`]) are modelled as explicit values: the host
//! environment that persists them, authenticates callers and supplies the
//! current time is outside this crate.  Every operation is a verified function
//! whose contract states exactly when it succeeds, which error it returns
//! otherwise, and that a failed operation changes nothing.

pub mod errors;
pub mod forwards;
pub mod laws;
pub mod store;
pub mod token;
