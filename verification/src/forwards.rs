//! The forward-settlement escrow engine.
//!
//! A user locks reserve asset ("XLM") and is minted claim tokens ("fKALE") at
//! the configured exchange rate; to reclaim the reserve after maturity the
//! user must first deliver settlement asset ("KALE") covering the whole claim.
//! An under-delivered position can instead be liquidated by the administrator.
//! Redemption of claim tokens for settlement asset draws on a single pool
//! shared by all users.
//!
//! The host chain persists the engine state, authenticates callers, supplies
//! the current time and binds the configured ledger addresses to the actual
//! ledgers; here the state is an explicit value, callers arrive as plain
//! authenticated identifiers, the time is a parameter, and each operation
//! takes the ledgers it touches as mutable arguments.  Every precondition is
//! checked before the first ledger effect, so an operation either applies its
//! whole effect or returns an error and changes nothing — neither in the
//! engine nor on any ledger.

use crate::errors::ContractError;
use crate::errors::spec_map_token_error;
use crate::store::KvMap;
use crate::token::FKaleToken;
use crate::token::allowance_consumed;
use crate::token::allowances_unchanged;
use crate::token::balances_burned;
use crate::token::balances_minted;
use crate::token::balances_moved;
use crate::token::meta_unchanged;
use vstd::prelude::*;

verus! {

/// Seconds in one day.
pub const SECONDS_PER_DAY: u64 = 86400;

/// Claim-token units minted per unit of reserve asset.
pub const EXCHANGE_RATE: i128 = 1000;

/// Days from the first purchase to maturity.
pub const LOCK_PERIOD_DAYS: u64 = 30;

/// Lifecycle of a position: `Active` is initial; the other two are terminal.
#[derive(Clone, Copy, Debug, PartialEq, Eq, Structural)]
pub enum PositionStatus {
    /// The position can still receive top-ups and settlement deposits.
    Active,
    /// The reserve was withdrawn by its owner after full delivery.
    Redeemed,
    /// The reserve was seized by the administrator after under-delivery.
    Liquidated,
}

/// Immutable-after-initialization global configuration.
#[derive(Clone, Copy, Debug, PartialEq, Eq, Structural)]
pub struct ContractData {
    /// The only identity allowed to liquidate.
    pub admin: u64,
    /// Address of the settlement-asset ledger.
    pub kale_sac: u64,
    /// Address of the reserve-asset ledger.
    pub xlm_sac: u64,
    /// Address of the claim-token ledger.
    pub fkale_token: u64,
    /// Claim-token units minted per unit of reserve asset.
    pub exchange_rate: i128,
    /// Days from the first purchase to maturity.
    pub lock_period_days: u64,
}

/// One escrow record per user; created on first purchase, never deleted.
#[derive(Clone, Copy, Debug, PartialEq, Eq, Structural)]
pub struct UserPosition {
    /// The owner of the position.
    pub user: u64,
    /// Cumulative claim-token units minted to this position.
    pub fkale_amount: i128,
    /// Cumulative reserve-asset units escrowed.
    pub xlm_locked: i128,
    /// Timestamp of the first purchase.
    pub created_at: u64,
    /// When withdrawal and liquidation become eligible; fixed by the first
    /// purchase and not advanced by top-ups.
    pub maturity_date: u64,
    /// Cumulative settlement-asset units delivered toward the obligation.
    pub kale_delivered: i128,
    /// Lifecycle state.
    pub status: PositionStatus,
}

/// The escrow engine: configuration, the position store and the shared
/// redemption pool counter.
pub struct ForwardsContract {
    /// The engine's own ledger address: where escrowed assets are held.
    pub contract_address: u64,
    /// The configuration; `None` until `initialize` has run.
    pub data: Option<ContractData>,
    /// One position per user.
    pub positions: KvMap<UserPosition>,
    /// Settlement-asset units deposited and not yet consumed by redemption;
    /// shared by all users.
    pub total_kale_available: i128,
}

/// Whether `x` fits in the monetary range.
pub open spec fn in_i128(x: int) -> bool {
    i128::MIN <= x <= i128::MAX
}

/// Whether `x` fits in the timestamp range.
pub open spec fn in_u64(x: int) -> bool {
    0 <= x <= u64::MAX
}

/// No position changed.
pub open spec fn positions_unchanged(pre: ForwardsContract, post: ForwardsContract) -> bool {
    forall|u: u64| #[trigger] post.spec_position(u) == pre.spec_position(u)
}

/// Exactly `user`'s position changed, to `p`.
pub open spec fn position_updated(
    pre: ForwardsContract,
    post: ForwardsContract,
    user: u64,
    p: UserPosition,
) -> bool {
    &&& post.spec_position(user) == Some(p)
    &&& forall|u: u64| u != user ==> #[trigger] post.spec_position(u) == pre.spec_position(u)
}

/// The configuration and the engine's address are unchanged.
pub open spec fn config_unchanged(pre: ForwardsContract, post: ForwardsContract) -> bool {
    &&& post.contract_address == pre.contract_address
    &&& post.data == pre.data
}

/// Every position's claim matches its locked reserve at the configured
/// exchange rate.
pub open spec fn positions_consistent(c: ForwardsContract) -> bool {
    c.data is Some ==> forall|u: u64|
        (#[trigger] c.spec_position(u)) matches Some(p) ==> p.fkale_amount as int
            == p.xlm_locked as int * c.data->Some_0.exchange_rate as int
}

/// A status may only stay, or step from `Active` to a terminal state.
pub open spec fn status_progression(a: PositionStatus, b: PositionStatus) -> bool {
    a == b || (a == PositionStatus::Active && (b == PositionStatus::Redeemed || b
        == PositionStatus::Liquidated))
}

/// No position was deleted, and no status moved backwards or between the
/// terminal states.
pub open spec fn statuses_monotonic(pre: ForwardsContract, post: ForwardsContract) -> bool {
    forall|u: u64|
        match (pre.spec_position(u), #[trigger] post.spec_position(u)) {
            (Some(p1), Some(p2)) => status_progression(p1.status, p2.status),
            (Some(_), None) => false,
            (None, _) => true,
        }
}

/// The position after a successful purchase: created on the first purchase,
/// accumulated on a top-up.  Maturity is fixed by the first purchase.
pub open spec fn position_after_buy(
    prev: Option<UserPosition>,
    user: u64,
    xlm_amount: i128,
    fkale_amount: i128,
    now: u64,
    maturity: u64,
) -> UserPosition {
    match prev {
        Some(p) => UserPosition {
            fkale_amount: (p.fkale_amount + fkale_amount) as i128,
            xlm_locked: (p.xlm_locked + xlm_amount) as i128,
            ..p
        },
        None => UserPosition {
            user,
            fkale_amount,
            xlm_locked: xlm_amount,
            created_at: now,
            maturity_date: maturity,
            kale_delivered: 0,
            status: PositionStatus::Active,
        },
    }
}

proof fn lemma_consistency_preserved_update(
    pre: ForwardsContract,
    post: ForwardsContract,
    user: u64,
    p: UserPosition,
)
    requires
        positions_consistent(pre),
        post.data == pre.data,
        position_updated(pre, post, user, p),
        pre.data is Some ==> p.fkale_amount as int == p.xlm_locked as int
            * pre.data->Some_0.exchange_rate as int,
    ensures
        positions_consistent(post),
{
    if post.data is Some {
        assert forall|u: u64| (#[trigger] post.spec_position(u)) is Some implies {
            let q = post.spec_position(u)->Some_0;
            q.fkale_amount as int == q.xlm_locked as int * post.data->Some_0.exchange_rate as int
        } by {
            if u != user {
                assert(post.spec_position(u) == pre.spec_position(u));
            }
        }
    }
}

proof fn lemma_consistency_preserved_unchanged(pre: ForwardsContract, post: ForwardsContract)
    requires
        positions_consistent(pre),
        post.data == pre.data,
        positions_unchanged(pre, post),
    ensures
        positions_consistent(post),
{
    if post.data is Some {
        assert forall|u: u64| (#[trigger] post.spec_position(u)) is Some implies {
            let q = post.spec_position(u)->Some_0;
            q.fkale_amount as int == q.xlm_locked as int * post.data->Some_0.exchange_rate as int
        } by {
            assert(post.spec_position(u) == pre.spec_position(u));
        }
    }
}

impl ForwardsContract {
    /// Whether `initialize` has run.
    pub open spec fn spec_initialized(self) -> bool {
        self.data is Some
    }

    /// The position of `user`, if one was ever created.
    pub open spec fn spec_position(self, user: u64) -> Option<UserPosition> {
        self.positions.spec_get(user)
    }

    /// A fresh, uninitialized engine holding escrow at `contract_address`.
    pub fn new(contract_address: u64) -> (r: Self)
        ensures
            r.contract_address == contract_address,
            r.data is None,
            r.total_kale_available == 0,
            forall|u: u64| #[trigger] r.spec_position(u) is None,
    {
        ForwardsContract {
            contract_address,
            data: None,
            positions: KvMap::new(),
            total_kale_available: 0,
        }
    }

    /// Why `initialize` would fail, or `None` if it succeeds.
    pub open spec fn initialize_error(self) -> Option<ContractError> {
        if self.data is Some {
            Some(ContractError::AlreadyInitialized)
        } else {
            None
        }
    }

    /// Records the administrator and the three ledger addresses, once, with
    /// the fixed exchange rate and lock period, and empties the pool counter.
    pub fn initialize(&mut self, admin: u64, kale_sac: u64, xlm_sac: u64, fkale_token: u64) -> (r:
        Result<(), ContractError>)
        ensures
            match old(self).initialize_error() {
                Some(e) => r == Err::<(), ContractError>(e) && *final(self) == *old(self),
                None => {
                    &&& r == Ok::<(), ContractError>(())
                    &&& final(self).data == Some(
                        ContractData {
                            admin,
                            kale_sac,
                            xlm_sac,
                            fkale_token,
                            exchange_rate: EXCHANGE_RATE,
                            lock_period_days: LOCK_PERIOD_DAYS,
                        },
                    )
                    &&& final(self).contract_address == old(self).contract_address
                    &&& final(self).total_kale_available == 0
                    &&& positions_unchanged(*old(self), *final(self))
                },
            },
            statuses_monotonic(*old(self), *final(self)),
            (forall|u: u64| old(self).spec_position(u) is None) ==> positions_consistent(
                *final(self),
            ),
    {
        if self.data.is_some() {
            return Err(ContractError::AlreadyInitialized);
        }
        self.data = Some(
            ContractData {
                admin,
                kale_sac,
                xlm_sac,
                fkale_token,
                exchange_rate: EXCHANGE_RATE,
                lock_period_days: LOCK_PERIOD_DAYS,
            },
        );
        self.total_kale_available = 0;
        Ok(())
    }

    /// Why `buy_fkale` would fail, or `None` if it succeeds.  The order
    /// mirrors the order in which the operation validates: configuration,
    /// amount, claim computation, position status, reserve transfer, claim
    /// mint, maturity computation, position accumulation.
    pub open spec fn buy_error(
        self,
        xlm: FKaleToken,
        fkale: FKaleToken,
        user: u64,
        xlm_amount: i128,
        now: u64,
    ) -> Option<ContractError> {
        if self.data is None {
            Some(ContractError::NotInitialized)
        } else {
            let d = self.data->Some_0;
            if xlm_amount <= 0 {
                Some(ContractError::InvalidAmount)
            } else if !in_i128(xlm_amount as int * d.exchange_rate as int) {
                Some(ContractError::OverflowError)
            } else if self.spec_position(user) is Some && self.spec_position(user)->Some_0.status
                != PositionStatus::Active {
                Some(ContractError::PositionAlreadyRedeemed)
            } else {
                let fa = (xlm_amount as int * d.exchange_rate as int) as i128;
                match xlm.transfer_from_error(
                    self.contract_address,
                    user,
                    self.contract_address,
                    xlm_amount,
                ) {
                    Some(e) => Some(spec_map_token_error(e)),
                    None => match fkale.mint_error(self.contract_address, user, fa) {
                        Some(e) => Some(spec_map_token_error(e)),
                        None => if !in_u64(d.lock_period_days as int * SECONDS_PER_DAY as int) {
                            Some(ContractError::OverflowError)
                        } else if !in_u64(
                            now as int + d.lock_period_days as int * SECONDS_PER_DAY as int,
                        ) {
                            Some(ContractError::OverflowError)
                        } else {
                            match self.spec_position(user) {
                                Some(p) => if !in_i128(p.fkale_amount as int + fa as int) {
                                    Some(ContractError::OverflowError)
                                } else if !in_i128(p.xlm_locked as int + xlm_amount as int) {
                                    Some(ContractError::OverflowError)
                                } else {
                                    None
                                },
                                None => None,
                            }
                        },
                    },
                }
            }
        }
    }

    /// Locks `xlm_amount` of the user's reserve asset in escrow and mints the
    /// corresponding claim amount to the user; creates the position on the
    /// first purchase and accumulates it on a top-up.  Top-ups are permitted
    /// only while the position is `Active`: a terminal position refuses the
    /// purchase.  Returns the claim amount minted.
    ///
    /// `user` is the authenticated caller; `xlm` and `fkale` are the ledgers
    /// at the configured reserve and claim addresses; `now` is the host's
    /// current timestamp.
    pub fn buy_fkale(
        &mut self,
        xlm: &mut FKaleToken,
        fkale: &mut FKaleToken,
        user: u64,
        xlm_amount: i128,
        now: u64,
    ) -> (r: Result<i128, ContractError>)
        ensures
            match old(self).buy_error(*old(xlm), *old(fkale), user, xlm_amount, now) {
                Some(e) => {
                    &&& r == Err::<i128, ContractError>(e)
                    &&& *final(self) == *old(self)
                    &&& *final(xlm) == *old(xlm)
                    &&& *final(fkale) == *old(fkale)
                },
                None => {
                    let d = old(self).data->Some_0;
                    let fa = (xlm_amount as int * d.exchange_rate as int) as i128;
                    let maturity = (now as int + d.lock_period_days as int
                        * SECONDS_PER_DAY as int) as u64;
                    &&& r == Ok::<i128, ContractError>(fa)
                    &&& position_updated(
                        *old(self),
                        *final(self),
                        user,
                        position_after_buy(
                            old(self).spec_position(user),
                            user,
                            xlm_amount,
                            fa,
                            now,
                            maturity,
                        ),
                    )
                    &&& final(self).total_kale_available == old(self).total_kale_available
                    &&& config_unchanged(*old(self), *final(self))
                    &&& balances_moved(
                        *old(xlm),
                        *final(xlm),
                        user,
                        old(self).contract_address,
                        xlm_amount,
                    )
                    &&& allowance_consumed(
                        *old(xlm),
                        *final(xlm),
                        user,
                        old(self).contract_address,
                        xlm_amount,
                    )
                    &&& final(xlm).total_supply == old(xlm).total_supply
                    &&& meta_unchanged(*old(xlm), *final(xlm))
                    &&& balances_minted(*old(fkale), *final(fkale), user, fa)
                    &&& allowances_unchanged(*old(fkale), *final(fkale))
                    &&& final(fkale).total_supply as int == old(fkale).total_supply as int
                        + fa as int
                    &&& meta_unchanged(*old(fkale), *final(fkale))
                },
            },
            positions_consistent(*old(self)) ==> positions_consistent(*final(self)),
            statuses_monotonic(*old(self), *final(self)),
    {
        let d = match self.data {
            Some(d) => d,
            None => {
                return Err(ContractError::NotInitialized);
            },
        };
        if xlm_amount <= 0 {
            return Err(ContractError::InvalidAmount);
        }
        let fkale_amount = match xlm_amount.checked_mul(d.exchange_rate) {
            Some(v) => v,
            None => {
                return Err(ContractError::OverflowError);
            },
        };
        // top-ups are permitted only while the position is active
        let prev = self.positions.get(user);
        match prev {
            Some(p) => {
                if p.status != PositionStatus::Active {
                    return Err(ContractError::PositionAlreadyRedeemed);
                }
            },
            None => {},
        }
        // the reserve transfer must be able to succeed
        if xlm.allowance(user, self.contract_address) < xlm_amount {
            return Err(ContractError::InsufficientBalance);
        }
        if xlm.balance(user) < xlm_amount {
            return Err(ContractError::InsufficientBalance);
        }
        if user != self.contract_address {
            if xlm.balance(self.contract_address).checked_add(xlm_amount).is_none() {
                return Err(ContractError::OverflowError);
            }
        }
        // the claim mint must be able to succeed: the engine must administer
        // the claim-token ledger
        match fkale.admin() {
            None => {
                return Err(ContractError::NotInitialized);
            },
            Some(a) => {
                if a != self.contract_address {
                    return Err(ContractError::Unauthorized);
                }
            },
        }
        if fkale_amount < 0 {
            return Err(ContractError::InvalidAmount);
        }
        if fkale.balance(user).checked_add(fkale_amount).is_none() {
            return Err(ContractError::OverflowError);
        }
        if fkale.total_supply().checked_add(fkale_amount).is_none() {
            return Err(ContractError::OverflowError);
        }
        // maturity of a newly created position
        let lock_seconds = match d.lock_period_days.checked_mul(SECONDS_PER_DAY) {
            Some(v) => v,
            None => {
                return Err(ContractError::OverflowError);
            },
        };
        let maturity_date = match now.checked_add(lock_seconds) {
            Some(v) => v,
            None => {
                return Err(ContractError::OverflowError);
            },
        };
        // the accumulated position must stay in range
        let position = match prev {
            Some(p) => {
                let new_fkale = match p.fkale_amount.checked_add(fkale_amount) {
                    Some(v) => v,
                    None => {
                        return Err(ContractError::OverflowError);
                    },
                };
                let new_locked = match p.xlm_locked.checked_add(xlm_amount) {
                    Some(v) => v,
                    None => {
                        return Err(ContractError::OverflowError);
                    },
                };
                UserPosition { fkale_amount: new_fkale, xlm_locked: new_locked, ..p }
            },
            None => UserPosition {
                user,
                fkale_amount,
                xlm_locked: xlm_amount,
                created_at: now,
                maturity_date,
                kale_delivered: 0,
                status: PositionStatus::Active,
            },
        };
        // every check passed: apply the irreversible ledger effects, then
        // commit the position
        let _ = xlm.transfer_from(self.contract_address, user, self.contract_address, xlm_amount);
        let _ = fkale.mint(self.contract_address, user, fkale_amount);
        self.positions.set(user, position);
        proof {
            if positions_consistent(*old(self)) {
                match old(self).spec_position(user) {
                    Some(p0) => {
                        assert(p0.fkale_amount as int == p0.xlm_locked as int
                            * d.exchange_rate as int);
                        assert((p0.xlm_locked as int + xlm_amount as int) * d.exchange_rate as int
                            == p0.xlm_locked as int * d.exchange_rate as int + xlm_amount as int
                            * d.exchange_rate as int) by (nonlinear_arith);
                    },
                    None => {},
                }
                lemma_consistency_preserved_update(*old(self), *self, user, position);
            }
        }
        Ok(fkale_amount)
    }

    /// Why `deposit_kale_for_redemption` would fail, or `None` if it
    /// succeeds.
    pub open spec fn deposit_error(
        self,
        kale: FKaleToken,
        user: u64,
        kale_amount: i128,
    ) -> Option<ContractError> {
        if self.data is None {
            Some(ContractError::NotInitialized)
        } else if kale_amount <= 0 {
            Some(ContractError::InvalidAmount)
        } else {
            match self.spec_position(user) {
                None => Some(ContractError::PositionNotFound),
                Some(p) => if p.status != PositionStatus::Active {
                    Some(ContractError::PositionAlreadyRedeemed)
                } else {
                    match kale.transfer_from_error(
                        self.contract_address,
                        user,
                        self.contract_address,
                        kale_amount,
                    ) {
                        Some(e) => Some(spec_map_token_error(e)),
                        None => if !in_i128(p.kale_delivered as int + kale_amount as int) {
                            Some(ContractError::OverflowError)
                        } else if !in_i128(
                            self.total_kale_available as int + kale_amount as int,
                        ) {
                            Some(ContractError::OverflowError)
                        } else {
                            None
                        },
                    }
                },
            }
        }
    }

    /// Delivers `kale_amount` of the user's settlement asset into escrow,
    /// crediting both the user's position and the shared redemption pool.
    /// Accepted at any time, also after maturity, while the position is
    /// `Active`.
    ///
    /// `user` is the authenticated caller; `kale` is the ledger at the
    /// configured settlement address.
    pub fn deposit_kale_for_redemption(
        &mut self,
        kale: &mut FKaleToken,
        user: u64,
        kale_amount: i128,
    ) -> (r: Result<(), ContractError>)
        ensures
            match old(self).deposit_error(*old(kale), user, kale_amount) {
                Some(e) => {
                    &&& r == Err::<(), ContractError>(e)
                    &&& *final(self) == *old(self)
                    &&& *final(kale) == *old(kale)
                },
                None => {
                    let p = old(self).spec_position(user)->Some_0;
                    &&& r == Ok::<(), ContractError>(())
                    &&& position_updated(
                        *old(self),
                        *final(self),
                        user,
                        UserPosition {
                            kale_delivered: (p.kale_delivered + kale_amount) as i128,
                            ..p
                        },
                    )
                    &&& final(self).total_kale_available as int == old(
                        self,
                    ).total_kale_available as int + kale_amount as int
                    &&& config_unchanged(*old(self), *final(self))
                    &&& balances_moved(
                        *old(kale),
                        *final(kale),
                        user,
                        old(self).contract_address,
                        kale_amount,
                    )
                    &&& allowance_consumed(
                        *old(kale),
                        *final(kale),
                        user,
                        old(self).contract_address,
                        kale_amount,
                    )
                    &&& final(kale).total_supply == old(kale).total_supply
                    &&& meta_unchanged(*old(kale), *final(kale))
                },
            },
            positions_consistent(*old(self)) ==> positions_consistent(*final(self)),
            statuses_monotonic(*old(self), *final(self)),
    {
        if self.data.is_none() {
            return Err(ContractError::NotInitialized);
        }
        if kale_amount <= 0 {
            return Err(ContractError::InvalidAmount);
        }
        let p = match self.positions.get(user) {
            Some(p) => p,
            None => {
                return Err(ContractError::PositionNotFound);
            },
        };
        if p.status != PositionStatus::Active {
            return Err(ContractError::PositionAlreadyRedeemed);
        }
        // the settlement transfer must be able to succeed
        if kale.allowance(user, self.contract_address) < kale_amount {
            return Err(ContractError::InsufficientBalance);
        }
        if kale.balance(user) < kale_amount {
            return Err(ContractError::InsufficientBalance);
        }
        if user != self.contract_address {
            if kale.balance(self.contract_address).checked_add(kale_amount).is_none() {
                return Err(ContractError::OverflowError);
            }
        }
        // the accumulated delivery and the pool must stay in range
        let new_delivered = match p.kale_delivered.checked_add(kale_amount) {
            Some(v) => v,
            None => {
                return Err(ContractError::OverflowError);
            },
        };
        let new_pool = match self.total_kale_available.checked_add(kale_amount) {
            Some(v) => v,
            None => {
                return Err(ContractError::OverflowError);
            },
        };
        let _ = kale.transfer_from(self.contract_address, user, self.contract_address, kale_amount);
        let updated = UserPosition { kale_delivered: new_delivered, ..p };
        self.positions.set(user, updated);
        self.total_kale_available = new_pool;
        proof {
            if positions_consistent(*old(self)) {
                lemma_consistency_preserved_update(*old(self), *self, user, updated);
            }
        }
        Ok(())
    }

    /// Why `redeem_fkale` would fail, or `None` if it succeeds.  Redemption
    /// is a pure pool/ledger operation: no position is read.
    pub open spec fn redeem_error(
        self,
        kale: FKaleToken,
        fkale: FKaleToken,
        user: u64,
        fkale_amount: i128,
    ) -> Option<ContractError> {
        if self.data is None {
            Some(ContractError::NotInitialized)
        } else if fkale_amount <= 0 {
            Some(ContractError::InvalidAmount)
        } else if self.total_kale_available < fkale_amount {
            Some(ContractError::InsufficientKaleDeposited)
        } else if fkale.spec_balance(user) < fkale_amount {
            Some(ContractError::InsufficientBalance)
        } else {
            match fkale.burn_error(self.contract_address, user, fkale_amount) {
                Some(e) => Some(spec_map_token_error(e)),
                None => match kale.transfer_error(self.contract_address, user, fkale_amount) {
                    Some(e) => Some(spec_map_token_error(e)),
                    None => None,
                },
            }
        }
    }

    /// Burns `fkale_amount` of the user's claim tokens and pays out the same
    /// amount of settlement asset from the shared pool.  The pool is global:
    /// any user may redeem against it, regardless of who deposited.  Returns
    /// the amount paid out.
    ///
    /// `user` is the authenticated caller; `kale` and `fkale` are the ledgers
    /// at the configured settlement and claim addresses.
    pub fn redeem_fkale(
        &mut self,
        kale: &mut FKaleToken,
        fkale: &mut FKaleToken,
        user: u64,
        fkale_amount: i128,
    ) -> (r: Result<i128, ContractError>)
        ensures
            match old(self).redeem_error(*old(kale), *old(fkale), user, fkale_amount) {
                Some(e) => {
                    &&& r == Err::<i128, ContractError>(e)
                    &&& *final(self) == *old(self)
                    &&& *final(kale) == *old(kale)
                    &&& *final(fkale) == *old(fkale)
                },
                None => {
                    &&& r == Ok::<i128, ContractError>(fkale_amount)
                    &&& positions_unchanged(*old(self), *final(self))
                    &&& final(self).total_kale_available as int == old(
                        self,
                    ).total_kale_available as int - fkale_amount as int
                    &&& config_unchanged(*old(self), *final(self))
                    &&& balances_burned(*old(fkale), *final(fkale), user, fkale_amount)
                    &&& allowances_unchanged(*old(fkale), *final(fkale))
                    &&& final(fkale).total_supply as int == old(fkale).total_supply as int
                        - fkale_amount as int
                    &&& meta_unchanged(*old(fkale), *final(fkale))
                    &&& balances_moved(
                        *old(kale),
                        *final(kale),
                        old(self).contract_address,
                        user,
                        fkale_amount,
                    )
                    &&& allowances_unchanged(*old(kale), *final(kale))
                    &&& final(kale).total_supply == old(kale).total_supply
                    &&& meta_unchanged(*old(kale), *final(kale))
                },
            },
            positions_consistent(*old(self)) ==> positions_consistent(*final(self)),
            statuses_monotonic(*old(self), *final(self)),
    {
        if self.data.is_none() {
            return Err(ContractError::NotInitialized);
        }
        if fkale_amount <= 0 {
            return Err(ContractError::InvalidAmount);
        }
        if self.total_kale_available < fkale_amount {
            return Err(ContractError::InsufficientKaleDeposited);
        }
        if fkale.balance(user) < fkale_amount {
            return Err(ContractError::InsufficientBalance);
        }
        // the claim burn must be able to succeed: the engine must administer
        // the claim-token ledger
        match fkale.admin() {
            None => {
                return Err(ContractError::NotInitialized);
            },
            Some(a) => {
                if a != self.contract_address {
                    return Err(ContractError::Unauthorized);
                }
            },
        }
        if fkale.total_supply().checked_sub(fkale_amount).is_none() {
            return Err(ContractError::OverflowError);
        }
        // the settlement payout must be able to succeed
        if kale.balance(self.contract_address) < fkale_amount {
            return Err(ContractError::InsufficientBalance);
        }
        if self.contract_address != user {
            if kale.balance(user).checked_add(fkale_amount).is_none() {
                return Err(ContractError::OverflowError);
            }
        }
        let _ = fkale.burn(self.contract_address, user, fkale_amount);
        let _ = kale.transfer(self.contract_address, user, fkale_amount);
        self.total_kale_available = self.total_kale_available - fkale_amount;
        proof {
            if positions_consistent(*old(self)) {
                lemma_consistency_preserved_unchanged(*old(self), *self);
            }
        }
        Ok(fkale_amount)
    }

    /// Why `withdraw_xlm` would fail, or `None` if it succeeds.
    pub open spec fn withdraw_error(
        self,
        xlm: FKaleToken,
        user: u64,
        now: u64,
    ) -> Option<ContractError> {
        if self.data is None {
            Some(ContractError::NotInitialized)
        } else {
            match self.spec_position(user) {
                None => Some(ContractError::PositionNotFound),
                Some(p) => if p.status != PositionStatus::Active {
                    Some(ContractError::PositionAlreadyRedeemed)
                } else if now < p.maturity_date {
                    Some(ContractError::PositionNotMatured)
                } else if p.kale_delivered < p.fkale_amount {
                    Some(ContractError::InsufficientKaleDeposited)
                } else {
                    match xlm.transfer_error(self.contract_address, user, p.xlm_locked) {
                        Some(e) => Some(spec_map_token_error(e)),
                        None => None,
                    }
                },
            }
        }
    }

    /// Returns the whole locked reserve to the user, once the position has
    /// matured and the delivered settlement covers the whole claim; the
    /// position becomes `Redeemed`.  Returns the amount returned.
    ///
    /// `user` is the authenticated caller; `xlm` is the ledger at the
    /// configured reserve address; `now` is the host's current timestamp.
    pub fn withdraw_xlm(&mut self, xlm: &mut FKaleToken, user: u64, now: u64) -> (r: Result<
        i128,
        ContractError,
    >)
        ensures
            match old(self).withdraw_error(*old(xlm), user, now) {
                Some(e) => {
                    &&& r == Err::<i128, ContractError>(e)
                    &&& *final(self) == *old(self)
                    &&& *final(xlm) == *old(xlm)
                },
                None => {
                    let p = old(self).spec_position(user)->Some_0;
                    &&& r == Ok::<i128, ContractError>(p.xlm_locked)
                    &&& position_updated(
                        *old(self),
                        *final(self),
                        user,
                        UserPosition { status: PositionStatus::Redeemed, ..p },
                    )
                    &&& final(self).total_kale_available == old(self).total_kale_available
                    &&& config_unchanged(*old(self), *final(self))
                    &&& balances_moved(
                        *old(xlm),
                        *final(xlm),
                        old(self).contract_address,
                        user,
                        p.xlm_locked,
                    )
                    &&& allowances_unchanged(*old(xlm), *final(xlm))
                    &&& final(xlm).total_supply == old(xlm).total_supply
                    &&& meta_unchanged(*old(xlm), *final(xlm))
                },
            },
            positions_consistent(*old(self)) ==> positions_consistent(*final(self)),
            statuses_monotonic(*old(self), *final(self)),
    {
        if self.data.is_none() {
            return Err(ContractError::NotInitialized);
        }
        let p = match self.positions.get(user) {
            Some(p) => p,
            None => {
                return Err(ContractError::PositionNotFound);
            },
        };
        if p.status != PositionStatus::Active {
            return Err(ContractError::PositionAlreadyRedeemed);
        }
        if now < p.maturity_date {
            return Err(ContractError::PositionNotMatured);
        }
        if p.kale_delivered < p.fkale_amount {
            return Err(ContractError::InsufficientKaleDeposited);
        }
        // the reserve payout must be able to succeed
        if p.xlm_locked < 0 {
            return Err(ContractError::InvalidAmount);
        }
        if xlm.balance(self.contract_address) < p.xlm_locked {
            return Err(ContractError::InsufficientBalance);
        }
        if self.contract_address != user {
            if xlm.balance(user).checked_add(p.xlm_locked).is_none() {
                return Err(ContractError::OverflowError);
            }
        }
        let _ = xlm.transfer(self.contract_address, user, p.xlm_locked);
        let updated = UserPosition { status: PositionStatus::Redeemed, ..p };
        self.positions.set(user, updated);
        proof {
            if positions_consistent(*old(self)) {
                lemma_consistency_preserved_update(*old(self), *self, user, updated);
            }
        }
        Ok(p.xlm_locked)
    }

    /// Why `liquidate_position` would fail, or `None` if it succeeds.
    pub open spec fn liquidate_error(
        self,
        xlm: FKaleToken,
        admin: u64,
        user: u64,
        now: u64,
    ) -> Option<ContractError> {
        if self.data is None {
            Some(ContractError::NotInitialized)
        } else if admin != self.data->Some_0.admin {
            Some(ContractError::Unauthorized)
        } else {
            match self.spec_position(user) {
                None => Some(ContractError::PositionNotFound),
                Some(p) => if p.status != PositionStatus::Active {
                    Some(ContractError::PositionAlreadyLiquidated)
                } else if now < p.maturity_date {
                    Some(ContractError::PositionNotMatured)
                } else if p.kale_delivered >= p.fkale_amount {
                    Some(ContractError::InsufficientKaleDeposited)
                } else {
                    match xlm.transfer_error(self.contract_address, admin, p.xlm_locked) {
                        Some(e) => Some(spec_map_token_error(e)),
                        None => None,
                    }
                },
            }
        }
    }

    /// Seizes the whole locked reserve of a matured, under-delivered
    /// position for the administrator; the position becomes `Liquidated`.
    /// Returns the amount seized.
    ///
    /// `admin` is the authenticated caller and must be the configured
    /// administrator; `xlm` is the ledger at the configured reserve address;
    /// `now` is the host's current timestamp.
    pub fn liquidate_position(&mut self, xlm: &mut FKaleToken, admin: u64, user: u64, now: u64) -> (r:
        Result<i128, ContractError>)
        ensures
            match old(self).liquidate_error(*old(xlm), admin, user, now) {
                Some(e) => {
                    &&& r == Err::<i128, ContractError>(e)
                    &&& *final(self) == *old(self)
                    &&& *final(xlm) == *old(xlm)
                },
                None => {
                    let p = old(self).spec_position(user)->Some_0;
                    &&& r == Ok::<i128, ContractError>(p.xlm_locked)
                    &&& position_updated(
                        *old(self),
                        *final(self),
                        user,
                        UserPosition { status: PositionStatus::Liquidated, ..p },
                    )
                    &&& final(self).total_kale_available == old(self).total_kale_available
                    &&& config_unchanged(*old(self), *final(self))
                    &&& balances_moved(
                        *old(xlm),
                        *final(xlm),
                        old(self).contract_address,
                        admin,
                        p.xlm_locked,
                    )
                    &&& allowances_unchanged(*old(xlm), *final(xlm))
                    &&& final(xlm).total_supply == old(xlm).total_supply
                    &&& meta_unchanged(*old(xlm), *final(xlm))
                },
            },
            positions_consistent(*old(self)) ==> positions_consistent(*final(self)),
            statuses_monotonic(*old(self), *final(self)),
    {
        let d = match self.data {
            Some(d) => d,
            None => {
                return Err(ContractError::NotInitialized);
            },
        };
        if admin != d.admin {
            return Err(ContractError::Unauthorized);
        }
        let p = match self.positions.get(user) {
            Some(p) => p,
            None => {
                return Err(ContractError::PositionNotFound);
            },
        };
        if p.status != PositionStatus::Active {
            return Err(ContractError::PositionAlreadyLiquidated);
        }
        if now < p.maturity_date {
            return Err(ContractError::PositionNotMatured);
        }
        if p.kale_delivered >= p.fkale_amount {
            return Err(ContractError::InsufficientKaleDeposited);
        }
        // the reserve seizure must be able to succeed
        if p.xlm_locked < 0 {
            return Err(ContractError::InvalidAmount);
        }
        if xlm.balance(self.contract_address) < p.xlm_locked {
            return Err(ContractError::InsufficientBalance);
        }
        if self.contract_address != admin {
            if xlm.balance(admin).checked_add(p.xlm_locked).is_none() {
                return Err(ContractError::OverflowError);
            }
        }
        let _ = xlm.transfer(self.contract_address, admin, p.xlm_locked);
        let updated = UserPosition { status: PositionStatus::Liquidated, ..p };
        self.positions.set(user, updated);
        proof {
            if positions_consistent(*old(self)) {
                lemma_consistency_preserved_update(*old(self), *self, user, updated);
            }
        }
        Ok(p.xlm_locked)
    }

    /// The position of `user`, if one was ever created.
    pub fn get_user_position(&self, user: u64) -> (r: Option<UserPosition>)
        ensures
            r == self.spec_position(user),
    {
        self.positions.get(user)
    }

    /// Whether `withdraw_xlm` is eligible: the position exists, is `Active`,
    /// has matured and is fully delivered.
    pub open spec fn spec_can_withdraw(self, user: u64, now: u64) -> bool {
        match self.spec_position(user) {
            Some(p) => p.status == PositionStatus::Active && now >= p.maturity_date
                && p.kale_delivered >= p.fkale_amount,
            None => false,
        }
    }

    /// Executable form of [`Self::spec_can_withdraw`].
    pub fn can_withdraw_xlm(&self, user: u64, now: u64) -> (r: bool)
        ensures
            r == self.spec_can_withdraw(user, now),
    {
        match self.positions.get(user) {
            Some(p) => p.status == PositionStatus::Active && now >= p.maturity_date
                && p.kale_delivered >= p.fkale_amount,
            None => false,
        }
    }

    /// The configuration, if the engine was initialized.
    pub fn get_contract_data(&self) -> (r: Option<ContractData>)
        ensures
            r == self.data,
    {
        self.data
    }

    /// The shared redemption pool counter.
    pub fn get_total_kale_available(&self) -> (r: i128)
        ensures
            r == self.total_kale_available,
    {
        self.total_kale_available
    }
}

} // verus!
