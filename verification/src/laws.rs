//! Laws of the escrow engine that relate several operations.
//!
//! The per-operation guarantees — claim/reserve consistency and status
//! monotonicity are preserved, a failed operation changes nothing — are part
//! of each operation's own contract in [`crate::forwards`].  This module
//! states the laws that span operations: the pool-accounting invariant, the
//! exact success conditions of withdrawal and liquidation, their mutual
//! exclusion, and the global (cross-user) nature of redemption capacity.

use crate::errors::ContractError;
use crate::forwards::ForwardsContract;
use crate::forwards::PositionStatus;
use crate::forwards::in_i128;
use crate::forwards::status_progression;
use crate::forwards::statuses_monotonic;
use crate::token::FKaleToken;
use vstd::prelude::*;

verus! {

/// One event that touches the shared redemption pool.
pub enum PoolEvent {
    /// A successful settlement deposit of this amount.
    Deposit(i128),
    /// A successful redemption of this amount.
    Redeem(i128),
}

/// The pool total implied by a history of pool events: the sum of all
/// deposited amounts minus the sum of all redeemed amounts.
pub open spec fn pool_of(events: Seq<PoolEvent>) -> int
    decreases events.len(),
{
    if events.len() == 0 {
        0
    } else {
        pool_of(events.drop_last()) + (match events.last() {
            PoolEvent::Deposit(a) => a as int,
            PoolEvent::Redeem(a) => -(a as int),
        })
    }
}

/// The pool counter equals the sum of all successful settlement deposits
/// minus the sum of all successful redemptions: a successful
/// `deposit_kale_for_redemption` (whose contract gives the pool-delta
/// hypothesis) extends the history by its amount and keeps the equation.
pub proof fn lemma_pool_tracks_deposit(
    events: Seq<PoolEvent>,
    pre: ForwardsContract,
    post: ForwardsContract,
    amount: i128,
)
    requires
        pre.total_kale_available as int == pool_of(events),
        post.total_kale_available as int == pre.total_kale_available as int + amount as int,
    ensures
        post.total_kale_available as int == pool_of(events.push(PoolEvent::Deposit(amount))),
{
    let t = events.push(PoolEvent::Deposit(amount));
    assert(t.drop_last() =~= events);
}

/// The counterpart of [`lemma_pool_tracks_deposit`] for a successful
/// `redeem_fkale`, whose contract gives the negative pool delta.
pub proof fn lemma_pool_tracks_redeem(
    events: Seq<PoolEvent>,
    pre: ForwardsContract,
    post: ForwardsContract,
    amount: i128,
)
    requires
        pre.total_kale_available as int == pool_of(events),
        post.total_kale_available as int == pre.total_kale_available as int - amount as int,
    ensures
        post.total_kale_available as int == pool_of(events.push(PoolEvent::Redeem(amount))),
{
    let t = events.push(PoolEvent::Redeem(amount));
    assert(t.drop_last() =~= events);
}

/// Every other operation leaves the pool counter alone (its contract gives
/// the equality), so the same history keeps accounting for it.
pub proof fn lemma_pool_constant_elsewhere(
    events: Seq<PoolEvent>,
    pre: ForwardsContract,
    post: ForwardsContract,
)
    requires
        pre.total_kale_available as int == pool_of(events),
        post.total_kale_available == pre.total_kale_available,
    ensures
        post.total_kale_available as int == pool_of(events),
{
}

/// Status monotonicity composes: a chain of operations can only keep a
/// status or step it from `Active` into a terminal state, never further.
/// Together with each operation's own `statuses_monotonic` clause this
/// extends the guarantee from one operation to any sequence of them.
pub proof fn lemma_statuses_monotonic_trans(
    a: ForwardsContract,
    b: ForwardsContract,
    c: ForwardsContract,
)
    requires
        statuses_monotonic(a, b),
        statuses_monotonic(b, c),
    ensures
        statuses_monotonic(a, c),
{
    assert forall|u: u64|
        match (a.spec_position(u), #[trigger] c.spec_position(u)) {
            (Some(p1), Some(p2)) => status_progression(p1.status, p2.status),
            (Some(_), None) => false,
            (None, _) => true,
        } by {
        assert(match (a.spec_position(u), b.spec_position(u)) {
            (Some(p1), Some(p2)) => status_progression(p1.status, p2.status),
            (Some(_), None) => false,
            (None, _) => true,
        });
        assert(match (b.spec_position(u), c.spec_position(u)) {
            (Some(p1), Some(p2)) => status_progression(p1.status, p2.status),
            (Some(_), None) => false,
            (None, _) => true,
        });
    }
}

/// A terminal position refuses every state-changing operation on it,
/// whatever the ledgers hold: top-up purchase, settlement deposit,
/// withdrawal and liquidation all fail (and, by their contracts, mutate
/// nothing).  With the monotonicity above, once a position is settled no
/// operation ever touches it again, and at most one of withdrawal and
/// liquidation can ever succeed on a position.  The amount hypotheses only
/// keep the earlier input checks of the two deposit-side operations from
/// firing first.
pub proof fn lemma_terminal_position_is_settled(
    c: ForwardsContract,
    xlm: FKaleToken,
    kale: FKaleToken,
    fkale: FKaleToken,
    admin: u64,
    user: u64,
    now: u64,
    amount: i128,
)
    requires
        c.spec_initialized(),
        admin == c.data->Some_0.admin,
        c.spec_position(user) is Some,
        c.spec_position(user)->Some_0.status != PositionStatus::Active,
        0 < amount,
        in_i128(amount as int * c.data->Some_0.exchange_rate as int),
    ensures
        c.buy_error(xlm, fkale, user, amount, now) == Some(
            ContractError::PositionAlreadyRedeemed,
        ),
        c.deposit_error(kale, user, amount) == Some(ContractError::PositionAlreadyRedeemed),
        c.withdraw_error(xlm, user, now) == Some(ContractError::PositionAlreadyRedeemed),
        c.liquidate_error(xlm, admin, user, now) == Some(
            ContractError::PositionAlreadyLiquidated,
        ),
{
}

/// Withdrawal succeeds exactly on a still-active, matured, fully delivered
/// position, and otherwise fails with the specific corresponding error (by
/// `withdraw_xlm`'s contract, mutating nothing).  The ledger-side
/// hypotheses — a non-negative locked amount, a solvent escrow account and a
/// payout that stays in the monetary range — are met whenever the ledger is
/// reached only through the engine.
pub proof fn lemma_withdraw_succeeds_iff(
    c: ForwardsContract,
    xlm: FKaleToken,
    user: u64,
    now: u64,
)
    requires
        c.spec_initialized(),
        c.spec_position(user) is Some,
        c.spec_position(user)->Some_0.xlm_locked >= 0,
        xlm.spec_balance(c.contract_address) >= c.spec_position(user)->Some_0.xlm_locked,
        user == c.contract_address || xlm.spec_balance(user) as int + c.spec_position(
            user,
        )->Some_0.xlm_locked as int <= i128::MAX as int,
    ensures
        c.withdraw_error(xlm, user, now) is None <==> c.spec_can_withdraw(user, now),
        c.spec_position(user)->Some_0.status != PositionStatus::Active ==> c.withdraw_error(
            xlm,
            user,
            now,
        ) == Some(ContractError::PositionAlreadyRedeemed),
        c.spec_position(user)->Some_0.status == PositionStatus::Active && now < c.spec_position(
            user,
        )->Some_0.maturity_date ==> c.withdraw_error(xlm, user, now) == Some(
            ContractError::PositionNotMatured,
        ),
        c.spec_position(user)->Some_0.status == PositionStatus::Active && now >= c.spec_position(
            user,
        )->Some_0.maturity_date && c.spec_position(user)->Some_0.kale_delivered < c.spec_position(
            user,
        )->Some_0.fkale_amount ==> c.withdraw_error(xlm, user, now) == Some(
            ContractError::InsufficientKaleDeposited,
        ),
{
}

/// Liquidation by the configured administrator succeeds exactly on a
/// still-active, matured, under-delivered position, and otherwise fails with
/// the specific corresponding error (by `liquidate_position`'s contract,
/// mutating nothing).
pub proof fn lemma_liquidate_succeeds_iff(
    c: ForwardsContract,
    xlm: FKaleToken,
    admin: u64,
    user: u64,
    now: u64,
)
    requires
        c.spec_initialized(),
        admin == c.data->Some_0.admin,
        c.spec_position(user) is Some,
        c.spec_position(user)->Some_0.xlm_locked >= 0,
        xlm.spec_balance(c.contract_address) >= c.spec_position(user)->Some_0.xlm_locked,
        admin == c.contract_address || xlm.spec_balance(admin) as int + c.spec_position(
            user,
        )->Some_0.xlm_locked as int <= i128::MAX as int,
    ensures
        c.liquidate_error(xlm, admin, user, now) is None <==> {
            let p = c.spec_position(user)->Some_0;
            p.status == PositionStatus::Active && now >= p.maturity_date && p.kale_delivered
                < p.fkale_amount
        },
        c.spec_position(user)->Some_0.status != PositionStatus::Active ==> c.liquidate_error(
            xlm,
            admin,
            user,
            now,
        ) == Some(ContractError::PositionAlreadyLiquidated),
        c.spec_position(user)->Some_0.status == PositionStatus::Active && now < c.spec_position(
            user,
        )->Some_0.maturity_date ==> c.liquidate_error(xlm, admin, user, now) == Some(
            ContractError::PositionNotMatured,
        ),
        c.spec_position(user)->Some_0.status == PositionStatus::Active && now >= c.spec_position(
            user,
        )->Some_0.maturity_date && c.spec_position(user)->Some_0.kale_delivered
            >= c.spec_position(user)->Some_0.fkale_amount ==> c.liquidate_error(
            xlm,
            admin,
            user,
            now,
        ) == Some(ContractError::InsufficientKaleDeposited),
{
}

/// A caller who is not the configured administrator cannot liquidate.
pub proof fn lemma_liquidate_requires_admin(
    c: ForwardsContract,
    xlm: FKaleToken,
    caller: u64,
    user: u64,
    now: u64,
)
    requires
        c.spec_initialized(),
        caller != c.data->Some_0.admin,
    ensures
        c.liquidate_error(xlm, caller, user, now) == Some(ContractError::Unauthorized),
{
}

/// For one matured position, withdrawal and liquidation are mutually
/// exclusive, and — while the position is still active — exactly one of the
/// two is eligible: withdrawal when delivery covers the claim, liquidation
/// when it falls short.
pub proof fn lemma_withdraw_liquidate_exclusive(
    c: ForwardsContract,
    xlm: FKaleToken,
    admin: u64,
    user: u64,
    now: u64,
)
    requires
        c.spec_initialized(),
        admin == c.data->Some_0.admin,
        c.spec_position(user) is Some,
        c.spec_position(user)->Some_0.xlm_locked >= 0,
        xlm.spec_balance(c.contract_address) >= c.spec_position(user)->Some_0.xlm_locked,
        user == c.contract_address || xlm.spec_balance(user) as int + c.spec_position(
            user,
        )->Some_0.xlm_locked as int <= i128::MAX as int,
        admin == c.contract_address || xlm.spec_balance(admin) as int + c.spec_position(
            user,
        )->Some_0.xlm_locked as int <= i128::MAX as int,
    ensures
        !(c.withdraw_error(xlm, user, now) is None && c.liquidate_error(xlm, admin, user, now)
            is None),
        c.spec_position(user)->Some_0.status == PositionStatus::Active && now >= c.spec_position(
            user,
        )->Some_0.maturity_date ==> (c.withdraw_error(xlm, user, now) is None
            <==> c.liquidate_error(xlm, admin, user, now) is Some),
{
}

/// Redemption capacity is global: any user whose claim-token balance covers
/// the amount may redeem against the pool, whoever deposited the settlement
/// asset and whether or not the redeemer holds any position.  Nothing about
/// the redeemer's own position or deposits appears below.
pub proof fn lemma_redeem_cross_user(
    c: ForwardsContract,
    kale: FKaleToken,
    fkale: FKaleToken,
    user: u64,
    amount: i128,
)
    requires
        c.spec_initialized(),
        0 < amount,
        amount <= c.total_kale_available,
        fkale.spec_balance(user) >= amount,
        fkale.spec_admin() == Some(c.contract_address),
        fkale.total_supply as int - amount as int >= i128::MIN as int,
        kale.spec_balance(c.contract_address) >= amount,
        c.contract_address == user || kale.spec_balance(user) as int + amount as int
            <= i128::MAX as int,
    ensures
        c.redeem_error(kale, fkale, user, amount) is None,
{
}

/// The outcome of a redemption does not read the position store at all: two
/// engines that differ only in their positions decide any redemption alike.
pub proof fn lemma_redeem_ignores_positions(
    c1: ForwardsContract,
    c2: ForwardsContract,
    kale: FKaleToken,
    fkale: FKaleToken,
    user: u64,
    amount: i128,
)
    requires
        c1.data == c2.data,
        c1.contract_address == c2.contract_address,
        c1.total_kale_available == c2.total_kale_available,
    ensures
        c1.redeem_error(kale, fkale, user, amount) == c2.redeem_error(kale, fkale, user, amount),
{
}

/// A redemption that asks for more than the pool holds fails with the
/// accounting error, whatever the ledgers hold; by `redeem_fkale`'s contract
/// it then burns and transfers nothing.
pub proof fn lemma_redeem_needs_pool(
    c: ForwardsContract,
    kale: FKaleToken,
    fkale: FKaleToken,
    user: u64,
    amount: i128,
)
    requires
        c.spec_initialized(),
        0 < amount,
        c.total_kale_available < amount,
    ensures
        c.redeem_error(kale, fkale, user, amount) == Some(
            ContractError::InsufficientKaleDeposited,
        ),
{
}

} // verus!
