//! The claim-token ledger.
//!
//! A fungible-token ledger with balances, allowances and an administrator who
//! alone may mint, burn and rotate the administrator role.  The host chain
//! persists one such ledger per asset and authenticates callers; here the
//! ledger is an explicit value and each operation takes the authenticated
//! caller as a plain identifier.  Every operation either applies its whole
//! effect or returns an error and changes nothing.

use crate::errors::TokenError;
use crate::store::KvMap;
use crate::store::PairMap;
use vstd::prelude::*;

verus! {

/// A fungible-token ledger.
pub struct FKaleToken {
    /// Whether `initialize` has run; the administrator is set exactly then.
    pub initialized: bool,
    /// The administrator: the only identity allowed to mint and burn.
    pub admin: u64,
    /// Display precision of the token.
    pub decimals: u32,
    /// Display name of the token.
    pub name: String,
    /// Display symbol of the token.
    pub symbol: String,
    /// Sum of all mints minus all burns since initialization.
    pub total_supply: i128,
    /// Balance of each holder; a holder without a record owns zero.
    pub balances: KvMap<i128>,
    /// Allowance granted by an owner to a spender, keyed by (owner, spender).
    pub allowances: PairMap<i128>,
}

/// The administrator, metadata and initialization flag are unchanged.
pub open spec fn meta_unchanged(pre: FKaleToken, post: FKaleToken) -> bool {
    &&& post.initialized == pre.initialized
    &&& post.admin == pre.admin
    &&& post.decimals == pre.decimals
    &&& post.name == pre.name
    &&& post.symbol == pre.symbol
}

/// No balance changed.
pub open spec fn balances_unchanged(pre: FKaleToken, post: FKaleToken) -> bool {
    forall|a: u64| #[trigger] post.spec_balance(a) == pre.spec_balance(a)
}

/// No allowance changed.
pub open spec fn allowances_unchanged(pre: FKaleToken, post: FKaleToken) -> bool {
    forall|f: u64, s: u64| #[trigger] post.spec_allowance(f, s) == pre.spec_allowance(f, s)
}

/// `amount` units moved from `from` to `to`; no other balance changed.
pub open spec fn balances_moved(
    pre: FKaleToken,
    post: FKaleToken,
    from: u64,
    to: u64,
    amount: i128,
) -> bool {
    forall|a: u64|
        #[trigger] post.spec_balance(a) as int == pre.spec_balance(a) as int - (if a == from {
            amount as int
        } else {
            0
        }) + (if a == to {
            amount as int
        } else {
            0
        })
}

/// `amount` units appeared on `to`; no other balance changed.
pub open spec fn balances_minted(pre: FKaleToken, post: FKaleToken, to: u64, amount: i128) -> bool {
    forall|a: u64|
        #[trigger] post.spec_balance(a) as int == pre.spec_balance(a) as int + (if a == to {
            amount as int
        } else {
            0
        })
}

/// `amount` units vanished from `from`; no other balance changed.
pub open spec fn balances_burned(
    pre: FKaleToken,
    post: FKaleToken,
    from: u64,
    amount: i128,
) -> bool {
    forall|a: u64|
        #[trigger] post.spec_balance(a) as int == pre.spec_balance(a) as int - (if a == from {
            amount as int
        } else {
            0
        })
}

/// The allowance of `(from, spender)` shrank by `amount`; no other changed.
pub open spec fn allowance_consumed(
    pre: FKaleToken,
    post: FKaleToken,
    from: u64,
    spender: u64,
    amount: i128,
) -> bool {
    &&& post.spec_allowance(from, spender) as int == pre.spec_allowance(from, spender) as int
        - amount as int
    &&& forall|f: u64, s: u64|
        !(f == from && s == spender) ==> #[trigger] post.spec_allowance(f, s)
            == pre.spec_allowance(f, s)
}

impl FKaleToken {
    /// The balance of `id`; zero if no record exists.
    pub open spec fn spec_balance(self, id: u64) -> i128 {
        match self.balances.spec_get(id) {
            Some(v) => v,
            None => 0,
        }
    }

    /// The allowance `from` granted to `spender`; zero if no record exists.
    pub open spec fn spec_allowance(self, from: u64, spender: u64) -> i128 {
        match self.allowances.spec_get(from, spender) {
            Some(v) => v,
            None => 0,
        }
    }

    /// The administrator, if the ledger was initialized.
    pub open spec fn spec_admin(self) -> Option<u64> {
        if self.initialized {
            Some(self.admin)
        } else {
            None
        }
    }

    /// A fresh, uninitialized ledger: no holder owns anything.
    pub fn new() -> (r: Self)
        ensures
            !r.initialized,
            r.total_supply == 0,
            r.decimals == 7,
            r.name@ == "Future KALE"@,
            r.symbol@ == "fKALE"@,
            forall|a: u64| #[trigger] r.spec_balance(a) == 0,
            forall|f: u64, s: u64| #[trigger] r.spec_allowance(f, s) == 0,
    {
        FKaleToken {
            initialized: false,
            admin: 0,
            decimals: 7,
            name: "Future KALE".to_owned(),
            symbol: "fKALE".to_owned(),
            total_supply: 0,
            balances: KvMap::new(),
            allowances: PairMap::new(),
        }
    }

    /// Why `initialize` would fail, or `None` if it succeeds.
    pub open spec fn initialize_error(self) -> Option<TokenError> {
        if self.initialized {
            Some(TokenError::AlreadyInitialized)
        } else {
            None
        }
    }

    /// Sets the administrator and the metadata, once.
    pub fn initialize(&mut self, admin: u64, decimals: u32, name: String, symbol: String) -> (r:
        Result<(), TokenError>)
        ensures
            match old(self).initialize_error() {
                Some(e) => r == Err::<(), TokenError>(e) && *final(self) == *old(self),
                None => {
                    &&& r == Ok::<(), TokenError>(())
                    &&& final(self).initialized
                    &&& final(self).admin == admin
                    &&& final(self).decimals == decimals
                    &&& final(self).name == name
                    &&& final(self).symbol == symbol
                    &&& final(self).total_supply == 0
                    &&& balances_unchanged(*old(self), *final(self))
                    &&& allowances_unchanged(*old(self), *final(self))
                },
            },
    {
        if self.initialized {
            return Err(TokenError::AlreadyInitialized);
        }
        self.initialized = true;
        self.admin = admin;
        self.decimals = decimals;
        self.name = name;
        self.symbol = symbol;
        self.total_supply = 0;
        Ok(())
    }

    /// The balance of `id`.
    pub fn balance(&self, id: u64) -> (r: i128)
        ensures
            r == self.spec_balance(id),
    {
        match self.balances.get(id) {
            Some(v) => v,
            None => 0,
        }
    }

    /// The allowance `from` granted to `spender`.
    pub fn allowance(&self, from: u64, spender: u64) -> (r: i128)
        ensures
            r == self.spec_allowance(from, spender),
    {
        match self.allowances.get(from, spender) {
            Some(v) => v,
            None => 0,
        }
    }

    /// Why `approve` would fail, or `None` if it succeeds.
    pub open spec fn approve_error(self, amount: i128) -> Option<TokenError> {
        if amount < 0 {
            Some(TokenError::NegativeAmount)
        } else {
            None
        }
    }

    /// `from` (the authenticated caller) grants `spender` an allowance of
    /// exactly `amount`.  The expiration ledger is kept by the host and is
    /// not interpreted here.
    pub fn approve(&mut self, from: u64, spender: u64, amount: i128, _expiration_ledger: u32) -> (r:
        Result<(), TokenError>)
        ensures
            match old(self).approve_error(amount) {
                Some(e) => r == Err::<(), TokenError>(e) && *final(self) == *old(self),
                None => {
                    &&& r == Ok::<(), TokenError>(())
                    &&& final(self).spec_allowance(from, spender) == amount
                    &&& forall|f: u64, s: u64|
                        !(f == from && s == spender) ==> #[trigger] final(self).spec_allowance(
                            f,
                            s,
                        ) == old(self).spec_allowance(f, s)
                    &&& balances_unchanged(*old(self), *final(self))
                    &&& final(self).total_supply == old(self).total_supply
                    &&& meta_unchanged(*old(self), *final(self))
                },
            },
    {
        if amount < 0 {
            return Err(TokenError::NegativeAmount);
        }
        self.allowances.set(from, spender, amount);
        Ok(())
    }

    /// Why `transfer` would fail, or `None` if it succeeds.
    pub open spec fn transfer_error(self, from: u64, to: u64, amount: i128) -> Option<TokenError> {
        if amount < 0 {
            Some(TokenError::NegativeAmount)
        } else if self.spec_balance(from) < amount {
            Some(TokenError::InsufficientBalance)
        } else if from != to && self.spec_balance(to) as int + amount as int > (i128::MAX as int) {
            Some(TokenError::OverflowError)
        } else {
            None
        }
    }

    /// `from` (the authenticated caller) moves `amount` units to `to`.
    pub fn transfer(&mut self, from: u64, to: u64, amount: i128) -> (r: Result<(), TokenError>)
        ensures
            match old(self).transfer_error(from, to, amount) {
                Some(e) => r == Err::<(), TokenError>(e) && *final(self) == *old(self),
                None => {
                    &&& r == Ok::<(), TokenError>(())
                    &&& balances_moved(*old(self), *final(self), from, to, amount)
                    &&& allowances_unchanged(*old(self), *final(self))
                    &&& final(self).total_supply == old(self).total_supply
                    &&& meta_unchanged(*old(self), *final(self))
                },
            },
    {
        if amount < 0 {
            return Err(TokenError::NegativeAmount);
        }
        let from_balance = self.balance(from);
        if from_balance < amount {
            return Err(TokenError::InsufficientBalance);
        }
        if from != to {
            let to_balance = self.balance(to);
            let to_after = match to_balance.checked_add(amount) {
                Some(v) => v,
                None => {
                    return Err(TokenError::OverflowError);
                },
            };
            self.balances.set(from, from_balance - amount);
            self.balances.set(to, to_after);
        }
        Ok(())
    }

    /// Why `transfer_from` would fail, or `None` if it succeeds.
    pub open spec fn transfer_from_error(
        self,
        spender: u64,
        from: u64,
        to: u64,
        amount: i128,
    ) -> Option<TokenError> {
        if amount < 0 {
            Some(TokenError::NegativeAmount)
        } else if self.spec_allowance(from, spender) < amount {
            Some(TokenError::InsufficientAllowance)
        } else if self.spec_balance(from) < amount {
            Some(TokenError::InsufficientBalance)
        } else if from != to && self.spec_balance(to) as int + amount as int > (i128::MAX as int) {
            Some(TokenError::OverflowError)
        } else {
            None
        }
    }

    /// `spender` (the authenticated caller) moves `amount` units from `from`
    /// to `to`, consuming that much of its allowance.
    pub fn transfer_from(&mut self, spender: u64, from: u64, to: u64, amount: i128) -> (r: Result<
        (),
        TokenError,
    >)
        ensures
            match old(self).transfer_from_error(spender, from, to, amount) {
                Some(e) => r == Err::<(), TokenError>(e) && *final(self) == *old(self),
                None => {
                    &&& r == Ok::<(), TokenError>(())
                    &&& balances_moved(*old(self), *final(self), from, to, amount)
                    &&& allowance_consumed(*old(self), *final(self), from, spender, amount)
                    &&& final(self).total_supply == old(self).total_supply
                    &&& meta_unchanged(*old(self), *final(self))
                },
            },
    {
        if amount < 0 {
            return Err(TokenError::NegativeAmount);
        }
        let granted = self.allowance(from, spender);
        if granted < amount {
            return Err(TokenError::InsufficientAllowance);
        }
        let from_balance = self.balance(from);
        if from_balance < amount {
            return Err(TokenError::InsufficientBalance);
        }
        if from != to {
            let to_balance = self.balance(to);
            let to_after = match to_balance.checked_add(amount) {
                Some(v) => v,
                None => {
                    return Err(TokenError::OverflowError);
                },
            };
            self.balances.set(from, from_balance - amount);
            self.balances.set(to, to_after);
        }
        self.allowances.set(from, spender, granted - amount);
        Ok(())
    }

    /// Why `burn` would fail, or `None` if it succeeds.
    pub open spec fn burn_error(self, caller: u64, from: u64, amount: i128) -> Option<TokenError> {
        if !self.initialized {
            Some(TokenError::NotInitialized)
        } else if caller != self.admin {
            Some(TokenError::Unauthorized)
        } else if amount < 0 {
            Some(TokenError::NegativeAmount)
        } else if self.spec_balance(from) < amount {
            Some(TokenError::InsufficientBalance)
        } else if (self.total_supply as int - amount as int) < (i128::MIN as int) {
            Some(TokenError::OverflowError)
        } else {
            None
        }
    }

    /// The administrator (the authenticated caller) destroys `amount` units
    /// held by `from`.
    pub fn burn(&mut self, caller: u64, from: u64, amount: i128) -> (r: Result<(), TokenError>)
        ensures
            match old(self).burn_error(caller, from, amount) {
                Some(e) => r == Err::<(), TokenError>(e) && *final(self) == *old(self),
                None => {
                    &&& r == Ok::<(), TokenError>(())
                    &&& balances_burned(*old(self), *final(self), from, amount)
                    &&& allowances_unchanged(*old(self), *final(self))
                    &&& final(self).total_supply as int == old(self).total_supply as int
                        - amount as int
                    &&& meta_unchanged(*old(self), *final(self))
                },
            },
    {
        if !self.initialized {
            return Err(TokenError::NotInitialized);
        }
        if caller != self.admin {
            return Err(TokenError::Unauthorized);
        }
        if amount < 0 {
            return Err(TokenError::NegativeAmount);
        }
        let from_balance = self.balance(from);
        if from_balance < amount {
            return Err(TokenError::InsufficientBalance);
        }
        let supply_after = match self.total_supply.checked_sub(amount) {
            Some(v) => v,
            None => {
                return Err(TokenError::OverflowError);
            },
        };
        self.balances.set(from, from_balance - amount);
        self.total_supply = supply_after;
        Ok(())
    }

    /// Why `burn_from` would fail, or `None` if it succeeds.
    pub open spec fn burn_from_error(
        self,
        caller: u64,
        spender: u64,
        from: u64,
        amount: i128,
    ) -> Option<TokenError> {
        if !self.initialized {
            Some(TokenError::NotInitialized)
        } else if caller != self.admin {
            Some(TokenError::Unauthorized)
        } else if amount < 0 {
            Some(TokenError::NegativeAmount)
        } else if self.spec_allowance(from, spender) < amount {
            Some(TokenError::InsufficientAllowance)
        } else if self.spec_balance(from) < amount {
            Some(TokenError::InsufficientBalance)
        } else if (self.total_supply as int - amount as int) < (i128::MIN as int) {
            Some(TokenError::OverflowError)
        } else {
            None
        }
    }

    /// The administrator (the authenticated caller) destroys `amount` units
    /// held by `from`, consuming `spender`'s allowance.
    pub fn burn_from(&mut self, caller: u64, spender: u64, from: u64, amount: i128) -> (r: Result<
        (),
        TokenError,
    >)
        ensures
            match old(self).burn_from_error(caller, spender, from, amount) {
                Some(e) => r == Err::<(), TokenError>(e) && *final(self) == *old(self),
                None => {
                    &&& r == Ok::<(), TokenError>(())
                    &&& balances_burned(*old(self), *final(self), from, amount)
                    &&& allowance_consumed(*old(self), *final(self), from, spender, amount)
                    &&& final(self).total_supply as int == old(self).total_supply as int
                        - amount as int
                    &&& meta_unchanged(*old(self), *final(self))
                },
            },
    {
        if !self.initialized {
            return Err(TokenError::NotInitialized);
        }
        if caller != self.admin {
            return Err(TokenError::Unauthorized);
        }
        if amount < 0 {
            return Err(TokenError::NegativeAmount);
        }
        let granted = self.allowance(from, spender);
        if granted < amount {
            return Err(TokenError::InsufficientAllowance);
        }
        let from_balance = self.balance(from);
        if from_balance < amount {
            return Err(TokenError::InsufficientBalance);
        }
        let supply_after = match self.total_supply.checked_sub(amount) {
            Some(v) => v,
            None => {
                return Err(TokenError::OverflowError);
            },
        };
        self.balances.set(from, from_balance - amount);
        self.total_supply = supply_after;
        self.allowances.set(from, spender, granted - amount);
        Ok(())
    }

    /// Why `mint` would fail, or `None` if it succeeds.
    pub open spec fn mint_error(self, caller: u64, to: u64, amount: i128) -> Option<TokenError> {
        if !self.initialized {
            Some(TokenError::NotInitialized)
        } else if caller != self.admin {
            Some(TokenError::Unauthorized)
        } else if amount < 0 {
            Some(TokenError::NegativeAmount)
        } else if self.spec_balance(to) as int + amount as int > (i128::MAX as int) {
            Some(TokenError::OverflowError)
        } else if self.total_supply as int + amount as int > (i128::MAX as int) {
            Some(TokenError::OverflowError)
        } else {
            None
        }
    }

    /// The administrator (the authenticated caller) creates `amount` units
    /// on `to`.
    pub fn mint(&mut self, caller: u64, to: u64, amount: i128) -> (r: Result<(), TokenError>)
        ensures
            match old(self).mint_error(caller, to, amount) {
                Some(e) => r == Err::<(), TokenError>(e) && *final(self) == *old(self),
                None => {
                    &&& r == Ok::<(), TokenError>(())
                    &&& balances_minted(*old(self), *final(self), to, amount)
                    &&& allowances_unchanged(*old(self), *final(self))
                    &&& final(self).total_supply as int == old(self).total_supply as int
                        + amount as int
                    &&& meta_unchanged(*old(self), *final(self))
                },
            },
    {
        if !self.initialized {
            return Err(TokenError::NotInitialized);
        }
        if caller != self.admin {
            return Err(TokenError::Unauthorized);
        }
        if amount < 0 {
            return Err(TokenError::NegativeAmount);
        }
        let to_balance = self.balance(to);
        let to_after = match to_balance.checked_add(amount) {
            Some(v) => v,
            None => {
                return Err(TokenError::OverflowError);
            },
        };
        let supply_after = match self.total_supply.checked_add(amount) {
            Some(v) => v,
            None => {
                return Err(TokenError::OverflowError);
            },
        };
        self.balances.set(to, to_after);
        self.total_supply = supply_after;
        Ok(())
    }

    /// The total supply: all mints minus all burns since initialization.
    pub fn total_supply(&self) -> (r: i128)
        ensures
            r == self.total_supply,
    {
        self.total_supply
    }

    /// The administrator, if the ledger was initialized.
    pub fn admin(&self) -> (r: Option<u64>)
        ensures
            r == self.spec_admin(),
    {
        if self.initialized {
            Some(self.admin)
        } else {
            None
        }
    }

    /// Why `set_admin` would fail, or `None` if it succeeds.
    pub open spec fn set_admin_error(self, caller: u64) -> Option<TokenError> {
        if !self.initialized {
            Some(TokenError::NotInitialized)
        } else if caller != self.admin {
            Some(TokenError::Unauthorized)
        } else {
            None
        }
    }

    /// The administrator (the authenticated caller) hands the role to
    /// `new_admin`.
    pub fn set_admin(&mut self, caller: u64, new_admin: u64) -> (r: Result<(), TokenError>)
        ensures
            match old(self).set_admin_error(caller) {
                Some(e) => r == Err::<(), TokenError>(e) && *final(self) == *old(self),
                None => {
                    &&& r == Ok::<(), TokenError>(())
                    &&& final(self).initialized
                    &&& final(self).admin == new_admin
                    &&& final(self).decimals == old(self).decimals
                    &&& final(self).name == old(self).name
                    &&& final(self).symbol == old(self).symbol
                    &&& final(self).total_supply == old(self).total_supply
                    &&& balances_unchanged(*old(self), *final(self))
                    &&& allowances_unchanged(*old(self), *final(self))
                },
            },
    {
        if !self.initialized {
            return Err(TokenError::NotInitialized);
        }
        if caller != self.admin {
            return Err(TokenError::Unauthorized);
        }
        self.admin = new_admin;
        Ok(())
    }

    /// Display precision of the token.
    pub fn decimals(&self) -> (r: u32)
        ensures
            r == self.decimals,
    {
        self.decimals
    }

    /// Display name of the token.
    pub fn name(&self) -> (r: String)
        ensures
            r == self.name,
    {
        self.name.clone()
    }

    /// Display symbol of the token.
    pub fn symbol(&self) -> (r: String)
        ensures
            r == self.symbol,
    {
        self.symbol.clone()
    }
}

} // verus!
