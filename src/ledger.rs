//! The token ledger that escrows move funds on: token accounts keyed by
//! owner and mint, freezing, and an optional whitelist check per mint that
//! every transfer of that mint must pass.
use crate::address::Address;
use crate::table::{Table, TableKey};
use vstd::prelude::*;

verus! {

/// Identifies the token account that `owner` holds for `mint`.
#[derive(Clone, Copy, Debug)]
pub struct AccountKey {
    pub owner: Address,
    pub mint: Address,
}

impl TableKey for AccountKey {
    fn same(&self, other: &AccountKey) -> (r: bool) {
        self.owner.same(&other.owner) && self.mint.same(&other.mint)
    }
}

#[derive(Clone, Copy, Debug)]
pub struct TokenAccount {
    pub amount: u64,
    pub frozen: bool,
}

/// Why a ledger operation was refused.
#[derive(Clone, Copy, Debug, PartialEq, Eq, Structural)]
pub enum LedgerError {
    AccountNotFound,
    AccountExists,
    AccountFrozen,
    InsufficientFunds,
    Overflow,
    NonZeroBalance,
    NotWhitelisted,
    WhitelistExists,
    WhitelistNotFound,
}

pub open spec fn account_key(owner: Address, mint: Address) -> AccountKey {
    AccountKey { owner, mint }
}

/// The accounts after `amount` of `mint` moved from `from` to `to`.
pub open spec fn moved(
    accounts: Map<AccountKey, TokenAccount>,
    mint: Address,
    from: Address,
    to: Address,
    amount: u64,
) -> Map<AccountKey, TokenAccount> {
    let fk = account_key(from, mint);
    let tk = account_key(to, mint);
    if from == to {
        accounts
    } else {
        accounts.insert(
            fk,
            TokenAccount { amount: (accounts[fk].amount - amount) as u64, frozen: accounts[fk].frozen },
        ).insert(
            tk,
            TokenAccount { amount: (accounts[tk].amount + amount) as u64, frozen: accounts[tk].frozen },
        )
    }
}

/// The abstract state of a ledger.
pub ghost struct LedgerState {
    pub accounts: Map<AccountKey, TokenAccount>,
    /// Whether each registered owner may currently send tokens of restricted mints.
    pub whitelist: Map<Address, bool>,
    /// The mints whose transfers must pass the whitelist check.
    pub restricted_mints: Set<Address>,
}

impl LedgerState {
    pub open spec fn has_account(self, owner: Address, mint: Address) -> bool {
        self.accounts.contains_key(account_key(owner, mint))
    }

    /// What `owner` holds of `mint`; nothing when it has no account.
    pub open spec fn balance_of(self, owner: Address, mint: Address) -> nat {
        if self.has_account(owner, mint) {
            self.accounts[account_key(owner, mint)].amount as nat
        } else {
            0
        }
    }

    pub open spec fn is_frozen(self, owner: Address, mint: Address) -> bool {
        self.has_account(owner, mint) && self.accounts[account_key(owner, mint)].frozen
    }

    /// Whether the whitelist lets `owner` send `mint`.
    pub open spec fn may_send(self, mint: Address, owner: Address) -> bool {
        !self.restricted_mints.contains(mint) || (self.whitelist.contains_key(owner) && self.whitelist[owner])
    }

    /// Why a transfer would be refused, if it would be.
    pub open spec fn transfer_error(self, mint: Address, from: Address, to: Address, amount: u64) -> Option<LedgerError> {
        if !self.has_account(from, mint) || !self.has_account(to, mint) {
            Some(LedgerError::AccountNotFound)
        } else if self.is_frozen(from, mint) || self.is_frozen(to, mint) {
            Some(LedgerError::AccountFrozen)
        } else if self.balance_of(from, mint) < amount {
            Some(LedgerError::InsufficientFunds)
        } else if from != to && self.balance_of(to, mint) + amount > u64::MAX {
            Some(LedgerError::Overflow)
        } else if !self.may_send(mint, from) {
            Some(LedgerError::NotWhitelisted)
        } else {
            None
        }
    }

    pub open spec fn with_accounts(self, accounts: Map<AccountKey, TokenAccount>) -> LedgerState {
        LedgerState { accounts, whitelist: self.whitelist, restricted_mints: self.restricted_mints }
    }

    /// The state after a transfer that passed its checks: only the two
    /// accounts' amounts change.
    pub open spec fn transferred(self, mint: Address, from: Address, to: Address, amount: u64) -> LedgerState {
        self.with_accounts(moved(self.accounts, mint, from, to, amount))
    }

    /// The state with an empty account of `mint` for `owner`.
    pub open spec fn opened(self, owner: Address, mint: Address) -> LedgerState {
        self.with_accounts(self.accounts.insert(account_key(owner, mint), TokenAccount { amount: 0, frozen: false }))
    }

    /// The state with an empty account of `mint` for `owner`, kept as it is when there is one.
    pub open spec fn ensured(self, owner: Address, mint: Address) -> LedgerState {
        if self.has_account(owner, mint) {
            self
        } else {
            self.opened(owner, mint)
        }
    }

    /// The state without the account of `mint` held by `owner`.
    pub open spec fn closed(self, owner: Address, mint: Address) -> LedgerState {
        self.with_accounts(self.accounts.remove(account_key(owner, mint)))
    }
}

/// Token accounts, the whitelist, and the mints that require it.
pub struct Ledger {
    pub accounts: Table<AccountKey, TokenAccount>,
    pub whitelist: Table<Address, bool>,
    pub restricted_mints: Table<Address, ()>,
}

impl View for Ledger {
    type V = LedgerState;

    open spec fn view(&self) -> LedgerState {
        LedgerState {
            accounts: self.accounts.view(),
            whitelist: self.whitelist.view(),
            restricted_mints: self.restricted_mints.view().dom(),
        }
    }
}

impl Ledger {
    pub open spec fn wf(&self) -> bool {
        &&& self.accounts.wf()
        &&& self.whitelist.wf()
        &&& self.restricted_mints.wf()
    }

    pub fn new() -> (r: Ledger)
        ensures
            r.wf(),
            r@.accounts == Map::<AccountKey, TokenAccount>::empty(),
            r@.whitelist == Map::<Address, bool>::empty(),
            r@.restricted_mints == Set::<Address>::empty(),
    {
        Ledger { accounts: Table::new(), whitelist: Table::new(), restricted_mints: Table::new() }
    }

    /// A copy to work on; committing it replaces the original.
    pub fn snapshot(&self) -> (r: Ledger)
        requires
            self.wf(),
        ensures
            r.wf(),
            r@ == self@,
    {
        Ledger {
            accounts: self.accounts.copy(),
            whitelist: self.whitelist.copy(),
            restricted_mints: self.restricted_mints.copy(),
        }
    }

    pub fn balance(&self, owner: &Address, mint: &Address) -> (r: u64)
        requires
            self.wf(),
        ensures
            r as nat == self@.balance_of(*owner, *mint),
    {
        match self.accounts.get(&AccountKey { owner: *owner, mint: *mint }) {
            Some(a) => a.amount,
            None => 0,
        }
    }

    pub fn has_token_account(&self, owner: &Address, mint: &Address) -> (r: bool)
        requires
            self.wf(),
        ensures
            r == self@.has_account(*owner, *mint),
    {
        self.accounts.contains(&AccountKey { owner: *owner, mint: *mint })
    }

    /// Creates an empty account of `mint` for `owner`.
    pub fn open_account(&mut self, owner: &Address, mint: &Address) -> (r: Result<(), LedgerError>)
        requires
            old(self).wf(),
        ensures
            final(self).wf(),
            old(self)@.has_account(*owner, *mint) ==> r == Err::<(), LedgerError>(LedgerError::AccountExists)
                && final(self)@ == old(self)@,
            !old(self)@.has_account(*owner, *mint) ==> r is Ok && final(self)@ == old(self)@.opened(*owner, *mint),
    {
        let k = AccountKey { owner: *owner, mint: *mint };
        if self.accounts.contains(&k) {
            return Err(LedgerError::AccountExists);
        }
        self.accounts.set(k, TokenAccount { amount: 0, frozen: false });
        Ok(())
    }

    /// Creates an empty account of `mint` for `owner` unless it has one.
    pub fn ensure_account(&mut self, owner: &Address, mint: &Address)
        requires
            old(self).wf(),
        ensures
            final(self).wf(),
            final(self)@ == old(self)@.ensured(*owner, *mint),
    {
        let _ = self.open_account(owner, mint);
    }

    /// Closes the empty account of `mint` held by `owner`.
    pub fn close_account(&mut self, owner: &Address, mint: &Address) -> (r: Result<(), LedgerError>)
        requires
            old(self).wf(),
        ensures
            final(self).wf(),
            !old(self)@.has_account(*owner, *mint) ==> r == Err::<(), LedgerError>(LedgerError::AccountNotFound)
                && final(self)@ == old(self)@,
            old(self)@.has_account(*owner, *mint) && old(self)@.balance_of(*owner, *mint) != 0 ==> r
                == Err::<(), LedgerError>(LedgerError::NonZeroBalance) && final(self)@ == old(self)@,
            old(self)@.has_account(*owner, *mint) && old(self)@.balance_of(*owner, *mint) == 0 ==> r is Ok
                && final(self)@ == old(self)@.closed(*owner, *mint),
    {
        let k = AccountKey { owner: *owner, mint: *mint };
        match self.accounts.get(&k) {
            None => Err(LedgerError::AccountNotFound),
            Some(a) => {
                if a.amount != 0 {
                    return Err(LedgerError::NonZeroBalance);
                }
                self.accounts.remove(&k);
                Ok(())
            },
        }
    }

    /// Creates `amount` new tokens of `mint` in the account of `owner`.
    pub fn mint_token(&mut self, owner: &Address, mint: &Address, amount: u64) -> (r: Result<(), LedgerError>)
        requires
            old(self).wf(),
        ensures
            final(self).wf(),
            !old(self)@.has_account(*owner, *mint) ==> r == Err::<(), LedgerError>(LedgerError::AccountNotFound)
                && final(self)@ == old(self)@,
            old(self)@.is_frozen(*owner, *mint) ==> r == Err::<(), LedgerError>(LedgerError::AccountFrozen)
                && final(self)@ == old(self)@,
            old(self)@.has_account(*owner, *mint) && !old(self)@.is_frozen(*owner, *mint)
                && old(self)@.balance_of(*owner, *mint) + amount > u64::MAX ==> r
                == Err::<(), LedgerError>(LedgerError::Overflow) && final(self)@ == old(self)@,
            old(self)@.has_account(*owner, *mint) && !old(self)@.is_frozen(*owner, *mint)
                && old(self)@.balance_of(*owner, *mint) + amount <= u64::MAX ==> r is Ok
                && final(self)@ == old(self)@.with_accounts(old(self)@.accounts.insert(
                    account_key(*owner, *mint),
                    TokenAccount { amount: (old(self)@.balance_of(*owner, *mint) + amount) as u64, frozen: false },
                )),
    {
        let k = AccountKey { owner: *owner, mint: *mint };
        match self.accounts.get(&k) {
            None => Err(LedgerError::AccountNotFound),
            Some(a) => {
                if a.frozen {
                    return Err(LedgerError::AccountFrozen);
                }
                match a.amount.checked_add(amount) {
                    None => Err(LedgerError::Overflow),
                    Some(total) => {
                        self.accounts.set(k, TokenAccount { amount: total, frozen: false });
                        Ok(())
                    },
                }
            },
        }
    }

    /// Freezes or thaws the account of `mint` held by `owner`.
    pub fn set_frozen(&mut self, owner: &Address, mint: &Address, frozen: bool) -> (r: Result<(), LedgerError>)
        requires
            old(self).wf(),
        ensures
            final(self).wf(),
            !old(self)@.has_account(*owner, *mint) ==> r == Err::<(), LedgerError>(LedgerError::AccountNotFound)
                && final(self)@ == old(self)@,
            old(self)@.has_account(*owner, *mint) ==> r is Ok && final(self)@ == old(self)@.with_accounts(
                old(self)@.accounts.insert(
                    account_key(*owner, *mint),
                    TokenAccount { amount: old(self)@.balance_of(*owner, *mint) as u64, frozen },
                ),
            ),
    {
        let k = AccountKey { owner: *owner, mint: *mint };
        match self.accounts.get(&k) {
            None => Err(LedgerError::AccountNotFound),
            Some(a) => {
                self.accounts.set(k, TokenAccount { amount: a.amount, frozen });
                Ok(())
            },
        }
    }
    /// Makes every transfer of `mint` pass the whitelist check.
    pub fn restrict_mint(&mut self, mint: &Address)
        requires
            old(self).wf(),
        ensures
            final(self).wf(),
            final(self)@ == (LedgerState { restricted_mints: old(self)@.restricted_mints.insert(*mint), ..old(self)@ }),
    {
        self.restricted_mints.set(*mint, ());
        proof {
            assert(self@.restricted_mints =~= old(self)@.restricted_mints.insert(*mint));
        }
    }

    /// Registers `user` on the whitelist, allowed to send.
    pub fn initialize_whitelist(&mut self, user: &Address) -> (r: Result<(), LedgerError>)
        requires
            old(self).wf(),
        ensures
            final(self).wf(),
            old(self)@.whitelist.contains_key(*user) ==> r == Err::<(), LedgerError>(LedgerError::WhitelistExists)
                && final(self)@ == old(self)@,
            !old(self)@.whitelist.contains_key(*user) ==> r is Ok && final(self)@ == (LedgerState {
                whitelist: old(self)@.whitelist.insert(*user, true),
                ..old(self)@
            }),
    {
        if self.whitelist.contains(user) {
            return Err(LedgerError::WhitelistExists);
        }
        self.whitelist.set(*user, true);
        Ok(())
    }

    /// Flips whether the registered `user` may send.
    pub fn switch_whitelist(&mut self, user: &Address) -> (r: Result<(), LedgerError>)
        requires
            old(self).wf(),
        ensures
            final(self).wf(),
            !old(self)@.whitelist.contains_key(*user) ==> r == Err::<(), LedgerError>(LedgerError::WhitelistNotFound)
                && final(self)@ == old(self)@,
            old(self)@.whitelist.contains_key(*user) ==> r is Ok && final(self)@ == (LedgerState {
                whitelist: old(self)@.whitelist.insert(*user, !old(self)@.whitelist[*user]),
                ..old(self)@
            }),
    {
        match self.whitelist.get(user) {
            None => Err(LedgerError::WhitelistNotFound),
            Some(allowed) => {
                self.whitelist.set(*user, !allowed);
                Ok(())
            },
        }
    }

    /// The whitelist check that a transfer of `mint` sent by `owner` must pass.
    pub fn transfer_hook(&self, mint: &Address, owner: &Address) -> (r: Result<(), LedgerError>)
        requires
            self.wf(),
        ensures
            r is Ok <==> self@.may_send(*mint, *owner),
            r is Err ==> r == Err::<(), LedgerError>(LedgerError::NotWhitelisted),
    {
        if !self.restricted_mints.contains(mint) {
            return Ok(());
        }
        match self.whitelist.get(owner) {
            Some(true) => Ok(()),
            _ => Err(LedgerError::NotWhitelisted),
        }
    }

    /// Moves `amount` of `mint` from the account of `from` to that of `to`.
    /// Either every check passes and both accounts change, or nothing does.
    pub fn transfer(&mut self, mint: &Address, from: &Address, to: &Address, amount: u64) -> (r: Result<(), LedgerError>)
        requires
            old(self).wf(),
        ensures
            final(self).wf(),
            match old(self)@.transfer_error(*mint, *from, *to, amount) {
                Some(e) => r == Err::<(), LedgerError>(e) && final(self)@ == old(self)@,
                None => r is Ok && final(self)@ == old(self)@.transferred(*mint, *from, *to, amount),
            },
    {
        let fk = AccountKey { owner: *from, mint: *mint };
        let tk = AccountKey { owner: *to, mint: *mint };
        let src = match self.accounts.get(&fk) {
            Some(a) => a,
            None => return Err(LedgerError::AccountNotFound),
        };
        let dst = match self.accounts.get(&tk) {
            Some(a) => a,
            None => return Err(LedgerError::AccountNotFound),
        };
        if src.frozen || dst.frozen {
            return Err(LedgerError::AccountFrozen);
        }
        if src.amount < amount {
            return Err(LedgerError::InsufficientFunds);
        }
        let same = from.same(to);
        if !same && dst.amount > u64::MAX - amount {
            return Err(LedgerError::Overflow);
        }
        self.transfer_hook(mint, from)?;
        if !same {
            self.accounts.set(fk, TokenAccount { amount: src.amount - amount, frozen: src.frozen });
            self.accounts.set(tk, TokenAccount { amount: dst.amount + amount, frozen: dst.frozen });
        }
        Ok(())
    }
}

} // verus!
