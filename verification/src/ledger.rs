//! The deposit ledger: the free and the reserved balance of each account.
//!
//! A deposit is held by moving it from the free to the reserved balance of
//! its owner. It leaves the reserved balance again when it is refunded (back
//! to the free balance) or slashed (gone).

use crate::error::Error;
use std::collections::HashMap;
use vstd::prelude::*;

verus! {

/// The identifier of an account.
pub type AccountId = u64;

/// The two balances of an account.
#[derive(Clone, Copy, Debug, PartialEq, Eq, Structural)]
pub struct Balance {
    /// What the owner may spend.
    pub free: u64,
    /// What is held as deposits.
    pub reserved: u64,
}

/// The free balance of `who`; nothing where the account is unknown.
pub open spec fn free_of(accounts: Map<AccountId, Balance>, who: AccountId) -> int {
    if accounts.contains_key(who) {
        accounts[who].free as int
    } else {
        0
    }
}

/// The reserved balance of `who`; nothing where the account is unknown.
pub open spec fn reserved_of(accounts: Map<AccountId, Balance>, who: AccountId) -> int {
    if accounts.contains_key(who) {
        accounts[who].reserved as int
    } else {
        0
    }
}

/// No account holds more in total than a balance can express.
pub open spec fn accounts_wf(accounts: Map<AccountId, Balance>) -> bool {
    forall|who: AccountId| #[trigger]
        accounts.contains_key(who) ==> accounts[who].free + accounts[who].reserved <= u64::MAX
}

/// The accounts after `who` has received `amount` of free balance.
pub open spec fn endowed(accounts: Map<AccountId, Balance>, who: AccountId, amount: u64) -> Map<
    AccountId,
    Balance,
> {
    accounts.insert(
        who,
        Balance {
            free: (free_of(accounts, who) + amount) as u64,
            reserved: reserved_of(accounts, who) as u64,
        },
    )
}

/// The accounts after `amount` has moved from the free to the reserved
/// balance of `who`. Meant for `amount <= free_of(accounts, who)`.
pub open spec fn reserved(accounts: Map<AccountId, Balance>, who: AccountId, amount: u64) -> Map<
    AccountId,
    Balance,
> {
    if amount == 0 {
        accounts
    } else {
        accounts.insert(
            who,
            Balance {
                free: (free_of(accounts, who) - amount) as u64,
                reserved: (reserved_of(accounts, who) + amount) as u64,
            },
        )
    }
}

/// The accounts after `amount` has moved from the reserved back to the free
/// balance of `who`. Meant for `amount <= reserved_of(accounts, who)`.
pub open spec fn refunded(accounts: Map<AccountId, Balance>, who: AccountId, amount: u64) -> Map<
    AccountId,
    Balance,
> {
    if amount == 0 {
        accounts
    } else {
        accounts.insert(
            who,
            Balance {
                free: (free_of(accounts, who) + amount) as u64,
                reserved: (reserved_of(accounts, who) - amount) as u64,
            },
        )
    }
}

/// The accounts after `amount` has been taken away from the reserved balance
/// of `who`. Meant for `amount <= reserved_of(accounts, who)`.
pub open spec fn slashed(accounts: Map<AccountId, Balance>, who: AccountId, amount: u64) -> Map<
    AccountId,
    Balance,
> {
    if amount == 0 {
        accounts
    } else {
        accounts.insert(
            who,
            Balance {
                free: free_of(accounts, who) as u64,
                reserved: (reserved_of(accounts, who) - amount) as u64,
            },
        )
    }
}

/// The balances of all accounts.
#[derive(Clone, Debug)]
pub struct Ledger {
    /// The balances, by account.
    pub accounts: HashMap<AccountId, Balance>,
}

impl View for Ledger {
    type V = Map<AccountId, Balance>;

    open spec fn view(&self) -> Map<AccountId, Balance> {
        self.accounts@
    }
}

impl Ledger {
    /// No account holds more in total than a balance can express.
    pub open spec fn wf(&self) -> bool {
        accounts_wf(self@)
    }

    /// A ledger without accounts.
    pub fn new() -> (r: Ledger)
        ensures
            r@ == Map::<AccountId, Balance>::empty(),
            r.wf(),
    {
        Ledger { accounts: HashMap::new() }
    }

    /// The free balance of `who`.
    pub fn free_balance(&self, who: AccountId) -> (r: u64)
        ensures
            r as int == free_of(self@, who),
    {
        match self.accounts.get(&who) {
            Some(balance) => balance.free,
            None => 0,
        }
    }

    /// The reserved balance of `who`.
    pub fn reserved_balance(&self, who: AccountId) -> (r: u64)
        ensures
            r as int == reserved_of(self@, who),
    {
        match self.accounts.get(&who) {
            Some(balance) => balance.reserved,
            None => 0,
        }
    }

    /// Adds `amount` to the free balance of `who`. Fails, and changes
    /// nothing, where the account would then hold more than a balance can
    /// express.
    pub fn endow(&mut self, who: AccountId, amount: u64) -> (r: Result<(), Error>)
        requires
            old(self).wf(),
        ensures
            final(self).wf(),
            free_of(old(self)@, who) + reserved_of(old(self)@, who) + amount <= u64::MAX ==> r
                is Ok && final(self)@ == endowed(old(self)@, who, amount),
            free_of(old(self)@, who) + reserved_of(old(self)@, who) + amount > u64::MAX ==> r
                == Err::<(), Error>(Error::LedgerFailure) && final(self)@ == old(self)@,
    {
        let free = self.free_balance(who);
        let held = self.reserved_balance(who);
        if amount > u64::MAX - free || held > u64::MAX - free - amount {
            return Err(Error::LedgerFailure);
        }
        self.accounts.insert(who, Balance { free: free + amount, reserved: held });
        Ok(())
    }

    /// Holds `amount` of the free balance of `who` as a deposit. Fails, and
    /// changes nothing, where the free balance is smaller than `amount`.
    pub fn reserve(&mut self, who: AccountId, amount: u64) -> (r: Result<(), Error>)
        requires
            old(self).wf(),
        ensures
            final(self).wf(),
            amount <= free_of(old(self)@, who) ==> r is Ok && final(self)@ == reserved(
                old(self)@,
                who,
                amount,
            ),
            amount > free_of(old(self)@, who) ==> r == Err::<(), Error>(Error::LedgerFailure)
                && final(self)@ == old(self)@,
    {
        let free = self.free_balance(who);
        let held = self.reserved_balance(who);
        if amount > free {
            return Err(Error::LedgerFailure);
        }
        if amount > 0 {
            self.accounts.insert(who, Balance { free: free - amount, reserved: held + amount });
        }
        Ok(())
    }

    /// Gives `amount` of the reserved balance of `who` back to its free
    /// balance. Fails, and changes nothing, where the reserved balance is
    /// smaller than `amount`.
    pub fn refund(&mut self, who: AccountId, amount: u64) -> (r: Result<(), Error>)
        requires
            old(self).wf(),
        ensures
            final(self).wf(),
            amount <= reserved_of(old(self)@, who) ==> r is Ok && final(self)@ == refunded(
                old(self)@,
                who,
                amount,
            ),
            amount > reserved_of(old(self)@, who) ==> r == Err::<(), Error>(Error::LedgerFailure)
                && final(self)@ == old(self)@,
    {
        let free = self.free_balance(who);
        let held = self.reserved_balance(who);
        if amount > held {
            return Err(Error::LedgerFailure);
        }
        if amount > 0 {
            self.accounts.insert(who, Balance { free: free + amount, reserved: held - amount });
        }
        Ok(())
    }

    /// Takes `amount` away from the reserved balance of `who`. Fails, and
    /// changes nothing, where the reserved balance is smaller than `amount`.
    pub fn slash(&mut self, who: AccountId, amount: u64) -> (r: Result<(), Error>)
        requires
            old(self).wf(),
        ensures
            final(self).wf(),
            amount <= reserved_of(old(self)@, who) ==> r is Ok && final(self)@ == slashed(
                old(self)@,
                who,
                amount,
            ),
            amount > reserved_of(old(self)@, who) ==> r == Err::<(), Error>(Error::LedgerFailure)
                && final(self)@ == old(self)@,
    {
        let free = self.free_balance(who);
        let held = self.reserved_balance(who);
        if amount > held {
            return Err(Error::LedgerFailure);
        }
        if amount > 0 {
            self.accounts.insert(who, Balance { free, reserved: held - amount });
        }
        Ok(())
    }
}

/// Holding a deposit and refunding it leaves every balance as it was.
pub proof fn lemma_reserve_then_refund(accounts: Map<AccountId, Balance>, who: AccountId, amount: u64)
    requires
        amount <= free_of(accounts, who),
        accounts_wf(accounts),
    ensures
        free_of(refunded(reserved(accounts, who, amount), who, amount), who) == free_of(
            accounts,
            who,
        ),
        reserved_of(refunded(reserved(accounts, who, amount), who, amount), who) == reserved_of(
            accounts,
            who,
        ),
        forall|other: AccountId|
            other != who ==> refunded(reserved(accounts, who, amount), who, amount).contains_key(
                other,
            ) == accounts.contains_key(other) && free_of(
                refunded(reserved(accounts, who, amount), who, amount),
                other,
            ) == free_of(accounts, other) && reserved_of(
                refunded(reserved(accounts, who, amount), who, amount),
                other,
            ) == reserved_of(accounts, other),
{
}

/// Holding a deposit and slashing it costs the owner exactly the deposit.
pub proof fn lemma_reserve_then_slash(accounts: Map<AccountId, Balance>, who: AccountId, amount: u64)
    requires
        amount <= free_of(accounts, who),
        accounts_wf(accounts),
    ensures
        free_of(slashed(reserved(accounts, who, amount), who, amount), who) == free_of(
            accounts,
            who,
        ) - amount,
        reserved_of(slashed(reserved(accounts, who, amount), who, amount), who) == reserved_of(
            accounts,
            who,
        ),
{
}

} // verus!
