use vstd::prelude::*;
use std::collections::HashMap;
use crate::types::{AccountData, Call, Error};

verus! {

broadcast use vstd::std_specs::hash::group_hash_axioms;

pub open spec fn empty_account() -> AccountData {
    AccountData { free: 0, reserved: 0, nonce: 0 }
}

/// The host ledger: per-account free and reserved balances, per-account
/// transaction counters, and the current block height.
pub struct Ledger {
    accounts: HashMap<u64, AccountData>,
    height: u64,
}

impl Ledger {
    /// The account of `who`; an account never touched holds nothing.
    pub closed spec fn account(&self, who: u64) -> AccountData {
        if self.accounts@.contains_key(who) {
            self.accounts@[who]
        } else {
            empty_account()
        }
    }

    pub closed spec fn block_number_spec(&self) -> u64 {
        self.height
    }

    /// Every account's total balance fits in a `u128`.
    pub closed spec fn wf(&self) -> bool {
        forall|w: u64| #[trigger] self.accounts@.contains_key(w)
            ==> self.accounts@[w].total() <= u128::MAX
    }

    /// `new` equals `old` except, possibly, at `who`.
    pub open spec fn others_unchanged(old: Ledger, new: Ledger, who: u64) -> bool {
        &&& new.block_number_spec() == old.block_number_spec()
        &&& forall|w: u64| w != who ==> #[trigger] new.account(w) == old.account(w)
    }

    /// `new` equals `old` except, possibly, at `a` and `b`.
    pub open spec fn others_unchanged2(old: Ledger, new: Ledger, a: u64, b: u64) -> bool {
        &&& new.block_number_spec() == old.block_number_spec()
        &&& forall|w: u64| w != a && w != b ==> #[trigger] new.account(w) == old.account(w)
    }

    /// `new` is `old` with `amount` moved from the free to the reserved balance of `who`.
    pub open spec fn reserved_from(old: Ledger, new: Ledger, who: u64, amount: u128) -> bool {
        &&& Ledger::others_unchanged(old, new, who)
        &&& new.account(who).free == old.account(who).free - amount
        &&& new.account(who).reserved == old.account(who).reserved + amount
        &&& new.account(who).nonce == old.account(who).nonce
    }

    /// The part of `amount` that `unreserve` can move back for `who`.
    pub open spec fn unreservable(old: Ledger, who: u64, amount: u128) -> u128 {
        if amount <= old.account(who).reserved {
            amount
        } else {
            old.account(who).reserved
        }
    }

    /// `new` is `old` with up to `amount` moved from the reserved to the free
    /// balance of `who`: all of it where that much is reserved.
    pub open spec fn unreserved_to(old: Ledger, new: Ledger, who: u64, amount: u128) -> bool {
        let moved = Ledger::unreservable(old, who, amount);
        &&& Ledger::others_unchanged(old, new, who)
        &&& new.account(who).free == old.account(who).free + moved
        &&& new.account(who).reserved == old.account(who).reserved - moved
        &&& new.account(who).nonce == old.account(who).nonce
    }

    /// `new` is `old` after `from` paid `value` of its free balance to `to`.
    pub open spec fn transferred(old: Ledger, new: Ledger, from: u64, to: u64, value: u128) -> bool {
        &&& Ledger::others_unchanged2(old, new, from, to)
        &&& from == to ==> new.account(from) == old.account(from)
        &&& from != to ==> {
            &&& new.account(from).free == old.account(from).free - value
            &&& new.account(from).reserved == old.account(from).reserved
            &&& new.account(from).nonce == old.account(from).nonce
            &&& new.account(to).free == old.account(to).free + value
            &&& new.account(to).reserved == old.account(to).reserved
            &&& new.account(to).nonce == old.account(to).nonce
        }
    }

    /// The transfer is refused for want of funds.
    pub open spec fn transfer_short(old: Ledger, from: u64, value: u128) -> bool {
        old.account(from).free < value
    }

    /// The transfer would push the receiver's total balance past the maximum.
    pub open spec fn transfer_overflows(old: Ledger, from: u64, to: u64, value: u128) -> bool {
        from != to && old.account(to).total() + value > u128::MAX
    }

    /// What dispatching `call` as `principal` does on success.
    pub open spec fn dispatched(old: Ledger, new: Ledger, principal: u64, call: Call) -> bool {
        match call {
            Call::Transfer { dest, value } => Ledger::transferred(old, new, principal, dest, value),
            Call::Remark => new == old,
        }
    }

    /// On which ledgers dispatching `call` fails, and with which error.
    pub open spec fn dispatch_error(old: Ledger, principal: u64, call: Call) -> Option<Error> {
        match call {
            Call::Transfer { dest, value } => if Ledger::transfer_short(old, principal, value) {
                Some(Error::InsufficientBalance)
            } else if Ledger::transfer_overflows(old, principal, dest, value) {
                Some(Error::Overflow)
            } else {
                None
            },
            Call::Remark => None,
        }
    }

    fn get_account(&self, who: u64) -> (r: AccountData)
        ensures
            r == self.account(who),
    {
        match self.accounts.get(&who) {
            Some(a) => *a,
            None => AccountData { free: 0, reserved: 0, nonce: 0 },
        }
    }

    fn put_account(&mut self, who: u64, a: AccountData)
        requires
            old(self).wf(),
            a.total() <= u128::MAX,
        ensures
            final(self).wf(),
            final(self).account(who) == a,
            Ledger::others_unchanged(*old(self), *final(self), who),
    {
        self.accounts.insert(who, a);
    }

    /// An empty ledger at height zero.
    pub fn new() -> (r: Ledger)
        ensures
            r.wf(),
            r.block_number_spec() == 0,
            forall|w: u64| #[trigger] r.account(w) == empty_account(),
    {
        Ledger { accounts: HashMap::new(), height: 0 }
    }

    /// The current block height.
    pub fn block_number(&self) -> (r: u64)
        ensures
            r == self.block_number_spec(),
    {
        self.height
    }

    /// Moves the clock to height `h`.
    pub fn set_block_number(&mut self, h: u64)
        requires
            old(self).wf(),
        ensures
            final(self).wf(),
            final(self).block_number_spec() == h,
            forall|w: u64| #[trigger] final(self).account(w) == old(self).account(w),
    {
        self.height = h;
    }

    pub fn free_balance(&self, who: u64) -> (r: u128)
        ensures
            r == self.account(who).free,
    {
        self.get_account(who).free
    }

    pub fn reserved_balance(&self, who: u64) -> (r: u128)
        ensures
            r == self.account(who).reserved,
    {
        self.get_account(who).reserved
    }

    /// Free plus reserved balance of `who`.
    pub fn total_balance(&self, who: u64) -> (r: u128)
        requires
            self.wf(),
        ensures
            r == self.account(who).total(),
    {
        let a = self.get_account(who);
        assert(self.accounts@.contains_key(who) ==> self.accounts@[who].total() <= u128::MAX);
        a.free + a.reserved
    }

    /// The transaction counter of `who`.
    pub fn account_nonce(&self, who: u64) -> (r: u64)
        ensures
            r == self.account(who).nonce,
    {
        self.get_account(who).nonce
    }

    /// Records one transaction signed by `who`: its counter moves on by one,
    /// wrapping at the maximum.
    pub fn note_transaction(&mut self, who: u64)
        requires
            old(self).wf(),
        ensures
            final(self).wf(),
            Ledger::others_unchanged(*old(self), *final(self), who),
            final(self).account(who).free == old(self).account(who).free,
            final(self).account(who).reserved == old(self).account(who).reserved,
            final(self).account(who).nonce == (if old(self).account(who).nonce == u64::MAX {
                0
            } else {
                old(self).account(who).nonce + 1
            }),
    {
        let a = self.get_account(who);
        proof {
            assert(self.accounts@.contains_key(who) ==> self.accounts@[who].total() <= u128::MAX);
        }
        let nonce: u64 = if a.nonce == u64::MAX { 0 } else { a.nonce + 1 };
        self.put_account(who, AccountData { free: a.free, reserved: a.reserved, nonce });
    }

    /// Credits `amount` to the free balance of `who`.
    pub fn deposit_creating(&mut self, who: u64, amount: u128) -> (r: Result<(), Error>)
        requires
            old(self).wf(),
        ensures
            final(self).wf(),
            r.is_err() <==> old(self).account(who).total() + amount > u128::MAX,
            r.is_err() ==> r == Err::<(), Error>(Error::Overflow) && *final(self) == *old(self),
            r.is_ok() ==> {
                &&& Ledger::others_unchanged(*old(self), *final(self), who)
                &&& final(self).account(who).free == old(self).account(who).free + amount
                &&& final(self).account(who).reserved == old(self).account(who).reserved
                &&& final(self).account(who).nonce == old(self).account(who).nonce
            },
    {
        let a = self.get_account(who);
        proof {
            assert(self.accounts@.contains_key(who) ==> self.accounts@[who].total() <= u128::MAX);
        }
        if a.reserved > u128::MAX - a.free || amount > u128::MAX - a.free - a.reserved {
            return Err(Error::Overflow);
        }
        self.put_account(who, AccountData { free: a.free + amount, reserved: a.reserved, nonce: a.nonce });
        Ok(())
    }

    /// Moves `amount` of the free balance of `who` to its reserved balance.
    pub fn reserve(&mut self, who: u64, amount: u128) -> (r: Result<(), Error>)
        requires
            old(self).wf(),
        ensures
            final(self).wf(),
            r.is_ok() <==> amount <= old(self).account(who).free,
            r.is_err() ==> r == Err::<(), Error>(Error::InsufficientBalance) && *final(self) == *old(self),
            r.is_ok() ==> Ledger::reserved_from(*old(self), *final(self), who, amount),
    {
        let a = self.get_account(who);
        proof {
            assert(self.accounts@.contains_key(who) ==> self.accounts@[who].total() <= u128::MAX);
        }
        if a.free < amount {
            return Err(Error::InsufficientBalance);
        }
        self.put_account(who, AccountData { free: a.free - amount, reserved: a.reserved + amount, nonce: a.nonce });
        Ok(())
    }

    /// Moves up to `amount` of the reserved balance of `who` back to its free
    /// balance; returns the part of `amount` that was not reserved.
    pub fn unreserve(&mut self, who: u64, amount: u128) -> (r: u128)
        requires
            old(self).wf(),
        ensures
            final(self).wf(),
            Ledger::unreserved_to(*old(self), *final(self), who, amount),
            r == amount - Ledger::unreservable(*old(self), who, amount),
    {
        let a = self.get_account(who);
        proof {
            assert(self.accounts@.contains_key(who) ==> self.accounts@[who].total() <= u128::MAX);
        }
        let moved: u128 = if amount <= a.reserved { amount } else { a.reserved };
        self.put_account(who, AccountData { free: a.free + moved, reserved: a.reserved - moved, nonce: a.nonce });
        amount - moved
    }

    /// Pays `value` of the free balance of `from` to `to`.
    pub fn transfer(&mut self, from: u64, to: u64, value: u128) -> (r: Result<(), Error>)
        requires
            old(self).wf(),
        ensures
            final(self).wf(),
            Ledger::transfer_short(*old(self), from, value) ==> r == Err::<(), Error>(Error::InsufficientBalance),
            !Ledger::transfer_short(*old(self), from, value) && Ledger::transfer_overflows(*old(self), from, to, value)
                ==> r == Err::<(), Error>(Error::Overflow),
            r.is_ok() <==> !Ledger::transfer_short(*old(self), from, value)
                && !Ledger::transfer_overflows(*old(self), from, to, value),
            r.is_err() ==> *final(self) == *old(self),
            r.is_ok() ==> Ledger::transferred(*old(self), *final(self), from, to, value),
    {
        let a = self.get_account(from);
        let b = self.get_account(to);
        proof {
            assert(self.accounts@.contains_key(from) ==> self.accounts@[from].total() <= u128::MAX);
            assert(self.accounts@.contains_key(to) ==> self.accounts@[to].total() <= u128::MAX);
        }
        if a.free < value {
            return Err(Error::InsufficientBalance);
        }
        if from == to {
            return Ok(());
        }
        if value > u128::MAX - b.free - b.reserved {
            return Err(Error::Overflow);
        }
        self.put_account(from, AccountData { free: a.free - value, reserved: a.reserved, nonce: a.nonce });
        self.put_account(to, AccountData { free: b.free + value, reserved: b.reserved, nonce: b.nonce });
        Ok(())
    }

    /// Executes `call` with `principal` as the acting account.
    pub fn dispatch(&mut self, principal: u64, call: Call) -> (r: Result<(), Error>)
        requires
            old(self).wf(),
        ensures
            final(self).wf(),
            r.is_ok() <==> Ledger::dispatch_error(*old(self), principal, call).is_none(),
            r.is_err() ==> r == Err::<(), Error>(Ledger::dispatch_error(*old(self), principal, call).unwrap())
                && *final(self) == *old(self),
            r.is_ok() ==> Ledger::dispatched(*old(self), *final(self), principal, call),
    {
        match call {
            Call::Transfer { dest, value } => self.transfer(principal, dest, value),
            Call::Remark => Ok(()),
        }
    }
}

} // verus!
