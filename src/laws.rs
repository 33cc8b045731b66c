use vstd::prelude::*;
use crate::ledger::Ledger;
use crate::pallet::Pallet;
use crate::types::{ActiveWillConfig, Call, Error, WillConfig};

verus! {

/// Only the registered heir can start a claim: for every will, any other
/// caller is refused with `NotHeir`.
pub proof fn initiate_refuses_non_heir(p: Pallet, l: Ledger, sender: u64, testator: u64, w: WillConfig)
    requires
        p.will(testator) == Some(w),
        sender != w.heir,
    ensures
        p.initiate_error(l, sender, testator) == Some(Error::NotHeir),
{
}

/// Activation is refused with `ActivateNotReady` while the height is at most
/// the claim's start plus the delay, and succeeds only at a greater height.
pub proof fn activate_waits_for_delay(
    p: Pallet,
    l: Ledger,
    sender: u64,
    testator: u64,
    w: WillConfig,
    c: ActiveWillConfig,
)
    requires
        p.will(testator) == Some(w),
        sender == w.heir,
        p.claim(testator, sender) == Some(c),
    ensures
        l.block_number_spec() <= c.created + w.delay_period
            ==> p.activate_error(l, sender, testator) == Some(Error::ActivateNotReady),
        p.activate_error(l, sender, testator).is_none()
            ==> l.block_number_spec() > c.created + w.delay_period,
        l.block_number_spec() > c.created + w.delay_period && l.account(testator).nonce == c.nonce
            ==> p.activate_error(l, sender, testator).is_none(),
{
}

/// Any move of the testator's transaction counter since the claim started
/// blocks activation: once the delay has passed, however long ago, the
/// refusal is `AccountIsAlive`.
pub proof fn activate_refuses_live_testator(
    p: Pallet,
    l: Ledger,
    sender: u64,
    testator: u64,
    w: WillConfig,
    c: ActiveWillConfig,
)
    requires
        p.will(testator) == Some(w),
        sender == w.heir,
        p.claim(testator, sender) == Some(c),
        l.account(testator).nonce != c.nonce,
    ensures
        p.activate_error(l, sender, testator).is_some(),
        l.block_number_spec() > c.created + w.delay_period
            ==> p.activate_error(l, sender, testator) == Some(Error::AccountIsAlive),
{
}

/// A claim that has not been activated cannot act for the testator
/// (`PerformNotReady`); an activated one forwards the action, and fails only
/// as the action itself fails.
pub proof fn perform_gated_on_activation(
    p: Pallet,
    l: Ledger,
    sender: u64,
    testator: u64,
    call: Call,
    c: ActiveWillConfig,
)
    requires
        p.claim(testator, sender) == Some(c),
    ensures
        !c.ready ==> p.perform_error(l, sender, testator, call) == Some(Error::PerformNotReady),
        c.ready ==> p.perform_error(l, sender, testator, call) == Ledger::dispatch_error(l, testator, call),
{
}

/// Closing is refused with `BalanceNotEmpty` whenever the testator still
/// holds any funds, and allowed on an existing claim once it holds none.
pub proof fn close_requires_empty_estate(p: Pallet, l: Ledger, sender: u64, testator: u64, c: ActiveWillConfig)
    requires
        p.claim(testator, sender) == Some(c),
    ensures
        l.account(testator).total() != 0 ==> p.close_error(l, sender, testator) == Some(Error::BalanceNotEmpty),
        l.account(testator).total() == 0 ==> p.close_error(l, sender, testator).is_none(),
{
}

/// Collateral that is still fully reserved comes back in full: the free
/// balance grows, and the reserved balance shrinks, by exactly that amount.
pub proof fn collateral_returned_exactly(old: Ledger, new: Ledger, who: u64, amount: u128)
    requires
        Ledger::unreserved_to(old, new, who, amount),
        amount <= old.account(who).reserved,
    ensures
        new.account(who).free == old.account(who).free + amount,
        new.account(who).reserved == old.account(who).reserved - amount,
        new.account(who).total() == old.account(who).total(),
{
}

} // verus!
