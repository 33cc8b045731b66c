use vstd::prelude::*;
use std::collections::HashMap;
use crate::ledger::Ledger;
use crate::types::{ActiveWillConfig, Call, Config, Error, Event, WillConfig};

verus! {

broadcast use vstd::std_specs::hash::group_hash_axioms;

/// The storage key of the claim of `heir` on the will of `testator`.
pub open spec fn claim_key(testator: u64, heir: u64) -> u128 {
    ((testator as u128) << 64u128) | (heir as u128)
}

proof fn lemma_claim_key_injective(t1: u64, h1: u64, t2: u64, h2: u64)
    ensures
        claim_key(t1, h1) == claim_key(t2, h2) <==> t1 == t2 && h1 == h2,
{
    assert(((t1 as u128) << 64u128) | (h1 as u128) == ((t2 as u128) << 64u128) | (h2 as u128)
        <==> t1 == t2 && h1 == h2) by (bit_vector);
}

fn key_of(testator: u64, heir: u64) -> (r: u128)
    ensures
        r == claim_key(testator, heir),
{
    ((testator as u128) << 64u128) | (heir as u128)
}

/// The will lifecycle controller: the will registry keyed by testator, the
/// claim registry keyed by testator and heir, and the emitted events.
pub struct Pallet {
    config: Config,
    wills: HashMap<u64, WillConfig>,
    active_wills: HashMap<u128, ActiveWillConfig>,
    events: Vec<Event>,
}

impl Pallet {
    /// The will registered by `testator`, if any.
    pub closed spec fn will(&self, testator: u64) -> Option<WillConfig> {
        if self.wills@.contains_key(testator) {
            Some(self.wills@[testator])
        } else {
            None
        }
    }

    /// The claim of `heir` on the will of `testator`, if any.
    pub closed spec fn claim(&self, testator: u64, heir: u64) -> Option<ActiveWillConfig> {
        let k = claim_key(testator, heir);
        if self.active_wills@.contains_key(k) {
            Some(self.active_wills@[k])
        } else {
            None
        }
    }

    /// The collateral asked of testators and heirs.
    pub closed spec fn deposit(&self) -> u128 {
        self.config.config_deposit
    }

    /// The events emitted so far, oldest first.
    pub closed spec fn event_log(&self) -> Seq<Event> {
        self.events@
    }

    pub open spec fn wills_same_except(old: Pallet, new: Pallet, testator: u64) -> bool {
        forall|t: u64| t != testator ==> #[trigger] new.will(t) == old.will(t)
    }

    pub open spec fn claims_same_except(old: Pallet, new: Pallet, testator: u64, heir: u64) -> bool {
        forall|t: u64, h: u64| !(t == testator && h == heir) ==> #[trigger] new.claim(t, h) == old.claim(t, h)
    }

    pub open spec fn claims_same(old: Pallet, new: Pallet) -> bool {
        forall|t: u64, h: u64| #[trigger] new.claim(t, h) == old.claim(t, h)
    }

    /// The error `initiate_will` gives, if any, in the order it checks.
    pub open spec fn initiate_error(self, ledger: Ledger, sender: u64, testator: u64) -> Option<Error> {
        match self.will(testator) {
            None => Some(Error::WillNotExist),
            Some(w) => if sender != w.heir {
                Some(Error::NotHeir)
            } else if ledger.account(sender).free < self.deposit() {
                Some(Error::InsufficientBalance)
            } else {
                None
            },
        }
    }

    /// The error `activate_will` gives, if any, in the order it checks.
    pub open spec fn activate_error(self, ledger: Ledger, sender: u64, testator: u64) -> Option<Error> {
        match self.will(testator) {
            None => Some(Error::WillNotExist),
            Some(w) => if sender != w.heir {
                Some(Error::NotHeir)
            } else {
                match self.claim(testator, sender) {
                    None => Some(Error::WillNotInitiated),
                    Some(c) => if ledger.block_number_spec() <= c.created + w.delay_period {
                        Some(Error::ActivateNotReady)
                    } else if ledger.account(testator).nonce != c.nonce {
                        Some(Error::AccountIsAlive)
                    } else {
                        None
                    },
                }
            },
        }
    }

    /// The error `perform_will` gives, if any, in the order it checks.
    pub open spec fn perform_error(self, ledger: Ledger, sender: u64, testator: u64, call: Call) -> Option<Error> {
        match self.claim(testator, sender) {
            None => Some(Error::WillNotInitiated),
            Some(c) => if !c.ready {
                Some(Error::PerformNotReady)
            } else {
                Ledger::dispatch_error(ledger, testator, call)
            },
        }
    }

    /// The error `close_will` gives, if any, in the order it checks.
    pub open spec fn close_error(self, ledger: Ledger, sender: u64, testator: u64) -> Option<Error> {
        match self.claim(testator, sender) {
            None => Some(Error::WillNotInitiated),
            Some(c) => if ledger.account(testator).total() != 0 {
                Some(Error::BalanceNotEmpty)
            } else {
                None
            },
        }
    }

    /// A controller with no wills, no claims and no events.
    pub fn new(config: Config) -> (r: Pallet)
        ensures
            r.deposit() == config.config_deposit,
            forall|t: u64| #[trigger] r.will(t).is_none(),
            forall|t: u64, h: u64| #[trigger] r.claim(t, h).is_none(),
            r.event_log() == Seq::<Event>::empty(),
    {
        Pallet { config, wills: HashMap::new(), active_wills: HashMap::new(), events: Vec::new() }
    }
    /// Registers a will of `sender` naming `heir` and `delay`, reserving the
    /// configured collateral from `sender`; a will already there is replaced.
    pub fn create_living_will(&mut self, ledger: &mut Ledger, sender: u64, heir: u64, delay: u64) -> (r: Result<(), Error>)
        requires
            old(ledger).wf(),
        ensures
            final(ledger).wf(),
            r.is_ok() <==> old(self).deposit() <= old(ledger).account(sender).free,
            r.is_err() ==> r == Err::<(), Error>(Error::InsufficientBalance)
                && *final(self) == *old(self) && *final(ledger) == *old(ledger),
            r.is_ok() ==> {
                &&& Ledger::reserved_from(*old(ledger), *final(ledger), sender, old(self).deposit())
                &&& final(self).will(sender) == Some(
                    WillConfig { delay_period: delay, deposit: old(self).deposit(), heir },
                )
                &&& Pallet::wills_same_except(*old(self), *final(self), sender)
                &&& Pallet::claims_same(*old(self), *final(self))
                &&& final(self).deposit() == old(self).deposit()
                &&& final(self).event_log() == old(self).event_log().push(
                    Event::LivingWillCreated { who: sender, heir },
                )
            },
    {
        let deposit = self.config.config_deposit;
        match ledger.reserve(sender, deposit) {
            Err(e) => {
                return Err(e);
            },
            Ok(()) => {},
        }
        let will_config = WillConfig { delay_period: delay, deposit, heir };
        self.wills.insert(sender, will_config);
        self.events.push(Event::LivingWillCreated { who: sender, heir });
        Ok(())
    }

    /// Removes the will of `sender` and gives its collateral back.
    pub fn delete_living_will(&mut self, ledger: &mut Ledger, sender: u64) -> (r: Result<(), Error>)
        requires
            old(ledger).wf(),
        ensures
            final(ledger).wf(),
            r.is_ok() <==> old(self).will(sender).is_some(),
            r.is_err() ==> r == Err::<(), Error>(Error::WillNotExist)
                && *final(self) == *old(self) && *final(ledger) == *old(ledger),
            r.is_ok() ==> {
                let w = old(self).will(sender).unwrap();
                &&& Ledger::unreserved_to(*old(ledger), *final(ledger), sender, w.deposit)
                &&& final(self).will(sender).is_none()
                &&& Pallet::wills_same_except(*old(self), *final(self), sender)
                &&& Pallet::claims_same(*old(self), *final(self))
                &&& final(self).deposit() == old(self).deposit()
                &&& final(self).event_log() == old(self).event_log().push(
                    Event::LivingWillRemoved { who: sender, heir: w.heir },
                )
            },
    {
        let will_config = match self.wills.get(&sender) {
            None => {
                return Err(Error::WillNotExist);
            },
            Some(w) => *w,
        };
        ledger.unreserve(sender, will_config.deposit);
        self.wills.remove(&sender);
        self.events.push(Event::LivingWillRemoved { who: sender, heir: will_config.heir });
        Ok(())
    }

    /// Starts the claim of `sender`, the registered heir, on the will of
    /// `testator`: reserves the collateral from `sender` and records the
    /// current height and the testator's transaction counter.
    pub fn initiate_will(&mut self, ledger: &mut Ledger, sender: u64, testator: u64) -> (r: Result<(), Error>)
        requires
            old(ledger).wf(),
        ensures
            final(ledger).wf(),
            r.is_ok() <==> old(self).initiate_error(*old(ledger), sender, testator).is_none(),
            r.is_err() ==> r == Err::<(), Error>(old(self).initiate_error(*old(ledger), sender, testator).unwrap())
                && *final(self) == *old(self) && *final(ledger) == *old(ledger),
            r.is_ok() ==> {
                &&& Ledger::reserved_from(*old(ledger), *final(ledger), sender, old(self).deposit())
                &&& final(self).claim(testator, sender) == Some(ActiveWillConfig {
                    created: old(ledger).block_number_spec(),
                    deposit: old(self).deposit(),
                    nonce: old(ledger).account(testator).nonce,
                    ready: false,
                })
                &&& Pallet::claims_same_except(*old(self), *final(self), testator, sender)
                &&& Pallet::wills_same_except(*old(self), *final(self), testator)
                &&& final(self).will(testator) == old(self).will(testator)
                &&& final(self).deposit() == old(self).deposit()
                &&& final(self).event_log() == old(self).event_log()
            },
    {
        let will_config = match self.wills.get(&testator) {
            None => {
                return Err(Error::WillNotExist);
            },
            Some(w) => *w,
        };
        if sender != will_config.heir {
            return Err(Error::NotHeir);
        }
        let deposit = self.config.config_deposit;
        match ledger.reserve(sender, deposit) {
            Err(e) => {
                return Err(e);
            },
            Ok(()) => {},
        }
        let active_will_config = ActiveWillConfig {
            created: ledger.block_number(),
            deposit,
            nonce: ledger.account_nonce(testator),
            ready: false,
        };
        let k = key_of(testator, sender);
        self.active_wills.insert(k, active_will_config);
        proof {
            assert forall|t: u64, h: u64| !(t == testator && h == sender) implies
                #[trigger] self.claim(t, h) == old(self).claim(t, h) by {
                lemma_claim_key_injective(t, h, testator, sender);
            }
        }
        Ok(())
    }

    /// Activates the claim of `sender` on the will of `testator` once the delay
    /// has strictly elapsed and the testator's counter has not moved: the claim
    /// becomes ready, the will is removed and its collateral given back.
    pub fn activate_will(&mut self, ledger: &mut Ledger, sender: u64, testator: u64) -> (r: Result<(), Error>)
        requires
            old(ledger).wf(),
        ensures
            final(ledger).wf(),
            r.is_ok() <==> old(self).activate_error(*old(ledger), sender, testator).is_none(),
            r.is_err() ==> r == Err::<(), Error>(old(self).activate_error(*old(ledger), sender, testator).unwrap())
                && *final(self) == *old(self) && *final(ledger) == *old(ledger),
            r.is_ok() ==> {
                let w = old(self).will(testator).unwrap();
                let c = old(self).claim(testator, sender).unwrap();
                &&& Ledger::unreserved_to(*old(ledger), *final(ledger), testator, w.deposit)
                &&& final(self).claim(testator, sender) == Some(ActiveWillConfig { ready: true, ..c })
                &&& final(self).will(testator).is_none()
                &&& Pallet::claims_same_except(*old(self), *final(self), testator, sender)
                &&& Pallet::wills_same_except(*old(self), *final(self), testator)
                &&& final(self).deposit() == old(self).deposit()
                &&& final(self).event_log() == old(self).event_log()
            },
    {
        let will_config = match self.wills.get(&testator) {
            None => {
                return Err(Error::WillNotExist);
            },
            Some(w) => *w,
        };
        if sender != will_config.heir {
            return Err(Error::NotHeir);
        }
        let k = key_of(testator, sender);
        let active_will_config = match self.active_wills.get(&k) {
            None => {
                return Err(Error::WillNotInitiated);
            },
            Some(c) => *c,
        };
        let current_block = ledger.block_number();
        if (current_block as u128) <= (active_will_config.created as u128) + (will_config.delay_period as u128) {
            return Err(Error::ActivateNotReady);
        }
        let current_nonce = ledger.account_nonce(testator);
        if current_nonce != active_will_config.nonce {
            return Err(Error::AccountIsAlive);
        }
        let ready_config = ActiveWillConfig { ready: true, ..active_will_config };
        self.active_wills.insert(k, ready_config);
        self.wills.remove(&testator);
        ledger.unreserve(testator, will_config.deposit);
        proof {
            assert forall|t: u64, h: u64| !(t == testator && h == sender) implies
                #[trigger] self.claim(t, h) == old(self).claim(t, h) by {
                lemma_claim_key_injective(t, h, testator, sender);
            }
        }
        Ok(())
    }

    /// Executes `call` as `testator` on behalf of `sender`, whose claim must
    /// have been activated. The registries are left as they are.
    pub fn perform_will(&self, ledger: &mut Ledger, sender: u64, testator: u64, call: Call) -> (r: Result<(), Error>)
        requires
            old(ledger).wf(),
        ensures
            final(ledger).wf(),
            r.is_ok() <==> self.perform_error(*old(ledger), sender, testator, call).is_none(),
            r.is_err() ==> r == Err::<(), Error>(self.perform_error(*old(ledger), sender, testator, call).unwrap())
                && *final(ledger) == *old(ledger),
            r.is_ok() ==> Ledger::dispatched(*old(ledger), *final(ledger), testator, call),
    {
        let k = key_of(testator, sender);
        let active_will_config = match self.active_wills.get(&k) {
            None => {
                return Err(Error::WillNotInitiated);
            },
            Some(c) => *c,
        };
        if !active_will_config.ready {
            return Err(Error::PerformNotReady);
        }
        ledger.dispatch(testator, call)
    }

    /// Closes the claim of `sender` on the will of `testator` once the
    /// testator holds nothing: the heir's collateral is given back and the
    /// claim removed.
    pub fn close_will(&mut self, ledger: &mut Ledger, sender: u64, testator: u64) -> (r: Result<(), Error>)
        requires
            old(ledger).wf(),
        ensures
            final(ledger).wf(),
            r.is_ok() <==> old(self).close_error(*old(ledger), sender, testator).is_none(),
            r.is_err() ==> r == Err::<(), Error>(old(self).close_error(*old(ledger), sender, testator).unwrap())
                && *final(self) == *old(self) && *final(ledger) == *old(ledger),
            r.is_ok() ==> {
                let c = old(self).claim(testator, sender).unwrap();
                &&& Ledger::unreserved_to(*old(ledger), *final(ledger), sender, c.deposit)
                &&& final(self).claim(testator, sender).is_none()
                &&& Pallet::claims_same_except(*old(self), *final(self), testator, sender)
                &&& Pallet::wills_same_except(*old(self), *final(self), testator)
                &&& final(self).will(testator) == old(self).will(testator)
                &&& final(self).deposit() == old(self).deposit()
                &&& final(self).event_log() == old(self).event_log()
            },
    {
        let k = key_of(testator, sender);
        let active_will_config = match self.active_wills.get(&k) {
            None => {
                return Err(Error::WillNotInitiated);
            },
            Some(c) => *c,
        };
        let balance = ledger.total_balance(testator);
        if balance != 0 {
            return Err(Error::BalanceNotEmpty);
        }
        ledger.unreserve(sender, active_will_config.deposit);
        self.active_wills.remove(&k);
        proof {
            assert forall|t: u64, h: u64| !(t == testator && h == sender) implies
                #[trigger] self.claim(t, h) == old(self).claim(t, h) by {
                lemma_claim_key_injective(t, h, testator, sender);
            }
        }
        Ok(())
    }

    /// The configured collateral amount.
    pub fn config_deposit(&self) -> (r: u128)
        ensures
            r == self.deposit(),
    {
        self.config.config_deposit
    }

    /// The will registered by `testator`, if any.
    pub fn will_of(&self, testator: u64) -> (r: Option<WillConfig>)
        ensures
            r == self.will(testator),
    {
        match self.wills.get(&testator) {
            None => None,
            Some(w) => Some(*w),
        }
    }

    /// The claim of `heir` on the will of `testator`, if any.
    pub fn active_will_of(&self, testator: u64, heir: u64) -> (r: Option<ActiveWillConfig>)
        ensures
            r == self.claim(testator, heir),
    {
        let k = key_of(testator, heir);
        match self.active_wills.get(&k) {
            None => None,
            Some(c) => Some(*c),
        }
    }

    /// The events emitted so far, oldest first.
    pub fn events(&self) -> (r: &Vec<Event>)
        ensures
            r@ == self.event_log(),
    {
        &self.events
    }
}

} // verus!
