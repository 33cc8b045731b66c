use vstd::prelude::*;

verus! {

/// What a testator registers: the unlock delay, the collateral reserved from
/// the testator, and the single account allowed to claim.
#[derive(Clone, Copy, Debug, PartialEq, Eq, Structural)]
pub struct WillConfig {
    pub delay_period: u64,
    pub deposit: u128,
    pub heir: u64,
}

/// An heir's claim in progress: the height it was started at, the collateral
/// reserved from the heir, the testator's transaction counter at that height,
/// and whether activation has succeeded.
#[derive(Clone, Copy, Debug, PartialEq, Eq, Structural)]
pub struct ActiveWillConfig {
    pub created: u64,
    pub deposit: u128,
    pub nonce: u64,
    pub ready: bool,
}

/// The balances and transaction counter the ledger keeps for one account.
#[derive(Clone, Copy, Debug, PartialEq, Eq, Structural)]
pub struct AccountData {
    pub free: u128,
    pub reserved: u128,
    pub nonce: u64,
}

impl AccountData {
    pub open spec fn total(self) -> int {
        self.free + self.reserved
    }
}

/// The fixed collateral amount asked of both testator and heir.
#[derive(Clone, Copy, Debug, PartialEq, Eq, Structural)]
pub struct Config {
    pub config_deposit: u128,
}

/// A delegated action, executed by the ledger on behalf of a principal.
#[derive(Clone, Copy, Debug, PartialEq, Eq, Structural)]
pub enum Call {
    /// Move `value` of the principal's free balance to `dest`.
    Transfer { dest: u64, value: u128 },
    /// Record a note; changes no balance.
    Remark,
}

/// Notifications emitted by the controller.
#[derive(Clone, Copy, Debug, PartialEq, Eq, Structural)]
pub enum Event {
    LivingWillCreated { who: u64, heir: u64 },
    LivingWillRemoved { who: u64, heir: u64 },
}

#[derive(Clone, Copy, Debug, PartialEq, Eq, Structural)]
pub enum Error {
    /// No will is registered for the testator.
    WillNotExist,
    /// The caller is not the registered heir.
    NotHeir,
    /// No claim exists for this testator and caller.
    WillNotInitiated,
    /// The delay after the claim's start has not strictly elapsed.
    ActivateNotReady,
    /// The testator's transaction counter moved since the claim started.
    AccountIsAlive,
    /// The claim has not been activated.
    PerformNotReady,
    /// The testator still holds funds.
    BalanceNotEmpty,
    /// Not enough free balance for a reservation or a transfer.
    InsufficientBalance,
    /// A balance would exceed its representable maximum.
    Overflow,
}

} // verus!
