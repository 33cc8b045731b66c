//! A dead-man's-switch inheritance controller: a testator names an heir and a
//! delay, the heir may claim the account once the testator has stayed inactive
//! for longer than that delay, and collateral deters abuse on both sides.

pub mod types;
pub mod ledger;
pub mod pallet;
pub mod laws;

pub use types::{AccountData, ActiveWillConfig, Call, Config, Error, Event, WillConfig};
pub use ledger::Ledger;
pub use pallet::Pallet;
