use heir::{ActiveWillConfig, Call, Config, Error, Event, Ledger, Pallet, WillConfig};

const A: u64 = 1;
const B: u64 = 2;
const C: u64 = 3;

fn setup() -> (Pallet, Ledger) {
    let mut ledger = Ledger::new();
    ledger.deposit_creating(A, 1000).unwrap();
    ledger.deposit_creating(B, 500).unwrap();
    ledger.deposit_creating(C, 500).unwrap();
    (Pallet::new(Config { config_deposit: 100 }), ledger)
}

/// A registers (heir B, delay 10) and B initiates at height 5.
fn initiated() -> (Pallet, Ledger) {
    let (mut p, mut l) = setup();
    p.create_living_will(&mut l, A, B, 10).unwrap();
    l.set_block_number(5);
    p.initiate_will(&mut l, B, A).unwrap();
    (p, l)
}

#[test]
fn end_to_end_inheritance() {
    let (mut p, mut l) = initiated();
    assert_eq!(l.free_balance(A), 900);
    assert_eq!(l.reserved_balance(A), 100);
    assert_eq!(
        p.active_will_of(A, B),
        Some(ActiveWillConfig { created: 5, deposit: 100, nonce: 0, ready: false })
    );
    l.set_block_number(16);
    assert_eq!(p.activate_will(&mut l, B, A), Ok(()));
    assert_eq!(l.free_balance(A), 1000);
    assert_eq!(l.reserved_balance(A), 0);
    assert_eq!(p.will_of(A), None);
    assert_eq!(p.perform_will(&mut l, B, A, Call::Transfer { dest: B, value: 1000 }), Ok(()));
    assert_eq!(l.total_balance(A), 0);
    assert_eq!(l.free_balance(B), 1400);
    assert_eq!(l.reserved_balance(B), 100);
    assert_eq!(p.close_will(&mut l, B, A), Ok(()));
    assert_eq!(l.free_balance(B), 1500);
    assert_eq!(l.reserved_balance(B), 0);
    assert_eq!(p.active_will_of(A, B), None);
}

#[test]
fn testator_activity_blocks_activation() {
    let (mut p, mut l) = initiated();
    l.set_block_number(9);
    l.note_transaction(A);
    assert_eq!(l.account_nonce(A), 1);
    l.set_block_number(16);
    assert_eq!(p.activate_will(&mut l, B, A), Err(Error::AccountIsAlive));
    assert_eq!(p.will_of(A), Some(WillConfig { delay_period: 10, deposit: 100, heir: B }));
    assert_eq!(l.reserved_balance(A), 100);
}

#[test]
fn cancel_returns_collateral() {
    let (mut p, mut l) = setup();
    p.create_living_will(&mut l, A, B, 10).unwrap();
    assert_eq!(p.will_of(A), Some(WillConfig { delay_period: 10, deposit: 100, heir: B }));
    assert_eq!(l.free_balance(A), 900);
    assert_eq!(p.delete_living_will(&mut l, A), Ok(()));
    assert_eq!(l.free_balance(A), 1000);
    assert_eq!(l.reserved_balance(A), 0);
    assert_eq!(p.will_of(A), None);
    assert_eq!(p.active_will_of(A, B), None);
    assert_eq!(
        p.events().clone(),
        vec![
            Event::LivingWillCreated { who: A, heir: B },
            Event::LivingWillRemoved { who: A, heir: B },
        ]
    );
}

#[test]
fn cancel_without_will_fails() {
    let (mut p, mut l) = setup();
    assert_eq!(p.delete_living_will(&mut l, A), Err(Error::WillNotExist));
    assert_eq!(l.free_balance(A), 1000);
}

#[test]
fn register_needs_free_balance() {
    let mut l = Ledger::new();
    l.deposit_creating(A, 99).unwrap();
    let mut p = Pallet::new(Config { config_deposit: 100 });
    assert_eq!(p.create_living_will(&mut l, A, B, 10), Err(Error::InsufficientBalance));
    assert_eq!(p.will_of(A), None);
    assert_eq!(l.free_balance(A), 99);
    assert!(p.events().is_empty());
}

#[test]
fn register_overwrites_previous_will() {
    let (mut p, mut l) = setup();
    p.create_living_will(&mut l, A, B, 10).unwrap();
    p.create_living_will(&mut l, A, C, 3).unwrap();
    assert_eq!(p.will_of(A), Some(WillConfig { delay_period: 3, deposit: 100, heir: C }));
    assert_eq!(l.reserved_balance(A), 200);
}

#[test]
fn initiate_by_non_heir_fails() {
    let (mut p, mut l) = setup();
    p.create_living_will(&mut l, A, B, 10).unwrap();
    assert_eq!(p.initiate_will(&mut l, C, A), Err(Error::NotHeir));
    assert_eq!(p.initiate_will(&mut l, A, A), Err(Error::NotHeir));
    assert_eq!(p.active_will_of(A, C), None);
    assert_eq!(l.reserved_balance(C), 0);
}

#[test]
fn initiate_without_will_fails() {
    let (mut p, mut l) = setup();
    assert_eq!(p.initiate_will(&mut l, B, A), Err(Error::WillNotExist));
}

#[test]
fn initiate_needs_heir_balance() {
    let (mut p, mut l) = setup();
    p.create_living_will(&mut l, A, 9, 10).unwrap();
    assert_eq!(p.initiate_will(&mut l, 9, A), Err(Error::InsufficientBalance));
    assert_eq!(p.active_will_of(A, 9), None);
}

#[test]
fn initiate_records_height_and_counter() {
    let (mut p, mut l) = setup();
    p.create_living_will(&mut l, A, B, 10).unwrap();
    l.note_transaction(A);
    l.note_transaction(A);
    l.set_block_number(7);
    p.initiate_will(&mut l, B, A).unwrap();
    assert_eq!(
        p.active_will_of(A, B),
        Some(ActiveWillConfig { created: 7, deposit: 100, nonce: 2, ready: false })
    );
    assert_eq!(l.free_balance(B), 400);
    assert_eq!(l.reserved_balance(B), 100);
}

#[test]
fn activate_boundary_height() {
    let (mut p, mut l) = initiated();
    l.set_block_number(15);
    assert_eq!(p.activate_will(&mut l, B, A), Err(Error::ActivateNotReady));
    l.set_block_number(10);
    assert_eq!(p.activate_will(&mut l, B, A), Err(Error::ActivateNotReady));
    l.set_block_number(16);
    assert_eq!(p.activate_will(&mut l, B, A), Ok(()));
    assert_eq!(p.active_will_of(A, B).unwrap().ready, true);
}

#[test]
fn activate_counter_differs_long_after_delay() {
    let (mut p, mut l) = initiated();
    l.note_transaction(A);
    l.set_block_number(1_000_000);
    assert_eq!(p.activate_will(&mut l, B, A), Err(Error::AccountIsAlive));
}

#[test]
fn activate_large_heights_do_not_wrap() {
    let (mut p, mut l) = setup();
    p.create_living_will(&mut l, A, B, u64::MAX).unwrap();
    l.set_block_number(5);
    p.initiate_will(&mut l, B, A).unwrap();
    l.set_block_number(u64::MAX);
    assert_eq!(p.activate_will(&mut l, B, A), Err(Error::ActivateNotReady));
}

#[test]
fn activate_error_kinds() {
    let (mut p, mut l) = setup();
    assert_eq!(p.activate_will(&mut l, B, A), Err(Error::WillNotExist));
    p.create_living_will(&mut l, A, B, 10).unwrap();
    assert_eq!(p.activate_will(&mut l, C, A), Err(Error::NotHeir));
    assert_eq!(p.activate_will(&mut l, B, A), Err(Error::WillNotInitiated));
}

#[test]
fn activate_removes_will_and_returns_collateral() {
    let (mut p, mut l) = initiated();
    l.set_block_number(20);
    p.activate_will(&mut l, B, A).unwrap();
    assert_eq!(p.will_of(A), None);
    assert_eq!(l.free_balance(A), 1000);
    assert_eq!(l.reserved_balance(A), 0);
    assert_eq!(l.reserved_balance(B), 100);
    assert_eq!(p.activate_will(&mut l, B, A), Err(Error::WillNotExist));
}

#[test]
fn perform_before_activation_fails() {
    let (mut p, mut l) = initiated();
    assert_eq!(
        p.perform_will(&mut l, B, A, Call::Transfer { dest: B, value: 10 }),
        Err(Error::PerformNotReady)
    );
    assert_eq!(l.free_balance(A), 900);
    l.set_block_number(16);
    p.activate_will(&mut l, B, A).unwrap();
    assert_eq!(p.perform_will(&mut l, B, A, Call::Transfer { dest: B, value: 10 }), Ok(()));
    assert_eq!(l.free_balance(A), 990);
    assert_eq!(p.perform_will(&mut l, B, A, Call::Remark), Ok(()));
    assert_eq!(p.perform_will(&mut l, B, A, Call::Transfer { dest: C, value: 90 }), Ok(()));
    assert_eq!(l.free_balance(A), 900);
    assert_eq!(l.free_balance(C), 590);
}

#[test]
fn perform_without_claim_fails() {
    let (p, mut l) = initiated();
    assert_eq!(p.perform_will(&mut l, C, A, Call::Remark), Err(Error::WillNotInitiated));
}

#[test]
fn perform_passes_action_errors_through() {
    let (mut p, mut l) = initiated();
    l.set_block_number(16);
    p.activate_will(&mut l, B, A).unwrap();
    assert_eq!(
        p.perform_will(&mut l, B, A, Call::Transfer { dest: B, value: 1001 }),
        Err(Error::InsufficientBalance)
    );
    assert_eq!(l.free_balance(A), 1000);
    l.deposit_creating(C, u128::MAX - 500).unwrap();
    assert_eq!(
        p.perform_will(&mut l, B, A, Call::Transfer { dest: C, value: 1 }),
        Err(Error::Overflow)
    );
}

#[test]
fn close_with_funds_left_fails() {
    let (mut p, mut l) = initiated();
    l.set_block_number(16);
    p.activate_will(&mut l, B, A).unwrap();
    p.perform_will(&mut l, B, A, Call::Transfer { dest: B, value: 999 }).unwrap();
    assert_eq!(p.close_will(&mut l, B, A), Err(Error::BalanceNotEmpty));
    assert_eq!(l.reserved_balance(B), 100);
    p.perform_will(&mut l, B, A, Call::Transfer { dest: B, value: 1 }).unwrap();
    assert_eq!(p.close_will(&mut l, B, A), Ok(()));
    assert_eq!(l.reserved_balance(B), 0);
    assert_eq!(l.free_balance(B), 1500);
    assert_eq!(p.close_will(&mut l, B, A), Err(Error::WillNotInitiated));
}

#[test]
fn close_without_claim_fails() {
    let (mut p, mut l) = setup();
    assert_eq!(p.close_will(&mut l, B, A), Err(Error::WillNotInitiated));
}

#[test]
fn claims_are_kept_per_pair() {
    let (mut p, mut l) = initiated();
    p.create_living_will(&mut l, B, A, 1).unwrap();
    p.initiate_will(&mut l, A, B).unwrap();
    assert_eq!(p.active_will_of(A, B).unwrap().created, 5);
    assert_eq!(p.active_will_of(B, A).unwrap().created, 5);
    assert_eq!(p.active_will_of(B, B), None);
    assert_eq!(p.active_will_of(A, A), None);
}

#[test]
fn ledger_deposit_overflow() {
    let mut l = Ledger::new();
    assert_eq!(l.deposit_creating(A, u128::MAX), Ok(()));
    assert_eq!(l.deposit_creating(A, 1), Err(Error::Overflow));
    assert_eq!(l.total_balance(A), u128::MAX);
}

#[test]
fn ledger_unreserve_is_capped() {
    let mut l = Ledger::new();
    l.deposit_creating(A, 50).unwrap();
    l.reserve(A, 30).unwrap();
    assert_eq!(l.unreserve(A, 40), 10);
    assert_eq!(l.free_balance(A), 50);
    assert_eq!(l.reserved_balance(A), 0);
}
