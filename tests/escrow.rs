use anchor_escrow::authority::derive_authority;
use anchor_escrow::escrow::{
    check_cancel, check_exchange, check_init, new_record, escrow_cancel, escrow_exchange, escrow_init, initialize, EscrowCancel, EscrowExchange,
    EscrowInit, EscrowStore, Initialize,
};
use anchor_escrow::key::Key;
use anchor_escrow::ledger::{set_authority, transfer, EscrowError, TokenAccount};

fn key(b: u8) -> Key {
    Key::new([b; 32])
}

fn account(address: u8, owner: u8, amount: u64) -> TokenAccount {
    TokenAccount { address: key(address), owner: key(owner), amount }
}

const PROGRAM: u8 = 9;
const INITIALIZER: u8 = 1;
const TAKER: u8 = 2;
const INIT_X: u8 = 11;
const INIT_Y: u8 = 12;
const TAKER_X: u8 = 21;
const TAKER_Y: u8 = 22;

fn pda() -> Key {
    derive_authority(&key(PROGRAM)).unwrap().0
}

fn open(store: &mut EscrowStore, x: u64, y: u64) -> (usize, EscrowInit) {
    let mut accounts = EscrowInit {
        initializer: key(INITIALIZER),
        initializer_x_account: account(INIT_X, INITIALIZER, 100),
        initializer_y_account: account(INIT_Y, INITIALIZER, 0),
    };
    let handle = escrow_init(&key(PROGRAM), store, &mut accounts, x, y).unwrap();
    (handle, accounts)
}

fn exchange_accounts(init: &EscrowInit, taker_y: u64) -> EscrowExchange {
    EscrowExchange {
        taker: key(TAKER),
        taker_x_account: account(TAKER_X, TAKER, 0),
        taker_y_account: account(TAKER_Y, TAKER, taker_y),
        initializer_x_account: init.initializer_x_account,
        initializer_y_account: init.initializer_y_account,
        initializer_main_account: key(INITIALIZER),
    }
}

#[test]
fn exchange_scenario_moves_both_legs() {
    let mut store = EscrowStore::new();
    let (handle, init) = open(&mut store, 100, 50);
    assert!(init.initializer_x_account.owner == pda());
    let mut ex = exchange_accounts(&init, 50);
    assert_eq!(escrow_exchange(&key(PROGRAM), &mut store, handle, &mut ex), Ok(()));
    assert_eq!(ex.initializer_x_account.amount, 0);
    assert_eq!(ex.initializer_y_account.amount, 50);
    assert_eq!(ex.taker_x_account.amount, 100);
    assert_eq!(ex.taker_y_account.amount, 0);
    assert!(ex.initializer_x_account.owner == key(INITIALIZER));
    assert!(store.get(handle).is_none());
}

#[test]
fn cancel_scenario_restores_deposit() {
    let mut store = EscrowStore::new();
    let (handle, init) = open(&mut store, 100, 50);
    let mut cancel = EscrowCancel {
        initializer: key(INITIALIZER),
        initializer_x_account: init.initializer_x_account,
    };
    assert_eq!(escrow_cancel(&key(PROGRAM), &mut store, handle, &mut cancel), Ok(()));
    assert_eq!(cancel.initializer_x_account.amount, 100);
    assert!(cancel.initializer_x_account.owner == key(INITIALIZER));
    assert!(store.get(handle).is_none());
    let mut ex = exchange_accounts(&init, 50);
    let before = ex;
    assert_eq!(
        escrow_exchange(&key(PROGRAM), &mut store, handle, &mut ex),
        Err(EscrowError::RecordMismatch)
    );
    assert_eq!(ex.taker_y_account.amount, before.taker_y_account.amount);
    assert_eq!(ex.taker_x_account.amount, before.taker_x_account.amount);
}

#[test]
fn open_then_cancel_keeps_balance() {
    for (x, y) in [(1u64, 1u64), (37, 5), (100, u64::MAX)] {
        let mut store = EscrowStore::new();
        let (handle, init) = open(&mut store, x, y);
        let mut cancel = EscrowCancel {
            initializer: key(INITIALIZER),
            initializer_x_account: init.initializer_x_account,
        };
        assert_eq!(escrow_cancel(&key(PROGRAM), &mut store, handle, &mut cancel), Ok(()));
        assert_eq!(cancel.initializer_x_account.amount, 100);
        assert!(cancel.initializer_x_account.owner == key(INITIALIZER));
        assert!(store.get(handle).is_none());
    }
}

#[test]
fn cancel_by_stranger_is_refused() {
    let mut store = EscrowStore::new();
    let (handle, init) = open(&mut store, 100, 50);
    let mut cancel = EscrowCancel { initializer: key(TAKER), initializer_x_account: init.initializer_x_account };
    assert_eq!(
        escrow_cancel(&key(PROGRAM), &mut store, handle, &mut cancel),
        Err(EscrowError::RecordMismatch)
    );
    assert!(cancel.initializer_x_account.owner == pda());
    assert_eq!(cancel.initializer_x_account.amount, 100);
    assert!(store.get(handle).is_some());
}

#[test]
fn cancel_with_other_deposit_account_is_refused() {
    let mut store = EscrowStore::new();
    let (handle, _init) = open(&mut store, 100, 50);
    let mut cancel = EscrowCancel {
        initializer: key(INITIALIZER),
        initializer_x_account: account(INIT_Y, INITIALIZER, 3),
    };
    assert_eq!(
        escrow_cancel(&key(PROGRAM), &mut store, handle, &mut cancel),
        Err(EscrowError::RecordMismatch)
    );
    assert!(store.get(handle).is_some());
}

#[test]
fn exchange_short_of_funds_moves_nothing() {
    let mut store = EscrowStore::new();
    let (handle, init) = open(&mut store, 100, 50);
    let mut ex = exchange_accounts(&init, 49);
    assert_eq!(
        escrow_exchange(&key(PROGRAM), &mut store, handle, &mut ex),
        Err(EscrowError::InsufficientFunds)
    );
    assert_eq!(ex.initializer_x_account.amount, 100);
    assert_eq!(ex.taker_y_account.amount, 49);
    assert_eq!(ex.taker_x_account.amount, 0);
    assert_eq!(ex.initializer_y_account.amount, 0);
    assert!(store.get(handle).is_some());
}

#[test]
fn exchange_twice_is_refused() {
    let mut store = EscrowStore::new();
    let (handle, init) = open(&mut store, 100, 50);
    let mut ex = exchange_accounts(&init, 200);
    assert_eq!(escrow_exchange(&key(PROGRAM), &mut store, handle, &mut ex), Ok(()));
    let after = ex;
    assert_eq!(
        escrow_exchange(&key(PROGRAM), &mut store, handle, &mut ex),
        Err(EscrowError::RecordMismatch)
    );
    assert_eq!(ex.taker_y_account.amount, after.taker_y_account.amount);
    assert_eq!(ex.taker_y_account.amount, 150);
    let mut cancel = EscrowCancel {
        initializer: key(INITIALIZER),
        initializer_x_account: ex.initializer_x_account,
    };
    assert_eq!(
        escrow_cancel(&key(PROGRAM), &mut store, handle, &mut cancel),
        Err(EscrowError::RecordMismatch)
    );
}

#[test]
fn cancel_twice_is_refused() {
    let mut store = EscrowStore::new();
    let (handle, init) = open(&mut store, 100, 50);
    let mut cancel = EscrowCancel {
        initializer: key(INITIALIZER),
        initializer_x_account: init.initializer_x_account,
    };
    assert_eq!(escrow_cancel(&key(PROGRAM), &mut store, handle, &mut cancel), Ok(()));
    assert_eq!(
        escrow_cancel(&key(PROGRAM), &mut store, handle, &mut cancel),
        Err(EscrowError::RecordMismatch)
    );
    assert_eq!(cancel.initializer_x_account.amount, 100);
}

#[test]
fn unknown_handle_is_refused() {
    let mut store = EscrowStore::new();
    let mut cancel = EscrowCancel {
        initializer: key(INITIALIZER),
        initializer_x_account: account(INIT_X, INITIALIZER, 100),
    };
    assert_eq!(
        escrow_cancel(&key(PROGRAM), &mut store, 0, &mut cancel),
        Err(EscrowError::RecordMismatch)
    );
}

#[test]
fn open_rejects_zero_amounts() {
    let mut store = EscrowStore::new();
    let mut accounts = EscrowInit {
        initializer: key(INITIALIZER),
        initializer_x_account: account(INIT_X, INITIALIZER, 100),
        initializer_y_account: account(INIT_Y, INITIALIZER, 0),
    };
    assert_eq!(
        escrow_init(&key(PROGRAM), &mut store, &mut accounts, 0, 5),
        Err(EscrowError::InvalidAmount)
    );
    assert_eq!(
        escrow_init(&key(PROGRAM), &mut store, &mut accounts, 5, 0),
        Err(EscrowError::InvalidAmount)
    );
    assert_eq!(store.len(), 0);
    assert!(accounts.initializer_x_account.owner == key(INITIALIZER));
}

#[test]
fn open_rejects_short_deposit() {
    let mut store = EscrowStore::new();
    let mut accounts = EscrowInit {
        initializer: key(INITIALIZER),
        initializer_x_account: account(INIT_X, INITIALIZER, 99),
        initializer_y_account: account(INIT_Y, INITIALIZER, 0),
    };
    assert_eq!(
        escrow_init(&key(PROGRAM), &mut store, &mut accounts, 100, 5),
        Err(EscrowError::InsufficientFunds)
    );
    assert_eq!(
        escrow_init(&key(PROGRAM), &mut store, &mut accounts, 99, 5),
        Ok(0)
    );
}

#[test]
fn open_rejects_account_of_another() {
    let mut store = EscrowStore::new();
    let mut accounts = EscrowInit {
        initializer: key(INITIALIZER),
        initializer_x_account: account(INIT_X, TAKER, 100),
        initializer_y_account: account(INIT_Y, INITIALIZER, 0),
    };
    assert_eq!(
        escrow_init(&key(PROGRAM), &mut store, &mut accounts, 10, 5),
        Err(EscrowError::Unauthorized)
    );
    assert!(accounts.initializer_x_account.owner == key(TAKER));
    assert_eq!(store.len(), 0);
}

#[test]
fn open_hands_out_fresh_handles() {
    let mut store = EscrowStore::new();
    let (first, _) = open(&mut store, 10, 5);
    let (second, _) = open(&mut store, 20, 7);
    assert_eq!((first, second), (0, 1));
    let record = store.get(second).unwrap();
    assert_eq!(record.x_in_amount, 20);
    assert_eq!(record.y_out_amount, 7);
    assert!(record.initializer_key == key(INITIALIZER));
    assert!(record.initializer_x_account == key(INIT_X));
    assert!(record.initializer_y_account == key(INIT_Y));
}

#[test]
fn exchange_by_taker_without_control_is_refused() {
    let mut store = EscrowStore::new();
    let (handle, init) = open(&mut store, 100, 50);
    let mut ex = exchange_accounts(&init, 80);
    ex.taker_y_account.owner = key(INITIALIZER);
    assert_eq!(
        escrow_exchange(&key(PROGRAM), &mut store, handle, &mut ex),
        Err(EscrowError::Unauthorized)
    );
    assert_eq!(ex.initializer_x_account.amount, 100);
    assert_eq!(ex.taker_x_account.amount, 0);
    assert!(store.get(handle).is_some());
}

#[test]
fn exchange_with_wrong_receive_account_is_refused() {
    let mut store = EscrowStore::new();
    let (handle, init) = open(&mut store, 100, 50);
    let mut ex = exchange_accounts(&init, 80);
    ex.initializer_y_account = account(TAKER_X, INITIALIZER, 0);
    assert_eq!(
        escrow_exchange(&key(PROGRAM), &mut store, handle, &mut ex),
        Err(EscrowError::RecordMismatch)
    );
}

#[test]
fn exchange_overflowing_credit_is_refused() {
    let mut store = EscrowStore::new();
    let (handle, init) = open(&mut store, 100, 50);
    let mut ex = exchange_accounts(&init, 80);
    ex.taker_x_account.amount = u64::MAX - 99;
    assert_eq!(
        escrow_exchange(&key(PROGRAM), &mut store, handle, &mut ex),
        Err(EscrowError::Overflow)
    );
    assert_eq!(ex.taker_y_account.amount, 80);
    assert_eq!(ex.initializer_x_account.amount, 100);
}

#[test]
fn authority_is_derived_and_stable() {
    let program = key(PROGRAM);
    let (first, bump) = derive_authority(&program).unwrap();
    let (second, bump_again) = derive_authority(&program).unwrap();
    assert!(first == second);
    assert_eq!(bump, bump_again);
    assert!(first != program);
    let (other, _) = derive_authority(&key(PROGRAM + 1)).unwrap();
    assert!(other != first);
}

#[test]
fn ledger_transfer_and_authority() {
    let mut from = account(1, 5, 10);
    let mut to = account(2, 6, 3);
    assert_eq!(transfer(&mut from, &mut to, &key(6), 4), Err(EscrowError::Unauthorized));
    assert_eq!(transfer(&mut from, &mut to, &key(5), 11), Err(EscrowError::InsufficientFunds));
    assert_eq!(transfer(&mut from, &mut to, &key(5), 4), Ok(()));
    assert_eq!((from.amount, to.amount), (6, 7));
    assert_eq!(set_authority(&mut from, &key(6), &key(7)), Err(EscrowError::Unauthorized));
    assert_eq!(set_authority(&mut from, &key(5), &key(7)), Ok(()));
    assert!(from.owner == key(7));
}

#[test]
fn initialize_succeeds() {
    assert_eq!(initialize(&Initialize {}), Ok(()));
}

#[test]
fn checks_yield_the_derived_authority() {
    let program = key(PROGRAM);
    let init = EscrowInit {
        initializer: key(INITIALIZER),
        initializer_x_account: account(INIT_X, INITIALIZER, 100),
        initializer_y_account: account(INIT_Y, INITIALIZER, 0),
    };
    let expected = derive_authority(&program).unwrap();
    assert_eq!(check_init(&program, &init, 100, 50), Ok(expected));
    assert_eq!(check_init(&program, &init, 101, 50), Err(EscrowError::InsufficientFunds));
    let record = new_record(&init, 100, 50);
    assert_eq!(record.x_in_amount, 100);
    assert!(record.initializer_y_account == key(INIT_Y));
    let mut locked = init.initializer_x_account;
    locked.owner = expected.0;
    let cancel = EscrowCancel { initializer: key(INITIALIZER), initializer_x_account: locked };
    assert_eq!(check_cancel(&program, &Some(record), &cancel), Ok(expected));
    assert_eq!(check_cancel(&program, &None, &cancel), Err(EscrowError::RecordMismatch));
    let unlocked = EscrowCancel {
        initializer: key(INITIALIZER),
        initializer_x_account: init.initializer_x_account,
    };
    assert_eq!(check_cancel(&program, &Some(record), &unlocked), Err(EscrowError::Unauthorized));
    let mut opened = init;
    opened.initializer_x_account = locked;
    let ex = exchange_accounts(&opened, 50);
    assert_eq!(check_exchange(&program, &Some(record), &ex), Ok(expected));
    let mut wrong_main = ex;
    wrong_main.initializer_main_account = key(TAKER);
    assert_eq!(
        check_exchange(&program, &Some(record), &wrong_main),
        Err(EscrowError::RecordMismatch)
    );
}
