use crate::authority::{authority_key, custodial_authority, derive_authority};
use crate::key::Key;
use crate::ledger::{
    check_transfer, set_authority, set_authority_error, transfer, transfer_error, EscrowError,
    TokenAccount,
};
use vstd::prelude::*;

verus! {

/// The terms of one open escrow.
#[derive(Clone, Copy, Debug)]
pub struct EscrowAccount {
    /// The depositor.
    pub initializer_key: Key,
    /// The account that holds the deposit, controlled by the custodial authority.
    pub initializer_x_account: Key,
    /// The account that is to receive the counter-asset.
    pub initializer_y_account: Key,
    /// The deposit, moved to the taker on exchange.
    pub x_in_amount: u64,
    /// The amount of the counter-asset the taker must pay.
    pub y_out_amount: u64,
}

/// The open escrows, each under the handle it was opened with; a closed
/// escrow leaves an empty slot, so a handle is never reused.
pub struct EscrowStore {
    records: Vec<Option<EscrowAccount>>,
}

impl View for EscrowStore {
    type V = Seq<Option<EscrowAccount>>;

    closed spec fn view(&self) -> Seq<Option<EscrowAccount>> {
        self.records@
    }
}

/// The record stored under `handle`, if any.
pub open spec fn record_at(store: Seq<Option<EscrowAccount>>, handle: int) -> Option<EscrowAccount> {
    if 0 <= handle < store.len() {
        store[handle]
    } else {
        None
    }
}

impl EscrowStore {
    pub fn new() -> (r: EscrowStore)
        ensures
            r@ == Seq::<Option<EscrowAccount>>::empty(),
    {
        EscrowStore { records: Vec::new() }
    }

    /// The number of handles given out so far.
    pub fn len(&self) -> (r: usize)
        ensures
            r == self@.len(),
    {
        self.records.len()
    }

    /// The record under `handle`, or none where it was closed or never opened.
    pub fn get(&self, handle: usize) -> (r: Option<EscrowAccount>)
        ensures
            r == record_at(self@, handle as int),
    {
        if handle < self.records.len() {
            self.records[handle]
        } else {
            None
        }
    }
}

/// The accounts of the no-op setup instruction.
pub struct Initialize {}

/// The accounts that opening an escrow reads and changes.
#[derive(Clone, Copy, Debug)]
pub struct EscrowInit {
    /// The depositor, who has authorized this call.
    pub initializer: Key,
    /// The account the deposit is locked in.
    pub initializer_x_account: TokenAccount,
    /// The account that is to receive the counter-asset.
    pub initializer_y_account: TokenAccount,
}

/// The accounts that cancelling an escrow reads and changes.
#[derive(Clone, Copy, Debug)]
pub struct EscrowCancel {
    /// The caller.
    pub initializer: Key,
    /// The account the deposit is locked in.
    pub initializer_x_account: TokenAccount,
}

/// The accounts that exchanging an escrow reads and changes.
#[derive(Clone, Copy, Debug)]
pub struct EscrowExchange {
    /// The taker, who has authorized this call.
    pub taker: Key,
    /// Where the taker receives the deposit.
    pub taker_x_account: TokenAccount,
    /// Where the taker pays the counter-asset from.
    pub taker_y_account: TokenAccount,
    /// The account the deposit is locked in.
    pub initializer_x_account: TokenAccount,
    /// Where the initializer receives the counter-asset.
    pub initializer_y_account: TokenAccount,
    /// The initializer, to whom the closed record is refunded.
    pub initializer_main_account: Key,
}

/// The record that a successful open stores.
pub open spec fn record_of(accounts: EscrowInit, x_in_amount: u64, y_out_amount: u64) -> EscrowAccount {
    EscrowAccount {
        initializer_key: accounts.initializer,
        initializer_x_account: accounts.initializer_x_account.address,
        initializer_y_account: accounts.initializer_y_account.address,
        x_in_amount,
        y_out_amount,
    }
}

/// Why opening is refused before any storage is taken, if it is, checked in
/// this order.
pub open spec fn open_error(
    program_id: Seq<u8>,
    accounts: EscrowInit,
    x_in_amount: u64,
    y_out_amount: u64,
) -> Option<EscrowError> {
    if x_in_amount == 0 || y_out_amount == 0 {
        Some(EscrowError::InvalidAmount)
    } else if accounts.initializer_x_account.amount < x_in_amount {
        Some(EscrowError::InsufficientFunds)
    } else if custodial_authority(program_id) is None {
        Some(EscrowError::AuthorityUnavailable)
    } else {
        set_authority_error(accounts.initializer_x_account, accounts.initializer@)
    }
}

/// Why opening into `store` is refused, if it is.
pub open spec fn init_error(
    program_id: Seq<u8>,
    store: Seq<Option<EscrowAccount>>,
    accounts: EscrowInit,
    x_in_amount: u64,
    y_out_amount: u64,
) -> Option<EscrowError> {
    match open_error(program_id, accounts, x_in_amount, y_out_amount) {
        Some(e) => Some(e),
        None => if store.len() >= usize::MAX {
            Some(EscrowError::AllocationFailed)
        } else {
            None
        },
    }
}

/// What opening does: either it fails and changes nothing, or it stores the
/// record under a fresh handle and puts the deposit account under the
/// custodial authority, balances untouched.
pub open spec fn init_effect(
    program_id: Seq<u8>,
    store: Seq<Option<EscrowAccount>>,
    accounts: EscrowInit,
    x_in_amount: u64,
    y_out_amount: u64,
    r: Result<usize, EscrowError>,
    new_store: Seq<Option<EscrowAccount>>,
    new_accounts: EscrowInit,
) -> bool {
    match init_error(program_id, store, accounts, x_in_amount, y_out_amount) {
        Some(e) => r == Err::<usize, EscrowError>(e) && new_store == store && new_accounts == accounts,
        None => {
            &&& r == Ok::<usize, EscrowError>(store.len() as usize)
            &&& new_store == store.push(Some(record_of(accounts, x_in_amount, y_out_amount)))
            &&& new_accounts.initializer == accounts.initializer
            &&& new_accounts.initializer_y_account == accounts.initializer_y_account
            &&& new_accounts.initializer_x_account.address == accounts.initializer_x_account.address
            &&& new_accounts.initializer_x_account.amount == accounts.initializer_x_account.amount
            &&& new_accounts.initializer_x_account.owner@ == authority_key(program_id)
        },
    }
}

/// Why cancelling the escrow whose stored record is `record` is refused, if it is.
pub open spec fn cancel_error(
    program_id: Seq<u8>,
    record: Option<EscrowAccount>,
    accounts: EscrowCancel,
) -> Option<EscrowError> {
    match record {
        None => Some(EscrowError::RecordMismatch),
        Some(record) => if record.initializer_key@ != accounts.initializer@
            || record.initializer_x_account@ != accounts.initializer_x_account.address@ {
            Some(EscrowError::RecordMismatch)
        } else if custodial_authority(program_id) is None {
            Some(EscrowError::AuthorityUnavailable)
        } else {
            set_authority_error(
                accounts.initializer_x_account,
                authority_key(program_id),
            )
        },
    }
}

/// What cancelling does: either it fails and changes nothing, or it hands the
/// deposit account back to the initializer, balance untouched, and closes the
/// record.
pub open spec fn cancel_effect(
    program_id: Seq<u8>,
    store: Seq<Option<EscrowAccount>>,
    handle: int,
    accounts: EscrowCancel,
    r: Result<(), EscrowError>,
    new_store: Seq<Option<EscrowAccount>>,
    new_accounts: EscrowCancel,
) -> bool {
    match cancel_error(program_id, record_at(store, handle), accounts) {
        Some(e) => r == Err::<(), EscrowError>(e) && new_store == store && new_accounts == accounts,
        None => {
            &&& r is Ok
            &&& new_store == store.update(handle, None)
            &&& new_accounts == (EscrowCancel {
                initializer_x_account: TokenAccount {
                    owner: store[handle]->0.initializer_key,
                    ..accounts.initializer_x_account
                },
                ..accounts
            })
        },
    }
}

/// Why exchanging the escrow whose stored record is `record` is refused, if it
/// is; every check of both legs comes before anything moves.
pub open spec fn exchange_error(
    program_id: Seq<u8>,
    record: Option<EscrowAccount>,
    accounts: EscrowExchange,
) -> Option<EscrowError> {
    match record {
        None => Some(EscrowError::RecordMismatch),
        Some(record) => if accounts.taker_y_account.amount < record.y_out_amount {
            Some(EscrowError::InsufficientFunds)
        } else if record.initializer_x_account@ != accounts.initializer_x_account.address@
            || record.initializer_y_account@ != accounts.initializer_y_account.address@
            || record.initializer_key@ != accounts.initializer_main_account@ {
            Some(EscrowError::RecordMismatch)
        } else if custodial_authority(program_id) is None {
            Some(EscrowError::AuthorityUnavailable)
        } else if transfer_error(
            accounts.initializer_x_account,
            accounts.taker_x_account,
            authority_key(program_id),
            record.x_in_amount,
        ) is Some {
            transfer_error(
                accounts.initializer_x_account,
                accounts.taker_x_account,
                authority_key(program_id),
                record.x_in_amount,
            )
        } else {
            transfer_error(
                accounts.taker_y_account,
                accounts.initializer_y_account,
                accounts.taker@,
                record.y_out_amount,
            )
        },
    }
}

/// What exchanging does: either it fails and changes nothing, or the deposit
/// moves to the taker, the counter-asset moves to the initializer, the
/// deposit account goes back to the initializer, and the record is closed.
pub open spec fn exchange_effect(
    program_id: Seq<u8>,
    store: Seq<Option<EscrowAccount>>,
    handle: int,
    accounts: EscrowExchange,
    r: Result<(), EscrowError>,
    new_store: Seq<Option<EscrowAccount>>,
    new_accounts: EscrowExchange,
) -> bool {
    match exchange_error(program_id, record_at(store, handle), accounts) {
        Some(e) => r == Err::<(), EscrowError>(e) && new_store == store && new_accounts == accounts,
        None => {
            let record = store[handle]->0;
            &&& r is Ok
            &&& new_store == store.update(handle, None)
            &&& new_accounts == (EscrowExchange {
                initializer_x_account: TokenAccount {
                    owner: record.initializer_key,
                    amount: (accounts.initializer_x_account.amount - record.x_in_amount) as u64,
                    ..accounts.initializer_x_account
                },
                taker_x_account: TokenAccount {
                    amount: (accounts.taker_x_account.amount + record.x_in_amount) as u64,
                    ..accounts.taker_x_account
                },
                taker_y_account: TokenAccount {
                    amount: (accounts.taker_y_account.amount - record.y_out_amount) as u64,
                    ..accounts.taker_y_account
                },
                initializer_y_account: TokenAccount {
                    amount: (accounts.initializer_y_account.amount + record.y_out_amount) as u64,
                    ..accounts.initializer_y_account
                },
                ..accounts
            })
        },
    }
}

/// What a check that precedes a change returns: the refusal, or the custodial
/// authority and its bump seed.
pub open spec fn check_result(program_id: Seq<u8>, error: Option<EscrowError>, r: Result<(Key, u8), EscrowError>) -> bool {
    match error {
        Some(e) => r == Err::<(Key, u8), EscrowError>(e),
        None => match r {
            Ok(found) => custodial_authority(program_id) == Some((found.0@, found.1)),
            Err(_) => false,
        },
    }
}

/// The setup instruction; it changes nothing.
pub fn initialize(accounts: &Initialize) -> (r: Result<(), EscrowError>)
    ensures
        r is Ok,
{
    Ok(())
}

/// The record that opening with `accounts` and these amounts stores.
pub fn new_record(accounts: &EscrowInit, x_in_amount: u64, y_out_amount: u64) -> (r: EscrowAccount)
    ensures
        r == record_of(*accounts, x_in_amount, y_out_amount),
{
    EscrowAccount {
        initializer_key: accounts.initializer,
        initializer_x_account: accounts.initializer_x_account.address,
        initializer_y_account: accounts.initializer_y_account.address,
        x_in_amount,
        y_out_amount,
    }
}

/// Decides whether an escrow may be opened with `accounts` and these amounts,
/// and yields the authority the deposit account is to be handed to.
pub fn check_init(program_id: &Key, accounts: &EscrowInit, x_in_amount: u64, y_out_amount: u64) -> (r:
    Result<(Key, u8), EscrowError>)
    ensures
        check_result(program_id@, open_error(program_id@, *accounts, x_in_amount, y_out_amount), r),
{
    if x_in_amount == 0 || y_out_amount == 0 {
        return Err(EscrowError::InvalidAmount);
    }
    if accounts.initializer_x_account.amount < x_in_amount {
        return Err(EscrowError::InsufficientFunds);
    }
    let found = match derive_authority(program_id) {
        Some(found) => found,
        None => {
            return Err(EscrowError::AuthorityUnavailable);
        },
    };
    if !accounts.initializer_x_account.owner.same(&accounts.initializer) {
        return Err(EscrowError::Unauthorized);
    }
    Ok(found)
}

/// Decides whether the escrow whose stored record is `record` may be
/// cancelled with `accounts`, and yields the authority that holds the deposit.
pub fn check_cancel(program_id: &Key, record: &Option<EscrowAccount>, accounts: &EscrowCancel) -> (r:
    Result<(Key, u8), EscrowError>)
    ensures
        check_result(program_id@, cancel_error(program_id@, *record, *accounts), r),
{
    let record = match record {
        Some(record) => record,
        None => {
            return Err(EscrowError::RecordMismatch);
        },
    };
    if !record.initializer_key.same(&accounts.initializer) || !record.initializer_x_account.same(
        &accounts.initializer_x_account.address,
    ) {
        return Err(EscrowError::RecordMismatch);
    }
    let found = match derive_authority(program_id) {
        Some(found) => found,
        None => {
            return Err(EscrowError::AuthorityUnavailable);
        },
    };
    if !accounts.initializer_x_account.owner.same(&found.0) {
        return Err(EscrowError::Unauthorized);
    }
    Ok(found)
}

/// Decides whether the escrow whose stored record is `record` may be exchanged
/// with `accounts`, checking both legs, and yields the authority that holds
/// the deposit.
pub fn check_exchange(program_id: &Key, record: &Option<EscrowAccount>, accounts: &EscrowExchange) -> (r:
    Result<(Key, u8), EscrowError>)
    ensures
        check_result(program_id@, exchange_error(program_id@, *record, *accounts), r),
{
    let record = match record {
        Some(record) => record,
        None => {
            return Err(EscrowError::RecordMismatch);
        },
    };
    if accounts.taker_y_account.amount < record.y_out_amount {
        return Err(EscrowError::InsufficientFunds);
    }
    if !record.initializer_x_account.same(&accounts.initializer_x_account.address)
        || !record.initializer_y_account.same(&accounts.initializer_y_account.address)
        || !record.initializer_key.same(&accounts.initializer_main_account) {
        return Err(EscrowError::RecordMismatch);
    }
    let found = match derive_authority(program_id) {
        Some(found) => found,
        None => {
            return Err(EscrowError::AuthorityUnavailable);
        },
    };
    match check_transfer(
        &accounts.initializer_x_account,
        &accounts.taker_x_account,
        &found.0,
        record.x_in_amount,
    ) {
        Err(e) => {
            return Err(e);
        },
        Ok(()) => {},
    }
    match check_transfer(
        &accounts.taker_y_account,
        &accounts.initializer_y_account,
        &accounts.taker,
        record.y_out_amount,
    ) {
        Err(e) => {
            return Err(e);
        },
        Ok(()) => {},
    }
    Ok(found)
}

/// Opens an escrow: stores its terms and puts the deposit account under the
/// program's custodial authority, or fails and changes nothing.
pub fn escrow_init(
    program_id: &Key,
    store: &mut EscrowStore,
    accounts: &mut EscrowInit,
    x_in_amount: u64,
    y_out_amount: u64,
) -> (r: Result<usize, EscrowError>)
    ensures
        init_effect(
            program_id@,
            old(store)@,
            *old(accounts),
            x_in_amount,
            y_out_amount,
            r,
            final(store)@,
            *final(accounts),
        ),
{
    let pda = match check_init(program_id, accounts, x_in_amount, y_out_amount) {
        Ok(found) => found.0,
        Err(e) => {
            return Err(e);
        },
    };
    if store.records.len() == usize::MAX {
        return Err(EscrowError::AllocationFailed);
    }
    let record = new_record(accounts, x_in_amount, y_out_amount);
    let initializer = accounts.initializer;
    let handed = set_authority(&mut accounts.initializer_x_account, &initializer, &pda);
    assert(handed is Ok);
    let handle = store.records.len();
    store.records.push(Some(record));
    Ok(handle)
}

/// Cancels the escrow under `handle` at its initializer's request: the
/// deposit account goes back to the initializer and the record is closed.
pub fn escrow_cancel(
    program_id: &Key,
    store: &mut EscrowStore,
    handle: usize,
    accounts: &mut EscrowCancel,
) -> (r: Result<(), EscrowError>)
    ensures
        cancel_effect(
            program_id@,
            old(store)@,
            handle as int,
            *old(accounts),
            r,
            final(store)@,
            *final(accounts),
        ),
{
    let record = store.get(handle);
    let pda = match check_cancel(program_id, &record, accounts) {
        Ok(found) => found.0,
        Err(e) => {
            return Err(e);
        },
    };
    let initializer = match record {
        Some(record) => record.initializer_key,
        None => {
            return Err(EscrowError::RecordMismatch);
        },
    };
    let handed = set_authority(&mut accounts.initializer_x_account, &pda, &initializer);
    assert(handed is Ok);
    store.records.set(handle, None);
    Ok(())
}

/// Settles the escrow under `handle`: the deposit goes to the taker, the
/// counter-asset goes to the initializer, the deposit account returns to the
/// initializer and the record is closed; or it fails and changes nothing.
pub fn escrow_exchange(
    program_id: &Key,
    store: &mut EscrowStore,
    handle: usize,
    accounts: &mut EscrowExchange,
) -> (r: Result<(), EscrowError>)
    ensures
        exchange_effect(
            program_id@,
            old(store)@,
            handle as int,
            *old(accounts),
            r,
            final(store)@,
            *final(accounts),
        ),
{
    let found = store.get(handle);
    let pda = match check_exchange(program_id, &found, accounts) {
        Ok(found) => found.0,
        Err(e) => {
            return Err(e);
        },
    };
    let record = match found {
        Some(record) => record,
        None => {
            return Err(EscrowError::RecordMismatch);
        },
    };
    let taker = accounts.taker;
    let leg_x = transfer(
        &mut accounts.initializer_x_account,
        &mut accounts.taker_x_account,
        &pda,
        record.x_in_amount,
    );
    let leg_y = transfer(
        &mut accounts.taker_y_account,
        &mut accounts.initializer_y_account,
        &taker,
        record.y_out_amount,
    );
    let back = set_authority(&mut accounts.initializer_x_account, &pda, &record.initializer_key);
    assert(leg_x is Ok && leg_y is Ok && back is Ok);
    store.records.set(handle, None);
    Ok(())
}

} // verus!
