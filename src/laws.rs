use crate::escrow::{
    cancel_effect, exchange_effect, init_effect, record_at, EscrowAccount, EscrowCancel,
    EscrowExchange, EscrowInit,
};
use crate::ledger::EscrowError;
use vstd::prelude::*;

verus! {

/// Opening an escrow and cancelling it straight away, with the same deposit
/// account, gives the initializer back control of that account with its
/// balance as it was before the open, and leaves nothing under the handle.
pub proof fn lemma_open_then_cancel_restores(
    program_id: Seq<u8>,
    store: Seq<Option<EscrowAccount>>,
    accounts: EscrowInit,
    x_in_amount: u64,
    y_out_amount: u64,
    handle: usize,
    opened_store: Seq<Option<EscrowAccount>>,
    opened_accounts: EscrowInit,
    cancelled: Result<(), EscrowError>,
    cancelled_store: Seq<Option<EscrowAccount>>,
    cancelled_accounts: EscrowCancel,
)
    requires
        init_effect(
            program_id,
            store,
            accounts,
            x_in_amount,
            y_out_amount,
            Ok(handle),
            opened_store,
            opened_accounts,
        ),
        cancel_effect(
            program_id,
            opened_store,
            handle as int,
            EscrowCancel {
                initializer: accounts.initializer,
                initializer_x_account: opened_accounts.initializer_x_account,
            },
            cancelled,
            cancelled_store,
            cancelled_accounts,
        ),
    ensures
        cancelled is Ok,
        cancelled_accounts.initializer_x_account.amount == accounts.initializer_x_account.amount,
        cancelled_accounts.initializer_x_account.address == accounts.initializer_x_account.address,
        cancelled_accounts.initializer_x_account.owner@ == accounts.initializer_x_account.owner@,
        record_at(cancelled_store, handle as int) is None,
{
}

/// A cancel asked for by anyone but the escrow's initializer is refused as a
/// mismatch and changes neither the accounts nor the record.
pub proof fn lemma_cancel_by_other_refused(
    program_id: Seq<u8>,
    store: Seq<Option<EscrowAccount>>,
    handle: int,
    accounts: EscrowCancel,
    r: Result<(), EscrowError>,
    new_store: Seq<Option<EscrowAccount>>,
    new_accounts: EscrowCancel,
)
    requires
        record_at(store, handle) is Some,
        record_at(store, handle)->0.initializer_key@ != accounts.initializer@,
        cancel_effect(program_id, store, handle, accounts, r, new_store, new_accounts),
    ensures
        r == Err::<(), EscrowError>(EscrowError::RecordMismatch),
        new_store == store,
        new_accounts == accounts,
{
}

/// Once no record stands under a handle, every cancel and every exchange that
/// names it is refused as a mismatch and changes nothing.
pub proof fn lemma_closed_record_refuses(
    program_id: Seq<u8>,
    store: Seq<Option<EscrowAccount>>,
    handle: int,
    cancel_accounts: EscrowCancel,
    cancelled: Result<(), EscrowError>,
    cancelled_store: Seq<Option<EscrowAccount>>,
    cancelled_accounts: EscrowCancel,
    exchange_accounts: EscrowExchange,
    exchanged: Result<(), EscrowError>,
    exchanged_store: Seq<Option<EscrowAccount>>,
    exchanged_accounts: EscrowExchange,
)
    requires
        record_at(store, handle) is None,
        cancel_effect(
            program_id,
            store,
            handle,
            cancel_accounts,
            cancelled,
            cancelled_store,
            cancelled_accounts,
        ),
        exchange_effect(
            program_id,
            store,
            handle,
            exchange_accounts,
            exchanged,
            exchanged_store,
            exchanged_accounts,
        ),
    ensures
        cancelled == Err::<(), EscrowError>(EscrowError::RecordMismatch),
        cancelled_store == store,
        cancelled_accounts == cancel_accounts,
        exchanged == Err::<(), EscrowError>(EscrowError::RecordMismatch),
        exchanged_store == store,
        exchanged_accounts == exchange_accounts,
{
}

/// A successful cancel closes the record under its handle and leaves every
/// other handle as it was.
pub proof fn lemma_cancel_closes(
    program_id: Seq<u8>,
    store: Seq<Option<EscrowAccount>>,
    handle: int,
    accounts: EscrowCancel,
    new_store: Seq<Option<EscrowAccount>>,
    new_accounts: EscrowCancel,
)
    requires
        cancel_effect(program_id, store, handle, accounts, Ok(()), new_store, new_accounts),
    ensures
        record_at(store, handle) is Some,
        record_at(new_store, handle) is None,
        forall|other: int| other != handle ==> record_at(new_store, other) == record_at(store, other),
{
}

/// A successful exchange closes the record under its handle and leaves every
/// other handle as it was.
pub proof fn lemma_exchange_closes(
    program_id: Seq<u8>,
    store: Seq<Option<EscrowAccount>>,
    handle: int,
    accounts: EscrowExchange,
    new_store: Seq<Option<EscrowAccount>>,
    new_accounts: EscrowExchange,
)
    requires
        exchange_effect(program_id, store, handle, accounts, Ok(()), new_store, new_accounts),
    ensures
        record_at(store, handle) is Some,
        record_at(new_store, handle) is None,
        forall|other: int| other != handle ==> record_at(new_store, other) == record_at(store, other),
{
}

/// An exchange whose taker holds less of the counter-asset than the escrow
/// asks for is refused for insufficient funds, and neither leg moves.
pub proof fn lemma_exchange_short_of_funds(
    program_id: Seq<u8>,
    store: Seq<Option<EscrowAccount>>,
    handle: int,
    accounts: EscrowExchange,
    r: Result<(), EscrowError>,
    new_store: Seq<Option<EscrowAccount>>,
    new_accounts: EscrowExchange,
)
    requires
        record_at(store, handle) is Some,
        accounts.taker_y_account.amount < record_at(store, handle)->0.y_out_amount,
        exchange_effect(program_id, store, handle, accounts, r, new_store, new_accounts),
    ensures
        r == Err::<(), EscrowError>(EscrowError::InsufficientFunds),
        new_store == store,
        new_accounts == accounts,
{
}

/// After an open, an exchange by a taker who controls and holds enough of the
/// counter-asset, against the escrow's own accounts, succeeds: exactly the
/// deposit moves to the taker, exactly the asked amount moves to the
/// initializer, and the record is closed, so a second exchange or a cancel
/// under the same handle is refused. The two credits are taken to fit in a
/// `u64`.
pub proof fn lemma_open_then_exchange_settles(
    program_id: Seq<u8>,
    store: Seq<Option<EscrowAccount>>,
    init_accounts: EscrowInit,
    x_in_amount: u64,
    y_out_amount: u64,
    handle: usize,
    opened_store: Seq<Option<EscrowAccount>>,
    opened_accounts: EscrowInit,
    accounts: EscrowExchange,
    exchanged: Result<(), EscrowError>,
    exchanged_store: Seq<Option<EscrowAccount>>,
    exchanged_accounts: EscrowExchange,
    again_accounts: EscrowExchange,
    again: Result<(), EscrowError>,
    again_store: Seq<Option<EscrowAccount>>,
    again_after: EscrowExchange,
    cancel_accounts: EscrowCancel,
    cancelled: Result<(), EscrowError>,
    cancelled_store: Seq<Option<EscrowAccount>>,
    cancelled_accounts: EscrowCancel,
)
    requires
        init_effect(
            program_id,
            store,
            init_accounts,
            x_in_amount,
            y_out_amount,
            Ok(handle),
            opened_store,
            opened_accounts,
        ),
        accounts.initializer_x_account == opened_accounts.initializer_x_account,
        accounts.initializer_y_account.address == init_accounts.initializer_y_account.address,
        accounts.initializer_main_account == init_accounts.initializer,
        accounts.taker_y_account.owner@ == accounts.taker@,
        accounts.taker_y_account.amount >= y_out_amount,
        accounts.taker_x_account.amount + x_in_amount <= u64::MAX,
        accounts.initializer_y_account.amount + y_out_amount <= u64::MAX,
        exchange_effect(
            program_id,
            opened_store,
            handle as int,
            accounts,
            exchanged,
            exchanged_store,
            exchanged_accounts,
        ),
        exchange_effect(
            program_id,
            exchanged_store,
            handle as int,
            again_accounts,
            again,
            again_store,
            again_after,
        ),
        cancel_effect(
            program_id,
            exchanged_store,
            handle as int,
            cancel_accounts,
            cancelled,
            cancelled_store,
            cancelled_accounts,
        ),
    ensures
        exchanged is Ok,
        exchanged_accounts.initializer_x_account.amount == accounts.initializer_x_account.amount
            - x_in_amount,
        exchanged_accounts.taker_x_account.amount == accounts.taker_x_account.amount + x_in_amount,
        exchanged_accounts.taker_y_account.amount == accounts.taker_y_account.amount - y_out_amount,
        exchanged_accounts.initializer_y_account.amount == accounts.initializer_y_account.amount
            + y_out_amount,
        record_at(exchanged_store, handle as int) is None,
        again == Err::<(), EscrowError>(EscrowError::RecordMismatch),
        again_store == exchanged_store,
        cancelled == Err::<(), EscrowError>(EscrowError::RecordMismatch),
        cancelled_store == exchanged_store,
{
}

} // verus!
