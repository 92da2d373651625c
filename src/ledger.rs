use crate::key::Key;
use vstd::prelude::*;

verus! {

/// The ways an escrow operation, or a ledger step inside one, can fail.
#[derive(Clone, Copy, Debug, PartialEq, Eq, Structural)]
pub enum EscrowError {
    /// An amount at open is zero.
    InvalidAmount,
    /// An account holds less than the amount it must give.
    InsufficientFunds,
    /// The key authorizing a ledger change is not the account's owner.
    Unauthorized,
    /// The supplied accounts or identities do not match a stored record, or
    /// no record is stored under the handle.
    RecordMismatch,
    /// No storage is left for a new record.
    AllocationFailed,
    /// No custodial authority can be derived for the program.
    AuthorityUnavailable,
    /// A credit would take a balance past `u64::MAX`.
    Overflow,
}

/// A token account: its own address, the key that controls it, and its balance.
#[derive(Clone, Copy, Debug)]
pub struct TokenAccount {
    pub address: Key,
    pub owner: Key,
    pub amount: u64,
}

/// Why moving `amount` from `from` to `to` under `authority` is refused, if it is.
pub open spec fn transfer_error(
    from: TokenAccount,
    to: TokenAccount,
    authority: Seq<u8>,
    amount: u64,
) -> Option<EscrowError> {
    if from.owner@ != authority {
        Some(EscrowError::Unauthorized)
    } else if from.amount < amount {
        Some(EscrowError::InsufficientFunds)
    } else if to.amount + amount > u64::MAX {
        Some(EscrowError::Overflow)
    } else {
        None
    }
}

/// Why `current` may not hand `account` to another owner, if it may not.
pub open spec fn set_authority_error(account: TokenAccount, current: Seq<u8>) -> Option<EscrowError> {
    if account.owner@ != current {
        Some(EscrowError::Unauthorized)
    } else {
        None
    }
}

/// Tells whether a transfer would be refused, without changing anything.
pub fn check_transfer(from: &TokenAccount, to: &TokenAccount, authority: &Key, amount: u64) -> (r:
    Result<(), EscrowError>)
    ensures
        match transfer_error(*from, *to, authority@, amount) {
            Some(e) => r == Err::<(), EscrowError>(e),
            None => r is Ok,
        },
{
    if !from.owner.same(authority) {
        Err(EscrowError::Unauthorized)
    } else if from.amount < amount {
        Err(EscrowError::InsufficientFunds)
    } else if to.amount > u64::MAX - amount {
        Err(EscrowError::Overflow)
    } else {
        Ok(())
    }
}

/// Moves `amount` from `from` to `to`, authorized by `authority`; on a refusal
/// nothing changes.
pub fn transfer(from: &mut TokenAccount, to: &mut TokenAccount, authority: &Key, amount: u64) -> (r:
    Result<(), EscrowError>)
    ensures
        match transfer_error(*old(from), *old(to), authority@, amount) {
            Some(e) => r == Err::<(), EscrowError>(e) && *final(from) == *old(from) && *final(to)
                == *old(to),
            None => r is Ok && *final(from) == (TokenAccount {
                amount: (old(from).amount - amount) as u64,
                ..*old(from)
            }) && *final(to) == (TokenAccount {
                amount: (old(to).amount + amount) as u64,
                ..*old(to)
            }),
        },
{
    match check_transfer(from, to, authority, amount) {
        Err(e) => Err(e),
        Ok(()) => {
            from.amount = from.amount - amount;
            to.amount = to.amount + amount;
            Ok(())
        },
    }
}

/// Hands `account` from `current` to `new_owner`; on a refusal nothing changes.
pub fn set_authority(account: &mut TokenAccount, current: &Key, new_owner: &Key) -> (r: Result<
    (),
    EscrowError,
>)
    ensures
        match set_authority_error(*old(account), current@) {
            Some(e) => r == Err::<(), EscrowError>(e) && *final(account) == *old(account),
            None => r is Ok && *final(account) == (TokenAccount {
                owner: *new_owner,
                ..*old(account)
            }),
        },
{
    if !account.owner.same(current) {
        Err(EscrowError::Unauthorized)
    } else {
        account.owner = *new_owner;
        Ok(())
    }
}

} // verus!
