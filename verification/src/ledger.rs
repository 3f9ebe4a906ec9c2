//! The external ledger's mutation primitives, as exact transition functions.
//!
//! The hosting runtime supplies atomic account mutation; the marketplace core
//! only consumes its contract. These two primitives say precisely when a
//! transfer goes through and what it changes: nothing moves on any failure.

use vstd::prelude::*;

use crate::addr::bytes_eq;
use crate::error::LedgerError;
use crate::state::same_account_identity;
use crate::state::TokenAccount;

verus! {

/// Move `amount` of native currency between two balances. Fails, changing
/// nothing, when the source holds too little or the destination would
/// overflow.
pub fn transfer_lamports(from: &mut u64, to: &mut u64, amount: u64) -> (r: Result<
    (),
    LedgerError,
>)
    ensures
        *old(from) < amount
            ==> r == Err::<(), LedgerError>(LedgerError::InsufficientFunds)
                && *final(from) == *old(from) && *final(to) == *old(to),
        *old(from) >= amount && *old(to) + amount > u64::MAX
            ==> r == Err::<(), LedgerError>(LedgerError::BalanceOverflow)
                && *final(from) == *old(from) && *final(to) == *old(to),
        *old(from) >= amount && *old(to) + amount <= u64::MAX
            ==> r == Ok::<(), LedgerError>(())
                && *final(from) == *old(from) - amount && *final(to) == *old(to) + amount,
{
    if *from < amount {
        return Err(LedgerError::InsufficientFunds);
    }
    if *to > u64::MAX - amount {
        return Err(LedgerError::BalanceOverflow);
    }
    *from = *from - amount;
    *to = *to + amount;
    Ok(())
}

/// The precondition under which a token transfer is owed success: the
/// authority is the source's recorded owner, both accounts record the same
/// asset, the source balance suffices, and the destination cannot overflow.
pub open spec fn token_transfer_fits(
    from: TokenAccount,
    to: TokenAccount,
    amount: u64,
    authority: Seq<u8>,
) -> bool {
    &&& authority == from.owner@
    &&& from.mint@ == to.mint@
    &&& from.amount >= amount
    &&& to.amount + amount <= u64::MAX
}

/// Move `amount` asset units between two holding accounts, authorized by
/// `authority`. The transfer goes through exactly when `token_transfer_fits`
/// holds; on any failure nothing moves, and the failure names the first check
/// that did not hold, in the order owner, asset, balance, overflow.
pub fn transfer_token(
    from: &mut TokenAccount,
    to: &mut TokenAccount,
    amount: u64,
    authority: &Vec<u8>,
) -> (r: Result<(), LedgerError>)
    ensures
        same_account_identity(*final(from), *old(from)),
        same_account_identity(*final(to), *old(to)),
        r is Err
            ==> final(from).amount == old(from).amount && final(to).amount == old(to).amount,
        authority@ != old(from).owner@
            ==> r == Err::<(), LedgerError>(LedgerError::OwnerMismatch),
        authority@ == old(from).owner@ && old(from).mint@ != old(to).mint@
            ==> r == Err::<(), LedgerError>(LedgerError::MintMismatch),
        authority@ == old(from).owner@ && old(from).mint@ == old(to).mint@
            && old(from).amount < amount
            ==> r == Err::<(), LedgerError>(LedgerError::InsufficientFunds),
        authority@ == old(from).owner@ && old(from).mint@ == old(to).mint@
            && old(from).amount >= amount && old(to).amount + amount > u64::MAX
            ==> r == Err::<(), LedgerError>(LedgerError::BalanceOverflow),
        token_transfer_fits(*old(from), *old(to), amount, authority@)
            ==> r == Ok::<(), LedgerError>(())
                && final(from).amount == old(from).amount - amount
                && final(to).amount == old(to).amount + amount,
{
    if !bytes_eq(authority, &from.owner) {
        return Err(LedgerError::OwnerMismatch);
    }
    if !bytes_eq(&from.mint, &to.mint) {
        return Err(LedgerError::MintMismatch);
    }
    if from.amount < amount {
        return Err(LedgerError::InsufficientFunds);
    }
    if to.amount > u64::MAX - amount {
        return Err(LedgerError::BalanceOverflow);
    }
    from.amount = from.amount - amount;
    to.amount = to.amount + amount;
    Ok(())
}

} // verus!
