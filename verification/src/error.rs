//! Error signals surfaced by the marketplace operations.
//!
//! The four `MarketplaceError` variants are validation failures decided by the
//! marketplace's own rules. `LedgerError` covers failures that the external
//! ledger's primitives surface (balance, ownership and address-derivation
//! checks); the operations pass them through without reinterpreting them.
//! Either kind aborts the whole operation with no partial effect.

use vstd::prelude::*;

verus! {

/// Validation failures decided by the marketplace rules.
#[derive(Clone, Copy, PartialEq, Eq, Structural, Debug)]
pub enum MarketplaceError {
    /// The holding account does not contain exactly one unit of the asset.
    InvalidNFT,
    /// A supplied holding account's recorded owner does not match the expected party.
    InvalidOwner,
    /// The operation targets a listing whose `is_active` is already false.
    ListingNotActive,
    /// Cancel was invoked by a party other than the recorded seller.
    UnauthorizedCancel,
}

/// Failures surfaced by the external ledger's primitives.
#[derive(Clone, Copy, PartialEq, Eq, Structural, Debug)]
pub enum LedgerError {
    /// A transfer asks for more than the source balance holds.
    InsufficientFunds,
    /// A transfer would push the destination balance past the largest
    /// representable amount.
    BalanceOverflow,
    /// A transfer's authority is not the recorded owner of the source account.
    OwnerMismatch,
    /// Source and destination holding accounts record different assets.
    MintMismatch,
    /// A stored derivation nonce does not reproduce the claimed address.
    AuthorityMismatch,
    /// No nonce yields a valid derived address for the given seeds.
    NoViableAddress,
}

/// Everything an operation can fail with: its own validation rules, or a
/// failure the external ledger surfaced.
#[derive(Clone, Copy, PartialEq, Eq, Structural, Debug)]
pub enum TradeError {
    Market(MarketplaceError),
    Ledger(LedgerError),
}

} // verus!
