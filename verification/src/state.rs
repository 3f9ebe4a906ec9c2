//! The persistent records of the marketplace: holding accounts on the token
//! ledger and the listing record that escrows an asset while it is for sale.

use vstd::prelude::*;

verus! {

/// A holding account on the token ledger: the balance of one asset (`mint`)
/// held at `address` under a transfer-authorizing `owner`.
#[derive(Debug)]
pub struct TokenAccount {
    pub address: Vec<u8>,
    pub mint: Vec<u8>,
    pub owner: Vec<u8>,
    pub amount: u64,
}

/// Two holding accounts hold the same values in every field.
pub open spec fn token_account_eq(a: TokenAccount, b: TokenAccount) -> bool {
    &&& a.address@ == b.address@
    &&& a.mint@ == b.mint@
    &&& a.owner@ == b.owner@
    &&& a.amount == b.amount
}

/// Two holding accounts are the same account for the same asset under the
/// same owner; only their balances may differ.
pub open spec fn same_account_identity(a: TokenAccount, b: TokenAccount) -> bool {
    &&& a.address@ == b.address@
    &&& a.mint@ == b.mint@
    &&& a.owner@ == b.owner@
}

/// The record describing one offer: parties, price, status, and the two
/// derivation nonces that re-prove signing authority for the record's own
/// address and for its escrow account.
#[derive(Debug)]
pub struct Listing {
    /// The record's own (derived) address.
    pub listing_id: Vec<u8>,
    /// The party that listed the asset; the only one allowed to cancel.
    pub seller: Vec<u8>,
    /// Identifier of the unique asset being sold.
    pub nft_mint: Vec<u8>,
    /// Address of the escrow holding account for the asset.
    pub nft_token_account: Vec<u8>,
    /// Asking price in the native currency's smallest unit.
    pub price_sol: u64,
    /// Ledger-clock timestamp taken when the listing was created.
    pub created_at: i64,
    /// True only between a successful list and the first successful buy or
    /// cancel; terminal once false.
    pub is_active: bool,
    /// Derivation nonce of the listing's own address.
    pub bump: u8,
    /// Derivation nonce of the escrow account's address.
    pub escrow_bump: u8,
}

impl Listing {
    /// Bytes a stored listing record occupies, including the 8-byte record tag
    /// that guards one-shot creation.
    pub fn space() -> (r: usize)
        ensures
            r == 155,
    {
        8 +  // record tag
        32 +  // listing_id
        32 +  // seller
        32 +  // nft_mint
        32 +  // nft_token_account
        8 +  // price_sol
        8 +  // created_at
        1 +  // is_active
        1 +  // bump
        1  // escrow_bump
    }
}

/// Two listing records hold the same values in every field but `is_active`.
pub open spec fn same_listing_record(a: Listing, b: Listing) -> bool {
    &&& a.listing_id@ == b.listing_id@
    &&& a.seller@ == b.seller@
    &&& a.nft_mint@ == b.nft_mint@
    &&& a.nft_token_account@ == b.nft_token_account@
    &&& a.price_sol == b.price_sol
    &&& a.created_at == b.created_at
    &&& a.bump == b.bump
    &&& a.escrow_bump == b.escrow_bump
}

/// Two listing records hold the same values in every field.
pub open spec fn listing_eq(a: Listing, b: Listing) -> bool {
    &&& same_listing_record(a, b)
    &&& a.is_active == b.is_active
}

/// `e` is the escrow account that listing `l` governs, and its balance tracks
/// the listing's status: exactly one asset unit while the listing is active,
/// none once it is retired.
pub open spec fn escrow_synced(l: Listing, e: TokenAccount) -> bool {
    &&& e.address@ == l.nft_token_account@
    &&& e.mint@ == l.nft_mint@
    &&& e.owner@ == l.listing_id@
    &&& l.is_active ==> e.amount == 1
    &&& !l.is_active ==> e.amount == 0
}

} // verus!
