//! The list operation: open an offer by moving the asset into escrow.
//!
//! A seller with exactly one unit of the asset hands it over to a freshly
//! derived escrow account and receives a listing record carrying price,
//! parties, timestamp and both derivation nonces. All effects commit
//! together: on any failure the seller's accounts are untouched and no
//! record exists.

use vstd::prelude::*;

use crate::addr::bytes_eq;
use crate::addr::copy_bytes;
use crate::addr::is_address;
use crate::error::LedgerError;
use crate::error::MarketplaceError;
use crate::error::TradeError;
use crate::ledger::transfer_token;
use crate::pda::address_with_bump_of;
use crate::pda::derive_escrow_address;
use crate::pda::derive_listing_address;
use crate::pda::escrow_seeds_spec;
use crate::pda::listing_seeds_spec;
use crate::pda::pda_of;
use crate::state::escrow_synced;
use crate::state::same_account_identity;
use crate::state::token_account_eq;
use crate::state::Listing;
use crate::state::TokenAccount;

verus! {

/// The account bundle the list operation works on: the seller (co-signer of
/// the enclosing transaction), the asset, and the seller's holding account
/// for it.
pub struct ListNFT {
    pub seller: Vec<u8>,
    pub nft_mint: Vec<u8>,
    pub seller_token_account: TokenAccount,
}

/// What a successful list returns: the new records, created in the same
/// atomic unit as the transfer into escrow.
pub type ListOutcome = Result<(Listing, TokenAccount), TradeError>;

/// Shorthand for a failed list outcome.
pub open spec fn list_err(e: TradeError) -> ListOutcome {
    Err(e)
}

/// The bundle is untouched: every account keeps its value.
pub open spec fn list_unchanged(pre: ListNFT, post: ListNFT) -> bool {
    &&& post.seller@ == pre.seller@
    &&& post.nft_mint@ == pre.nft_mint@
    &&& token_account_eq(post.seller_token_account, pre.seller_token_account)
}

/// A successful list: the record and escrow it creates, and what is left of
/// the bundle. The listing sits at the derived address `(la, lb)` and the
/// escrow at `(ea, eb)`; the escrow holds the one asset unit taken from the
/// seller's holding account, and both stored nonces re-derive their
/// addresses.
pub open spec fn list_success(
    pre: ListNFT,
    post: ListNFT,
    l: Listing,
    e: TokenAccount,
    la: Seq<u8>,
    lb: u8,
    ea: Seq<u8>,
    eb: u8,
    price_sol: u64,
    now: i64,
    program_id: Seq<u8>,
) -> bool {
    &&& l.listing_id@ == la
    &&& l.seller@ == pre.seller@
    &&& l.nft_mint@ == pre.nft_mint@
    &&& l.nft_token_account@ == ea
    &&& l.price_sol == price_sol
    &&& l.created_at == now
    &&& l.is_active
    &&& l.bump == lb
    &&& l.escrow_bump == eb
    &&& e.address@ == ea
    &&& e.mint@ == pre.nft_mint@
    &&& e.owner@ == la
    &&& e.amount == 1
    &&& escrow_synced(l, e)
    &&& address_with_bump_of(listing_seeds_spec(pre.seller@, pre.nft_mint@), lb, program_id)
        == Some(la)
    &&& address_with_bump_of(escrow_seeds_spec(la), eb, program_id) == Some(ea)
    &&& post.seller@ == pre.seller@
    &&& post.nft_mint@ == pre.nft_mint@
    &&& same_account_identity(post.seller_token_account, pre.seller_token_account)
    &&& post.seller_token_account.amount == 0
}

/// Exactly what list does, case by case, in the order the checks run: a
/// holding balance other than one fails `InvalidNFT`; a holding account not
/// owned by the seller fails `InvalidOwner`; a seed tuple with no viable
/// nonce fails `NoViableAddress`; otherwise the listing and escrow are
/// created at their derived addresses and the asset unit moves into escrow.
/// Every failure leaves the bundle untouched.
pub open spec fn list_post(
    pre: ListNFT,
    post: ListNFT,
    r: ListOutcome,
    price_sol: u64,
    now: i64,
    program_id: Seq<u8>,
) -> bool {
    if pre.seller_token_account.amount != 1 {
        r == list_err(TradeError::Market(MarketplaceError::InvalidNFT)) && list_unchanged(
            pre,
            post,
        )
    } else if pre.seller_token_account.owner@ != pre.seller@ {
        r == list_err(TradeError::Market(MarketplaceError::InvalidOwner)) && list_unchanged(
            pre,
            post,
        )
    } else {
        match pda_of(listing_seeds_spec(pre.seller@, pre.nft_mint@), program_id) {
            Option::None => r == list_err(TradeError::Ledger(LedgerError::NoViableAddress))
                && list_unchanged(pre, post),
            Option::Some((la, lb)) => match pda_of(escrow_seeds_spec(la), program_id) {
                Option::None => r == list_err(TradeError::Ledger(LedgerError::NoViableAddress))
                    && list_unchanged(pre, post),
                Option::Some((ea, eb)) => {
                    &&& r matches Ok((l, e))
                    &&& list_success(pre, post, l, e, la, lb, ea, eb, price_sol, now, program_id)
                },
            },
        }
    }
}

/// List an asset for sale at `price_sol`, timestamped `now` by the ledger's
/// clock, under the program identity `program_id`.
///
/// The seller's holding account must record the listed asset; the hosting
/// runtime checks this before dispatch. The operation itself checks that the
/// account holds exactly one unit and belongs to the seller, derives the
/// listing and escrow addresses, creates both records and moves the asset
/// unit into escrow — authorized by the seller directly, since the asset
/// still belongs to the seller at that instant.
pub fn list_nft(ctx: ListNFT, price_sol: u64, now: i64, program_id: &Vec<u8>) -> (out: (
    ListNFT,
    ListOutcome,
))
    requires
        is_address(program_id@),
        ctx.seller_token_account.mint@ == ctx.nft_mint@,
    ensures
        list_post(ctx, out.0, out.1, price_sol, now, program_id@),
{
    if ctx.seller_token_account.amount != 1 {
        return (ctx, Err(TradeError::Market(MarketplaceError::InvalidNFT)));
    }
    if !bytes_eq(&ctx.seller_token_account.owner, &ctx.seller) {
        return (ctx, Err(TradeError::Market(MarketplaceError::InvalidOwner)));
    }
    let (listing_id, bump) = match derive_listing_address(&ctx.seller, &ctx.nft_mint, program_id) {
        Option::Some(p) => p,
        Option::None => {
            return (ctx, Err(TradeError::Ledger(LedgerError::NoViableAddress)));
        },
    };
    let (escrow_address, escrow_bump) = match derive_escrow_address(&listing_id, program_id) {
        Option::Some(p) => p,
        Option::None => {
            return (ctx, Err(TradeError::Ledger(LedgerError::NoViableAddress)));
        },
    };
    let ListNFT { seller, nft_mint, seller_token_account } = ctx;
    let mut sta = seller_token_account;
    let mut escrow = TokenAccount {
        address: copy_bytes(&escrow_address),
        mint: copy_bytes(&nft_mint),
        owner: copy_bytes(&listing_id),
        amount: 0,
    };
    let listing = Listing {
        listing_id,
        seller: copy_bytes(&seller),
        nft_mint: copy_bytes(&nft_mint),
        nft_token_account: escrow_address,
        price_sol,
        created_at: now,
        is_active: true,
        bump,
        escrow_bump,
    };
    let moved = transfer_token(&mut sta, &mut escrow, 1, &seller);
    let post = ListNFT { seller, nft_mint, seller_token_account: sta };
    match moved {
        Ok(()) => (post, Ok((listing, escrow))),
        // The transfer cannot fail here: the checks above establish its
        // precondition.
        Err(e) => (post, Err(TradeError::Ledger(e))),
    }
}

} // verus!
