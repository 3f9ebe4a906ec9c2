//! The buy operation: the atomic swap of currency for the escrowed asset.
//!
//! A buyer pays the posted price to the seller and receives the asset unit
//! out of escrow, authorized not by any private key but by the listing
//! record's re-derived signing proof. Both transfers and the deactivation of
//! the listing commit together: on any failure every balance and field keeps
//! its value.

use vstd::prelude::*;

use crate::addr::bytes_eq;
use crate::addr::is_address;
use crate::error::LedgerError;
use crate::error::MarketplaceError;
use crate::error::TradeError;
use crate::ledger::transfer_lamports;
use crate::ledger::transfer_token;
use crate::pda::address_with_bump_of;
use crate::pda::escrow_seeds_spec;
use crate::pda::listing_seeds_spec;
use crate::pda::verify_escrow_authority;
use crate::pda::verify_listing_authority;
use crate::state::same_account_identity;
use crate::state::same_listing_record;
use crate::state::token_account_eq;
use crate::state::listing_eq;
use crate::state::Listing;
use crate::state::TokenAccount;

verus! {

/// The account bundle the buy operation works on: the buyer (co-signer), the
/// claimed seller, the listing record, the escrow, the buyer's holding
/// account for the asset, and the two native-currency balances the price
/// moves between.
pub struct BuyNFT {
    pub buyer: Vec<u8>,
    pub seller: Vec<u8>,
    pub listing: Listing,
    pub escrow_token_account: TokenAccount,
    pub buyer_token_account: TokenAccount,
    pub buyer_lamports: u64,
    pub seller_lamports: u64,
}

/// What buy returns: nothing on success, or the failure that aborted it.
pub type BuyOutcome = Result<(), TradeError>;

/// Shorthand for a failed buy outcome.
pub open spec fn buy_err(e: TradeError) -> BuyOutcome {
    Err(e)
}

/// The bundle is untouched: every account and balance keeps its value.
pub open spec fn buy_unchanged(pre: BuyNFT, post: BuyNFT) -> bool {
    &&& post.buyer@ == pre.buyer@
    &&& post.seller@ == pre.seller@
    &&& listing_eq(post.listing, pre.listing)
    &&& token_account_eq(post.escrow_token_account, pre.escrow_token_account)
    &&& token_account_eq(post.buyer_token_account, pre.buyer_token_account)
    &&& post.buyer_lamports == pre.buyer_lamports
    &&& post.seller_lamports == pre.seller_lamports
}

/// A successful buy: the price moves from buyer to seller, the asset unit
/// moves from escrow to the buyer's holding account, and the listing is
/// retired. Nothing else changes.
pub open spec fn buy_success(pre: BuyNFT, post: BuyNFT) -> bool {
    &&& post.buyer@ == pre.buyer@
    &&& post.seller@ == pre.seller@
    &&& same_listing_record(post.listing, pre.listing)
    &&& !post.listing.is_active
    &&& same_account_identity(post.escrow_token_account, pre.escrow_token_account)
    &&& post.escrow_token_account.amount == pre.escrow_token_account.amount - 1
    &&& same_account_identity(post.buyer_token_account, pre.buyer_token_account)
    &&& post.buyer_token_account.amount == pre.buyer_token_account.amount + 1
    &&& post.buyer_lamports == pre.buyer_lamports - pre.listing.price_sol
    &&& post.seller_lamports == pre.seller_lamports + pre.listing.price_sol
}

/// Exactly what buy does, case by case, in the order the checks run: an
/// inactive listing fails `ListingNotActive`; a claimed seller other than the
/// recorded one fails `InvalidOwner`; a stored nonce that does not re-derive
/// the listing or escrow address fails `AuthorityMismatch`; then the ledger's
/// own checks on the two transfers, probed before anything moves so that the
/// whole operation is all-or-nothing. Every failure leaves the bundle
/// untouched.
pub open spec fn buy_post(pre: BuyNFT, post: BuyNFT, r: BuyOutcome, program_id: Seq<u8>) -> bool {
    let price = pre.listing.price_sol;
    if !pre.listing.is_active {
        r == buy_err(TradeError::Market(MarketplaceError::ListingNotActive)) && buy_unchanged(
            pre,
            post,
        )
    } else if pre.seller@ != pre.listing.seller@ {
        r == buy_err(TradeError::Market(MarketplaceError::InvalidOwner)) && buy_unchanged(
            pre,
            post,
        )
    } else if address_with_bump_of(
        listing_seeds_spec(pre.listing.seller@, pre.listing.nft_mint@),
        pre.listing.bump,
        program_id,
    ) != Some(pre.listing.listing_id@) {
        r == buy_err(TradeError::Ledger(LedgerError::AuthorityMismatch)) && buy_unchanged(
            pre,
            post,
        )
    } else if address_with_bump_of(
        escrow_seeds_spec(pre.listing.listing_id@),
        pre.listing.escrow_bump,
        program_id,
    ) != Some(pre.escrow_token_account.address@) {
        r == buy_err(TradeError::Ledger(LedgerError::AuthorityMismatch)) && buy_unchanged(
            pre,
            post,
        )
    } else if pre.buyer_lamports < price {
        r == buy_err(TradeError::Ledger(LedgerError::InsufficientFunds)) && buy_unchanged(
            pre,
            post,
        )
    } else if pre.seller_lamports + price > u64::MAX {
        r == buy_err(TradeError::Ledger(LedgerError::BalanceOverflow)) && buy_unchanged(pre, post)
    } else if pre.escrow_token_account.owner@ != pre.listing.listing_id@ {
        r == buy_err(TradeError::Ledger(LedgerError::OwnerMismatch)) && buy_unchanged(pre, post)
    } else if pre.escrow_token_account.mint@ != pre.buyer_token_account.mint@ {
        r == buy_err(TradeError::Ledger(LedgerError::MintMismatch)) && buy_unchanged(pre, post)
    } else if pre.escrow_token_account.amount < 1 {
        r == buy_err(TradeError::Ledger(LedgerError::InsufficientFunds)) && buy_unchanged(
            pre,
            post,
        )
    } else if pre.buyer_token_account.amount + 1 > u64::MAX {
        r == buy_err(TradeError::Ledger(LedgerError::BalanceOverflow)) && buy_unchanged(pre, post)
    } else {
        r == Ok::<(), TradeError>(()) && buy_success(pre, post)
    }
}

/// Buy the listed asset under the program identity `program_id`.
///
/// The buyer's holding account must record the listed asset and belong to the
/// buyer; the hosting runtime checks this before dispatch. The operation
/// itself checks the listing's status, the claimed seller, and both signing
/// proofs by re-derivation; probes the ledger's own conditions on the two
/// transfers; and only then moves the price to the seller, the asset unit to
/// the buyer, and retires the listing — all in one atomic unit.
pub fn buy_nft(ctx: BuyNFT, program_id: &Vec<u8>) -> (out: (BuyNFT, BuyOutcome))
    requires
        is_address(program_id@),
        ctx.buyer_token_account.mint@ == ctx.listing.nft_mint@,
        ctx.buyer_token_account.owner@ == ctx.buyer@,
    ensures
        buy_post(ctx, out.0, out.1, program_id@),
{
    if !ctx.listing.is_active {
        return (ctx, Err(TradeError::Market(MarketplaceError::ListingNotActive)));
    }
    if !bytes_eq(&ctx.seller, &ctx.listing.seller) {
        return (ctx, Err(TradeError::Market(MarketplaceError::InvalidOwner)));
    }
    if !verify_listing_authority(&ctx.listing, program_id) {
        return (ctx, Err(TradeError::Ledger(LedgerError::AuthorityMismatch)));
    }
    if !verify_escrow_authority(&ctx.listing, &ctx.escrow_token_account.address, program_id) {
        return (ctx, Err(TradeError::Ledger(LedgerError::AuthorityMismatch)));
    }
    let price = ctx.listing.price_sol;
    if ctx.buyer_lamports < price {
        return (ctx, Err(TradeError::Ledger(LedgerError::InsufficientFunds)));
    }
    if ctx.seller_lamports > u64::MAX - price {
        return (ctx, Err(TradeError::Ledger(LedgerError::BalanceOverflow)));
    }
    if !bytes_eq(&ctx.escrow_token_account.owner, &ctx.listing.listing_id) {
        return (ctx, Err(TradeError::Ledger(LedgerError::OwnerMismatch)));
    }
    if !bytes_eq(&ctx.escrow_token_account.mint, &ctx.buyer_token_account.mint) {
        return (ctx, Err(TradeError::Ledger(LedgerError::MintMismatch)));
    }
    if ctx.escrow_token_account.amount < 1 {
        return (ctx, Err(TradeError::Ledger(LedgerError::InsufficientFunds)));
    }
    if ctx.buyer_token_account.amount > u64::MAX - 1 {
        return (ctx, Err(TradeError::Ledger(LedgerError::BalanceOverflow)));
    }
    let BuyNFT {
        buyer,
        seller,
        listing,
        escrow_token_account,
        buyer_token_account,
        buyer_lamports,
        seller_lamports,
    } = ctx;
    let mut paying: u64 = buyer_lamports;
    let mut receiving: u64 = seller_lamports;
    let paid = transfer_lamports(&mut paying, &mut receiving, price);
    let mut escrow = escrow_token_account;
    let mut destination = buyer_token_account;
    let delivered = transfer_token(&mut escrow, &mut destination, 1, &listing.listing_id);
    let mut listing = listing;
    listing.is_active = false;
    let post = BuyNFT {
        buyer,
        seller,
        listing,
        escrow_token_account: escrow,
        buyer_token_account: destination,
        buyer_lamports: paying,
        seller_lamports: receiving,
    };
    match (paid, delivered) {
        (Ok(()), Ok(())) => (post, Ok(())),
        // Neither transfer can fail here: the probes above establish both
        // preconditions.
        (Err(e), _) => (post, Err(TradeError::Ledger(e))),
        (_, Err(e)) => (post, Err(TradeError::Ledger(e))),
    }
}

} // verus!
