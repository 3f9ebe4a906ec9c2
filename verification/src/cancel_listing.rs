//! The cancel operation: the seller takes an unsold asset back.
//!
//! Only the recorded seller may cancel, and only while the listing is
//! active. The escrowed asset unit returns to the seller's holding account,
//! authorized by the listing record's re-derived signing proof, and the
//! listing is retired for good. All of it commits together: on any failure
//! every balance and field keeps its value.

use vstd::prelude::*;

use crate::addr::bytes_eq;
use crate::addr::is_address;
use crate::error::LedgerError;
use crate::error::MarketplaceError;
use crate::error::TradeError;
use crate::ledger::transfer_token;
use crate::pda::address_with_bump_of;
use crate::pda::escrow_seeds_spec;
use crate::pda::listing_seeds_spec;
use crate::pda::verify_escrow_authority;
use crate::pda::verify_listing_authority;
use crate::state::same_account_identity;
use crate::state::same_listing_record;
use crate::state::token_account_eq;
use crate::state::listing_eq;
use crate::state::Listing;
use crate::state::TokenAccount;

verus! {

/// The account bundle the cancel operation works on: the calling party
/// (co-signer, claiming to be the seller), the listing record, the escrow,
/// and the seller's holding account for the asset.
pub struct CancelListing {
    pub seller: Vec<u8>,
    pub listing: Listing,
    pub escrow_token_account: TokenAccount,
    pub seller_token_account: TokenAccount,
}

/// What cancel returns: nothing on success, or the failure that aborted it.
pub type CancelOutcome = Result<(), TradeError>;

/// Shorthand for a failed cancel outcome.
pub open spec fn cancel_err(e: TradeError) -> CancelOutcome {
    Err(e)
}

/// The bundle is untouched: every account keeps its value.
pub open spec fn cancel_unchanged(pre: CancelListing, post: CancelListing) -> bool {
    &&& post.seller@ == pre.seller@
    &&& listing_eq(post.listing, pre.listing)
    &&& token_account_eq(post.escrow_token_account, pre.escrow_token_account)
    &&& token_account_eq(post.seller_token_account, pre.seller_token_account)
}

/// A successful cancel: the asset unit moves from escrow back to the
/// seller's holding account and the listing is retired. Nothing else
/// changes.
pub open spec fn cancel_success(pre: CancelListing, post: CancelListing) -> bool {
    &&& post.seller@ == pre.seller@
    &&& same_listing_record(post.listing, pre.listing)
    &&& !post.listing.is_active
    &&& same_account_identity(post.escrow_token_account, pre.escrow_token_account)
    &&& post.escrow_token_account.amount == pre.escrow_token_account.amount - 1
    &&& same_account_identity(post.seller_token_account, pre.seller_token_account)
    &&& post.seller_token_account.amount == pre.seller_token_account.amount + 1
}

/// Exactly what cancel does, case by case, in the order the checks run: a
/// caller other than the recorded seller fails `UnauthorizedCancel`; an
/// inactive listing fails `ListingNotActive`; a stored nonce that does not
/// re-derive the listing or escrow address fails `AuthorityMismatch`; then
/// the ledger's own checks on the return transfer, probed before anything
/// moves. Every failure leaves the bundle untouched.
pub open spec fn cancel_post(
    pre: CancelListing,
    post: CancelListing,
    r: CancelOutcome,
    program_id: Seq<u8>,
) -> bool {
    if pre.seller@ != pre.listing.seller@ {
        r == cancel_err(TradeError::Market(MarketplaceError::UnauthorizedCancel))
            && cancel_unchanged(pre, post)
    } else if !pre.listing.is_active {
        r == cancel_err(TradeError::Market(MarketplaceError::ListingNotActive))
            && cancel_unchanged(pre, post)
    } else if address_with_bump_of(
        listing_seeds_spec(pre.listing.seller@, pre.listing.nft_mint@),
        pre.listing.bump,
        program_id,
    ) != Some(pre.listing.listing_id@) {
        r == cancel_err(TradeError::Ledger(LedgerError::AuthorityMismatch)) && cancel_unchanged(
            pre,
            post,
        )
    } else if address_with_bump_of(
        escrow_seeds_spec(pre.listing.listing_id@),
        pre.listing.escrow_bump,
        program_id,
    ) != Some(pre.escrow_token_account.address@) {
        r == cancel_err(TradeError::Ledger(LedgerError::AuthorityMismatch)) && cancel_unchanged(
            pre,
            post,
        )
    } else if pre.escrow_token_account.owner@ != pre.listing.listing_id@ {
        r == cancel_err(TradeError::Ledger(LedgerError::OwnerMismatch)) && cancel_unchanged(
            pre,
            post,
        )
    } else if pre.escrow_token_account.mint@ != pre.seller_token_account.mint@ {
        r == cancel_err(TradeError::Ledger(LedgerError::MintMismatch)) && cancel_unchanged(
            pre,
            post,
        )
    } else if pre.escrow_token_account.amount < 1 {
        r == cancel_err(TradeError::Ledger(LedgerError::InsufficientFunds)) && cancel_unchanged(
            pre,
            post,
        )
    } else if pre.seller_token_account.amount + 1 > u64::MAX {
        r == cancel_err(TradeError::Ledger(LedgerError::BalanceOverflow)) && cancel_unchanged(
            pre,
            post,
        )
    } else {
        r == Ok::<(), TradeError>(()) && cancel_success(pre, post)
    }
}

/// Cancel an unsold listing under the program identity `program_id`.
///
/// The seller's holding account must record the listed asset and belong to
/// the caller; the hosting runtime checks this before dispatch. The
/// operation itself checks that the caller is the recorded seller and the
/// listing still active, re-derives both signing proofs, probes the ledger's
/// conditions on the return transfer, and only then moves the asset unit
/// back and retires the listing — all in one atomic unit.
pub fn cancel_listing(ctx: CancelListing, program_id: &Vec<u8>) -> (out: (
    CancelListing,
    CancelOutcome,
))
    requires
        is_address(program_id@),
        ctx.seller_token_account.mint@ == ctx.listing.nft_mint@,
        ctx.seller_token_account.owner@ == ctx.seller@,
    ensures
        cancel_post(ctx, out.0, out.1, program_id@),
{
    if !bytes_eq(&ctx.seller, &ctx.listing.seller) {
        return (ctx, Err(TradeError::Market(MarketplaceError::UnauthorizedCancel)));
    }
    if !ctx.listing.is_active {
        return (ctx, Err(TradeError::Market(MarketplaceError::ListingNotActive)));
    }
    if !verify_listing_authority(&ctx.listing, program_id) {
        return (ctx, Err(TradeError::Ledger(LedgerError::AuthorityMismatch)));
    }
    if !verify_escrow_authority(&ctx.listing, &ctx.escrow_token_account.address, program_id) {
        return (ctx, Err(TradeError::Ledger(LedgerError::AuthorityMismatch)));
    }
    if !bytes_eq(&ctx.escrow_token_account.owner, &ctx.listing.listing_id) {
        return (ctx, Err(TradeError::Ledger(LedgerError::OwnerMismatch)));
    }
    if !bytes_eq(&ctx.escrow_token_account.mint, &ctx.seller_token_account.mint) {
        return (ctx, Err(TradeError::Ledger(LedgerError::MintMismatch)));
    }
    if ctx.escrow_token_account.amount < 1 {
        return (ctx, Err(TradeError::Ledger(LedgerError::InsufficientFunds)));
    }
    if ctx.seller_token_account.amount > u64::MAX - 1 {
        return (ctx, Err(TradeError::Ledger(LedgerError::BalanceOverflow)));
    }
    let CancelListing { seller, listing, escrow_token_account, seller_token_account } = ctx;
    let mut escrow = escrow_token_account;
    let mut back_home = seller_token_account;
    let returned = transfer_token(&mut escrow, &mut back_home, 1, &listing.listing_id);
    let mut listing = listing;
    listing.is_active = false;
    let post = CancelListing {
        seller,
        listing,
        escrow_token_account: escrow,
        seller_token_account: back_home,
    };
    match returned {
        Ok(()) => (post, Ok(())),
        // The transfer cannot fail here: the probes above establish its
        // precondition.
        Err(e) => (post, Err(TradeError::Ledger(e))),
    }
}

} // verus!
