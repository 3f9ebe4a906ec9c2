//! The laws of the listing state machine, proved from the operations'
//! contracts alone.
//!
//! Each lemma quantifies over the account bundles an operation ran on and the
//! outcome it reported, related by that operation's exact postcondition, and
//! states a property of the marketplace as a whole: the one-way life of a
//! listing, the escrow balance tracking it, and the all-or-nothing effect of
//! a sale or cancellation.

use vstd::prelude::*;

use crate::buy_nft::buy_post;
use crate::buy_nft::buy_unchanged;
use crate::buy_nft::BuyNFT;
use crate::buy_nft::BuyOutcome;
use crate::cancel_listing::cancel_post;
use crate::cancel_listing::cancel_unchanged;
use crate::cancel_listing::CancelListing;
use crate::cancel_listing::CancelOutcome;
use crate::error::MarketplaceError;
use crate::error::TradeError;
use crate::list_nft::list_post;
use crate::list_nft::list_unchanged;
use crate::list_nft::ListNFT;
use crate::list_nft::ListOutcome;
use crate::state::escrow_synced;
use crate::state::listing_eq;
use crate::state::token_account_eq;
use crate::state::Listing;
use crate::state::TokenAccount;

verus! {

/// A successful list outcome carrying the created records.
pub open spec fn list_ok(l: Listing, e: TokenAccount) -> ListOutcome {
    Ok((l, e))
}

/// A listing's active flag only ever falls: no buy step turns it back on,
/// and a buy that finds it already off reports `ListingNotActive` and
/// changes nothing — so the one transition from active to inactive happens
/// at most once.
pub proof fn lemma_buy_active_monotonic(
    pre: BuyNFT,
    post: BuyNFT,
    r: BuyOutcome,
    program_id: Seq<u8>,
)
    requires
        buy_post(pre, post, r, program_id),
    ensures
        post.listing.is_active ==> pre.listing.is_active,
        !pre.listing.is_active ==> r == Err::<(), TradeError>(
            TradeError::Market(MarketplaceError::ListingNotActive),
        ) && buy_unchanged(pre, post),
{
}

/// A listing's active flag only ever falls under cancel as well; a cancel by
/// the seller that finds it already off reports `ListingNotActive` and
/// changes nothing.
pub proof fn lemma_cancel_active_monotonic(
    pre: CancelListing,
    post: CancelListing,
    r: CancelOutcome,
    program_id: Seq<u8>,
)
    requires
        cancel_post(pre, post, r, program_id),
    ensures
        post.listing.is_active ==> pre.listing.is_active,
        !pre.listing.is_active && pre.seller@ == pre.listing.seller@ ==> r == Err::<
            (),
            TradeError,
        >(TradeError::Market(MarketplaceError::ListingNotActive)) && cancel_unchanged(pre, post),
{
}

/// A successful list leaves the new listing active with its escrow holding
/// exactly the one asset unit: the escrow-balance invariant holds from the
/// moment the records exist.
pub proof fn lemma_list_establishes_escrow_sync(
    pre: ListNFT,
    post: ListNFT,
    l: Listing,
    e: TokenAccount,
    price_sol: u64,
    now: i64,
    program_id: Seq<u8>,
)
    requires
        list_post(pre, post, list_ok(l, e), price_sol, now, program_id),
    ensures
        l.is_active,
        e.amount == 1,
        escrow_synced(l, e),
{
}

/// Buy preserves the escrow-balance invariant: whenever the listing is
/// active its escrow holds one unit and once inactive it holds none, before
/// and after every buy, whatever the outcome.
pub proof fn lemma_buy_preserves_escrow_sync(
    pre: BuyNFT,
    post: BuyNFT,
    r: BuyOutcome,
    program_id: Seq<u8>,
)
    requires
        escrow_synced(pre.listing, pre.escrow_token_account),
        buy_post(pre, post, r, program_id),
    ensures
        escrow_synced(post.listing, post.escrow_token_account),
{
}

/// Cancel preserves the escrow-balance invariant as well.
pub proof fn lemma_cancel_preserves_escrow_sync(
    pre: CancelListing,
    post: CancelListing,
    r: CancelOutcome,
    program_id: Seq<u8>,
)
    requires
        escrow_synced(pre.listing, pre.escrow_token_account),
        cancel_post(pre, post, r, program_id),
    ensures
        escrow_synced(post.listing, post.escrow_token_account),
{
}

/// A list over a holding account whose balance is not exactly one always
/// fails `InvalidNFT`, and balance and ownership are unchanged afterward.
pub proof fn lemma_list_rejects_wrong_balance(
    pre: ListNFT,
    post: ListNFT,
    r: ListOutcome,
    price_sol: u64,
    now: i64,
    program_id: Seq<u8>,
)
    requires
        list_post(pre, post, r, price_sol, now, program_id),
        pre.seller_token_account.amount != 1,
    ensures
        r == Err::<(Listing, TokenAccount), TradeError>(
            TradeError::Market(MarketplaceError::InvalidNFT),
        ),
        list_unchanged(pre, post),
{
}

/// The atomic swap: after a successful list of an asset at price `price_sol`,
/// a buy over the resulting records by a buyer who can pay — and whose
/// balances cannot overflow — is owed success, and in one unit the seller's
/// currency grows by exactly the price, the buyer's holding of the asset by
/// exactly one, the escrow empties, and the listing goes inactive.
pub proof fn lemma_list_then_buy(
    pre_list: ListNFT,
    post_list: ListNFT,
    l: Listing,
    e: TokenAccount,
    price_sol: u64,
    now: i64,
    program_id: Seq<u8>,
    pre_buy: BuyNFT,
    post_buy: BuyNFT,
    r: BuyOutcome,
)
    requires
        list_post(pre_list, post_list, list_ok(l, e), price_sol, now, program_id),
        listing_eq(pre_buy.listing, l),
        token_account_eq(pre_buy.escrow_token_account, e),
        pre_buy.seller@ == l.seller@,
        pre_buy.buyer_token_account.mint@ == l.nft_mint@,
        pre_buy.buyer_lamports >= price_sol,
        pre_buy.seller_lamports + price_sol <= u64::MAX,
        pre_buy.buyer_token_account.amount + 1 <= u64::MAX,
        buy_post(pre_buy, post_buy, r, program_id),
    ensures
        r == Ok::<(), TradeError>(()),
        post_buy.seller_lamports == pre_buy.seller_lamports + price_sol,
        post_buy.buyer_lamports == pre_buy.buyer_lamports - price_sol,
        post_buy.buyer_token_account.amount == pre_buy.buyer_token_account.amount + 1,
        post_buy.escrow_token_account.amount == 0,
        !post_buy.listing.is_active,
        escrow_synced(post_buy.listing, post_buy.escrow_token_account),
{
}

/// The atomic return: after a successful list, a cancel by the recorded
/// seller over the resulting records and the drained holding account is owed
/// success, and in one unit the seller's holding of the asset returns to
/// exactly one, the escrow empties, and the listing goes inactive.
pub proof fn lemma_list_then_cancel(
    pre_list: ListNFT,
    post_list: ListNFT,
    l: Listing,
    e: TokenAccount,
    price_sol: u64,
    now: i64,
    program_id: Seq<u8>,
    pre_cancel: CancelListing,
    post_cancel: CancelListing,
    r: CancelOutcome,
)
    requires
        list_post(pre_list, post_list, list_ok(l, e), price_sol, now, program_id),
        pre_list.seller_token_account.mint@ == pre_list.nft_mint@,
        pre_cancel.seller@ == l.seller@,
        listing_eq(pre_cancel.listing, l),
        token_account_eq(pre_cancel.escrow_token_account, e),
        token_account_eq(pre_cancel.seller_token_account, post_list.seller_token_account),
        cancel_post(pre_cancel, post_cancel, r, program_id),
    ensures
        r == Ok::<(), TradeError>(()),
        post_cancel.seller_token_account.amount == 1,
        post_cancel.escrow_token_account.amount == 0,
        !post_cancel.listing.is_active,
        escrow_synced(post_cancel.listing, post_cancel.escrow_token_account),
{
}

/// No double spend: once a buy has succeeded, any further buy that carries
/// the retired listing — whoever the buyer — fails `ListingNotActive` and
/// changes no balance.
pub proof fn lemma_double_buy_rejected(
    pre_first: BuyNFT,
    post_first: BuyNFT,
    program_id: Seq<u8>,
    pre_second: BuyNFT,
    post_second: BuyNFT,
    r: BuyOutcome,
)
    requires
        buy_post(pre_first, post_first, Ok::<(), TradeError>(()), program_id),
        listing_eq(pre_second.listing, post_first.listing),
        buy_post(pre_second, post_second, r, program_id),
    ensures
        r == Err::<(), TradeError>(TradeError::Market(MarketplaceError::ListingNotActive)),
        buy_unchanged(pre_second, post_second),
{
}

/// Only the recorded seller can cancel: a cancel attempted by any other
/// party fails `UnauthorizedCancel` and leaves every account as it was.
pub proof fn lemma_cancel_unauthorized(
    pre: CancelListing,
    post: CancelListing,
    r: CancelOutcome,
    program_id: Seq<u8>,
)
    requires
        cancel_post(pre, post, r, program_id),
        pre.seller@ != pre.listing.seller@,
    ensures
        r == Err::<(), TradeError>(TradeError::Market(MarketplaceError::UnauthorizedCancel)),
        cancel_unchanged(pre, post),
{
}

/// Buy and cancel are mutually exclusive, first caller wins: once a buy has
/// succeeded, a cancel by the seller that carries the retired listing fails
/// `ListingNotActive` and changes nothing.
pub proof fn lemma_buy_then_cancel_rejected(
    pre_buy: BuyNFT,
    post_buy: BuyNFT,
    program_id: Seq<u8>,
    pre_cancel: CancelListing,
    post_cancel: CancelListing,
    r: CancelOutcome,
)
    requires
        buy_post(pre_buy, post_buy, Ok::<(), TradeError>(()), program_id),
        listing_eq(pre_cancel.listing, post_buy.listing),
        pre_cancel.seller@ == pre_cancel.listing.seller@,
        cancel_post(pre_cancel, post_cancel, r, program_id),
    ensures
        r == Err::<(), TradeError>(TradeError::Market(MarketplaceError::ListingNotActive)),
        cancel_unchanged(pre_cancel, post_cancel),
{
}

/// And the other way round: once a cancel has succeeded, any buy that
/// carries the retired listing fails `ListingNotActive` and changes nothing.
pub proof fn lemma_cancel_then_buy_rejected(
    pre_cancel: CancelListing,
    post_cancel: CancelListing,
    program_id: Seq<u8>,
    pre_buy: BuyNFT,
    post_buy: BuyNFT,
    r: BuyOutcome,
)
    requires
        cancel_post(pre_cancel, post_cancel, Ok::<(), TradeError>(()), program_id),
        listing_eq(pre_buy.listing, post_cancel.listing),
        buy_post(pre_buy, post_buy, r, program_id),
    ensures
        r == Err::<(), TradeError>(TradeError::Market(MarketplaceError::ListingNotActive)),
        buy_unchanged(pre_buy, post_buy),
{
}

} // verus!

