//! End-to-end scenarios over the three operations: listing, buying and
//! cancelling against concrete accounts, with the real address-derivation
//! scheme underneath.

use nft_marketplace::buy_nft::buy_nft;
use nft_marketplace::buy_nft::BuyNFT;
use nft_marketplace::cancel_listing::cancel_listing;
use nft_marketplace::cancel_listing::CancelListing;
use nft_marketplace::error::LedgerError;
use nft_marketplace::error::MarketplaceError;
use nft_marketplace::error::TradeError;
use nft_marketplace::list_nft::list_nft;
use nft_marketplace::list_nft::ListNFT;
use nft_marketplace::state::Listing;
use nft_marketplace::state::TokenAccount;

fn addr(tag: u8) -> Vec<u8> {
    vec![tag; 32]
}

fn program_id() -> Vec<u8> {
    vec![7u8; 32]
}

fn nft_account(address: u8, mint: &[u8], owner: &[u8], amount: u64) -> TokenAccount {
    TokenAccount {
        address: vec![address; 32],
        mint: mint.to_vec(),
        owner: owner.to_vec(),
        amount,
    }
}

/// List an asset held by `seller` and return the records a successful list
/// produces, panicking if the list fails.
fn list_ok(seller: &[u8], mint: &[u8], price: u64, now: i64) -> (ListNFT, Listing, TokenAccount) {
    let ctx = ListNFT {
        seller: seller.to_vec(),
        nft_mint: mint.to_vec(),
        seller_token_account: nft_account(0x51, mint, seller, 1),
    };
    let (post, r) = list_nft(ctx, price, now, &program_id());
    let (listing, escrow) = r.expect("listing an owned asset must succeed");
    (post, listing, escrow)
}

#[test]
fn list_creates_active_listing_and_escrow() {
    let seller = addr(0x01);
    let mint = addr(0x02);
    let (post, listing, escrow) = list_ok(&seller, &mint, 1_000, 77);

    assert!(listing.is_active);
    assert_eq!(listing.seller, seller);
    assert_eq!(listing.nft_mint, mint);
    assert_eq!(listing.price_sol, 1_000);
    assert_eq!(listing.created_at, 77);
    assert_eq!(listing.nft_token_account, escrow.address);
    assert_eq!(escrow.owner, listing.listing_id);
    assert_eq!(escrow.mint, mint);
    assert_eq!(escrow.amount, 1);
    assert_eq!(post.seller_token_account.amount, 0);
}

#[test]
fn list_addresses_match_the_ledger_derivation() {
    let seller = addr(0x01);
    let mint = addr(0x02);
    let (_, listing, escrow) = list_ok(&seller, &mint, 1_000, 77);

    let pid = solana_program::pubkey::Pubkey::new_from_array([7u8; 32]);
    let (expected_listing, expected_bump) = solana_program::pubkey::Pubkey::derive_program_address(
        &[b"listing", &seller, &mint],
        &pid,
    )
    .expect("a listing address must be derivable");
    assert_eq!(listing.listing_id, expected_listing.to_bytes().to_vec());
    assert_eq!(listing.bump, expected_bump);
    assert_ne!(listing.listing_id, seller);

    let (expected_escrow, expected_escrow_bump) =
        solana_program::pubkey::Pubkey::derive_program_address(
            &[b"escrow", &listing.listing_id],
            &pid,
        )
        .expect("an escrow address must be derivable");
    assert_eq!(escrow.address, expected_escrow.to_bytes().to_vec());
    assert_eq!(listing.escrow_bump, expected_escrow_bump);
}

#[test]
fn list_rejects_wrong_balance() {
    let seller = addr(0x01);
    let mint = addr(0x02);
    let ctx = ListNFT {
        seller: seller.clone(),
        nft_mint: mint.clone(),
        seller_token_account: nft_account(0x51, &mint, &seller, 2),
    };
    let (post, r) = list_nft(ctx, 500, 1, &program_id());
    assert_eq!(r.unwrap_err(), TradeError::Market(MarketplaceError::InvalidNFT));
    assert_eq!(post.seller_token_account.amount, 2);
    assert_eq!(post.seller_token_account.owner, seller);
}

#[test]
fn list_rejects_zero_balance() {
    let seller = addr(0x01);
    let mint = addr(0x02);
    let ctx = ListNFT {
        seller: seller.clone(),
        nft_mint: mint.clone(),
        seller_token_account: nft_account(0x51, &mint, &seller, 0),
    };
    let (post, r) = list_nft(ctx, 500, 1, &program_id());
    assert_eq!(r.unwrap_err(), TradeError::Market(MarketplaceError::InvalidNFT));
    assert_eq!(post.seller_token_account.amount, 0);
}

#[test]
fn list_rejects_foreign_holding_account() {
    let seller = addr(0x01);
    let mint = addr(0x02);
    let stranger = addr(0x09);
    let ctx = ListNFT {
        seller: seller.clone(),
        nft_mint: mint.clone(),
        seller_token_account: nft_account(0x51, &mint, &stranger, 1),
    };
    let (post, r) = list_nft(ctx, 500, 1, &program_id());
    assert_eq!(r.unwrap_err(), TradeError::Market(MarketplaceError::InvalidOwner));
    assert_eq!(post.seller_token_account.owner, stranger);
    assert_eq!(post.seller_token_account.amount, 1);
}

#[test]
fn list_fails_when_a_seed_is_too_long() {
    let seller = vec![0x01; 33];
    let mint = addr(0x02);
    let ctx = ListNFT {
        seller: seller.clone(),
        nft_mint: mint.clone(),
        seller_token_account: nft_account(0x51, &mint, &seller, 1),
    };
    let (_, r) = list_nft(ctx, 500, 1, &program_id());
    assert_eq!(r.unwrap_err(), TradeError::Ledger(LedgerError::NoViableAddress));
}

fn buy_bundle(
    buyer: &[u8],
    listing: &Listing,
    escrow: &TokenAccount,
    buyer_lamports: u64,
    seller_lamports: u64,
) -> BuyNFT {
    BuyNFT {
        buyer: buyer.to_vec(),
        seller: listing.seller.clone(),
        listing: clone_listing(listing),
        escrow_token_account: clone_account(escrow),
        buyer_token_account: nft_account(0x61, &listing.nft_mint, buyer, 0),
        buyer_lamports,
        seller_lamports,
    }
}

fn clone_listing(l: &Listing) -> Listing {
    Listing {
        listing_id: l.listing_id.clone(),
        seller: l.seller.clone(),
        nft_mint: l.nft_mint.clone(),
        nft_token_account: l.nft_token_account.clone(),
        price_sol: l.price_sol,
        created_at: l.created_at,
        is_active: l.is_active,
        bump: l.bump,
        escrow_bump: l.escrow_bump,
    }
}

fn clone_account(a: &TokenAccount) -> TokenAccount {
    TokenAccount {
        address: a.address.clone(),
        mint: a.mint.clone(),
        owner: a.owner.clone(),
        amount: a.amount,
    }
}

#[test]
fn buy_swaps_price_for_asset_atomically() {
    let seller = addr(0x01);
    let mint = addr(0x02);
    let buyer = addr(0x03);
    let (_, listing, escrow) = list_ok(&seller, &mint, 1_000, 77);

    let ctx = buy_bundle(&buyer, &listing, &escrow, 5_000, 100);
    let (post, r) = buy_nft(ctx, &program_id());
    assert_eq!(r, Ok(()));
    assert_eq!(post.seller_lamports, 1_100);
    assert_eq!(post.buyer_lamports, 4_000);
    assert_eq!(post.buyer_token_account.amount, 1);
    assert_eq!(post.escrow_token_account.amount, 0);
    assert!(!post.listing.is_active);
}

#[test]
fn second_buy_is_rejected_with_no_balance_change() {
    let seller = addr(0x01);
    let mint = addr(0x02);
    let buyer = addr(0x03);
    let rival = addr(0x04);
    let (_, listing, escrow) = list_ok(&seller, &mint, 1_000, 77);

    let first = buy_bundle(&buyer, &listing, &escrow, 5_000, 100);
    let (sold, r) = buy_nft(first, &program_id());
    assert_eq!(r, Ok(()));

    let second = buy_bundle(&rival, &sold.listing, &sold.escrow_token_account, 9_000, 1_100);
    let (post, r2) = buy_nft(second, &program_id());
    assert_eq!(r2, Err(TradeError::Market(MarketplaceError::ListingNotActive)));
    assert_eq!(post.buyer_lamports, 9_000);
    assert_eq!(post.seller_lamports, 1_100);
    assert_eq!(post.buyer_token_account.amount, 0);
    assert_eq!(post.escrow_token_account.amount, 0);
}

#[test]
fn buy_rejects_a_false_seller() {
    let seller = addr(0x01);
    let mint = addr(0x02);
    let buyer = addr(0x03);
    let impostor = addr(0x05);
    let (_, listing, escrow) = list_ok(&seller, &mint, 1_000, 77);

    let mut ctx = buy_bundle(&buyer, &listing, &escrow, 5_000, 100);
    ctx.seller = impostor;
    let (post, r) = buy_nft(ctx, &program_id());
    assert_eq!(r, Err(TradeError::Market(MarketplaceError::InvalidOwner)));
    assert_eq!(post.buyer_lamports, 5_000);
    assert!(post.listing.is_active);
}

#[test]
fn buy_rejects_a_poor_buyer_with_nothing_moved() {
    let seller = addr(0x01);
    let mint = addr(0x02);
    let buyer = addr(0x03);
    let (_, listing, escrow) = list_ok(&seller, &mint, 1_000, 77);

    let ctx = buy_bundle(&buyer, &listing, &escrow, 999, 100);
    let (post, r) = buy_nft(ctx, &program_id());
    assert_eq!(r, Err(TradeError::Ledger(LedgerError::InsufficientFunds)));
    assert_eq!(post.buyer_lamports, 999);
    assert_eq!(post.seller_lamports, 100);
    assert_eq!(post.escrow_token_account.amount, 1);
    assert!(post.listing.is_active);
}

#[test]
fn buy_rejects_a_forged_derivation_nonce() {
    let seller = addr(0x01);
    let mint = addr(0x02);
    let buyer = addr(0x03);
    let (_, listing, escrow) = list_ok(&seller, &mint, 1_000, 77);

    let mut ctx = buy_bundle(&buyer, &listing, &escrow, 5_000, 100);
    ctx.listing.bump = ctx.listing.bump.wrapping_add(1);
    let (post, r) = buy_nft(ctx, &program_id());
    assert_eq!(r, Err(TradeError::Ledger(LedgerError::AuthorityMismatch)));
    assert_eq!(post.escrow_token_account.amount, 1);
    assert_eq!(post.buyer_lamports, 5_000);
}

#[test]
fn cancel_returns_the_asset_to_the_seller() {
    let seller = addr(0x01);
    let mint = addr(0x02);
    let (post_list, listing, escrow) = list_ok(&seller, &mint, 1_000, 77);

    let ctx = CancelListing {
        seller: seller.clone(),
        listing,
        escrow_token_account: escrow,
        seller_token_account: post_list.seller_token_account,
    };
    let (post, r) = cancel_listing(ctx, &program_id());
    assert_eq!(r, Ok(()));
    assert_eq!(post.seller_token_account.amount, 1);
    assert_eq!(post.escrow_token_account.amount, 0);
    assert!(!post.listing.is_active);

    let again = CancelListing {
        seller: seller.clone(),
        listing: post.listing,
        escrow_token_account: post.escrow_token_account,
        seller_token_account: post.seller_token_account,
    };
    let (_, r2) = cancel_listing(again, &program_id());
    assert_eq!(r2, Err(TradeError::Market(MarketplaceError::ListingNotActive)));
}

#[test]
fn cancel_by_a_stranger_is_rejected_with_state_unchanged() {
    let seller = addr(0x01);
    let mint = addr(0x02);
    let stranger = addr(0x06);
    let (post_list, listing, escrow) = list_ok(&seller, &mint, 1_000, 77);

    let mut holding = post_list.seller_token_account;
    holding.owner = stranger.clone();
    let ctx = CancelListing {
        seller: stranger,
        listing,
        escrow_token_account: escrow,
        seller_token_account: holding,
    };
    let (post, r) = cancel_listing(ctx, &program_id());
    assert_eq!(r, Err(TradeError::Market(MarketplaceError::UnauthorizedCancel)));
    assert!(post.listing.is_active);
    assert_eq!(post.escrow_token_account.amount, 1);
    assert_eq!(post.seller_token_account.amount, 0);
}

#[test]
fn full_scenario_list_buy_then_rejected_resale() {
    let seller = addr(0x0a);
    let asset = addr(0x0b);
    let buyer = addr(0x0c);
    let third = addr(0x0d);
    let (_, listing, escrow) = list_ok(&seller, &asset, 1_000, 42);

    let purchase = buy_bundle(&buyer, &listing, &escrow, 2_500, 0);
    let (sold, r) = buy_nft(purchase, &program_id());
    assert_eq!(r, Ok(()));
    assert_eq!(sold.seller_lamports, 1_000);
    assert_eq!(sold.buyer_lamports, 1_500);
    assert_eq!(sold.buyer_token_account.amount, 1);
    assert_eq!(sold.buyer_token_account.owner, buyer);
    assert_eq!(sold.escrow_token_account.amount, 0);
    assert!(!sold.listing.is_active);

    let late = buy_bundle(&third, &sold.listing, &sold.escrow_token_account, 8_000, 1_000);
    let (after, r2) = buy_nft(late, &program_id());
    assert_eq!(r2, Err(TradeError::Market(MarketplaceError::ListingNotActive)));
    assert_eq!(after.buyer_lamports, 8_000);
    assert_eq!(after.seller_lamports, 1_000);
    assert_eq!(after.escrow_token_account.amount, 0);
}

#[test]
fn zero_price_listing_sells_for_nothing() {
    let seller = addr(0x11);
    let mint = addr(0x12);
    let buyer = addr(0x13);
    let (_, listing, escrow) = list_ok(&seller, &mint, 0, 5);
    assert_eq!(listing.price_sol, 0);

    let ctx = buy_bundle(&buyer, &listing, &escrow, 0, 0);
    let (post, r) = buy_nft(ctx, &program_id());
    assert_eq!(r, Ok(()));
    assert_eq!(post.buyer_lamports, 0);
    assert_eq!(post.seller_lamports, 0);
    assert_eq!(post.buyer_token_account.amount, 1);
    assert!(!post.listing.is_active);
}

#[test]
fn buy_aborts_whole_swap_when_seller_balance_would_overflow() {
    let seller = addr(0x21);
    let mint = addr(0x22);
    let buyer = addr(0x23);
    let (_, listing, escrow) = list_ok(&seller, &mint, 1_000, 6);

    let ctx = buy_bundle(&buyer, &listing, &escrow, 5_000, u64::MAX - 10);
    let (post, r) = buy_nft(ctx, &program_id());
    assert_eq!(r, Err(TradeError::Ledger(LedgerError::BalanceOverflow)));
    assert_eq!(post.buyer_lamports, 5_000);
    assert_eq!(post.seller_lamports, u64::MAX - 10);
    assert_eq!(post.escrow_token_account.amount, 1);
    assert_eq!(post.buyer_token_account.amount, 0);
    assert!(post.listing.is_active);
}
