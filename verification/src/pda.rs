//! Authority derivation: deterministic custody addresses from seed tuples.
//!
//! An address derived from a seed tuple plus a one-byte nonce is provably not
//! a valid externally-controlled signing address, so no private key can ever
//! claim it, and anyone can reproduce it from the same seeds. Derivation
//! searches nonce values downward from the maximum until a valid address
//! appears. Re-presenting the seeds together with the stored nonce later
//! stands in for a signature, scoped exactly to this program's logic.
//!
//! Two derivations are used: the listing address from
//! `("listing", seller, nft_mint)` and the escrow address from
//! `("escrow", listing_id)`. The derivation itself is the ledger's scheme,
//! called through trusted wrappers below; what it returns is named, not
//! restated, and everything built on it is verified against those names.

use vstd::prelude::*;

use crate::addr::bytes_eq;
use crate::addr::is_address;
use crate::state::Listing;

verus! {

/// What the ledger's nonce search returns for a seed tuple and program
/// identity: the first valid derived address counting the nonce down from its
/// maximum, with that nonce, or nothing when no nonce yields a valid address.
pub uninterp spec fn pda_of(seeds: Seq<Seq<u8>>, program_id: Seq<u8>) -> Option<(Seq<u8>, u8)>;

/// What re-deriving with a given nonce returns for a seed tuple and program
/// identity: the address hashed from seeds, nonce and program identity, or
/// nothing when a seed is over the scheme's length limit.
pub uninterp spec fn address_with_bump_of(
    seeds: Seq<Seq<u8>>,
    bump: u8,
    program_id: Seq<u8>,
) -> Option<Seq<u8>>;

/// The abstract value of a derivation result.
pub open spec fn pda_result_view(r: Option<(Vec<u8>, u8)>) -> Option<(Seq<u8>, u8)> {
    match r {
        Option::Some((a, b)) => Option::Some((a@, b)),
        Option::None => Option::None,
    }
}

/// The abstract value of a re-derivation result.
pub open spec fn address_result_view(r: Option<Vec<u8>>) -> Option<Seq<u8>> {
    match r {
        Option::Some(a) => Option::Some(a@),
        Option::None => Option::None,
    }
}

/// Relies on solana_program's `Pubkey::derive_program_address` (three seeds):
/// it tries nonces downward from the maximum and returns the first derived
/// address that is off the signing curve, with that nonce; the result depends
/// only on the seeds and the program identity. By its source, a returned pair
/// re-derives to the same address when the nonce is presented again through
/// `Pubkey::try_derive_address`, and every returned address is 32 bytes.
#[verifier::external_body]
fn find_pda3(s0: &Vec<u8>, s1: &Vec<u8>, s2: &Vec<u8>, program_id: &Vec<u8>) -> (r: Option<
    (Vec<u8>, u8),
>)
    requires
        is_address(program_id@),
    ensures
        pda_result_view(r) == pda_of(seq![s0@, s1@, s2@], program_id@),
        r matches Some((a, b)) ==> a@.len() == 32 && address_with_bump_of(
            seq![s0@, s1@, s2@],
            b,
            program_id@,
        ) == Some(a@),
{
    let pid = solana_program::pubkey::Pubkey::new_from_array(
        program_id.as_slice().try_into().unwrap(),
    );
    let seeds: [&[u8]; 3] = [s0.as_slice(), s1.as_slice(), s2.as_slice()];
    solana_program::pubkey::Pubkey::derive_program_address(&seeds, &pid).map(
        |p: (solana_program::pubkey::Pubkey, u8)| (p.0.to_bytes().to_vec(), p.1),
    )
}

/// Relies on solana_program's `Pubkey::derive_program_address` (two seeds);
/// see `find_pda3`.
#[verifier::external_body]
fn find_pda2(s0: &Vec<u8>, s1: &Vec<u8>, program_id: &Vec<u8>) -> (r: Option<(Vec<u8>, u8)>)
    requires
        is_address(program_id@),
    ensures
        pda_result_view(r) == pda_of(seq![s0@, s1@], program_id@),
        r matches Some((a, b)) ==> a@.len() == 32 && address_with_bump_of(
            seq![s0@, s1@],
            b,
            program_id@,
        ) == Some(a@),
{
    let pid = solana_program::pubkey::Pubkey::new_from_array(
        program_id.as_slice().try_into().unwrap(),
    );
    let seeds: [&[u8]; 2] = [s0.as_slice(), s1.as_slice()];
    solana_program::pubkey::Pubkey::derive_program_address(&seeds, &pid).map(
        |p: (solana_program::pubkey::Pubkey, u8)| (p.0.to_bytes().to_vec(), p.1),
    )
}

/// Relies on solana_program's `Pubkey::try_derive_address` (three seeds plus a
/// nonce): it hashes seeds, nonce and program identity into the derived
/// address, failing only when a seed is over the scheme's length limit; the
/// result depends only on its arguments, and every returned address is 32
/// bytes.
#[verifier::external_body]
fn check_pda3(s0: &Vec<u8>, s1: &Vec<u8>, s2: &Vec<u8>, bump: u8, program_id: &Vec<u8>) -> (r:
    Option<Vec<u8>>)
    requires
        is_address(program_id@),
    ensures
        address_result_view(r) == address_with_bump_of(seq![s0@, s1@, s2@], bump, program_id@),
        r matches Some(a) ==> a@.len() == 32,
{
    let pid = solana_program::pubkey::Pubkey::new_from_array(
        program_id.as_slice().try_into().unwrap(),
    );
    let seeds: [&[u8]; 3] = [s0.as_slice(), s1.as_slice(), s2.as_slice()];
    solana_program::pubkey::Pubkey::try_derive_address(&seeds, Some(bump), &pid).ok().map(
        |a: solana_program::pubkey::Pubkey| a.to_bytes().to_vec(),
    )
}

/// Relies on solana_program's `Pubkey::try_derive_address` (two seeds plus a
/// nonce); see `check_pda3`.
#[verifier::external_body]
fn check_pda2(s0: &Vec<u8>, s1: &Vec<u8>, bump: u8, program_id: &Vec<u8>) -> (r: Option<Vec<u8>>)
    requires
        is_address(program_id@),
    ensures
        address_result_view(r) == address_with_bump_of(seq![s0@, s1@], bump, program_id@),
        r matches Some(a) ==> a@.len() == 32,
{
    let pid = solana_program::pubkey::Pubkey::new_from_array(
        program_id.as_slice().try_into().unwrap(),
    );
    let seeds: [&[u8]; 2] = [s0.as_slice(), s1.as_slice()];
    solana_program::pubkey::Pubkey::try_derive_address(&seeds, Some(bump), &pid).ok().map(
        |a: solana_program::pubkey::Pubkey| a.to_bytes().to_vec(),
    )
}

/// The fixed first seed of a listing address: the bytes of "listing".
pub open spec fn listing_prefix() -> Seq<u8> {
    seq![108u8, 105u8, 115u8, 116u8, 105u8, 110u8, 103u8]
}

/// The fixed first seed of an escrow address: the bytes of "escrow".
pub open spec fn escrow_prefix() -> Seq<u8> {
    seq![101u8, 115u8, 99u8, 114u8, 111u8, 119u8]
}

/// The seed tuple a listing address is derived from.
pub open spec fn listing_seeds_spec(seller: Seq<u8>, nft_mint: Seq<u8>) -> Seq<Seq<u8>> {
    seq![listing_prefix(), seller, nft_mint]
}

/// The seed tuple an escrow address is derived from.
pub open spec fn escrow_seeds_spec(listing_id: Seq<u8>) -> Seq<Seq<u8>> {
    seq![escrow_prefix(), listing_id]
}

fn listing_prefix_bytes() -> (r: Vec<u8>)
    ensures
        r@ == listing_prefix(),
{
    let mut r: Vec<u8> = Vec::new();
    r.push(108);
    r.push(105);
    r.push(115);
    r.push(116);
    r.push(105);
    r.push(110);
    r.push(103);
    proof {
        assert(r@ =~= listing_prefix());
    }
    r
}

fn escrow_prefix_bytes() -> (r: Vec<u8>)
    ensures
        r@ == escrow_prefix(),
{
    let mut r: Vec<u8> = Vec::new();
    r.push(101);
    r.push(115);
    r.push(99);
    r.push(114);
    r.push(111);
    r.push(119);
    proof {
        assert(r@ =~= escrow_prefix());
    }
    r
}

/// Derive the address and nonce of the listing record for a (seller, asset)
/// pair under the given program identity.
pub fn derive_listing_address(seller: &Vec<u8>, nft_mint: &Vec<u8>, program_id: &Vec<u8>) -> (r:
    Option<(Vec<u8>, u8)>)
    requires
        is_address(program_id@),
    ensures
        pda_result_view(r) == pda_of(listing_seeds_spec(seller@, nft_mint@), program_id@),
        r matches Some((a, b)) ==> a@.len() == 32 && address_with_bump_of(
            listing_seeds_spec(seller@, nft_mint@),
            b,
            program_id@,
        ) == Some(a@),
{
    let prefix = listing_prefix_bytes();
    proof {
        assert(seq![prefix@, seller@, nft_mint@] =~= listing_seeds_spec(seller@, nft_mint@));
    }
    find_pda3(&prefix, seller, nft_mint, program_id)
}

/// Derive the address and nonce of the escrow account for a listing record
/// under the given program identity.
pub fn derive_escrow_address(listing_id: &Vec<u8>, program_id: &Vec<u8>) -> (r: Option<
    (Vec<u8>, u8),
>)
    requires
        is_address(program_id@),
    ensures
        pda_result_view(r) == pda_of(escrow_seeds_spec(listing_id@), program_id@),
        r matches Some((a, b)) ==> a@.len() == 32 && address_with_bump_of(
            escrow_seeds_spec(listing_id@),
            b,
            program_id@,
        ) == Some(a@),
{
    let prefix = escrow_prefix_bytes();
    proof {
        assert(seq![prefix@, listing_id@] =~= escrow_seeds_spec(listing_id@));
    }
    find_pda2(&prefix, listing_id, program_id)
}

/// Check the listing record's signing proof: re-derive its address from its
/// seeds and stored nonce and compare with the recorded `listing_id`.
pub fn verify_listing_authority(l: &Listing, program_id: &Vec<u8>) -> (r: bool)
    requires
        is_address(program_id@),
    ensures
        r == (address_with_bump_of(
            listing_seeds_spec(l.seller@, l.nft_mint@),
            l.bump,
            program_id@,
        ) == Some(l.listing_id@)),
{
    let prefix = listing_prefix_bytes();
    proof {
        assert(seq![prefix@, l.seller@, l.nft_mint@] =~= listing_seeds_spec(
            l.seller@,
            l.nft_mint@,
        ));
    }
    match check_pda3(&prefix, &l.seller, &l.nft_mint, l.bump, program_id) {
        Option::Some(a) => bytes_eq(&a, &l.listing_id),
        Option::None => false,
    }
}

/// Check the escrow account's derivation: re-derive its address from the
/// listing record's address and stored nonce and compare with the given
/// escrow address.
pub fn verify_escrow_authority(l: &Listing, escrow_address: &Vec<u8>, program_id: &Vec<u8>) -> (r:
    bool)
    requires
        is_address(program_id@),
    ensures
        r == (address_with_bump_of(escrow_seeds_spec(l.listing_id@), l.escrow_bump, program_id@)
            == Some(escrow_address@)),
{
    let prefix = escrow_prefix_bytes();
    proof {
        assert(seq![prefix@, l.listing_id@] =~= escrow_seeds_spec(l.listing_id@));
    }
    match check_pda2(&prefix, &l.listing_id, l.escrow_bump, program_id) {
        Option::Some(a) => bytes_eq(&a, escrow_address),
        Option::None => false,
    }
}

} // verus!
