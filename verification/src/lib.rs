//! A trustless peer-to-peer marketplace for unique digital assets on an
//! account-based ledger, verified with Verus.
//!
//! The core is an escrow-based listing state machine: an owner lists an asset
//! for sale, any buyer purchases it atomically against the posted price, and
//! the owner may cancel an unsold listing. While listed, the asset sits in an
//! escrow account whose transfer authority is the listing record itself,
//! reachable only by re-deriving the record's address from its seeds and
//! stored nonce. The three operations are modeled as state-transition
//! functions over explicit account bundles; the hosting runtime supplies the
//! accounts, applies the committed results atomically, and discards them on
//! error.

pub mod addr;
pub mod buy_nft;
pub mod cancel_listing;
pub mod error;
pub mod laws;
pub mod ledger;
pub mod list_nft;
pub mod pda;
pub mod state;
