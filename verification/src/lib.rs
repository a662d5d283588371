//! Coordination layer for FROST threshold Schnorr signatures over secp256k1
//! with Taproot tweak support.
//!
//! The crate drives the three-round distributed key generation protocol and
//! the two-round signing protocol of `frost_secp256k1_tr`, manages the
//! ephemeral secret packages that must survive between rounds through an
//! explicit publish/take registry, and derives the alternate public-key
//! encodings (x-only and even-Y uncompressed) that downstream consumers need.
//! The curve and Schnorr arithmetic itself is delegated to the outside
//! library; everything around it is verified.

pub mod dkg;
pub mod errors;
pub mod frost_ops;
pub mod handles;
pub mod hexcodec;
pub mod identifier;
pub mod key;
pub mod signing;
