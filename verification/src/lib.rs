//! Verification engine for notarized TLS session proofs.
//!
//! A proof artifact carries a notary-signed session header (a commitment to
//! the full transcript of a TLS session, with a timestamp), the metadata
//! needed to identify the remote server, and a set of selectively disclosed
//! transcript substrings with commitment openings. This crate checks the
//! notary signature, the server identity, and the commitment openings, and
//! reconstructs the two transcript directions with every undisclosed byte
//! replaced by a sentinel.

pub mod bytes;
pub mod errors;
pub mod hash;
pub mod header;
pub mod identity;
pub mod notary;
pub mod tls_proof;
pub mod substrings;
pub mod transcript;
