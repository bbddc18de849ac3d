//! Verified core of a Solana program that mints, verifies and burns
//! compressed NFTs through Metaplex Bubblegum.
//!
//! The library holds the computations of the program's instruction
//! handlers: the PDA signer seeds, the metadata that every minted NFT
//! carries, the Borsh bytes and the data hash of that metadata, the
//! leaf schema whose hash a concurrent Merkle tree verifies, and the
//! raw `burn` instruction.  Account loading and cross-program
//! invocations are left to the caller.
pub mod bytes;
pub mod keccak;
pub mod metadata;
pub mod leaf;
pub mod seeds;
pub mod mint;
pub mod burn;
pub mod laws;
