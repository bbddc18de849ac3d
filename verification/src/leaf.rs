//! Bubblegum leaf schema of a compressed NFT and the arguments of the
//! account-compression `verify_leaf` instruction.
use vstd::prelude::*;
use solana_program::pubkey::Pubkey;
use mpl_bubblegum::types::LeafSchema;
use crate::bytes::le_bytes;
use crate::keccak::keccak256;

verus! {

/// Version 1 of Bubblegum's `LeafSchema`; keys are held as their bytes.
#[derive(Clone, Copy, PartialEq, Eq, Debug)]
pub struct LeafSchemaV1 {
    pub id: [u8; 32],
    pub owner: [u8; 32],
    pub delegate: [u8; 32],
    pub nonce: u64,
    pub data_hash: [u8; 32],
    pub creator_hash: [u8; 32],
}

/// The bytes a V1 leaf is hashed over: the version byte 1, the three keys,
/// the nonce in little-endian order, the data hash and the creator hash.
pub open spec fn leaf_schema_v1_bytes(leaf: LeafSchemaV1) -> Seq<u8> {
    seq![1u8] + leaf.id@ + leaf.owner@ + leaf.delegate@ + le_bytes(leaf.nonce as nat, 8)
        + leaf.data_hash@ + leaf.creator_hash@
}

/// Calls `LeafSchema::hash` of `mpl_bubblegum` on the `V1` leaf with these
/// fields.  Its source hashes, with `solana_program::keccak::hashv`, the
/// version byte (1 for `V1`), `id`, `owner`, `delegate`,
/// `nonce.to_le_bytes()`, `data_hash` and `creator_hash`, in this order;
/// the contract says that of the digest and nothing more.
#[verifier::external_body]
pub(crate) fn leaf_schema_hash(leaf: &LeafSchemaV1) -> (digest: [u8; 32])
    ensures
        digest@ == keccak256(leaf_schema_v1_bytes(*leaf)),
{
    LeafSchema::V1 {
        id: Pubkey::new_from_array(leaf.id),
        owner: Pubkey::new_from_array(leaf.owner),
        delegate: Pubkey::new_from_array(leaf.delegate),
        nonce: leaf.nonce,
        data_hash: leaf.data_hash,
        creator_hash: leaf.creator_hash,
    }.hash()
}

/// Arguments of the `verify_leaf` instruction of SPL account compression:
/// the tree root to check against, the leaf hash and the leaf index.
#[derive(Clone, Copy, PartialEq, Eq, Debug)]
pub struct VerifyLeafArgs {
    pub root: [u8; 32],
    pub leaf: [u8; 32],
    pub index: u32,
}

} // verus!
