//! The raw Bubblegum `burn` instruction that `burn_compressed_nft` sends.
use vstd::prelude::*;
use crate::bytes::{le_bytes, push_bytes32, push_le_bytes};

verus! {

/// An account an instruction touches: its key and whether it signs and
/// whether it is written.
#[derive(Clone, Copy, PartialEq, Eq, Debug)]
pub struct AccountMeta {
    pub pubkey: [u8; 32],
    pub is_signer: bool,
    pub is_writable: bool,
}

/// An instruction for a program: its id, the accounts in order and the
/// instruction data.
pub struct Instruction {
    pub program_id: [u8; 32],
    pub accounts: Vec<AccountMeta>,
    pub data: Vec<u8>,
}

/// The keys of the seven accounts a Bubblegum burn always names.
#[derive(Clone, Copy, PartialEq, Eq, Debug)]
pub struct BurnAccountKeys {
    pub tree_authority: [u8; 32],
    pub leaf_owner: [u8; 32],
    pub leaf_delegate: [u8; 32],
    pub merkle_tree: [u8; 32],
    pub log_wrapper: [u8; 32],
    pub compression_program: [u8; 32],
    pub system_program: [u8; 32],
}

/// A read-only account (`AccountMeta::new_readonly`).
pub open spec fn readonly(pubkey: [u8; 32], is_signer: bool) -> AccountMeta {
    AccountMeta { pubkey, is_signer, is_writable: false }
}

/// A writable account (`AccountMeta::new`).
pub open spec fn writable(pubkey: [u8; 32], is_signer: bool) -> AccountMeta {
    AccountMeta { pubkey, is_signer, is_writable: true }
}

/// The eight-byte discriminator of Bubblegum's `burn` instruction.
pub open spec fn burn_discriminator() -> Seq<u8> {
    seq![116u8, 110u8, 29u8, 56u8, 107u8, 219u8, 42u8, 93u8]
}

/// The instruction data of a burn: the discriminator, the tree root, the
/// data hash, the creator hash, the nonce and the leaf index, the two
/// integers in little-endian order.
pub open spec fn burn_data(
    root: Seq<u8>,
    data_hash: Seq<u8>,
    creator_hash: Seq<u8>,
    nonce: u64,
    index: u32,
) -> Seq<u8> {
    burn_discriminator() + root + data_hash + creator_hash + le_bytes(nonce as nat, 8) + le_bytes(
        index as nat,
        4,
    )
}

/// The accounts of a burn: tree authority, leaf owner (signing), leaf
/// delegate, Merkle tree (writable), log wrapper, compression program and
/// system program, then the proof nodes, all read-only and not signing.
pub open spec fn burn_accounts(keys: BurnAccountKeys, proof: Seq<[u8; 32]>) -> Seq<AccountMeta> {
    seq![
        readonly(keys.tree_authority, false),
        readonly(keys.leaf_owner, true),
        readonly(keys.leaf_delegate, false),
        writable(keys.merkle_tree, false),
        readonly(keys.log_wrapper, false),
        readonly(keys.compression_program, false),
        readonly(keys.system_program, false),
    ] + proof.map_values(|k: [u8; 32]| readonly(k, false))
}

fn burn_data_bytes(
    root: &[u8; 32],
    data_hash: &[u8; 32],
    creator_hash: &[u8; 32],
    nonce: u64,
    index: u32,
) -> (data: Vec<u8>)
    ensures
        data@ == burn_data(root@, data_hash@, creator_hash@, nonce, index),
{
    let mut data: Vec<u8> = Vec::new();
    data.push(116u8);
    data.push(110u8);
    data.push(29u8);
    data.push(56u8);
    data.push(107u8);
    data.push(219u8);
    data.push(42u8);
    data.push(93u8);
    assert(data@ =~= burn_discriminator());
    push_bytes32(&mut data, root);
    push_bytes32(&mut data, data_hash);
    push_bytes32(&mut data, creator_hash);
    push_le_bytes(&mut data, nonce, 8);
    push_le_bytes(&mut data, index as u64, 4);
    data
}

/// The burn instruction for Bubblegum program `bubblegum_program`: the
/// accounts of [`burn_accounts`] with `proof` as the proof nodes, and the
/// data of [`burn_data`].  The handler's `nonce` argument goes into the data
/// as given.
pub fn burn_compressed_nft_instruction(
    bubblegum_program: [u8; 32],
    keys: &BurnAccountKeys,
    proof: &Vec<[u8; 32]>,
    root: [u8; 32],
    data_hash: [u8; 32],
    creator_hash: [u8; 32],
    nonce: u64,
    index: u32,
) -> (ix: Instruction)
    ensures
        ix.program_id == bubblegum_program,
        ix.accounts@ == burn_accounts(*keys, proof@),
        ix.data@ == burn_data(root@, data_hash@, creator_hash@, nonce, index),
{
    let mut accounts: Vec<AccountMeta> = Vec::new();
    accounts.push(AccountMeta { pubkey: keys.tree_authority, is_signer: false, is_writable: false });
    accounts.push(AccountMeta { pubkey: keys.leaf_owner, is_signer: true, is_writable: false });
    accounts.push(AccountMeta { pubkey: keys.leaf_delegate, is_signer: false, is_writable: false });
    accounts.push(AccountMeta { pubkey: keys.merkle_tree, is_signer: false, is_writable: true });
    accounts.push(AccountMeta { pubkey: keys.log_wrapper, is_signer: false, is_writable: false });
    accounts.push(
        AccountMeta { pubkey: keys.compression_program, is_signer: false, is_writable: false },
    );
    accounts.push(AccountMeta { pubkey: keys.system_program, is_signer: false, is_writable: false });
    let ghost fixed = accounts@;
    let ghost nodes = proof@.map_values(|k: [u8; 32]| readonly(k, false));
    let mut i: usize = 0;
    while i < proof.len()
        invariant
            i <= proof@.len(),
            nodes == proof@.map_values(|k: [u8; 32]| readonly(k, false)),
            accounts@ == fixed + nodes.take(i as int),
        decreases proof@.len() - i,
    {
        accounts.push(AccountMeta { pubkey: proof[i], is_signer: false, is_writable: false });
        assert(nodes.take(i + 1) =~= nodes.take(i as int).push(nodes[i as int]));
        i = i + 1;
    }
    assert(nodes.take(proof@.len() as int) =~= nodes);
    assert(accounts@ =~= burn_accounts(*keys, proof@));
    let data = burn_data_bytes(&root, &data_hash, &creator_hash, nonce, index);
    Instruction { program_id: bubblegum_program, accounts, data }
}

} // verus!
