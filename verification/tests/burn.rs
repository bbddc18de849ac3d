use compressed_nft::burn::{burn_compressed_nft_instruction, AccountMeta, BurnAccountKeys};
use mpl_bubblegum::instructions::{Burn, BurnInstructionArgs};
use mpl_bubblegum::{get_instruction_type, InstructionName};
use solana_program::pubkey::Pubkey;

fn key(b: u8) -> [u8; 32] {
    [b; 32]
}

fn keys() -> BurnAccountKeys {
    BurnAccountKeys {
        tree_authority: key(1),
        leaf_owner: key(2),
        leaf_delegate: key(3),
        merkle_tree: key(4),
        log_wrapper: key(5),
        compression_program: key(6),
        system_program: key(7),
    }
}

#[test]
fn burn_data_has_exact_layout() {
    let ix = burn_compressed_nft_instruction(
        key(9),
        &keys(),
        &vec![],
        key(0xaa),
        key(0xbb),
        key(0xcc),
        0x0102_0304_0506_0708,
        0x1122_3344,
    );
    let mut expected: Vec<u8> = vec![116, 110, 29, 56, 107, 219, 42, 93];
    expected.extend_from_slice(&[0xaa; 32]);
    expected.extend_from_slice(&[0xbb; 32]);
    expected.extend_from_slice(&[0xcc; 32]);
    expected.extend_from_slice(&[8, 7, 6, 5, 4, 3, 2, 1]);
    expected.extend_from_slice(&[0x44, 0x33, 0x22, 0x11]);
    assert_eq!(ix.data, expected);
    assert_eq!(ix.data.len(), 116);
    assert_eq!(ix.program_id, key(9));
}

#[test]
fn burn_accounts_are_fixed_then_proof() {
    let proof = vec![key(20), key(21), key(22)];
    let ix = burn_compressed_nft_instruction(key(9), &keys(), &proof, key(0), key(0), key(0), 0, 0);
    let ro = |k: [u8; 32], s: bool| AccountMeta { pubkey: k, is_signer: s, is_writable: false };
    let expected = vec![
        ro(key(1), false),
        ro(key(2), true),
        ro(key(3), false),
        AccountMeta { pubkey: key(4), is_signer: false, is_writable: true },
        ro(key(5), false),
        ro(key(6), false),
        ro(key(7), false),
        ro(key(20), false),
        ro(key(21), false),
        ro(key(22), false),
    ];
    assert_eq!(ix.accounts, expected);
}

#[test]
fn burn_without_proof_names_seven_accounts() {
    let ix = burn_compressed_nft_instruction(key(9), &keys(), &vec![], key(0), key(0), key(0), 0, 0);
    assert_eq!(ix.accounts.len(), 7);
}

#[test]
fn burn_matches_bubblegum_instruction_builder() {
    let proof = vec![key(30), key(31)];
    let root = key(0x10);
    let data_hash = key(0x20);
    let creator_hash = key(0x30);
    let ours = burn_compressed_nft_instruction(
        mpl_bubblegum::ID.to_bytes(),
        &keys(),
        &proof,
        root,
        data_hash,
        creator_hash,
        77,
        5,
    );
    let pk = |k: [u8; 32]| Pubkey::new_from_array(k);
    let remaining: Vec<solana_program::instruction::AccountMeta> = proof
        .iter()
        .map(|k| solana_program::instruction::AccountMeta::new_readonly(pk(*k), false))
        .collect();
    let theirs = Burn {
        tree_config: pk(key(1)),
        leaf_owner: (pk(key(2)), true),
        leaf_delegate: (pk(key(3)), false),
        merkle_tree: pk(key(4)),
        log_wrapper: pk(key(5)),
        compression_program: pk(key(6)),
        system_program: pk(key(7)),
    }
    .instruction_with_remaining_accounts(
        BurnInstructionArgs { root, data_hash, creator_hash, nonce: 77, index: 5 },
        &remaining,
    );
    assert_eq!(ours.program_id, theirs.program_id.to_bytes());
    assert_eq!(ours.data, theirs.data);
    assert_eq!(ours.accounts.len(), theirs.accounts.len());
    for (a, b) in ours.accounts.iter().zip(theirs.accounts.iter()) {
        assert_eq!(a.pubkey, b.pubkey.to_bytes());
        assert_eq!(a.is_signer, b.is_signer);
        assert_eq!(a.is_writable, b.is_writable);
    }
}

#[test]
fn burn_data_is_recognised_as_bubblegum_burn() {
    let ix = burn_compressed_nft_instruction(key(9), &keys(), &vec![], key(1), key(2), key(3), 4, 5);
    assert!(matches!(get_instruction_type(&ix.data), InstructionName::Burn));
}

#[test]
fn burn_data_differs_for_different_leaves() {
    let a = burn_compressed_nft_instruction(key(9), &keys(), &vec![], key(1), key(2), key(3), 4, 5);
    let b = burn_compressed_nft_instruction(key(9), &keys(), &vec![], key(1), key(2), key(3), 4, 6);
    let c = burn_compressed_nft_instruction(key(9), &keys(), &vec![], key(1), key(2), key(3), 260, 5);
    assert_ne!(a.data, b.data);
    assert_ne!(a.data, c.data);
    assert_ne!(b.data, c.data);
}
