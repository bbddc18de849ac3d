use compressed_nft::leaf::{LeafSchemaV1, VerifyLeafArgs};
use compressed_nft::metadata::{
    data_hash, Collection, Creator, TokenProgramVersion, TokenStandard,
};
use compressed_nft::mint::{
    collection_nft_metadata, mint_compressed_nft_plan, mint_if_creator_nft_plan,
};
use mpl_bubblegum::types::LeafSchema;
use solana_program::pubkey::Pubkey;

fn s(x: &str) -> String {
    x.to_string()
}

#[test]
fn collection_nft_metadata_has_the_fixed_settings() {
    let md = collection_nft_metadata(s("Name"), s("SYM"), s("https://x"), [4; 32], [8; 32]);
    assert_eq!(md.name, "Name");
    assert_eq!(md.symbol, "SYM");
    assert_eq!(md.uri, "https://x");
    assert_eq!(md.seller_fee_basis_points, 0);
    assert!(md.primary_sale_happened);
    assert!(md.is_mutable);
    assert_eq!(md.edition_nonce, None);
    assert_eq!(md.token_standard, Some(TokenStandard::NonFungible));
    assert_eq!(md.collection, Some(Collection { verified: false, key: [4; 32] }));
    assert_eq!(md.uses, None);
    assert_eq!(md.token_program_version, TokenProgramVersion::Original);
    assert_eq!(md.creators, vec![Creator { address: [8; 32], verified: true, share: 100 }]);
}

#[test]
fn collection_nft_creator_shares_total_one_hundred() {
    let md = collection_nft_metadata(s("n"), s("s"), s("u"), [1; 32], [2; 32]);
    let total: u32 = md.creators.iter().map(|c| c.share as u32).sum();
    assert_eq!(total, 100);
    assert!(md.creators.iter().all(|c| c.verified));
}

#[test]
fn mint_compressed_nft_plan_uses_the_pda_as_creator() {
    let plan = mint_compressed_nft_plan(s("Name"), s("SYM"), s("uri"), [3; 32], [9; 32]).unwrap();
    assert_eq!(plan.metadata.creators[0].address, [9; 32]);
    assert_eq!(plan.metadata.collection.unwrap().key, [3; 32]);
    assert_eq!(plan.data_hash, data_hash(&plan.metadata).unwrap());
}

#[test]
fn mint_if_creator_plan_builds_the_checked_leaf() {
    let plan = mint_if_creator_nft_plan(
        s("Name"),
        s("SYM"),
        s("uri"),
        [3; 32],
        [11; 32],
        [12; 32],
        [13; 32],
        [14; 32],
        [15; 32],
        42,
    )
    .unwrap();
    assert_eq!(plan.metadata.creators[0].address, [11; 32]);
    assert_eq!(plan.data_hash, data_hash(&plan.metadata).unwrap());
    assert_eq!(
        plan.leaf,
        LeafSchemaV1 {
            id: [12; 32],
            owner: [13; 32],
            delegate: [13; 32],
            nonce: 42,
            data_hash: plan.data_hash,
            creator_hash: [15; 32],
        }
    );
    assert_eq!(plan.verify, VerifyLeafArgs { root: [14; 32], leaf: plan.leaf_hash, index: 42 });
}

#[test]
fn mint_if_creator_leaf_hash_is_bubblegum_leaf_hash() {
    let plan = mint_if_creator_nft_plan(
        s("n"), s("s"), s("u"), [1; 32], [2; 32], [3; 32], [4; 32], [5; 32], [6; 32], 0x0102_0304,
    )
    .unwrap();
    let theirs = LeafSchema::V1 {
        id: Pubkey::new_from_array([3; 32]),
        owner: Pubkey::new_from_array([4; 32]),
        delegate: Pubkey::new_from_array([4; 32]),
        nonce: 0x0102_0304,
        data_hash: plan.data_hash,
        creator_hash: [6; 32],
    }
    .hash();
    assert_eq!(plan.leaf_hash, theirs);
    let mut layout: Vec<u8> = vec![1];
    layout.extend_from_slice(&[3; 32]);
    layout.extend_from_slice(&[4; 32]);
    layout.extend_from_slice(&[4; 32]);
    layout.extend_from_slice(&0x0102_0304u64.to_le_bytes());
    layout.extend_from_slice(&plan.data_hash);
    layout.extend_from_slice(&[6; 32]);
    assert_eq!(plan.leaf_hash, solana_program::keccak::hash(&layout).to_bytes());
}

#[test]
fn mint_if_creator_and_mint_compressed_agree_on_metadata() {
    let a = mint_compressed_nft_plan(s("n"), s("s"), s("u"), [1; 32], [2; 32]).unwrap();
    let b = mint_if_creator_nft_plan(
        s("n"), s("s"), s("u"), [1; 32], [2; 32], [3; 32], [4; 32], [5; 32], [6; 32], 7,
    )
    .unwrap();
    assert_eq!(a.data_hash, b.data_hash);
}
