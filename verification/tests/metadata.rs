use anchor_lang::AnchorSerialize;
use compressed_nft::keccak::keccak_of;
use compressed_nft::metadata::{
    data_hash, metadata_args_bytes, Collection, Creator, MetadataArgs, TokenProgramVersion,
    TokenStandard, UseMethod, Uses,
};
use mpl_bubblegum::types as bg;
use solana_program::pubkey::Pubkey;

fn to_bubblegum(md: &MetadataArgs) -> bg::MetadataArgs {
    bg::MetadataArgs {
        name: md.name.clone(),
        symbol: md.symbol.clone(),
        uri: md.uri.clone(),
        seller_fee_basis_points: md.seller_fee_basis_points,
        primary_sale_happened: md.primary_sale_happened,
        is_mutable: md.is_mutable,
        edition_nonce: md.edition_nonce,
        token_standard: md.token_standard.map(|t| match t {
            TokenStandard::NonFungible => bg::TokenStandard::NonFungible,
            TokenStandard::FungibleAsset => bg::TokenStandard::FungibleAsset,
            TokenStandard::Fungible => bg::TokenStandard::Fungible,
            TokenStandard::NonFungibleEdition => bg::TokenStandard::NonFungibleEdition,
        }),
        collection: md
            .collection
            .map(|c| bg::Collection { verified: c.verified, key: Pubkey::new_from_array(c.key) }),
        uses: md.uses.map(|u| bg::Uses {
            use_method: match u.use_method {
                UseMethod::Burn => bg::UseMethod::Burn,
                UseMethod::Multiple => bg::UseMethod::Multiple,
                UseMethod::Single => bg::UseMethod::Single,
            },
            remaining: u.remaining,
            total: u.total,
        }),
        token_program_version: match md.token_program_version {
            TokenProgramVersion::Original => bg::TokenProgramVersion::Original,
            TokenProgramVersion::Token2022 => bg::TokenProgramVersion::Token2022,
        },
        creators: md
            .creators
            .iter()
            .map(|c| bg::Creator {
                address: Pubkey::new_from_array(c.address),
                verified: c.verified,
                share: c.share,
            })
            .collect(),
    }
}

fn rich_metadata() -> MetadataArgs {
    MetadataArgs {
        name: "Café ✓ collection".to_string(),
        symbol: "CNFT".to_string(),
        uri: "https://example.com/meta.json".to_string(),
        seller_fee_basis_points: 0x1234,
        primary_sale_happened: false,
        is_mutable: true,
        edition_nonce: Some(3),
        token_standard: Some(TokenStandard::NonFungibleEdition),
        collection: Some(Collection { verified: true, key: [5; 32] }),
        uses: Some(Uses { use_method: UseMethod::Multiple, remaining: 7, total: 0x0102_0304_0506 }),
        token_program_version: TokenProgramVersion::Token2022,
        creators: vec![
            Creator { address: [1; 32], verified: true, share: 60 },
            Creator { address: [2; 32], verified: false, share: 40 },
        ],
    }
}

fn plain_metadata() -> MetadataArgs {
    MetadataArgs {
        name: "A".to_string(),
        symbol: "".to_string(),
        uri: "u".to_string(),
        seller_fee_basis_points: 500,
        primary_sale_happened: true,
        is_mutable: false,
        edition_nonce: None,
        token_standard: None,
        collection: None,
        uses: None,
        token_program_version: TokenProgramVersion::Original,
        creators: vec![],
    }
}

#[test]
fn metadata_bytes_have_exact_layout() {
    let bytes = metadata_args_bytes(&plain_metadata()).unwrap();
    let expected: Vec<u8> = vec![
        1, 0, 0, 0, b'A', // name
        0, 0, 0, 0, // symbol
        1, 0, 0, 0, b'u', // uri
        0xf4, 0x01, // seller fee basis points 500
        1, // primary sale happened
        0, // not mutable
        0, // no edition nonce
        0, // no token standard
        0, // no collection
        0, // no uses
        0, // SPL token program, not Token-2022
        0, 0, 0, 0, // no creators
    ];
    assert_eq!(bytes, expected);
}

#[test]
fn metadata_bytes_match_borsh_of_bubblegum_metadata() {
    for md in [plain_metadata(), rich_metadata()] {
        let ours = metadata_args_bytes(&md).unwrap();
        let theirs = to_bubblegum(&md).try_to_vec().unwrap();
        assert_eq!(ours, theirs);
    }
}

#[test]
fn data_hash_matches_bubblegum_hash_metadata() {
    for md in [plain_metadata(), rich_metadata()] {
        let ours = data_hash(&md).unwrap();
        let theirs = mpl_bubblegum::hash::hash_metadata(&to_bubblegum(&md)).unwrap();
        assert_eq!(ours, theirs);
    }
}

#[test]
fn data_hash_is_keccak_of_keccak_and_fee() {
    let md = rich_metadata();
    let bytes = metadata_args_bytes(&md).unwrap();
    let inner = solana_program::keccak::hash(&bytes).to_bytes();
    let outer = solana_program::keccak::hashv(&[&inner, &md.seller_fee_basis_points.to_le_bytes()]);
    assert_eq!(data_hash(&md).unwrap(), outer.to_bytes());
}

#[test]
fn keccak_of_empty_input_is_the_known_digest() {
    let expected: [u8; 32] = [
        0xc5, 0xd2, 0x46, 0x01, 0x86, 0xf7, 0x23, 0x3c, 0x92, 0x7e, 0x7d, 0xb2, 0xdc, 0xc7, 0x03,
        0xc0, 0xe5, 0x00, 0xb6, 0x53, 0xca, 0x82, 0x27, 0x3b, 0x7b, 0xfa, 0xd8, 0x04, 0x5d, 0x85,
        0xa4, 0x70,
    ];
    assert_eq!(keccak_of(vec![]), expected);
}

#[test]
fn data_hash_changes_with_the_fee() {
    let a = plain_metadata();
    let mut b = plain_metadata();
    b.seller_fee_basis_points = 501;
    assert_ne!(data_hash(&a).unwrap(), data_hash(&b).unwrap());
}
