//! What the two minting handlers compute before their cross-program
//! invocations: the metadata of the NFT, its data hash and, where the
//! handler first checks a leaf, that leaf and its hash.
use vstd::prelude::*;
use crate::keccak::keccak256;
use crate::leaf::{LeafSchemaV1, VerifyLeafArgs, leaf_schema_hash, leaf_schema_v1_bytes};
use crate::metadata::{
    Collection, Creator, MetadataArgs, MetadataArgsView, TokenProgramVersion, TokenStandard,
    data_hash, metadata_data_hash, metadata_encodable,
};

verus! {

/// Refusal of Borsh to write the metadata: a string or the creator list is
/// longer than a `u32` can count.
#[derive(Clone, Copy, PartialEq, Eq, Structural, Debug)]
pub enum MintError {
    MetadataTooLong,
}

/// The metadata every NFT minted by the program carries: the name, symbol
/// and URI of the collection's metadata account, membership (unverified)
/// of the collection, primary sale done, mutable, no edition nonce, a
/// non-fungible token of the SPL token program (not Token-2022), no uses, no royalty
/// fee, and one verified creator holding the whole share.
pub open spec fn collection_nft_metadata_spec(
    name: Seq<char>,
    symbol: Seq<char>,
    uri: Seq<char>,
    collection_mint: [u8; 32],
    creator: [u8; 32],
) -> MetadataArgsView {
    MetadataArgsView {
        name,
        symbol,
        uri,
        seller_fee_basis_points: 0,
        primary_sale_happened: true,
        is_mutable: true,
        edition_nonce: None,
        token_standard: Some(TokenStandard::NonFungible),
        collection: Some(Collection { verified: false, key: collection_mint }),
        uses: None,
        token_program_version: TokenProgramVersion::Original,
        creators: seq![Creator { address: creator, verified: true, share: 100 }],
    }
}

/// Builds the metadata of [`collection_nft_metadata_spec`].
pub fn collection_nft_metadata(
    name: String,
    symbol: String,
    uri: String,
    collection_mint: [u8; 32],
    creator: [u8; 32],
) -> (md: MetadataArgs)
    ensures
        md@ == collection_nft_metadata_spec(name@, symbol@, uri@, collection_mint, creator),
{
    let mut creators: Vec<Creator> = Vec::new();
    creators.push(Creator { address: creator, verified: true, share: 100 });
    let md = MetadataArgs {
        name,
        symbol,
        uri,
        seller_fee_basis_points: 0,
        primary_sale_happened: true,
        is_mutable: true,
        edition_nonce: None,
        token_standard: Some(TokenStandard::NonFungible),
        collection: Some(Collection { verified: false, key: collection_mint }),
        uses: None,
        token_program_version: TokenProgramVersion::Original,
        creators,
    };
    assert(md@.creators =~= seq![Creator { address: creator, verified: true, share: 100 }]);
    md
}

/// What `mint_compressed_nft` mints and the data hash it reports.
pub struct MintPlan {
    pub metadata: MetadataArgs,
    pub data_hash: [u8; 32],
}

/// The computation of the `mint_compressed_nft` handler: the metadata of
/// the new NFT, copied from the collection's metadata account with the
/// program's PDA as sole creator, and its data hash.
pub fn mint_compressed_nft_plan(
    name: String,
    symbol: String,
    uri: String,
    collection_mint: [u8; 32],
    pda: [u8; 32],
) -> (r: Result<MintPlan, MintError>)
    ensures
        r is Ok <==> metadata_encodable(
            collection_nft_metadata_spec(name@, symbol@, uri@, collection_mint, pda),
        ),
        r matches Ok(p) ==> {
            &&& p.metadata@ == collection_nft_metadata_spec(name@, symbol@, uri@, collection_mint, pda)
            &&& p.data_hash@ == metadata_data_hash(p.metadata@)
        },
        r matches Err(e) ==> e == MintError::MetadataTooLong,
{
    let metadata = collection_nft_metadata(name, symbol, uri, collection_mint, pda);
    match data_hash(&metadata) {
        None => Err(MintError::MetadataTooLong),
        Some(h) => Ok(MintPlan { metadata, data_hash: h }),
    }
}

/// What `mint_if_creator_nft` checks and then mints.
pub struct MintIfCreatorPlan {
    /// The metadata both hashed into the checked leaf and minted.
    pub metadata: MetadataArgs,
    pub data_hash: [u8; 32],
    pub leaf: LeafSchemaV1,
    pub leaf_hash: [u8; 32],
    /// The arguments of the `verify_leaf` call.
    pub verify: VerifyLeafArgs,
}

/// The computation of the `mint_if_creator_nft` handler: the metadata with
/// `creator` as sole creator, its data hash, the V1 leaf of `asset_id`
/// owned and delegated to `payer` whose nonce is the leaf `index`, the
/// hash of that leaf, and the `verify_leaf` arguments built from them.
pub fn mint_if_creator_nft_plan(
    name: String,
    symbol: String,
    uri: String,
    collection_mint: [u8; 32],
    creator: [u8; 32],
    asset_id: [u8; 32],
    payer: [u8; 32],
    root: [u8; 32],
    creator_hash: [u8; 32],
    index: u32,
) -> (r: Result<MintIfCreatorPlan, MintError>)
    ensures
        r is Ok <==> metadata_encodable(
            collection_nft_metadata_spec(name@, symbol@, uri@, collection_mint, creator),
        ),
        r matches Ok(p) ==> {
            &&& p.metadata@ == collection_nft_metadata_spec(name@, symbol@, uri@, collection_mint, creator)
            &&& p.data_hash@ == metadata_data_hash(p.metadata@)
            &&& p.leaf == (LeafSchemaV1 {
                id: asset_id,
                owner: payer,
                delegate: payer,
                nonce: index as u64,
                data_hash: p.data_hash,
                creator_hash,
            })
            &&& p.leaf_hash@ == keccak256(leaf_schema_v1_bytes(p.leaf))
            &&& p.verify == (VerifyLeafArgs { root, leaf: p.leaf_hash, index })
        },
        r matches Err(e) ==> e == MintError::MetadataTooLong,
{
    let metadata = collection_nft_metadata(name, symbol, uri, collection_mint, creator);
    match data_hash(&metadata) {
        None => Err(MintError::MetadataTooLong),
        Some(h) => {
            let leaf = LeafSchemaV1 {
                id: asset_id,
                owner: payer,
                delegate: payer,
                nonce: index as u64,
                data_hash: h,
                creator_hash,
            };
            let leaf_hash = leaf_schema_hash(&leaf);
            let verify = VerifyLeafArgs { root, leaf: leaf_hash, index };
            Ok(MintIfCreatorPlan { metadata, data_hash: h, leaf, leaf_hash, verify })
        },
    }
}

} // verus!
