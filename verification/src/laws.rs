//! Properties of the library as a whole.
use vstd::prelude::*;
use vstd::utf8::encode_utf8;
use crate::bytes::{le_bytes, lemma_le_bytes_len};
use crate::burn::{AccountMeta, BurnAccountKeys, burn_accounts, burn_data, burn_discriminator};
use crate::keccak::keccak256;
use crate::leaf::{LeafSchemaV1, leaf_schema_v1_bytes};
use crate::metadata::{
    Collection, Creator, MetadataArgsView, TokenProgramVersion, TokenStandard, UseMethod,
    borsh_collection, borsh_creators, borsh_string, borsh_token_standard, borsh_uses,
    creators_body, metadata_data_hash, metadata_encoding, token_program_version_tag,
};
use crate::mint::collection_nft_metadata_spec;
use crate::seeds::pda_signer_seeds_spec;

verus! {

/// `256^n`: the number of values `n` bytes can hold.
pub open spec fn byte_bound(n: nat) -> nat
    decreases n,
{
    if n == 0 {
        1
    } else {
        256 * byte_bound((n - 1) as nat)
    }
}

/// Two numbers below `256^n` with the same `n` little-endian bytes are
/// equal: the encoding loses nothing.
pub proof fn lemma_le_bytes_injective(x: nat, y: nat, n: nat)
    requires
        x < byte_bound(n),
        y < byte_bound(n),
        le_bytes(x, n) == le_bytes(y, n),
    ensures
        x == y,
    decreases n,
{
    if n > 0 {
        let m = (n - 1) as nat;
        assert(le_bytes(x, n)[0] == (x % 256) as u8);
        assert(le_bytes(y, n)[0] == (y % 256) as u8);
        assert(le_bytes(x / 256, m) =~= le_bytes(x, n).drop_first());
        assert(le_bytes(y / 256, m) =~= le_bytes(y, n).drop_first());
        assert(x / 256 < byte_bound(m)) by (nonlinear_arith)
            requires
                x < 256 * byte_bound(m),
        ;
        assert(y / 256 < byte_bound(m)) by (nonlinear_arith)
            requires
                y < 256 * byte_bound(m),
        ;
        lemma_le_bytes_injective(x / 256, y / 256, m);
        assert(x == 256 * (x / 256) + x % 256) by (nonlinear_arith);
        assert(y == 256 * (y / 256) + y % 256) by (nonlinear_arith);
    }
}

proof fn lemma_byte_bounds()
    ensures
        byte_bound(4) == 0x1_0000_0000,
        byte_bound(8) == 0x1_0000_0000_0000_0000,
{
    reveal_with_fuel(byte_bound, 9);
}

/// The burn instruction data is 116 bytes: the discriminator at 0..8, the
/// root at 8..40, the data hash at 40..72, the creator hash at 72..104,
/// the nonce at 104..112 and the index at 112..116.
pub proof fn lemma_burn_data_layout(
    root: [u8; 32],
    data_hash: [u8; 32],
    creator_hash: [u8; 32],
    nonce: u64,
    index: u32,
)
    ensures
        ({
            let d = burn_data(root@, data_hash@, creator_hash@, nonce, index);
            &&& d.len() == 116
            &&& d.subrange(0, 8) == burn_discriminator()
            &&& d.subrange(8, 40) == root@
            &&& d.subrange(40, 72) == data_hash@
            &&& d.subrange(72, 104) == creator_hash@
            &&& d.subrange(104, 112) == le_bytes(nonce as nat, 8)
            &&& d.subrange(112, 116) == le_bytes(index as nat, 4)
        }),
{
    lemma_le_bytes_len(nonce as nat, 8);
    lemma_le_bytes_len(index as nat, 4);
    assert(root@.len() == 32 && data_hash@.len() == 32 && creator_hash@.len() == 32);
    let d = burn_data(root@, data_hash@, creator_hash@, nonce, index);
    assert(d.subrange(0, 8) =~= burn_discriminator());
    assert(d.subrange(8, 40) =~= root@);
    assert(d.subrange(40, 72) =~= data_hash@);
    assert(d.subrange(72, 104) =~= creator_hash@);
    assert(d.subrange(104, 112) =~= le_bytes(nonce as nat, 8));
    assert(d.subrange(112, 116) =~= le_bytes(index as nat, 4));
}

/// Two burns with the same instruction data burn the same leaf: the data
/// determines the root, both hashes, the nonce and the index.
pub proof fn lemma_burn_data_injective(
    root1: [u8; 32],
    data_hash1: [u8; 32],
    creator_hash1: [u8; 32],
    nonce1: u64,
    index1: u32,
    root2: [u8; 32],
    data_hash2: [u8; 32],
    creator_hash2: [u8; 32],
    nonce2: u64,
    index2: u32,
)
    requires
        burn_data(root1@, data_hash1@, creator_hash1@, nonce1, index1) == burn_data(
            root2@,
            data_hash2@,
            creator_hash2@,
            nonce2,
            index2,
        ),
    ensures
        root1 == root2,
        data_hash1 == data_hash2,
        creator_hash1 == creator_hash2,
        nonce1 == nonce2,
        index1 == index2,
{
    lemma_burn_data_layout(root1, data_hash1, creator_hash1, nonce1, index1);
    lemma_burn_data_layout(root2, data_hash2, creator_hash2, nonce2, index2);
    lemma_byte_bounds();
    lemma_le_bytes_injective(nonce1 as nat, nonce2 as nat, 8);
    lemma_le_bytes_injective(index1 as nat, index2 as nat, 4);
    assert(root1@ == root2@);
    assert(data_hash1@ == data_hash2@);
    assert(creator_hash1@ == creator_hash2@);
    lemma_array_eq(root1, root2);
    lemma_array_eq(data_hash1, data_hash2);
    lemma_array_eq(creator_hash1, creator_hash2);
}

proof fn lemma_array_eq(a: [u8; 32], b: [u8; 32])
    requires
        a@ == b@,
    ensures
        a == b,
{
    broadcast use vstd::array::axiom_array_ext_equal;
    assert(a =~= b);
}

/// Sum of the creators' shares, in percent.
pub open spec fn total_share(creators: Seq<Creator>) -> int
    decreases creators.len(),
{
    if creators.len() == 0 {
        0
    } else {
        total_share(creators.drop_last()) + creators.last().share
    }
}

/// Every NFT the program mints has exactly one creator, verified, and the
/// creators' shares add up to 100 percent, as Bubblegum demands.
pub proof fn lemma_collection_nft_creator_shares(
    name: Seq<char>,
    symbol: Seq<char>,
    uri: Seq<char>,
    collection_mint: [u8; 32],
    creator: [u8; 32],
)
    ensures
        ({
            let md = collection_nft_metadata_spec(name, symbol, uri, collection_mint, creator);
            &&& md.creators.len() == 1
            &&& md.creators[0].address == creator
            &&& md.creators[0].verified
            &&& total_share(md.creators) == 100
        }),
{
    let cs = collection_nft_metadata_spec(name, symbol, uri, collection_mint, creator).creators;
    assert(cs.drop_last() =~= Seq::<Creator>::empty());
    assert(total_share(cs.drop_last()) == 0);
    assert(cs.last().share == 100);
}


proof fn lemma_byte_bound_pos(n: nat)
    ensures
        byte_bound(n) > 0,
    decreases n,
{
    if n > 0 {
        lemma_byte_bound_pos((n - 1) as nat);
    }
}

/// Byte `i` of the `n`-byte little-endian encoding of `x` is digit `i` of
/// `x` in base 256: `(x / 256^i) % 256`.
pub proof fn lemma_le_bytes_digits(x: nat, n: nat)
    ensures
        le_bytes(x, n).len() == n,
        forall|i: int|
            0 <= i < n ==> #[trigger] le_bytes(x, n)[i] == ((x / byte_bound(i as nat)) % 256) as u8,
    decreases n,
{
    lemma_le_bytes_len(x, n);
    if n > 0 {
        let m = (n - 1) as nat;
        lemma_le_bytes_digits(x / 256, m);
        assert forall|i: int| 0 <= i < n implies #[trigger] le_bytes(x, n)[i] == ((x / byte_bound(
            i as nat,
        )) % 256) as u8 by {
            let tail = le_bytes(x / 256, m);
            assert(le_bytes(x, n) == seq![(x % 256) as u8] + tail);
            if i > 0 {
                assert(le_bytes(x, n)[i] == tail[i - 1]);
                let j = (i - 1) as nat;
                assert(tail[i - 1] == (((x / 256) / byte_bound(j)) % 256) as u8);
                lemma_byte_bound_pos(j);
                vstd::arithmetic::div_mod::lemma_div_denominator(x as int, 256, byte_bound(j) as int);
                assert(byte_bound(i as nat) == 256 * byte_bound(j));
                assert((x / 256) / byte_bound(j) == x / byte_bound(i as nat));
            } else {
                assert(byte_bound(0) == 1);
                assert(x / 1 == x) by (nonlinear_arith);
            }
        }
    }
}

/// The creators are written one after the other, 34 bytes each: the
/// address, then 1 or 0 for verified, then the share.
pub proof fn lemma_creators_body_layout(cs: Seq<Creator>)
    ensures
        creators_body(cs).len() == 34 * cs.len(),
        forall|i: int|
            0 <= i < cs.len() ==> {
                &&& creators_body(cs).subrange(34 * i, 34 * i + 32) == (#[trigger] cs[i]).address@
                &&& creators_body(cs)[34 * i + 32] == if cs[i].verified { 1u8 } else { 0u8 }
                &&& creators_body(cs)[34 * i + 33] == cs[i].share
            },
    decreases cs.len(),
{
    if cs.len() > 0 {
        let p = cs.drop_last();
        lemma_creators_body_layout(p);
        let c = cs.last();
        assert(c.address@.len() == 32);
        let bp = creators_body(p);
        let body = creators_body(cs);
        assert(body == bp + (c.address@ + seq![if c.verified { 1u8 } else { 0u8 }] + seq![c.share]));
        assert forall|i: int| 0 <= i < cs.len() implies {
            &&& creators_body(cs).subrange(34 * i, 34 * i + 32) == (#[trigger] cs[i]).address@
            &&& creators_body(cs)[34 * i + 32] == if cs[i].verified { 1u8 } else { 0u8 }
            &&& creators_body(cs)[34 * i + 33] == cs[i].share
        } by {
            if i < cs.len() - 1 {
                assert(cs[i] == p[i]);
                assert(body.subrange(34 * i, 34 * i + 32) =~= bp.subrange(34 * i, 34 * i + 32));
            } else {
                assert(body.subrange(34 * i, 34 * i + 32) =~= c.address@);
            }
        }
    }
}

/// Whatever the creator list, the metadata bytes end with its length as a
/// little-endian `u32` and then each creator's 34 bytes: address, verified
/// flag (1 or 0), share.  A list of one creator is no exception.
pub proof fn lemma_metadata_bytes_end_with_creators(md: MetadataArgsView)
    ensures
        ({
            let e = metadata_encoding(md);
            let n = md.creators.len();
            let k = e.len() - 34 * n;
            &&& e.len() >= 4 + 34 * n
            &&& e.subrange(k - 4, k) == seq![
                (n % 256) as u8,
                ((n / 256) % 256) as u8,
                ((n / 65536) % 256) as u8,
                ((n / 16777216) % 256) as u8,
            ]
            &&& forall|i: int|
                0 <= i < n ==> {
                    &&& e.subrange(k + 34 * i, k + 34 * i + 32) == (#[trigger] md.creators[i]).address@
                    &&& e[k + 34 * i + 32] == if md.creators[i].verified { 1u8 } else { 0u8 }
                    &&& e[k + 34 * i + 33] == md.creators[i].share
                }
        }),
{
    let e = metadata_encoding(md);
    let cs = md.creators;
    let n = cs.len();
    lemma_creators_body_layout(cs);
    lemma_le_bytes_digits(n, 4);
    reveal_with_fuel(byte_bound, 5);
    let body = creators_body(cs);
    let cnt = le_bytes(n, 4);
    let pre = e.subrange(0, e.len() - 34 * n - 4);
    assert(e =~= pre + cnt + body);
    let k = e.len() - 34 * n;
    assert(e.subrange(k - 4, k) =~= cnt);
    assert(cnt =~= seq![
        (n % 256) as u8,
        ((n / 256) % 256) as u8,
        ((n / 65536) % 256) as u8,
        ((n / 16777216) % 256) as u8,
    ]);
    assert forall|i: int| 0 <= i < n implies {
        &&& e.subrange(k + 34 * i, k + 34 * i + 32) == (#[trigger] md.creators[i]).address@
        &&& e[k + 34 * i + 32] == if md.creators[i].verified { 1u8 } else { 0u8 }
        &&& e[k + 34 * i + 33] == md.creators[i].share
    } by {
        assert(e.subrange(k + 34 * i, k + 34 * i + 32) =~= body.subrange(34 * i, 34 * i + 32));
        assert(e[k + 34 * i + 32] == body[34 * i + 32]);
        assert(e[k + 34 * i + 33] == body[34 * i + 33]);
    }
}

/// The bytes written for a string: its UTF-8 length as a little-endian
/// `u32`, then its UTF-8 bytes.
pub open spec fn utf8_with_len(s: Seq<char>) -> Seq<u8> {
    u32_le(encode_utf8(s).len()) + encode_utf8(s)
}

/// The four bytes of `n` as a little-endian `u32`.
pub open spec fn u32_le(n: nat) -> Seq<u8> {
    seq![
        (n % 256) as u8,
        ((n / 256) % 256) as u8,
        ((n / 65536) % 256) as u8,
        ((n / 16777216) % 256) as u8,
    ]
}

/// The metadata bytes field by field, in Borsh's terms: strings with their
/// `u32` length, the fee as two little-endian bytes, booleans as 1 or 0,
/// each `Option` as 0 for `None` or 1 then the value, each enum as the
/// index of its variant in declaration order, and the creator list as its
/// `u32` length then its creators (see [`lemma_creators_body_layout`]).
pub proof fn lemma_metadata_bytes_fields(md: MetadataArgsView)
    ensures
        metadata_encoding(md) == utf8_with_len(md.name) + utf8_with_len(md.symbol) + utf8_with_len(
            md.uri,
        ) + seq![(md.seller_fee_basis_points % 256) as u8, (md.seller_fee_basis_points / 256) as u8]
            + seq![if md.primary_sale_happened { 1u8 } else { 0u8 }]
            + seq![if md.is_mutable { 1u8 } else { 0u8 }] + match md.edition_nonce {
            None => seq![0u8],
            Some(b) => seq![1u8, b],
        } + match md.token_standard {
            None => seq![0u8],
            Some(TokenStandard::NonFungible) => seq![1u8, 0u8],
            Some(TokenStandard::FungibleAsset) => seq![1u8, 1u8],
            Some(TokenStandard::Fungible) => seq![1u8, 2u8],
            Some(TokenStandard::NonFungibleEdition) => seq![1u8, 3u8],
        } + match md.collection {
            None => seq![0u8],
            Some(c) => seq![1u8, if c.verified { 1u8 } else { 0u8 }] + c.key@,
        } + match md.uses {
            None => seq![0u8],
            Some(u) => seq![
                1u8,
                match u.use_method {
                    UseMethod::Burn => 0u8,
                    UseMethod::Multiple => 1u8,
                    UseMethod::Single => 2u8,
                },
            ] + le_bytes(u.remaining as nat, 8) + le_bytes(u.total as nat, 8),
        } + seq![
            match md.token_program_version {
                TokenProgramVersion::Original => 0u8,
                TokenProgramVersion::Token2022 => 1u8,
            },
        ] + (u32_le(md.creators.len()) + creators_body(md.creators)),
{
    let fee = md.seller_fee_basis_points as nat;
    lemma_le_bytes_digits(fee, 2);
    lemma_le_bytes_digits(encode_utf8(md.name).len(), 4);
    lemma_le_bytes_digits(encode_utf8(md.symbol).len(), 4);
    lemma_le_bytes_digits(encode_utf8(md.uri).len(), 4);
    lemma_le_bytes_digits(md.creators.len(), 4);
    reveal_with_fuel(byte_bound, 5);
    assert(le_bytes(fee, 2) =~= seq![(fee % 256) as u8, (fee / 256) as u8]);
    assert(borsh_string(md.name) =~= utf8_with_len(md.name));
    assert(borsh_string(md.symbol) =~= utf8_with_len(md.symbol));
    assert(borsh_string(md.uri) =~= utf8_with_len(md.uri));
    assert(le_bytes(md.creators.len(), 4) =~= u32_le(md.creators.len()));
    assert(borsh_creators(md.creators) == u32_le(md.creators.len()) + creators_body(md.creators));
    assert(borsh_token_standard(md.token_standard) == match md.token_standard {
        None => seq![0u8],
        Some(TokenStandard::NonFungible) => seq![1u8, 0u8],
        Some(TokenStandard::FungibleAsset) => seq![1u8, 1u8],
        Some(TokenStandard::Fungible) => seq![1u8, 2u8],
        Some(TokenStandard::NonFungibleEdition) => seq![1u8, 3u8],
    });
    assert(borsh_collection(md.collection) =~= match md.collection {
        None => seq![0u8],
        Some(c) => seq![1u8, if c.verified { 1u8 } else { 0u8 }] + c.key@,
    });
    assert(borsh_uses(md.uses) == match md.uses {
        None => seq![0u8],
        Some(u) => seq![
            1u8,
            match u.use_method {
                UseMethod::Burn => 0u8,
                UseMethod::Multiple => 1u8,
                UseMethod::Single => 2u8,
            },
        ] + le_bytes(u.remaining as nat, 8) + le_bytes(u.total as nat, 8),
    });
    assert(seq![token_program_version_tag(md.token_program_version)] == seq![
        match md.token_program_version {
            TokenProgramVersion::Original => 0u8,
            TokenProgramVersion::Token2022 => 1u8,
        },
    ]);
}

/// For every metadata, the data hash takes two Keccak-256 rounds: the hash
/// of the metadata bytes, then the hash of that digest followed by the fee
/// as two little-endian bytes (also when the fee is 0).
pub proof fn lemma_data_hash_two_rounds(md: MetadataArgsView)
    ensures
        metadata_data_hash(md) == keccak256(
            keccak256(metadata_encoding(md)) + seq![
                (md.seller_fee_basis_points % 256) as u8,
                (md.seller_fee_basis_points / 256) as u8,
            ],
        ),
{
    let fee = md.seller_fee_basis_points as nat;
    lemma_le_bytes_digits(fee, 2);
    reveal_with_fuel(byte_bound, 3);
    assert(le_bytes(fee, 2) =~= seq![(fee % 256) as u8, (fee / 256) as u8]);
}

/// Every NFT the program mints has the given name, symbol and URI, no
/// royalty fee, a completed primary sale, mutable metadata, no edition
/// nonce, the non-fungible standard, the collection of `collection_mint`
/// not (yet) verified, no uses, the SPL token program, and `creator` as sole
/// verified creator with a share of 100.
pub proof fn lemma_collection_nft_metadata_fields(
    name: Seq<char>,
    symbol: Seq<char>,
    uri: Seq<char>,
    collection_mint: [u8; 32],
    creator: [u8; 32],
)
    ensures
        ({
            let md = collection_nft_metadata_spec(name, symbol, uri, collection_mint, creator);
            &&& md.name == name
            &&& md.symbol == symbol
            &&& md.uri == uri
            &&& md.seller_fee_basis_points == 0
            &&& md.primary_sale_happened
            &&& md.is_mutable
            &&& md.edition_nonce is None
            &&& md.token_standard == Some(TokenStandard::NonFungible)
            &&& md.collection == Some(Collection { verified: false, key: collection_mint })
            &&& md.uses is None
            &&& md.token_program_version == TokenProgramVersion::Original
            &&& md.creators =~= seq![Creator { address: creator, verified: true, share: 100 }]
        }),
{
}

/// The complete bytes of the metadata of an NFT the program mints: its
/// three strings, then fee 0, primary sale done, mutable, no edition nonce,
/// non-fungible (variant 0), an unverified collection with its key, no
/// uses, the SPL token program, and a list of one creator (count 1) that is
/// verified and holds 100 percent.
#[verifier::rlimit(40)]
pub proof fn lemma_collection_nft_metadata_bytes(
    name: Seq<char>,
    symbol: Seq<char>,
    uri: Seq<char>,
    collection_mint: [u8; 32],
    creator: [u8; 32],
)
    ensures
        metadata_encoding(collection_nft_metadata_spec(name, symbol, uri, collection_mint, creator))
            == utf8_with_len(name) + utf8_with_len(symbol) + utf8_with_len(uri) + (seq![
            0u8,
            0u8,
            1u8,
            1u8,
            0u8,
            1u8,
            0u8,
            1u8,
            0u8,
        ] + collection_mint@ + seq![0u8, 0u8, 1u8, 0u8, 0u8, 0u8] + creator@ + seq![1u8, 100u8]),
{
    let md = collection_nft_metadata_spec(name, symbol, uri, collection_mint, creator);
    lemma_metadata_bytes_fields(md);
    lemma_creators_body_layout(md.creators);
    let body = creators_body(md.creators);
    assert(body =~= creator@ + seq![1u8, 100u8]);
    assert(u32_le(1) =~= seq![1u8, 0u8, 0u8, 0u8]);
    let h = utf8_with_len(name) + utf8_with_len(symbol) + utf8_with_len(uri);
    let coll = seq![1u8, 0u8] + collection_mint@;
    let cr = u32_le(1) + body;
    assert(metadata_encoding(md) == h + seq![0u8, 0u8] + seq![1u8] + seq![1u8] + seq![0u8] + seq![
        1u8,
        0u8,
    ] + coll + seq![0u8] + seq![0u8] + cr);
    let tail = seq![0u8, 0u8, 1u8, 1u8, 0u8, 1u8, 0u8, 1u8, 0u8] + collection_mint@ + seq![
        0u8,
        0u8,
        1u8,
        0u8,
        0u8,
        0u8,
    ] + creator@ + seq![1u8, 100u8];
    assert(seq![0u8, 0u8] + seq![1u8] + seq![1u8] + seq![0u8] + seq![1u8, 0u8] + coll + seq![0u8]
        + seq![0u8] + cr =~= tail);
    assert(h + seq![0u8, 0u8] + seq![1u8] + seq![1u8] + seq![0u8] + seq![1u8, 0u8] + coll + seq![0u8]
        + seq![0u8] + cr =~= h + (seq![0u8, 0u8] + seq![1u8] + seq![1u8] + seq![0u8] + seq![1u8, 0u8]
        + coll + seq![0u8] + seq![0u8] + cr));
}

/// The accounts of every burn: the seven fixed accounts in order, of which
/// only the leaf owner signs (whoever the delegate is) and only the Merkle
/// tree is written, then one read-only, non-signing account per proof node.
pub proof fn lemma_burn_accounts_roles(keys: BurnAccountKeys, proof: Seq<[u8; 32]>)
    ensures
        ({
            let a = burn_accounts(keys, proof);
            &&& a.len() == 7 + proof.len()
            &&& a[0] == AccountMeta { pubkey: keys.tree_authority, is_signer: false, is_writable: false }
            &&& a[1] == AccountMeta { pubkey: keys.leaf_owner, is_signer: true, is_writable: false }
            &&& a[2] == AccountMeta { pubkey: keys.leaf_delegate, is_signer: false, is_writable: false }
            &&& a[3] == AccountMeta { pubkey: keys.merkle_tree, is_signer: false, is_writable: true }
            &&& a[4] == AccountMeta { pubkey: keys.log_wrapper, is_signer: false, is_writable: false }
            &&& a[5] == AccountMeta {
                pubkey: keys.compression_program,
                is_signer: false,
                is_writable: false,
            }
            &&& a[6] == AccountMeta { pubkey: keys.system_program, is_signer: false, is_writable: false }
            &&& forall|i: int|
                0 <= i < proof.len() ==> a[7 + i] == AccountMeta {
                    pubkey: #[trigger] proof[i],
                    is_signer: false,
                    is_writable: false,
                }
        }),
{
    let a = burn_accounts(keys, proof);
    assert forall|i: int| 0 <= i < proof.len() implies a[7 + i] == AccountMeta {
        pubkey: #[trigger] proof[i],
        is_signer: false,
        is_writable: false,
    } by {}
}

/// The burn data starts with Bubblegum's burn discriminator.
pub proof fn lemma_burn_discriminator_bytes()
    ensures
        burn_discriminator() == seq![116u8, 110u8, 29u8, 56u8, 107u8, 219u8, 42u8, 93u8],
{
}

/// The program signs for its PDA with the seeds `"AUTH"` and the bump.
pub proof fn lemma_signer_seeds_bytes(bump: u8)
    ensures
        pda_signer_seeds_spec(bump) == seq![seq![65u8, 85u8, 84u8, 72u8], seq![bump]],
{
}

/// A V1 leaf is hashed over 169 bytes: the version byte 1, the asset id,
/// the owner, the delegate, the nonce (little-endian), the data hash and
/// the creator hash.
pub proof fn lemma_leaf_bytes_layout(leaf: LeafSchemaV1)
    ensures
        ({
            let b = leaf_schema_v1_bytes(leaf);
            &&& b.len() == 169
            &&& b[0] == 1u8
            &&& b.subrange(1, 33) == leaf.id@
            &&& b.subrange(33, 65) == leaf.owner@
            &&& b.subrange(65, 97) == leaf.delegate@
            &&& forall|i: int|
                0 <= i < 8 ==> #[trigger] b[97 + i] == ((leaf.nonce as nat / byte_bound(i as nat))
                    % 256) as u8
            &&& b.subrange(105, 137) == leaf.data_hash@
            &&& b.subrange(137, 169) == leaf.creator_hash@
        }),
{
    lemma_le_bytes_digits(leaf.nonce as nat, 8);
    let b = leaf_schema_v1_bytes(leaf);
    let nb = le_bytes(leaf.nonce as nat, 8);
    assert(b == seq![1u8] + leaf.id@ + leaf.owner@ + leaf.delegate@ + nb + leaf.data_hash@
        + leaf.creator_hash@);
    assert(b.subrange(1, 33) =~= leaf.id@);
    assert(b.subrange(33, 65) =~= leaf.owner@);
    assert(b.subrange(65, 97) =~= leaf.delegate@);
    assert(b.subrange(105, 137) =~= leaf.data_hash@);
    assert(b.subrange(137, 169) =~= leaf.creator_hash@);
    assert forall|i: int| 0 <= i < 8 implies #[trigger] b[97 + i] == ((leaf.nonce as nat
        / byte_bound(i as nat)) % 256) as u8 by {
        assert(b[97 + i] == nb[i]);
    }
}

} // verus!
