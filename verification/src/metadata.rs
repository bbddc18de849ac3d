//! The Bubblegum `MetadataArgs` of a compressed NFT, its Borsh bytes and
//! its data hash.
use vstd::prelude::*;
use vstd::utf8::encode_utf8;
use crate::bytes::{le_bytes, push_bytes32, push_le_bytes, push_slice};
use crate::keccak::{keccak256, keccak_of, keccak_of_pair};

verus! {

/// Token standard of an asset (Borsh tag = declaration order).
#[derive(Clone, Copy, PartialEq, Eq, Structural, Debug)]
pub enum TokenStandard {
    NonFungible,
    FungibleAsset,
    Fungible,
    NonFungibleEdition,
}

/// SPL token program an asset belongs to (Borsh tag = declaration order).
#[derive(Clone, Copy, PartialEq, Eq, Structural, Debug)]
pub enum TokenProgramVersion {
    Original,
    Token2022,
}

/// How the uses of an asset are consumed (Borsh tag = declaration order).
#[derive(Clone, Copy, PartialEq, Eq, Structural, Debug)]
pub enum UseMethod {
    Burn,
    Multiple,
    Single,
}

/// Use counters of an asset.
#[derive(Clone, Copy, PartialEq, Eq, Structural, Debug)]
pub struct Uses {
    pub use_method: UseMethod,
    pub remaining: u64,
    pub total: u64,
}

/// Collection an asset belongs to.
#[derive(Clone, Copy, PartialEq, Eq, Debug)]
pub struct Collection {
    pub verified: bool,
    pub key: [u8; 32],
}

/// A creator of an asset and its share of royalties, in percent.
#[derive(Clone, Copy, PartialEq, Eq, Debug)]
pub struct Creator {
    pub address: [u8; 32],
    pub verified: bool,
    pub share: u8,
}

/// The metadata of a compressed NFT, field for field as Bubblegum's
/// `MetadataArgs`; keys are held as their 32 bytes.
pub struct MetadataArgs {
    pub name: String,
    pub symbol: String,
    pub uri: String,
    pub seller_fee_basis_points: u16,
    pub primary_sale_happened: bool,
    pub is_mutable: bool,
    pub edition_nonce: Option<u8>,
    pub token_standard: Option<TokenStandard>,
    pub collection: Option<Collection>,
    pub uses: Option<Uses>,
    pub token_program_version: TokenProgramVersion,
    pub creators: Vec<Creator>,
}

/// Mathematical value of a [`MetadataArgs`]: strings as characters,
/// the creator list as a sequence.
pub struct MetadataArgsView {
    pub name: Seq<char>,
    pub symbol: Seq<char>,
    pub uri: Seq<char>,
    pub seller_fee_basis_points: u16,
    pub primary_sale_happened: bool,
    pub is_mutable: bool,
    pub edition_nonce: Option<u8>,
    pub token_standard: Option<TokenStandard>,
    pub collection: Option<Collection>,
    pub uses: Option<Uses>,
    pub token_program_version: TokenProgramVersion,
    pub creators: Seq<Creator>,
}

impl View for MetadataArgs {
    type V = MetadataArgsView;

    open spec fn view(&self) -> MetadataArgsView {
        MetadataArgsView {
            name: self.name@,
            symbol: self.symbol@,
            uri: self.uri@,
            seller_fee_basis_points: self.seller_fee_basis_points,
            primary_sale_happened: self.primary_sale_happened,
            is_mutable: self.is_mutable,
            edition_nonce: self.edition_nonce,
            token_standard: self.token_standard,
            collection: self.collection,
            uses: self.uses,
            token_program_version: self.token_program_version,
            creators: self.creators@,
        }
    }
}

// ---------------------------------------------------------------------------
// Borsh layout
// ---------------------------------------------------------------------------

pub open spec fn token_standard_tag(t: TokenStandard) -> u8 {
    match t {
        TokenStandard::NonFungible => 0,
        TokenStandard::FungibleAsset => 1,
        TokenStandard::Fungible => 2,
        TokenStandard::NonFungibleEdition => 3,
    }
}

pub open spec fn token_program_version_tag(v: TokenProgramVersion) -> u8 {
    match v {
        TokenProgramVersion::Original => 0,
        TokenProgramVersion::Token2022 => 1,
    }
}

pub open spec fn use_method_tag(m: UseMethod) -> u8 {
    match m {
        UseMethod::Burn => 0,
        UseMethod::Multiple => 1,
        UseMethod::Single => 2,
    }
}

/// A `bool`: one byte, 1 or 0.
pub open spec fn borsh_bool(b: bool) -> Seq<u8> {
    seq![if b { 1u8 } else { 0u8 }]
}

/// A string: its UTF-8 length as a `u32`, then its UTF-8 bytes.
pub open spec fn borsh_string(s: Seq<char>) -> Seq<u8> {
    le_bytes(encode_utf8(s).len(), 4) + encode_utf8(s)
}

pub open spec fn borsh_edition_nonce(o: Option<u8>) -> Seq<u8> {
    match o {
        None => seq![0u8],
        Some(n) => seq![1u8, n],
    }
}

pub open spec fn borsh_token_standard(o: Option<TokenStandard>) -> Seq<u8> {
    match o {
        None => seq![0u8],
        Some(t) => seq![1u8, token_standard_tag(t)],
    }
}

pub open spec fn borsh_collection(o: Option<Collection>) -> Seq<u8> {
    match o {
        None => seq![0u8],
        Some(c) => seq![1u8] + borsh_bool(c.verified) + c.key@,
    }
}

pub open spec fn borsh_uses(o: Option<Uses>) -> Seq<u8> {
    match o {
        None => seq![0u8],
        Some(u) => seq![1u8, use_method_tag(u.use_method)] + le_bytes(u.remaining as nat, 8)
            + le_bytes(u.total as nat, 8),
    }
}

/// One creator: address, verified flag, share.
pub open spec fn borsh_creator(c: Creator) -> Seq<u8> {
    c.address@ + borsh_bool(c.verified) + seq![c.share]
}

/// The creators one after the other, without the length prefix.
pub open spec fn creators_body(cs: Seq<Creator>) -> Seq<u8>
    decreases cs.len(),
{
    if cs.len() == 0 {
        Seq::empty()
    } else {
        creators_body(cs.drop_last()) + borsh_creator(cs.last())
    }
}

/// The creator list: its length as a `u32`, then each creator.
pub open spec fn borsh_creators(cs: Seq<Creator>) -> Seq<u8> {
    le_bytes(cs.len(), 4) + creators_body(cs)
}

/// Borsh can write the metadata: every string and the creator list has a
/// length that fits a `u32`.
pub open spec fn metadata_encodable(md: MetadataArgsView) -> bool {
    &&& encode_utf8(md.name).len() <= u32::MAX
    &&& encode_utf8(md.symbol).len() <= u32::MAX
    &&& encode_utf8(md.uri).len() <= u32::MAX
    &&& md.creators.len() <= u32::MAX
}

/// The Borsh bytes of the metadata: its fields in declaration order.
pub open spec fn metadata_encoding(md: MetadataArgsView) -> Seq<u8> {
    borsh_string(md.name) + borsh_string(md.symbol) + borsh_string(md.uri)
        + le_bytes(md.seller_fee_basis_points as nat, 2) + borsh_bool(md.primary_sale_happened)
        + borsh_bool(md.is_mutable) + borsh_edition_nonce(md.edition_nonce)
        + borsh_token_standard(md.token_standard) + borsh_collection(md.collection)
        + borsh_uses(md.uses) + seq![token_program_version_tag(md.token_program_version)]
        + borsh_creators(md.creators)
}

/// The data hash that a Bubblegum leaf carries for the metadata: the
/// Keccak-256 of the metadata bytes, hashed again with the seller fee
/// basis points in little-endian order.
pub open spec fn metadata_data_hash(md: MetadataArgsView) -> Seq<u8> {
    keccak256(keccak256(metadata_encoding(md)) + le_bytes(md.seller_fee_basis_points as nat, 2))
}

fn push_bool(out: &mut Vec<u8>, b: bool)
    ensures
        final(out)@ == old(out)@ + borsh_bool(b),
{
    out.push(if b { 1u8 } else { 0u8 });
}

fn push_string(out: &mut Vec<u8>, s: &String) -> (ok: bool)
    ensures
        ok == (encode_utf8(s@).len() <= u32::MAX),
        ok ==> final(out)@ == old(out)@ + borsh_string(s@),
{
    let bytes = s.as_str().as_bytes();
    if bytes.len() > 0xffff_ffffusize {
        return false;
    }
    let ghost start = out@;
    push_le_bytes(out, bytes.len() as u64, 4);
    push_slice(out, bytes);
    assert(out@ =~= start + borsh_string(s@));
    true
}

fn push_option_u8(out: &mut Vec<u8>, o: Option<u8>)
    ensures
        final(out)@ == old(out)@ + borsh_edition_nonce(o),
{
    match o {
        None => out.push(0u8),
        Some(n) => {
            let ghost start = out@;
            out.push(1u8);
            out.push(n);
            assert(out@ =~= start + seq![1u8, n]);
        },
    }
}

fn token_standard_byte(t: TokenStandard) -> (b: u8)
    ensures
        b == token_standard_tag(t),
{
    match t {
        TokenStandard::NonFungible => 0,
        TokenStandard::FungibleAsset => 1,
        TokenStandard::Fungible => 2,
        TokenStandard::NonFungibleEdition => 3,
    }
}

fn use_method_byte(m: UseMethod) -> (b: u8)
    ensures
        b == use_method_tag(m),
{
    match m {
        UseMethod::Burn => 0,
        UseMethod::Multiple => 1,
        UseMethod::Single => 2,
    }
}

fn token_program_version_byte(v: TokenProgramVersion) -> (b: u8)
    ensures
        b == token_program_version_tag(v),
{
    match v {
        TokenProgramVersion::Original => 0,
        TokenProgramVersion::Token2022 => 1,
    }
}

fn push_token_standard(out: &mut Vec<u8>, o: Option<TokenStandard>)
    ensures
        final(out)@ == old(out)@ + borsh_token_standard(o),
{
    match o {
        None => out.push(0u8),
        Some(t) => {
            let ghost start = out@;
            out.push(1u8);
            out.push(token_standard_byte(t));
            assert(out@ =~= start + seq![1u8, token_standard_tag(t)]);
        },
    }
}

fn push_collection(out: &mut Vec<u8>, o: &Option<Collection>)
    ensures
        final(out)@ == old(out)@ + borsh_collection(*o),
{
    match o {
        None => out.push(0u8),
        Some(c) => {
            let ghost start = out@;
            out.push(1u8);
            push_bool(out, c.verified);
            push_bytes32(out, &c.key);
            assert(out@ =~= start + (seq![1u8] + borsh_bool(c.verified) + c.key@));
        },
    }
}

fn push_uses(out: &mut Vec<u8>, o: &Option<Uses>)
    ensures
        final(out)@ == old(out)@ + borsh_uses(*o),
{
    match o {
        None => out.push(0u8),
        Some(u) => {
            let ghost start = out@;
            out.push(1u8);
            out.push(use_method_byte(u.use_method));
            push_le_bytes(out, u.remaining, 8);
            push_le_bytes(out, u.total, 8);
            assert(out@ =~= start + (seq![1u8, use_method_tag(u.use_method)] + le_bytes(
                u.remaining as nat,
                8,
            ) + le_bytes(u.total as nat, 8)));
        },
    }
}

fn push_creators(out: &mut Vec<u8>, creators: &Vec<Creator>) -> (ok: bool)
    ensures
        ok == (creators@.len() <= u32::MAX),
        ok ==> final(out)@ == old(out)@ + borsh_creators(creators@),
{
    if creators.len() > 0xffff_ffffusize {
        return false;
    }
    let ghost start = out@;
    push_le_bytes(out, creators.len() as u64, 4);
    let ghost mid = out@;
    let mut i: usize = 0;
    while i < creators.len()
        invariant
            i <= creators@.len(),
            out@ == mid + creators_body(creators@.take(i as int)),
        decreases creators@.len() - i,
    {
        let c = creators[i];
        let ghost before = out@;
        push_bytes32(out, &c.address);
        push_bool(out, c.verified);
        out.push(c.share);
        proof {
            let t = creators@.take(i + 1);
            assert(t.drop_last() =~= creators@.take(i as int));
            assert(t.last() == c);
            assert(out@ =~= before + borsh_creator(c));
            assert(creators_body(t) == creators_body(creators@.take(i as int)) + borsh_creator(c));
            assert(out@ =~= mid + creators_body(t));
        }
        i = i + 1;
    }
    assert(creators@.take(creators@.len() as int) =~= creators@);
    assert(out@ =~= start + borsh_creators(creators@));
    true
}

/// The Borsh bytes of `md`, as `BorshSerialize::try_to_vec` writes them
/// for Bubblegum's `MetadataArgs`; `None` where Borsh refuses a string or
/// creator list whose length does not fit a `u32`.
pub fn metadata_args_bytes(md: &MetadataArgs) -> (r: Option<Vec<u8>>)
    ensures
        r is Some <==> metadata_encodable(md@),
        r matches Some(b) ==> b@ == metadata_encoding(md@),
{
    let mut out: Vec<u8> = Vec::new();
    if !push_string(&mut out, &md.name) {
        return None;
    }
    let ghost s1 = out@;
    if !push_string(&mut out, &md.symbol) {
        return None;
    }
    let ghost s2 = out@;
    if !push_string(&mut out, &md.uri) {
        return None;
    }
    let ghost s3 = out@;
    push_le_bytes(&mut out, md.seller_fee_basis_points as u64, 2);
    push_bool(&mut out, md.primary_sale_happened);
    push_bool(&mut out, md.is_mutable);
    push_option_u8(&mut out, md.edition_nonce);
    push_token_standard(&mut out, md.token_standard);
    push_collection(&mut out, &md.collection);
    push_uses(&mut out, &md.uses);
    out.push(token_program_version_byte(md.token_program_version));
    let ghost s4 = out@;
    if !push_creators(&mut out, &md.creators) {
        return None;
    }
    assert(out@ =~= metadata_encoding(md@));
    Some(out)
}

/// The data hash of `md` (see [`metadata_data_hash`]), computed with two
/// Keccak-256 calls as Bubblegum's `hash_metadata` does; `None` where the
/// metadata cannot be written by Borsh.
pub fn data_hash(md: &MetadataArgs) -> (r: Option<[u8; 32]>)
    ensures
        r is Some <==> metadata_encodable(md@),
        r matches Some(h) ==> h@ == metadata_data_hash(md@),
{
    match metadata_args_bytes(md) {
        None => None,
        Some(bytes) => {
            let first = keccak_of(bytes);
            let mut head: Vec<u8> = Vec::new();
            push_bytes32(&mut head, &first);
            let mut fee: Vec<u8> = Vec::new();
            push_le_bytes(&mut fee, md.seller_fee_basis_points as u64, 2);
            proof {
                assert(head@ =~= first@);
                assert(fee@ =~= le_bytes(md.seller_fee_basis_points as nat, 2));
            }
            Some(keccak_of_pair(head, fee))
        },
    }
}

} // verus!
