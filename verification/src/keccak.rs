//! Keccak-256, as Solana programs compute it.
use vstd::prelude::*;

verus! {

/// The Keccak-256 digest of `data`.
pub uninterp spec fn keccak256(data: Seq<u8>) -> Seq<u8>;

/// Calls `solana_program::keccak::hashv`, which feeds the parts one after
/// the other into a single Keccak-256 hasher: the digest is that of their
/// concatenation.  Nothing is claimed of the digest beyond that name.
#[verifier::external_body]
pub(crate) fn keccak_hashv(parts: &Vec<Vec<u8>>) -> (digest: [u8; 32])
    ensures
        digest@ == keccak256(parts.deep_view().flatten()),
{
    let slices: Vec<&[u8]> = parts.iter().map(|p| p.as_slice()).collect();
    solana_program::keccak::hashv(&slices).to_bytes()
}

/// Keccak-256 of one byte string, hashed as a single part.
pub fn keccak_of(data: Vec<u8>) -> (digest: [u8; 32])
    ensures
        digest@ == keccak256(data@),
{
    let ghost d = data@;
    let mut parts: Vec<Vec<u8>> = Vec::new();
    parts.push(data);
    proof {
        assert(parts@[0].deep_view() =~= d);
        assert(parts.deep_view() =~= seq![d]);
        seq![d].lemma_flatten_one_element();
    }
    keccak_hashv(&parts)
}

/// Keccak-256 of two byte strings hashed as two parts, that is of `a`
/// followed by `b`.
pub fn keccak_of_pair(a: Vec<u8>, b: Vec<u8>) -> (digest: [u8; 32])
    ensures
        digest@ == keccak256(a@ + b@),
{
    let ghost da = a@;
    let ghost db = b@;
    let mut parts: Vec<Vec<u8>> = Vec::new();
    parts.push(a);
    parts.push(b);
    proof {
        assert(parts@[0].deep_view() =~= da);
        assert(parts@[1].deep_view() =~= db);
        assert(parts.deep_view() =~= seq![da, db]);
        reveal_with_fuel(Seq::<_>::flatten, 3);
        assert(seq![da, db].drop_first() =~= seq![db]);
        assert(seq![db].drop_first() =~= Seq::<Seq<u8>>::empty());
        assert(seq![da, db].flatten() =~= da + db);
    }
    keccak_hashv(&parts)
}

} // verus!
