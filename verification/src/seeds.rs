//! Seeds of the program's signing PDA.
use vstd::prelude::*;

verus! {

/// The bytes of the seed `"AUTH"` that the program's PDA is derived from.
pub open spec fn auth_seed() -> Seq<u8> {
    seq![0x41u8, 0x55u8, 0x54u8, 0x48u8]
}

/// The seeds the program signs with for its PDA: `"AUTH"` and the bump.
pub open spec fn pda_signer_seeds_spec(bump: u8) -> Seq<Seq<u8>> {
    seq![auth_seed(), seq![bump]]
}

/// Builds the signer seeds `["AUTH", [bump]]` of the program's PDA, as
/// each handler passes them to `invoke_signed`.
pub fn pda_signer_seeds(bump: u8) -> (seeds: Vec<Vec<u8>>)
    ensures
        seeds.deep_view() == pda_signer_seeds_spec(bump),
{
    let mut seed: Vec<u8> = Vec::new();
    seed.push(0x41u8);
    seed.push(0x55u8);
    seed.push(0x54u8);
    seed.push(0x48u8);
    let mut bump_seed: Vec<u8> = Vec::new();
    bump_seed.push(bump);
    let ghost s = seed@;
    let ghost b = bump_seed@;
    let mut seeds: Vec<Vec<u8>> = Vec::new();
    seeds.push(seed);
    seeds.push(bump_seed);
    proof {
        assert(s =~= auth_seed());
        assert(b =~= seq![bump]);
        assert(seeds@[0].deep_view() =~= s);
        assert(seeds@[1].deep_view() =~= b);
        assert(seeds.deep_view() =~= pda_signer_seeds_spec(bump));
    }
    seeds
}

} // verus!
