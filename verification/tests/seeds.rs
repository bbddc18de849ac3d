use compressed_nft::seeds::pda_signer_seeds;
use solana_program::pubkey::Pubkey;

#[test]
fn signer_seeds_are_auth_and_bump() {
    let seeds = pda_signer_seeds(254);
    assert_eq!(seeds, vec![b"AUTH".to_vec(), vec![254u8]]);
}

#[test]
fn signer_seeds_derive_the_pda_of_the_auth_seed() {
    let program_id = Pubkey::new_from_array([7; 32]);
    let (pda, bump) = Pubkey::find_program_address(&[b"AUTH"], &program_id);
    let seeds = pda_signer_seeds(bump);
    let slices: Vec<&[u8]> = seeds.iter().map(|s| s.as_slice()).collect();
    let derived = Pubkey::create_program_address(&slices, &program_id).unwrap();
    assert_eq!(derived, pda);
}
