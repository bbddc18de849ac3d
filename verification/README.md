# compressed_nft

A Solana program (Anchor) that creates a Bubblegum tree, mints compressed
NFTs into it, mints after checking a leaf, and burns compressed NFTs.

- `src/` is the verified library: PDA signer seeds (`seeds`), the metadata
  of every minted NFT with its Borsh bytes and data hash (`metadata`,
  `mint`), the V1 leaf schema and the `verify_leaf` arguments (`leaf`), the
  raw Bubblegum `burn` instruction (`burn`), little-endian encodings
  (`bytes`), Keccak-256 through `solana_program` (`keccak`) and the
  library's laws (`laws`).
- `app/` is the Anchor program itself: account validation, logging and the
  cross-program invocations, built on what the library computes.
- `tests/` checks the library on concrete values and against
  `mpl-bubblegum` itself (Borsh bytes, `hash_metadata`, `LeafSchema::hash`,
  the `Burn` instruction builder).
