# ddc_primitives

Primitive types of the DDC (Decentralized Data Cloud) protocol, written in
Verus with their behaviour stated in contracts and proved.

- `src/hexadecimal.rs`: the `0x`-prefixed hexadecimal form of 32-byte values,
  read and written through the `hex` crate, with the laws that writing and
  reading back gives the same bytes and that reading and writing back gives
  the text in lower case.
- `src/node.rs`: node keys, node kinds and modes, storage node parameters,
  account identifiers in hex, and their conversions.
- `src/hash.rs`: 256- and 160-bit hashes, the merge of Merkle Mountain Range
  nodes (BLAKE2s-256 through the `blake2` crate), and hashes read from hex.
- `src/cluster.rs`, `src/payout.rs`: cluster and payout parameters and state.
- `src/contracts/`, `src/traits/`: the interfaces that contracts and other
  components implement, and the types they exchange.
- `tests/`: tests run against the compiled library.
- `app/`: what lives in the Substrate runtime: the `Merge` trait of
  `polkadot-ckb-merkle-mountain-range`, the runtime's type aliases, the
  interfaces that pallets implement, conversions to `sp-core` and
  `sp-arithmetic` types, and copies of the types with SCALE and serde derives.
