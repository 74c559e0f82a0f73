# x402-chain-eip155 (verified core)

The facilitator logic of the x402 V1 EIP-155 payment schemes, verified with Verus.

- `src/` is the verified library:
  - `primitives`: 20-byte addresses, 32-byte words and 256-bit amounts as plain
    bytes and limbs, with equality and ordering proved against their values;
  - `text`: the hexadecimal and EIP-55 checksummed text of addresses and words;
  - `network`: CAIP-2 chain identifiers and the protocol's network names;
  - `error`, `proto`: refusal reasons and the version 1 protocol messages;
  - `v1_eip155_native`: the native scheme, whose payment verification is a state
    machine that says which chain record to fetch next and gives the verdict;
  - `v1_eip155_exact`: the wire types of the exact scheme.
- `app/` holds the JSON forms of these types and the facilitator that runs the
  verification against an RPC provider.
- `tests/` runs the verification on scripted chain replies.
