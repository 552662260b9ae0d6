# parachain_precompiles

The verified core of an ink! smart-contract parachain project.

- `src/address.rs`: addresses of precompiles (fixed and prefixed), with the
  laws that distinct indices and prefixes give distinct addresses and that a
  zero prefix gives the fixed address.
- `src/assets.rs`: the asset-hub ERC-20 contract, which forwards every
  ERC-20 message unchanged to the asset's precompile.
- `src/xcm.rs`: the XCM utilities contract: relay-chain, parachain and
  local-account locations, and XCM send/execute requests.
- `src/precompiles.rs`: the runtime's demo and foo precompiles.
- `src/u256.rs`: 256-bit integers as little-endian limbs and their byte
  conversion between the runtime's and alloy's representation.
- `src/node.rs`: the node services' decisions (heap strategy, telemetry,
  dev-block inherent data, the order of service steps).

`app/` holds what needs the outside world: conversions to the runtime's and
alloy's types, the SCALE codec of the XCM location, and the contract messages
that call a precompile through a host.
