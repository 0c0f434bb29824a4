# aleph

Verified logic of four Aleph Zero components, written in Verus.

- `src/marketplace.rs`: the ticket marketplace, a Dutch auction whose price
  starts at the average sale price times a multiplier and falls linearly to
  a minimum, reached after the auction's length. Pricing, the steps of a
  purchase (checks, payment, delivery), restart, role checks and
  minimum-price updates are verified functions over the auction state; the
  public proof functions state the auction's laws (the price never rises
  within an auction, never falls below the minimum, falls linearly, opens at
  the average times the multiplier, is the minimum once the auction's length
  has passed, and a sale moves the average).
- `src/chain_status.rs`: the answers of the chain-status queries (block
  status, finalized block at a height, best block, top finalized block,
  children) given what the blockchain database returned.
- `src/rpc.rs`: the emergency-finalization RPC's argument check and error
  codes.
- `src/client.rs`: the client's block helpers (first block of a session,
  locating a transaction in a block).
- `src/external.rs`: the call into `jsonrpsee`, with the
  contract the library relies on.

`app/` holds what talks to the outside world: the contract environment and
token calls, the database reads, the JSON-RPC server and the node connection.
