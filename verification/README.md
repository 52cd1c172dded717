# magnus

Verified core of the Magnus payments chain and of its banking gateway, written in
Verus.

## Layout

- `src/` — the verified library.
  - `primitives`, `hashing`, `table`, `address_list`: addresses, 256-bit amounts,
    Keccak-256 keys and selectors, key-value tables with a map view, duplicate-free
    address lists.
  - `hardfork`: Magnus hardforks and their activation.
  - `currency`, `escrow`, `router`: currency-registry configs, off-boarding claim
    records, router selector descriptors.
  - `fee_manager`: the fee manager precompile — governance admin, currency lifecycle
    (add, enable, deprecation grace, emergency disable, prune), validator accept-sets
    kept in sync with their reverse index, user fee-token preferences, fee ledger,
    off-boarding escrow, and the event log; routing of decoded calls; token transfers are
    handed to a callback.
  - `fee_events`: the events the fee manager emits.
  - `issuer_registry`: per-currency allowlist of MIP-20 issuers, with its event log.
  - `precompile`: calldata pricing and hardfork-gated selector dispatch.
  - `fee_inference`: fee-token resolution of a transaction.
  - `gas`: fee-token spending of a transaction's gas (256-bit arithmetic).
  - `iso20022`: pacs.008 / camt.053 / camt.054 builders and the pain.001 parser
    (XML tokenized by `quick_xml`, state machine verified).
  - `gateway`: audit records, IPFS endpoints and gzip framing, chain polling decisions,
    ABI decoding of payment logs, configuration, REST request/response logic.
  - `text`: string comparison and hexadecimal numerals.
- `tests/` — the library's tests.
- `app/` — the gateway binary: configuration loading, SQLite audit store, HTTP server,
  chain polling and IPFS transfers around the library.
