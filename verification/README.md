# soroscan_core

The SoroScan core contract: authorised indexers submit records of events that
other Soroban contracts emitted; the contract counts them, keeps the latest
record of each event type (plain, tagged and structured records apart) and
publishes each one for off-chain consumers. An admin manages the indexers.

- `src/` is the verified library. `contract.rs` holds the instance storage slot
  by slot, describes every entry point by a step function over the contract's
  state (its storage and the events published so far) and implements it on
  `SoroScanCore`; `types.rs` the records, addresses, symbols and errors;
  `assoc_map.rs` the verified map behind the indexer map and the per-type
  records; `laws.rs` the properties that span calls, over single calls and over
  any sequence of calls.
- `app/` is the Soroban contract itself: it authenticates callers, moves the
  slots a call touches between the host and `SoroScanCore`, and publishes the
  events that the core produced.
- `tests/` runs the library on concrete calls.
