# supply_processors

Transaction-processing logic of three Hyperledger Sawtooth transaction
families, verified with Verus:

- `claims`: agreements on a GTIN, created by one party and agreed to by others;
- `program`: GTIN programs in which organisations record their status
  (`gitin` holds the first draft of that family's contract);
- `po`: purchase orders, placed and later received.

Each family keeps, at the address `namespace + first 64 hex digits of
SHA-512(key)`, a list of records; a record is read as the first one with its
key, and written by replacing that first one (it moves to the end of the list)
or by appending.

Layout of `src/`:

- `record.rs`: keyed record lists, lookup and upsert, with their laws;
- `state.rs`: the state a transaction sees, one slot per address;
- `ledger.rs`: reading and writing one record at its address, with the
  read-after-write laws;
- `address.rs`: addresses (SHA-512 through `rust-crypto`);
- `error.rs`, `text.rs`: errors and their texts;
- `claims.rs`, `program.rs`, `po.rs`, `gitin.rs`: the families and their
  handlers;
- `payloads.rs`: the sample payloads; `po_cli.rs`: what the purchase-order
  command line computes.

`app/` holds the Sawtooth handlers, the Protocol Buffers encoding and the
command-line tools around the library.
