# lianad_payjoin

The payjoin part of a Bitcoin wallet daemon, verified with Verus.

A payjoin is a transaction to which both the sender and the receiver of a payment contribute
inputs. The wallet plays either part. What it has to do at each moment (post the original PSBT, poll
the directory, contribute a coin, finalize a signed PSBT, answer the sender, store the outcome) is
decided by the library in `src/`; `app/` does it.

- `src/psbt.rs`: transactions and PSBTs as plain values.
- `src/sessions/`: payjoins that are kept as a log of events. `types.rs` and `db.rs` say what is
  stored, `helpers.rs` finalizes PSBTs, `sender.rs` and `receiver.rs` hold the decisions.
- `src/records/`: payjoins that are kept as one record each.
- `src/wire.rs`, `src/protocol.rs`: the calls into rust-bitcoin and the payjoin crate. Their
  contracts are not proved; results that take pages to state are given names.
- `app/`: the database, the HTTP requests, miniscript and the payjoin crate's states around the
  library.

The properties that hold of the library as a whole are the public proof functions whose names begin
with `law_`.
