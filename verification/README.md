# mutiny-core

The decisions of a Lightning wallet, verified with Verus.

- `src/event.rs`, `src/handler.rs`: what the wallet does about each event of its Lightning node.
  Handling an event is a sequence of steps; each asks for one action of the outside world and goes
  on with the reply. `src/handler_laws.rs` states what holds of whole runs.
- `src/payment.rs`: the record of a payment and how it changes. `src/record.rs` and
  `src/record_laws.rs`: its JSON form, how it is written and what is accepted when it is read.
- `src/primal.rs`: the requests to the Primal API and the reading of its answers.
  `src/primal_laws.rs` states what holds of all of them.
- `src/transaction.rs`: transactions, and the one that comes of a partially signed one.
- `src/key.rs`, `src/nostr_event.rs`, `src/json.rs`, `src/hex.rs`, `src/number.rs`: keys, Nostr
  events, JSON values, hexadecimal text and the two numbers that handling an event computes.
- `app/`: the asynchronous side. It performs the actions, logs, sends the requests and turns the
  values of the outside crates into those of the library.
