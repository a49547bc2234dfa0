# abcf

Pieces of an application framework for ABCI modules, verified with Verus.

- `src/error.rs` — the framework's errors, with their codes and messages.
- `src/response.rs` — the response of an RPC handler, and what a module's
  dispatcher answers for it.
- `src/rpcs.rs` — what the `rpcs` attribute derives from an annotated impl
  block: one dispatcher arm for each path-typed argument of each method
  (decoding into that argument's full path), the name and text of the client
  file, and the trait and generics of the generated dispatcher.
- `src/dispatch.rs` — routing a call to the first arm that answers it, and
  the steps by which the dispatcher answers a routed call.
- `src/utxo.rs` — a sample module and its event.
- `app/` — the token reading and writing of the `rpcs` attribute, the file
  it writes, the async RPC trait, and the serde copy of the sample event.
