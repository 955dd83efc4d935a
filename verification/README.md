# sia_storage_flutter

Bindings of the Sia Storage SDK (`sia_storage`) for Flutter and Dart, with
their logic verified by Verus.

- `src/` is the verified library: the data model handed to the application
  (`types`), the text forms of identifiers and their parsing (`hex`), app
  keys and recovery phrases (`keys`), slabs in raw and text form (`slabs`),
  pinned objects with sealing and opening (`object`), upload and download
  options (`options`), the onboarding state machine (`builder`), packed
  upload bookkeeping (`upload`), request helpers (`sdk`) and the decisions
  of the byte streams (`stream`). Calls into `sia_storage`, `sia_core` and
  `chrono` sit behind small trusted wrappers whose contracts say what the
  call returns.
- `app/` holds what the library cannot: the asynchronous calls to the
  indexer and hosts, the mutexes behind the handles that Dart keeps, the
  streams to and from Dart, and the types with floating-point fields.
- `tests/` exercises the library on concrete values.

Main properties proved: identifiers and host keys printed by the library
parse back to the same bytes; a slab's text form parses back to it; an
object sealed with a key opens with that key and gives back its slabs,
metadata and created and updated times; a generated recovery phrase is
twelve lower-case words joined by single spaces; option values left unset take the SDK defaults; the onboarding
builder only moves along its allowed transitions and is unusable after a
refused or failed step; a finalized packed upload refuses every call.

`sia_mux` is named in `Cargo.toml` only to hold it at 0.1.1: later releases
use `ed25519-dalek` 3, while `sia_storage` 0.10.0 hands them `ed25519-dalek`
2 keys and does not compile against them.

`hex` is named only for its `FromHexError`, the error that `sia_core`'s
identifier parsing wraps: the library converts it, variant by variant, to
an error type of its own so that its contracts can say which error and
which message a refused identifier gets.
