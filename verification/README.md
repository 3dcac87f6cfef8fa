# signet_cli

The decisions behind the `signet` command line, written in Rust and verified with Verus: who may
use which key, when a grant is still live, what a server's answer means, which failure is retried
and which one ends a command.

* `src/` is the library. A function's contract states its result exactly; where the operating
  system's randomness decides, it states the result for whatever was drawn. The library's laws
  stand beside the functions as proof functions. Calls into outside crates (base64, hex, time,
  serde_json, ml-kem, ml-dsa, rand_core, zeroize) go through small wrappers whose contracts are
  trusted; each says which function it calls.
* `tests/` runs the library on concrete values, with the outside crates linked.
* `app/` is the program around it: arguments, files, processes, TLS and HTTP. What the workspace's
  other crates provide (classical cryptography, certificates, request canonicalization, the
  storage, broker and container transports) comes in through the traits of `app/ports.rs`, and so
  does the access to a Secure Enclave, which takes macOS. A build on its own, without those
  crates, refuses what needs them (`app/bare.rs`). `app/transfer.rs`, `app/recipient.rs` and
  `app/grant_status.rs` are for the workspace's file commands and its broker service.

The check-at-use lease is in `garnet_revocation`, the scoping of delegated key operations in
`host_signer`, verified recipient keys in `recipient_verify`, the broker's recoveries in
`keystore::broker`, and requests and transfers in `http`.
