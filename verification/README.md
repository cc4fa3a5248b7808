# kms_service

A key management service: custody of per-service key pairs sealed under
versioned master keys, access control for handing out key material, signing
on a service's behalf, key rotation and re-sealing, a Shamir-share ceremony
that unlocks the store, password-protected payloads, and rate limiting.

- `src/` is the library, verified with Verus. Each module states its
  operations' contracts over spec functions and views; the laws (round trips,
  the rate limiter's window bound, the ceremony's digest check) are public
  proof functions next to the code they describe. The calls into the
  cryptographic crates sit in `src/primitives.rs` and `src/ids.rs`, each with
  the contract the crate's documentation supports.
- `app/` is the program around it: command line, configuration files, the
  HTTP server, the document store and the cache. It hands the library plain
  values and runs each use case's steps in order.
- `tests/` exercises the library with the real outside crates.
