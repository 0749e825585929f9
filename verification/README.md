# zcash_verifier

Proof-of-balance badges for Zcash. A holder proves ownership of a transparent
or Orchard address and the balance tier it holds, bound by a challenge to a
social identity (`platform:username`); a badge server checks the proof and
stores the badge of that tier.

- `src/` is the library, verified with Verus: the tiers, the signed message,
  making and checking transparent (secp256k1) and Orchard (viewing-key
  attested) proofs, the Orchard scan state, and the rules of the badge server
  and of the command line. Hashes, encodings, key derivation and trial
  decryption are done by the outside crates behind small trusted wrappers.
- `app/` is the program around it: the `verifier` command line (`register`,
  `prove`, `verify`, `scan`, `submit`) and the badge server (`badge-server`),
  with lightwalletd access over gRPC, the SQLite store and JSON.
- `tests/` runs the library on concrete values.
