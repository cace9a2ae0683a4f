# purecrypto_tpm

A TPM 2.0 stack that speaks the TPM 2.0 command/response wire protocol
directly, verified with Verus. The session cryptography (SHA-2/SM3 digests,
HMAC, and the AES-CFB transform) comes from the `purecrypto` crate.

## Layout

* `src/` — the verified library.
  * `marshal.rs`: big-endian encoding, the bounds-checked `Reader`, the
    `Marshal`/`Unmarshal` traits, and the encode/decode round-trip lemmas.
  * `types/`: constants, `Alg`, `Handle`, `TPMA_*` attributes and the modelled
    structures (`Buffer`, `Public`, `SensitiveCreate`, PCR selections).
  * `crypto.rs`: hash/HMAC dispatch over `purecrypto`, KDFa and AES-CFB.
  * `session.rs`: session keys, command HMACs and response verification.
  * `tpm.rs`: the dispatcher that frames commands, records every exchange in a
    ghost history, and unframes replies; `commands/` holds the typed commands.
  * `transport.rs`: the `Transport` trait; `transport/simulator.rs`: the
    simulator socket's command framing and the judging of its replies.
* `app/` — the operating-system side: the Linux character-device and
  simulator-socket transports (their file and socket I/O), and `Display` for
  the error types.
* `tests/` — tests against the library, including end-to-end runs against a
  scripted transport.

Every command method states, over the ghost history, exactly which bytes it
sent and what it makes of the reply it got back.
