# noise

Noise protocol handshakes (`KNpsk0`, `NKpsk0` over P-256, AES-256-GCM and SHA-256) and
transport channels, and caBLE (hybrid transport) discovery for WebAuthn, verified with Verus.

The library performs no cryptographic operation that needs NSS. Each step that needs an
AEAD, AES-CBC, P-256 key generation or Diffie-Hellman returns a request as plain values
(`prepare_*`, `*_request`), and the next step takes the result back (`complete_*`). SHA-256
comes from `sha2`, CBOR from `serde_cbor_2`; HMAC and HKDF are built and proved on SHA-256.

Layout:

- `src/`: the verified library.
  - `cipher`, `cipher_state`, `channel`, `symmetric_state`, `handshake`, `hash`: Noise.
  - `discovery`: QR codes, tunnel servers, key derivation, EIDs and both sessions.
  - `base10`, `ec`, `cable`, `bytes`, `le`: encodings and framing.
- `tests/`: tests, with RustCrypto crates standing in for NSS.
- `app/`: NSS and `authenticator` glue: performs the requests, and adapts a caBLE tunnel to
  `authenticator`'s device traits.
