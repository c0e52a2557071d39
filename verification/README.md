# rustls-cng-crypto

The verified core of a rustls crypto provider backed by Windows CNG.

- `src/` (Verus): TLS 1.2 record protection plans for AES-GCM and
  ChaCha20-Poly1305 (nonces, additional data, record framing, the record size
  limit), key-block shapes and key extraction, the RSA key-size policy, public
  key decoding for verification, ECDSA signature re-encoding, FIPS selection
  and the encoding of CNG string properties. Proof functions state the laws
  that tie these together (records open with the nonce and additional data
  they were sealed with, nonces never repeat, the policy counts the modulus's
  true bit length, re-encoded signatures keep their integers).
- `app/`: the rustls trait implementations and the CNG calls themselves
  (key import, AEAD, hashing, signature verification). It builds for Windows
  targets only.
- `tests/`: tests of the library.
