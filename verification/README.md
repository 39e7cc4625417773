# blind_signatures_conservative

Byte-level logic of a blind signature scheme whose users register with a
judge before they obtain signatures.

- `src/` is the verified library (Verus): the tagged registration messages,
  the masking of the registration nonces, the acceptance rules of each
  protocol step, the RainHash input framing, the splitting of blinded
  signatures and the verifier's registration checks, with the laws that tie
  the steps together in `src/laws.rs`.
- `app/` drives the outside code around it: the RainHash C function and the
  MAYO signatures of the judge and the signer.
- `tests/` runs the library on concrete values.
