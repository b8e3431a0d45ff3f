# p2pcore

Trust layer and session configuration for authenticated peer-to-peer channels,
written in Verus.

- `src/identity.rs` — Identity Key (Ed25519 seed), public key, Peer ID.
- `src/sas.rs` — Short Authentication String from a pair of public keys, with
  the proofs that it is order-independent and of its display format.
- `src/trust.rs` — trust levels, records, the `KeyStore` / `TrustStore` traits
  with in-memory implementations, and the `TrustEngine` session gate.
- `src/laws.rs` — properties that span operations of the trust model.
- `src/kx.rs` — the key-exchange groups a Session offers (hybrid post-quantum
  first) and the rustls provider built from them.
- `src/relay.rs` — Relay configuration and the identity an endpoint binds with.
- `src/crypto.rs` — the calls into `ed25519-dalek`, `sha2`, `rand_core`,
  `zeroize` and `String::push`, with the contracts they are trusted to meet.
- `src/error.rs` — error types and their messages.
- `app/lib.rs` — the iroh endpoint (async network binding) and `Display` impls.

`TrustEngine` is generic over its store (`TrustEngine<S = dyn TrustStore>`) and
`load_or_generate_identity` over its key store: Verus loses what it knows of a
`Box<dyn TrustStore>` moved into a struct, and does not accept passing a
`&mut dyn KeyStore` on to another function. Callers write the same code as
with trait objects.

The trust layer and the session configuration share one package here, so the
original's compiler-enforced boundary (no network crate under the trust layer)
is kept by module instead: `identity`, `sas`, `trust` and `laws` import nothing
from `iroh` or `rustls`; only `relay`, `kx` and `app/` do.
