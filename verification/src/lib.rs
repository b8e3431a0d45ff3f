//! Trust layer and session configuration for authenticated peer-to-peer channels.
//!
//! A Peer is identified by its Ed25519 public key: the Peer ID *is* the public key.
//! The trust layer keeps, per device public key, whether that key was verified
//! out of band or only remembered on first use (TOFU), and decides what a
//! session gate does when the key a transport presents differs from the key
//! the application intended to reach.

mod crypto;
mod error;
mod identity;
mod kx;
pub mod laws;
mod relay;
mod sas;
mod trust;

pub use error::{Error, TrustError};
pub use identity::{IdentityKey, PeerId, PublicKey};
pub use kx::{hybrid_pq_provider, kx_names, kx_preference, KxGroup, SessionProvider};
pub use relay::{identity_after_load, identity_after_save, load_or_generate_identity, RelayConfig, RelayKind};
pub use sas::{sas, Sas};
pub use trust::{
    after_write, decide_evaluation, decide_introduction, state_from_lookup, EvaluateDecision, IntroductionChannel, KeyStore,
    MemoryKeyStore, MemoryTrustStore, StoredTrust, TrustEngine, TrustRecord, TrustState,
    TrustStore,
};
