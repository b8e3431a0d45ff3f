//! Identity Key, public key and Peer ID.
//!
//! The Peer ID of a device is its Ed25519 public key; the public key is derived
//! from the 32-byte seed of the Identity Key.

use vstd::prelude::*;

use crate::crypto::{
    ed25519_point_decodes, ed25519_public_key_of_seed, public_key_bytes_from_seed,
    random_signing_seed, verifying_key_from_bytes, zeroize_bytes,
};
use crate::error::TrustError;

verus! {

/// Ed25519 identity of this Peer, held as its 32-byte seed. The seed must not be logged.
pub struct IdentityKey {
    seed: [u8; 32],
    /// Whether the seed was drawn by [`IdentityKey::generate`].
    fresh: Ghost<bool>,
}

impl View for IdentityKey {
    type V = Seq<u8>;

    /// The seed bytes.
    closed spec fn view(&self) -> Seq<u8> {
        self.seed@
    }
}

impl Clone for IdentityKey {
    fn clone(&self) -> (r: Self)
        ensures
            r@ == self@,
            r.is_freshly_generated() == self.is_freshly_generated(),
    {
        IdentityKey { seed: self.seed, fresh: Ghost(self.fresh@) }
    }
}

impl IdentityKey {
    /// Whether this key's seed was drawn from the operating system's random
    /// source by [`IdentityKey::generate`] (rather than rebuilt from given or
    /// stored bytes).
    pub closed spec fn is_freshly_generated(&self) -> bool {
        self.fresh@
    }

    /// Generate a new Identity Key from the operating system's random source.
    /// Fails with `RandomSourceFailed` when that source does not answer.
    pub fn generate() -> (r: Result<Self, TrustError>)
        ensures
            r matches Ok(k) ==> k@.len() == 32 && k.is_freshly_generated(),
            r matches Err(e) ==> e == TrustError::RandomSourceFailed,
    {
        match random_signing_seed() {
            Ok(seed) => Ok(IdentityKey { seed, fresh: Ghost(true) }),
            Err(_) => Err(TrustError::RandomSourceFailed),
        }
    }

    /// Reconstruct from a 32-byte seed.
    pub fn from_seed_bytes(seed: [u8; 32]) -> (r: Self)
        ensures
            r@ == seed@,
            !r.is_freshly_generated(),
    {
        IdentityKey { seed, fresh: Ghost(false) }
    }

    /// The 32-byte seed. Do not log this value.
    pub fn to_seed_bytes(&self) -> (r: [u8; 32])
        ensures
            r@ == self@,
    {
        self.seed
    }

    /// The Ed25519 public key derived from the seed.
    pub fn public_key(&self) -> (r: PublicKey)
        ensures
            r@ == ed25519_public_key_of_seed(self@),
            ed25519_point_decodes(r@),
    {
        PublicKey(public_key_bytes_from_seed(&self.seed))
    }

    /// The Peer ID of this identity: its public key.
    pub fn peer_id(&self) -> (r: PeerId)
        ensures
            r@ == ed25519_public_key_of_seed(self@),
            ed25519_point_decodes(r@),
    {
        self.public_key().peer_id()
    }

    /// Overwrite the seed with zeros.
    pub fn zeroize(&mut self)
        ensures
            final(self)@ == Seq::new(32, |i: int| 0u8),
    {
        zeroize_bytes(&mut self.seed);
    }
}

/// 32-byte Ed25519 public key.
#[derive(Clone, Copy, Debug, PartialEq, Eq, PartialOrd, Ord, Hash)]
pub struct PublicKey([u8; 32]);

impl View for PublicKey {
    type V = Seq<u8>;

    /// The encoded key bytes.
    closed spec fn view(&self) -> Seq<u8> {
        self.0@
    }
}

impl PublicKey {
    /// Accept 32 bytes as a public key if they decode to a curve point.
    pub fn from_bytes(bytes: [u8; 32]) -> (r: Result<Self, TrustError>)
        ensures
            match r {
                Ok(k) => ed25519_point_decodes(bytes@) && k@ == bytes@,
                Err(e) => !ed25519_point_decodes(bytes@) && e == TrustError::InvalidPublicKey,
            },
    {
        match verifying_key_from_bytes(&bytes) {
            Ok(_) => Ok(PublicKey(bytes)),
            Err(_) => Err(TrustError::InvalidPublicKey),
        }
    }

    pub fn as_bytes(&self) -> (r: &[u8; 32])
        ensures
            r@ == self@,
    {
        &self.0
    }

    pub fn to_bytes(self) -> (r: [u8; 32])
        ensures
            r@ == self@,
    {
        self.0
    }

    /// The Peer ID that is this public key.
    pub fn peer_id(self) -> (r: PeerId)
        ensures
            r@ == self@,
    {
        PeerId(self)
    }
}

/// Canonical encoding of a [`PublicKey`]. The Peer ID is the public key.
#[derive(Clone, Copy, Debug, PartialEq, Eq, PartialOrd, Ord, Hash)]
pub struct PeerId(PublicKey);

impl View for PeerId {
    type V = Seq<u8>;

    /// The bytes of the public key.
    closed spec fn view(&self) -> Seq<u8> {
        self.0@
    }
}

impl PeerId {
    /// Accept 32 bytes as a Peer ID if they are a valid public key.
    pub fn from_bytes(bytes: [u8; 32]) -> (r: Result<Self, TrustError>)
        ensures
            match r {
                Ok(p) => ed25519_point_decodes(bytes@) && p@ == bytes@,
                Err(e) => !ed25519_point_decodes(bytes@) && e == TrustError::InvalidPublicKey,
            },
    {
        match PublicKey::from_bytes(bytes) {
            Ok(k) => Ok(PeerId(k)),
            Err(e) => Err(e),
        }
    }

    pub fn as_bytes(&self) -> (r: &[u8; 32])
        ensures
            r@ == self@,
    {
        self.0.as_bytes()
    }

    pub fn to_bytes(self) -> (r: [u8; 32])
        ensures
            r@ == self@,
    {
        self.0.to_bytes()
    }

    pub fn public_key(self) -> (r: PublicKey)
        ensures
            r@ == self@,
    {
        self.0
    }
}

/// Byte-wise equality of two 32-byte keys.
pub(crate) fn same_key_bytes(a: &[u8; 32], b: &[u8; 32]) -> (r: bool)
    ensures
        r == (a@ == b@),
{
    let mut i: usize = 0;
    while i < 32
        invariant
            0 <= i <= 32,
            forall|j: int| 0 <= j < i ==> a@[j] == b@[j],
        decreases 32 - i,
    {
        if a[i] != b[i] {
            return false;
        }
        i = i + 1;
    }
    assert(a@ =~= b@);
    true
}

} // verus!
