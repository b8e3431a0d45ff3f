//! The key-exchange groups a Session handshake offers, in order of preference:
//! the hybrid post-quantum group first, then the classical ones.

use std::sync::Arc;

use rustls::crypto::aws_lc_rs::{self, kx_group};
use rustls::crypto::CryptoProvider;
use vstd::prelude::*;

verus! {

#[verifier::external_type_specification]
#[verifier::external_body]
pub struct ExCryptoProvider(CryptoProvider);

/// A TLS key-exchange group.
#[derive(Clone, Copy, Debug, PartialEq, Eq, Structural)]
pub enum KxGroup {
    /// Hybrid X25519 + ML-KEM-768.
    X25519MlKem768,
    X25519,
    Secp256r1,
    Secp384r1,
}

/// The order in which a Session handshake offers key-exchange groups.
pub open spec fn kx_preference_spec() -> Seq<KxGroup> {
    seq![KxGroup::X25519MlKem768, KxGroup::X25519, KxGroup::Secp256r1, KxGroup::Secp384r1]
}

/// The TLS name of each group.
pub open spec fn kx_group_name_spec(g: KxGroup) -> Seq<char> {
    match g {
        KxGroup::X25519MlKem768 => "X25519MLKEM768"@,
        KxGroup::X25519 => "X25519"@,
        KxGroup::Secp256r1 => "secp256r1"@,
        KxGroup::Secp384r1 => "secp384r1"@,
    }
}

impl KxGroup {
    /// The group's TLS name, as rustls writes it.
    pub fn name(&self) -> (r: &'static str)
        ensures
            r@ == kx_group_name_spec(*self),
    {
        match self {
            KxGroup::X25519MlKem768 => "X25519MLKEM768",
            KxGroup::X25519 => "X25519",
            KxGroup::Secp256r1 => "secp256r1",
            KxGroup::Secp384r1 => "secp384r1",
        }
    }
}

/// The key-exchange groups a Session offers: hybrid post-quantum first.
pub fn kx_preference() -> (r: Vec<KxGroup>)
    ensures
        r@ == kx_preference_spec(),
{
    let mut r: Vec<KxGroup> = Vec::new();
    r.push(KxGroup::X25519MlKem768);
    r.push(KxGroup::X25519);
    r.push(KxGroup::Secp256r1);
    r.push(KxGroup::Secp384r1);
    assert(r@ =~= kx_preference_spec());
    r
}

/// The TLS names of the groups, in the order given.
pub fn kx_names(groups: &[KxGroup]) -> (r: Vec<&'static str>)
    ensures
        r@.len() == groups@.len(),
        forall|i: int| 0 <= i < groups@.len() ==> #[trigger] r@[i]@ == kx_group_name_spec(groups@[i]),
{
    let mut r: Vec<&'static str> = Vec::new();
    let mut i: usize = 0;
    while i < groups.len()
        invariant
            0 <= i <= groups@.len(),
            r@.len() == i,
            forall|j: int| 0 <= j < i ==> #[trigger] r@[j]@ == kx_group_name_spec(groups@[j]),
        decreases groups@.len() - i,
    {
        r.push(groups[i].name());
        i = i + 1;
    }
    r
}

/// A rustls provider for Sessions, with the key-exchange groups it offers.
pub struct SessionProvider {
    provider: Arc<CryptoProvider>,
    groups: Ghost<Seq<KxGroup>>,
}

impl SessionProvider {
    /// The key-exchange groups the provider offers, in order.
    pub closed spec fn groups(&self) -> Seq<KxGroup> {
        self.groups@
    }

    /// The rustls provider, for the transport to configure itself with.
    pub fn into_provider(self) -> Arc<CryptoProvider> {
        self.provider
    }
}

/// Calls `rustls::crypto::aws_lc_rs::default_provider` and replaces its
/// key-exchange groups with rustls's `kx_group` statics for the given groups,
/// one for one and in the given order. Claimed: the provider offers exactly
/// those groups in that order.
#[verifier::external_body]
fn provider_with_kx_groups(groups: &[KxGroup]) -> (r: SessionProvider)
    ensures
        r.groups() == groups@,
{
    let mut provider = aws_lc_rs::default_provider();
    provider.kx_groups = groups
        .iter()
        .map(|g| match g {
            KxGroup::X25519MlKem768 => kx_group::X25519MLKEM768,
            KxGroup::X25519 => kx_group::X25519,
            KxGroup::Secp256r1 => kx_group::SECP256R1,
            KxGroup::Secp384r1 => kx_group::SECP384R1,
        })
        .collect();
    SessionProvider { provider: Arc::new(provider), groups: Ghost(groups@) }
}

/// The TLS provider for Sessions, offering the groups of [`kx_preference`]:
/// hybrid post-quantum first.
pub fn hybrid_pq_provider() -> (r: SessionProvider)
    ensures
        r.groups() == kx_preference_spec(),
{
    let groups = kx_preference();
    provider_with_kx_groups(groups.as_slice())
}

} // verus!
