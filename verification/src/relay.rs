//! Session-layer configuration: how an endpoint reaches a Relay, and where the
//! endpoint's Identity Key comes from when it binds.

use std::str::FromStr;

use iroh::{RelayUrl, RelayUrlParseError};
use vstd::prelude::*;

use crate::error::{Error, TrustError};
use crate::identity::IdentityKey;
use crate::trust::KeyStore;

verus! {

#[verifier::external_type_specification]
#[verifier::external_body]
pub struct ExRelayUrl(RelayUrl);

#[verifier::external_type_specification]
#[verifier::external_body]
pub struct ExRelayUrlParseError(RelayUrlParseError);

/// Whether iroh accepts the text as a Relay URL (it parses it with `url::Url`).
pub uninterp spec fn relay_url_parses(text: Seq<char>) -> bool;

/// Calls `iroh::RelayUrl::from_str`. Claimed: the result is `Ok` exactly when the
/// text parses, which depends on the text alone. Which URL comes back is not
/// stated: the type is opaque here.
#[verifier::external_body]
fn parse_relay_url(text: &str) -> (r: Result<RelayUrl, RelayUrlParseError>)
    ensures
        r is Ok <==> relay_url_parses(text@),
{
    RelayUrl::from_str(text)
}

/// Which Relays an endpoint may use.
pub enum RelayKind {
    /// No Relay.
    Disabled,
    /// Self-hosted Relays, by the URL text that was checked to parse.
    Custom(Vec<String>),
    /// The n0 public Relays.
    N0Public,
}

/// How this endpoint reaches a Relay.
///
/// The production default is [`RelayConfig::disabled`]: no n0 public relays.
pub struct RelayConfig {
    kind: RelayKind,
}

impl RelayConfig {
    /// The Relay choice this configuration holds.
    pub closed spec fn kind(&self) -> RelayKind {
        self.kind
    }

    /// No Relay. This is the production default.
    pub fn disabled() -> (r: Self)
        ensures
            r.kind() is Disabled,
    {
        RelayConfig { kind: RelayKind::Disabled }
    }

    /// Self-hosted Relay URLs (e.g. `https://relay.example`). Refused when the
    /// list is empty or any entry is not a URL.
    pub fn custom(urls: &[&str]) -> (r: Result<Self, Error>)
        ensures
            r is Ok <==> (urls@.len() > 0 && forall|i: int| 0 <= i < urls@.len() ==> relay_url_parses(#[trigger] urls@[i]@)),
            r matches Ok(c) ==> (c.kind() matches RelayKind::Custom(v) && v@.len() == urls@.len()
                && forall|i: int| 0 <= i < urls@.len() ==> #[trigger] v@[i]@ == urls@[i]@),
            r matches Err(e) ==> e == Error::InvalidRelayUrl,
    {
        let mut parsed: Vec<String> = Vec::new();
        let mut i: usize = 0;
        while i < urls.len()
            invariant
                0 <= i <= urls@.len(),
                parsed@.len() == i,
                forall|j: int| 0 <= j < i ==> relay_url_parses(#[trigger] urls@[j]@),
                forall|j: int| 0 <= j < i ==> #[trigger] parsed@[j]@ == urls@[j]@,
            decreases urls@.len() - i,
        {
            match parse_relay_url(urls[i]) {
                Ok(_) => parsed.push(urls[i].to_owned()),
                Err(_) => {
                    return Err(Error::InvalidRelayUrl);
                },
            }
            i = i + 1;
        }
        if parsed.len() == 0 {
            return Err(Error::InvalidRelayUrl);
        }
        Ok(RelayConfig { kind: RelayKind::Custom(parsed) })
    }

    /// Explicit opt-in to n0 public relays. Development only.
    pub fn n0_public() -> (r: Self)
        ensures
            r.kind() is N0Public,
    {
        RelayConfig { kind: RelayKind::N0Public }
    }

    /// The Relay choice, for the transport to configure itself with.
    pub fn into_kind(self) -> (r: RelayKind)
        ensures
            r == self.kind(),
    {
        self.kind
    }
}

/// The outcome once a newly generated key `id` was handed to the key store's
/// `save`: a save error is returned as a trust error, unchanged.
pub fn identity_after_save(id: IdentityKey, saved: Result<(), TrustError>) -> (r: Result<IdentityKey, Error>)
    ensures
        match saved {
            Ok(()) => r == Ok::<IdentityKey, Error>(id),
            Err(e) => r == Err::<IdentityKey, Error>(Error::Trust(e)),
        },
{
    match saved {
        Err(e) => Err(Error::Trust(e)),
        Ok(()) => Ok(id),
    }
}

/// The Identity Key an endpoint binds with, given what `key_store.load()`
/// returned: a load error is returned as a trust error, a loaded key is used as
/// it is, and when the store is empty a newly generated key is saved there
/// first (see [`identity_after_save`]); when the random source fails nothing is
/// saved and the error is `RandomSourceFailed`.
pub fn identity_after_load<K: KeyStore + ?Sized>(key_store: &mut K, loaded: Result<Option<IdentityKey>, TrustError>) -> (r: Result<IdentityKey, Error>)
    ensures
        loaded matches Err(e) ==> r == Err::<IdentityKey, Error>(Error::Trust(e)) && final(key_store).stored_seed() == old(key_store).stored_seed() && final(key_store).never_fails() == old(key_store).never_fails(),
        loaded matches Ok(Some(k)) ==> r == Ok::<IdentityKey, Error>(k) && final(key_store).stored_seed() == old(key_store).stored_seed() && final(key_store).never_fails() == old(key_store).never_fails(),
        loaded is Ok && loaded->Ok_0 is None ==> (r matches Ok(k) ==> final(key_store).stored_seed() == Some(k@)
            && k.is_freshly_generated()),
        loaded is Ok && loaded->Ok_0 is None ==> (r matches Err(e) ==> e is Trust),
        loaded is Ok && loaded->Ok_0 is None && old(key_store).never_fails() ==> final(key_store).never_fails()
            && (r is Ok || r == Err::<IdentityKey, Error>(Error::Trust(TrustError::RandomSourceFailed))),
        r == Err::<IdentityKey, Error>(Error::Trust(TrustError::RandomSourceFailed)) && old(key_store).never_fails()
            ==> final(key_store).stored_seed() == old(key_store).stored_seed(),
{
    match loaded {
        Err(e) => Err(Error::Trust(e)),
        Ok(Some(id)) => Ok(id),
        Ok(None) => {
            match IdentityKey::generate() {
                Err(e) => Err(Error::Trust(e)),
                Ok(id) => {
                    let saved = key_store.save(&id);
                    identity_after_save(id, saved)
                },
            }
        },
    }
}

/// The Identity Key an endpoint binds with: the one in `key_store`, or, when
/// the store is empty, a newly generated one that is saved there first.
pub fn load_or_generate_identity<K: KeyStore + ?Sized>(key_store: &mut K) -> (r: Result<IdentityKey, Error>)
    ensures
        r matches Ok(id) ==> final(key_store).stored_seed() == Some(id@),
        r matches Ok(id) ==> (old(key_store).stored_seed() matches Some(s) ==> id@ == s),
        r matches Ok(id) ==> (old(key_store).stored_seed() is None ==> id.is_freshly_generated()),
        old(key_store).stored_seed() is Some ==> final(key_store).stored_seed() == old(key_store).stored_seed() && final(key_store).never_fails() == old(key_store).never_fails(),
        r matches Err(e) ==> e is Trust,
        old(key_store).never_fails() ==> final(key_store).never_fails()
            && (r is Ok || r == Err::<IdentityKey, Error>(Error::Trust(TrustError::RandomSourceFailed))),
        old(key_store).never_fails() && old(key_store).stored_seed() is Some ==> r is Ok,
{
    let loaded = key_store.load();
    identity_after_load(key_store, loaded)
}

} // verus!
