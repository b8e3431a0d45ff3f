//! Trust State: what is known of each device public key, how it is stored, and
//! the engine that introduces Peers, upgrades them after SAS comparison, and
//! gates Sessions on the key the transport presents.

use vstd::prelude::*;

use crate::crypto::{ed25519_point_decodes, ed25519_public_key_of_seed};
use crate::error::TrustError;
use crate::identity::{same_key_bytes, IdentityKey, PeerId, PublicKey};

verus! {

/// How the application obtained a Peer ID.
#[derive(Clone, Copy, Debug, PartialEq, Eq, Structural)]
pub enum IntroductionChannel {
    /// Face-to-face QR (or other trusted out-of-band channel).
    Trusted,
    /// Paste, forward, web page, or other untrusted channel.
    Untrusted,
}

/// Trust level of a Peer. `Unknown` means no record.
#[derive(Clone, Copy, Debug, PartialEq, Eq, Structural)]
pub enum TrustState {
    Unknown,
    Tofu,
    Verified,
}

/// Persisted trust level (never `Unknown`).
#[derive(Clone, Copy, Debug, PartialEq, Eq, Structural)]
pub enum StoredTrust {
    Tofu,
    Verified,
}

/// The trust level that a stored level reads as.
pub open spec fn state_of_stored(s: StoredTrust) -> TrustState {
    match s {
        StoredTrust::Tofu => TrustState::Tofu,
        StoredTrust::Verified => TrustState::Verified,
    }
}

impl From<StoredTrust> for TrustState {
    fn from(value: StoredTrust) -> (r: TrustState) {
        match value {
            StoredTrust::Tofu => TrustState::Tofu,
            StoredTrust::Verified => TrustState::Verified,
        }
    }
}

impl vstd::std_specs::convert::FromSpecImpl<StoredTrust> for TrustState {
    open spec fn obeys_from_spec() -> bool {
        true
    }

    open spec fn from_spec(v: StoredTrust) -> TrustState {
        state_of_stored(v)
    }
}

/// Local record for one device public key.
///
/// The primary key is the device public key. `_reserved_endorsements` keeps room
/// for a future primary-identity endorsement field without a model break.
#[derive(Debug, PartialEq, Eq)]
pub struct TrustRecord {
    pub public_key: PublicKey,
    pub state: StoredTrust,
    _reserved_endorsements: (),
}

impl Clone for TrustRecord {
    fn clone(&self) -> (r: Self)
        ensures
            r == *self,
    {
        TrustRecord { public_key: self.public_key, state: self.state, _reserved_endorsements: () }
    }
}

impl TrustRecord {
    /// The bytes of the device public key this record is for.
    pub closed spec fn key(&self) -> Seq<u8> {
        self.public_key@
    }

    /// The trust level this record holds.
    pub closed spec fn stored(&self) -> StoredTrust {
        self.state
    }

    pub fn new(public_key: PublicKey, state: StoredTrust) -> (r: Self)
        ensures
            r.key() == public_key@,
            r.stored() == state,
    {
        TrustRecord { public_key, state, _reserved_endorsements: () }
    }

    pub fn peer_id(&self) -> (r: PeerId)
        ensures
            r@ == self.key(),
    {
        self.public_key.peer_id()
    }
}

/// Result of [`TrustEngine::evaluate`].
#[derive(Clone, Debug, PartialEq, Eq)]
pub enum EvaluateDecision {
    Allow { state: StoredTrust },
    /// Intended Peer was Verified; presented key does not match.
    RejectVerifiedMismatch { intended: PeerId, presented: PublicKey },
    /// Intended Peer was TOFU; presented key does not match. Application decides.
    AlertTofuMismatch { intended: PeerId, presented: PublicKey, previous: StoredTrust },
    /// No record for intended, and presented key is a different Peer.
    RejectUnknownMismatch { intended: PeerId, presented: PublicKey },
}

/// Trust levels stored, keyed by the bytes of the device public key.
pub type TrustMap = Map<Seq<u8>, StoredTrust>;

/// The stored level for a key, if any.
pub open spec fn stored_for(m: TrustMap, key: Seq<u8>) -> Option<StoredTrust> {
    if m.contains_key(key) {
        Some(m[key])
    } else {
        None
    }
}

/// The trust level a key reads as: `Unknown` when nothing is stored.
pub open spec fn state_in(m: TrustMap, key: Seq<u8>) -> TrustState {
    match stored_for(m, key) {
        Some(s) => state_of_stored(s),
        None => TrustState::Unknown,
    }
}

/// The level an introduction leaves: a trusted channel makes an unknown Peer
/// Verified, an untrusted one makes it TOFU; an existing level is kept, so
/// Verified never downgrades and TOFU is never upgraded by an introduction.
pub open spec fn introduction_of(existing: Option<StoredTrust>, channel: IntroductionChannel) -> StoredTrust {
    match existing {
        Some(s) => s,
        None => match channel {
            IntroductionChannel::Trusted => StoredTrust::Verified,
            IntroductionChannel::Untrusted => StoredTrust::Tofu,
        },
    }
}

/// The store after introducing `peer` through `channel`.
pub open spec fn introduced(m: TrustMap, peer: Seq<u8>, channel: IntroductionChannel) -> TrustMap {
    m.insert(peer, introduction_of(stored_for(m, peer), channel))
}

/// The store after marking `peer` Verified.
pub open spec fn marked_verified(m: TrustMap, peer: Seq<u8>) -> TrustMap {
    m.insert(peer, StoredTrust::Verified)
}

/// The Session gate's decision, given what is stored for the intended Peer.
pub open spec fn evaluation_of(intended: PeerId, presented: PublicKey, existing: Option<StoredTrust>) -> EvaluateDecision {
    if presented@ == intended@ {
        EvaluateDecision::Allow {
            state: match existing {
                Some(s) => s,
                None => StoredTrust::Tofu,
            },
        }
    } else {
        match existing {
            Some(StoredTrust::Verified) => EvaluateDecision::RejectVerifiedMismatch { intended, presented },
            Some(StoredTrust::Tofu) => EvaluateDecision::AlertTofuMismatch {
                intended,
                presented,
                previous: StoredTrust::Tofu,
            },
            None => EvaluateDecision::RejectUnknownMismatch { intended, presented },
        }
    }
}

/// The store after evaluating: only the first contact with a matching key
/// writes, and it records TOFU.
pub open spec fn evaluated(m: TrustMap, intended: Seq<u8>, presented: Seq<u8>) -> TrustMap {
    if presented == intended && !m.contains_key(intended) {
        m.insert(presented, StoredTrust::Tofu)
    } else {
        m
    }
}

/// The level an introduction leaves, computed from what is stored.
pub fn decide_introduction(existing: Option<StoredTrust>, channel: IntroductionChannel) -> (r: StoredTrust)
    ensures
        r == introduction_of(existing, channel),
{
    match (existing, channel) {
        (None, IntroductionChannel::Trusted) => StoredTrust::Verified,
        (None, IntroductionChannel::Untrusted) => StoredTrust::Tofu,
        (Some(StoredTrust::Verified), _) => StoredTrust::Verified,
        (Some(StoredTrust::Tofu), _) => StoredTrust::Tofu,
    }
}

/// The Session gate's decision, computed from what is stored for the intended Peer.
pub fn decide_evaluation(intended: PeerId, presented: PublicKey, existing: Option<StoredTrust>) -> (r: EvaluateDecision)
    ensures
        r == evaluation_of(intended, presented, existing),
{
    if same_key_bytes(presented.as_bytes(), intended.as_bytes()) {
        let state = match existing {
            Some(s) => s,
            None => StoredTrust::Tofu,
        };
        EvaluateDecision::Allow { state }
    } else {
        match existing {
            Some(StoredTrust::Verified) => EvaluateDecision::RejectVerifiedMismatch { intended, presented },
            Some(StoredTrust::Tofu) => EvaluateDecision::AlertTofuMismatch {
                intended,
                presented,
                previous: StoredTrust::Tofu,
            },
            None => EvaluateDecision::RejectUnknownMismatch { intended, presented },
        }
    }
}

/// The trust level that the result of a store lookup reads as: a lookup error
/// is returned unchanged, no record reads as `Unknown`, and a record reads as
/// its stored level.
pub fn state_from_lookup(looked_up: Result<Option<TrustRecord>, TrustError>) -> (r: Result<TrustState, TrustError>)
    ensures
        match looked_up {
            Err(e) => r == Err::<TrustState, TrustError>(e),
            Ok(None) => r == Ok::<TrustState, TrustError>(TrustState::Unknown),
            Ok(Some(rec)) => r == Ok::<TrustState, TrustError>(state_of_stored(rec.stored())),
        },
{
    match looked_up {
        Err(e) => Err(e),
        Ok(None) => Ok(TrustState::Unknown),
        Ok(Some(r)) => Ok(TrustState::from(r.state)),
    }
}

/// The result of an operation once its store write has been attempted: a write
/// error is returned unchanged, otherwise `value`.
pub fn after_write<T>(written: Result<(), TrustError>, value: T) -> (r: Result<T, TrustError>)
    ensures
        match written {
            Ok(()) => r == Ok::<T, TrustError>(value),
            Err(e) => r == Err::<T, TrustError>(e),
        },
{
    match written {
        Err(e) => Err(e),
        Ok(()) => Ok(value),
    }
}

/// The seed an optional Identity Key holds.
pub open spec fn seed_of(key: Option<IdentityKey>) -> Option<Seq<u8>> {
    match key {
        Some(k) => Some(k@),
        None => None,
    }
}

/// Persist this Peer's Identity Key.
///
/// An implementation hands back from `load` the key that the last successful
/// `save` stored.
pub trait KeyStore {
    /// The seed of the stored Identity Key, if one is stored.
    spec fn stored_seed(&self) -> Option<Seq<u8>>;

    /// Whether every `load` and `save` on this store succeeds. A store whose
    /// calls can fail (a file, a keychain) defines it as `false`.
    spec fn never_fails(&self) -> bool;

    fn load(&self) -> (r: Result<Option<IdentityKey>, TrustError>)
        ensures
            r matches Ok(k) ==> seed_of(k) == self.stored_seed(),
            self.never_fails() ==> r is Ok,
    ;

    fn save(&mut self, key: &IdentityKey) -> (r: Result<(), TrustError>)
        ensures
            r is Ok ==> final(self).stored_seed() == Some(key@),
            old(self).never_fails() ==> r is Ok && final(self).never_fails(),
    ;
}

/// Whether a looked-up record agrees with what the store holds for `key`.
pub open spec fn record_agrees(r: Option<TrustRecord>, m: TrustMap, key: Seq<u8>) -> bool {
    match r {
        Some(rec) => m.contains_key(key) && rec.key() == key && rec.stored() == m[key],
        None => !m.contains_key(key),
    }
}

/// Persist Trust State keyed by device public key.
///
/// An implementation's `get` hands back what the last successful `put` for
/// that key stored.
pub trait TrustStore {
    /// The trust level held for each device public key.
    spec fn trust_map(&self) -> TrustMap;

    /// Whether every `get` and `put` on this store succeeds. A store whose
    /// calls can fail (a file, a database) defines it as `false`.
    spec fn never_fails(&self) -> bool;

    fn get(&self, peer: &PeerId) -> (r: Result<Option<TrustRecord>, TrustError>)
        ensures
            r matches Ok(rec) ==> record_agrees(rec, self.trust_map(), peer@),
            self.never_fails() ==> r is Ok,
    ;

    fn put(&mut self, record: TrustRecord) -> (r: Result<(), TrustError>)
        ensures
            r is Ok ==> final(self).trust_map() == old(self).trust_map().insert(record.key(), record.stored()),
            old(self).never_fails() ==> r is Ok && final(self).never_fails(),
    ;
}

/// In-memory KeyStore for tests and diskless environments.
#[derive(Clone, Debug)]
pub struct MemoryKeyStore {
    seed: Option<[u8; 32]>,
}

impl MemoryKeyStore {
    pub fn new() -> (r: Self)
        ensures
            r.stored_seed() is None,
            r.never_fails(),
    {
        MemoryKeyStore { seed: None }
    }
}

impl Default for MemoryKeyStore {
    fn default() -> (r: Self)
        ensures
            r.stored_seed() is None,
            r.never_fails(),
    {
        MemoryKeyStore::new()
    }
}

impl KeyStore for MemoryKeyStore {
    closed spec fn stored_seed(&self) -> Option<Seq<u8>> {
        match self.seed {
            Some(s) => Some(s@),
            None => None,
        }
    }

    /// Memory operations do not fail.
    closed spec fn never_fails(&self) -> bool {
        true
    }

    fn load(&self) -> (r: Result<Option<IdentityKey>, TrustError>)
        ensures
            r is Ok,
    {
        match self.seed {
            Some(s) => Ok(Some(IdentityKey::from_seed_bytes(s))),
            None => Ok(None),
        }
    }

    fn save(&mut self, key: &IdentityKey) -> (r: Result<(), TrustError>)
        ensures
            r is Ok,
    {
        self.seed = Some(key.to_seed_bytes());
        Ok(())
    }
}

/// The levels a sequence of records holds; a later record for a key wins.
spec fn records_map(s: Seq<TrustRecord>) -> TrustMap
    decreases s.len(),
{
    if s.len() == 0 {
        Map::empty()
    } else {
        records_map(s.drop_last()).insert(s.last().public_key@, s.last().state)
    }
}

/// No two records are for the same key.
spec fn keys_distinct(s: Seq<TrustRecord>) -> bool {
    forall|i: int, j: int|
        0 <= i < s.len() && 0 <= j < s.len() && i != j ==> #[trigger] s[i].public_key@ != #[trigger] s[j].public_key@
}

/// A key held by some record is in the map with that record's level; a key held
/// by no record is not in the map.
proof fn lemma_records_map_lookup(s: Seq<TrustRecord>, key: Seq<u8>)
    requires
        keys_distinct(s),
    ensures
        forall|i: int| 0 <= i < s.len() && #[trigger] s[i].public_key@ == key ==>
            records_map(s).contains_key(key) && records_map(s)[key] == s[i].state,
        (forall|i: int| 0 <= i < s.len() ==> #[trigger] s[i].public_key@ != key) ==> !records_map(s).contains_key(key),
    decreases s.len(),
{
    if s.len() > 0 {
        let t = s.drop_last();
        assert(keys_distinct(t)) by {
            assert forall|i: int, j: int| 0 <= i < t.len() && 0 <= j < t.len() && i != j implies #[trigger] t[i].public_key@ != #[trigger] t[j].public_key@ by {
                assert(t[i] == s[i] && t[j] == s[j]);
            }
        }
        lemma_records_map_lookup(t, key);
        assert forall|i: int| 0 <= i < s.len() && #[trigger] s[i].public_key@ == key implies
            records_map(s).contains_key(key) && records_map(s)[key] == s[i].state by {
            if i < s.len() - 1 {
                assert(t[i] == s[i]);
                assert(s[i].public_key@ != s[s.len() - 1].public_key@);
            }
        }
        if forall|i: int| 0 <= i < s.len() ==> #[trigger] s[i].public_key@ != key {
            assert forall|i: int| 0 <= i < t.len() implies #[trigger] t[i].public_key@ != key by {
                assert(t[i] == s[i]);
            }
            assert(s[s.len() - 1].public_key@ != key);
        }
    }
}

/// Replacing the only record for a key updates that key's level and nothing else.
proof fn lemma_records_map_update(s: Seq<TrustRecord>, i: int, rec: TrustRecord)
    requires
        keys_distinct(s),
        0 <= i < s.len(),
        s[i].public_key@ == rec.public_key@,
    ensures
        records_map(s.update(i, rec)) == records_map(s).insert(rec.public_key@, rec.state),
    decreases s.len(),
{
    let u = s.update(i, rec);
    let t = s.drop_last();
    if i == s.len() - 1 {
        assert(u.drop_last() =~= t);
        lemma_records_map_lookup(s, rec.public_key@);
    } else {
        assert(keys_distinct(t)) by {
            assert forall|a: int, b: int| 0 <= a < t.len() && 0 <= b < t.len() && a != b implies #[trigger] t[a].public_key@ != #[trigger] t[b].public_key@ by {
                assert(t[a] == s[a] && t[b] == s[b]);
            }
        }
        lemma_records_map_update(t, i, rec);
        assert(u.drop_last() =~= t.update(i, rec));
        assert(s.last().public_key@ != rec.public_key@) by {
            assert(s[i].public_key@ != s[s.len() - 1].public_key@);
        }
    }
    assert(records_map(u) =~= records_map(s).insert(rec.public_key@, rec.state));
}

/// In-memory TrustStore for tests and diskless environments.
#[derive(Debug)]
pub struct MemoryTrustStore {
    records: Vec<TrustRecord>,
}

impl MemoryTrustStore {
    /// Each device public key has at most one record.
    #[verifier::type_invariant]
    closed spec fn keys_unique(self) -> bool {
        keys_distinct(self.records@)
    }

    pub fn new() -> (r: Self)
        ensures
            r.trust_map() == Map::<Seq<u8>, StoredTrust>::empty(),
            r.never_fails(),
    {
        MemoryTrustStore { records: Vec::new() }
    }

    /// Index of the record for `key`, if there is one.
    fn position(&self, key: &[u8; 32]) -> (r: Option<usize>)
        ensures
            match r {
                Some(i) => i < self.records@.len() && self.records@[i as int].public_key@ == key@,
                None => forall|i: int| 0 <= i < self.records@.len() ==> #[trigger] self.records@[i].public_key@ != key@,
            },
    {
        let n = self.records.len();
        let mut i: usize = 0;
        while i < n
            invariant
                0 <= i <= n,
                n == self.records@.len(),
                forall|j: int| 0 <= j < i ==> #[trigger] self.records@[j].public_key@ != key@,
            decreases n - i,
        {
            if same_key_bytes(self.records[i].public_key.as_bytes(), key) {
                return Some(i);
            }
            i = i + 1;
        }
        None
    }
}

impl Clone for MemoryTrustStore {
    fn clone(&self) -> (r: Self)
        ensures
            r.trust_map() == self.trust_map(),
    {
        proof {
            use_type_invariant(self);
        }
        let records = self.records.clone();
        assert(records@ =~= self.records@);
        MemoryTrustStore { records }
    }
}

impl Default for MemoryTrustStore {
    fn default() -> (r: Self)
        ensures
            r.trust_map() == Map::<Seq<u8>, StoredTrust>::empty(),
            r.never_fails(),
    {
        MemoryTrustStore::new()
    }
}

impl TrustStore for MemoryTrustStore {
    closed spec fn trust_map(&self) -> TrustMap {
        records_map(self.records@)
    }

    /// Memory operations do not fail.
    closed spec fn never_fails(&self) -> bool {
        true
    }

    fn get(&self, peer: &PeerId) -> (r: Result<Option<TrustRecord>, TrustError>)
        ensures
            r is Ok,
    {
        proof {
            use_type_invariant(self);
            lemma_records_map_lookup(self.records@, peer@);
        }
        match self.position(peer.as_bytes()) {
            Some(i) => {
                let rec = &self.records[i];
                Ok(Some(TrustRecord::new(rec.public_key, rec.state)))
            },
            None => Ok(None),
        }
    }

    fn put(&mut self, record: TrustRecord) -> (r: Result<(), TrustError>)
        ensures
            r is Ok,
    {
        proof {
            use_type_invariant(&*self);
        }
        let ghost before = self.records@;
        let found = self.position(record.public_key.as_bytes());
        let mut records: Vec<TrustRecord> = Vec::new();
        std::mem::swap(&mut records, &mut self.records);
        match found {
            Some(i) => {
                proof {
                    lemma_records_map_update(before, i as int, record);
                    assert forall|a: int, b: int| 0 <= a < before.len() && 0 <= b < before.len() && a != b implies
                        #[trigger] before.update(i as int, record)[a].public_key@ != #[trigger] before.update(i as int, record)[b].public_key@ by {
                    }
                }
                records.set(i, record);
            },
            None => {
                proof {
                    assert(before.push(record).drop_last() =~= before);
                }
                records.push(record);
            },
        }
        self.records = records;
        Ok(())
    }
}

/// Synchronous trust engine used as the Session gate.
///
/// The store is boxed; by default it is any [`TrustStore`] behind `dyn`.
pub struct TrustEngine<S: TrustStore + ?Sized = dyn TrustStore> {
    identity: IdentityKey,
    trust_store: Box<S>,
}

impl<S: TrustStore + ?Sized> TrustEngine<S> {
    /// The seed of this engine's Identity Key.
    pub closed spec fn identity_seed(&self) -> Seq<u8> {
        self.identity@
    }

    /// What the engine's store holds.
    pub closed spec fn trust_map(&self) -> TrustMap {
        self.trust_store.trust_map()
    }

    /// Whether the engine's store never fails.
    pub closed spec fn store_never_fails(&self) -> bool {
        self.trust_store.never_fails()
    }

    pub fn new(identity: IdentityKey, trust_store: Box<S>) -> (r: Self)
        ensures
            r.identity_seed() == identity@,
            r.trust_map() == trust_store.trust_map(),
            r.store_never_fails() == trust_store.never_fails(),
    {
        TrustEngine { identity, trust_store }
    }

    pub fn peer_id(&self) -> (r: PeerId)
        ensures
            r@ == ed25519_public_key_of_seed(self.identity_seed()),
            ed25519_point_decodes(r@),
    {
        self.identity.peer_id()
    }

    pub fn public_key(&self) -> (r: PublicKey)
        ensures
            r@ == ed25519_public_key_of_seed(self.identity_seed()),
            ed25519_point_decodes(r@),
    {
        self.identity.public_key()
    }

    /// Seed for transport binding. Do not log.
    pub fn to_seed_bytes(&self) -> (r: [u8; 32])
        ensures
            r@ == self.identity_seed(),
    {
        self.identity.to_seed_bytes()
    }

    /// The trust level stored for `peer`; `Unknown` when there is no record.
    pub fn trust_state(&self, peer: &PeerId) -> (r: Result<TrustState, TrustError>)
        ensures
            r matches Ok(s) ==> s == state_in(self.trust_map(), peer@),
            self.store_never_fails() ==> r is Ok,
    {
        state_from_lookup(self.trust_store.get(peer))
    }

    /// Introduce a Peer ID obtained through `channel`.
    ///
    /// Trusted introduction of an unknown Peer gives Verified, untrusted gives
    /// TOFU. Never downgrades Verified. Trusted introduction does **not**
    /// upgrade an existing TOFU (only [`Self::mark_verified`] does).
    pub fn introduce(&mut self, peer: PeerId, channel: IntroductionChannel) -> (r: Result<StoredTrust, TrustError>)
        ensures
            final(self).identity_seed() == old(self).identity_seed(),
            r matches Ok(s) ==> s == introduction_of(stored_for(old(self).trust_map(), peer@), channel)
                && final(self).trust_map() == introduced(old(self).trust_map(), peer@, channel),
            old(self).store_never_fails() ==> r is Ok && final(self).store_never_fails(),
    {
        let looked_up = self.trust_store.get(&peer);
        self.introduce_given(peer, channel, looked_up)
    }

    /// The rest of [`Self::introduce`], given what the store's `get` for `peer`
    /// returned: a lookup error is returned unchanged and nothing is written;
    /// otherwise the level is decided and written with one `put`.
    pub fn introduce_given(
        &mut self,
        peer: PeerId,
        channel: IntroductionChannel,
        looked_up: Result<Option<TrustRecord>, TrustError>,
    ) -> (r: Result<StoredTrust, TrustError>)
        requires
            looked_up matches Ok(rec) ==> record_agrees(rec, old(self).trust_map(), peer@),
        ensures
            final(self).identity_seed() == old(self).identity_seed(),
            looked_up matches Err(e) ==> r == Err::<StoredTrust, TrustError>(e) && *final(self) == *old(self),
            r matches Ok(s) ==> s == introduction_of(stored_for(old(self).trust_map(), peer@), channel)
                && final(self).trust_map() == introduced(old(self).trust_map(), peer@, channel),
            looked_up is Ok && old(self).store_never_fails() ==> r is Ok && final(self).store_never_fails(),
    {
        let existing = match looked_up {
            Err(e) => {
                return Err(e);
            },
            Ok(rec) => rec,
        };
        let existing_state = match existing {
            Some(rec) => Some(rec.state),
            None => None,
        };
        let next = decide_introduction(existing_state, channel);
        let written = self.trust_store.put(TrustRecord::new(peer.public_key(), next));
        after_write(written, next)
    }

    /// After out-of-band SAS comparison. The only upgrade path from TOFU to Verified.
    pub fn mark_verified(&mut self, peer: PeerId) -> (r: Result<StoredTrust, TrustError>)
        ensures
            final(self).identity_seed() == old(self).identity_seed(),
            r matches Ok(s) ==> s == StoredTrust::Verified && old(self).trust_map().contains_key(peer@)
                && final(self).trust_map() == marked_verified(old(self).trust_map(), peer@),
            !old(self).trust_map().contains_key(peer@) ==> r is Err && final(self).trust_map() == old(self).trust_map(),
            old(self).store_never_fails() ==> final(self).store_never_fails() && (r is Ok <==> old(self).trust_map().contains_key(peer@))
                && (!old(self).trust_map().contains_key(peer@) ==> r == Err::<StoredTrust, TrustError>(TrustError::UnknownPeer)),
    {
        let looked_up = self.trust_store.get(&peer);
        self.mark_verified_given(peer, looked_up)
    }

    /// The rest of [`Self::mark_verified`], given what the store's `get` for
    /// `peer` returned: a lookup error is returned unchanged, no record gives
    /// `UnknownPeer`, and in both cases nothing is written; otherwise the
    /// record is written back as Verified with one `put`.
    pub fn mark_verified_given(
        &mut self,
        peer: PeerId,
        looked_up: Result<Option<TrustRecord>, TrustError>,
    ) -> (r: Result<StoredTrust, TrustError>)
        requires
            looked_up matches Ok(rec) ==> record_agrees(rec, old(self).trust_map(), peer@),
        ensures
            final(self).identity_seed() == old(self).identity_seed(),
            looked_up matches Err(e) ==> r == Err::<StoredTrust, TrustError>(e) && *final(self) == *old(self),
            looked_up == Ok::<Option<TrustRecord>, TrustError>(None) ==> r == Err::<StoredTrust, TrustError>(TrustError::UnknownPeer)
                && *final(self) == *old(self),
            r matches Ok(s) ==> s == StoredTrust::Verified && old(self).trust_map().contains_key(peer@)
                && final(self).trust_map() == marked_verified(old(self).trust_map(), peer@),
            looked_up matches Ok(Some(_)) && old(self).store_never_fails() ==> r is Ok && final(self).store_never_fails(),
    {
        match looked_up {
            Err(e) => Err(e),
            Ok(None) => Err(TrustError::UnknownPeer),
            Ok(Some(r)) => {
                let next = StoredTrust::Verified;
                let written = self.trust_store.put(TrustRecord::new(r.public_key, next));
                after_write(written, next)
            },
        }
    }

    /// Session gate: compare the intended Peer ID with the public key presented by the transport.
    pub fn evaluate(&mut self, intended: PeerId, presented: PublicKey) -> (r: Result<EvaluateDecision, TrustError>)
        ensures
            final(self).identity_seed() == old(self).identity_seed(),
            r matches Ok(d) ==> d == evaluation_of(intended, presented, stored_for(old(self).trust_map(), intended@))
                && final(self).trust_map() == evaluated(old(self).trust_map(), intended@, presented@),
            old(self).store_never_fails() ==> r is Ok && final(self).store_never_fails(),
    {
        let looked_up = self.trust_store.get(&intended);
        self.evaluate_given(intended, presented, looked_up)
    }

    /// The rest of [`Self::evaluate`], given what the store's `get` for the
    /// intended Peer returned: a lookup error is returned unchanged and nothing
    /// is written; only a first contact with the intended key writes, with one
    /// `put` of a TOFU record, and a failure of that `put` is returned.
    pub fn evaluate_given(
        &mut self,
        intended: PeerId,
        presented: PublicKey,
        looked_up: Result<Option<TrustRecord>, TrustError>,
    ) -> (r: Result<EvaluateDecision, TrustError>)
        requires
            looked_up matches Ok(rec) ==> record_agrees(rec, old(self).trust_map(), intended@),
        ensures
            final(self).identity_seed() == old(self).identity_seed(),
            looked_up matches Err(e) ==> r == Err::<EvaluateDecision, TrustError>(e) && *final(self) == *old(self),
            looked_up is Ok && !(presented@ == intended@ && looked_up->Ok_0 is None) ==> r == Ok::<EvaluateDecision, TrustError>(
                evaluation_of(intended, presented, stored_for(old(self).trust_map(), intended@)),
            ) && *final(self) == *old(self),
            r matches Ok(d) ==> d == evaluation_of(intended, presented, stored_for(old(self).trust_map(), intended@))
                && final(self).trust_map() == evaluated(old(self).trust_map(), intended@, presented@),
            looked_up is Ok && old(self).store_never_fails() ==> r is Ok && final(self).store_never_fails(),
    {
        let existing = match looked_up {
            Err(e) => {
                return Err(e);
            },
            Ok(rec) => rec,
        };
        let existing_state = match existing {
            Some(rec) => Some(rec.state),
            None => None,
        };
        let decision = decide_evaluation(intended, presented, existing_state);
        if existing_state.is_none() && same_key_bytes(presented.as_bytes(), intended.as_bytes()) {
            let written = self.trust_store.put(TrustRecord::new(presented, StoredTrust::Tofu));
            after_write(written, decision)
        } else {
            Ok(decision)
        }
    }

    /// Accept a TOFU key-change alert by recording the new key as introduced
    /// through an untrusted channel (TOFU).
    pub fn accept_tofu_replacement(&mut self, presented: PublicKey) -> (r: Result<StoredTrust, TrustError>)
        ensures
            final(self).identity_seed() == old(self).identity_seed(),
            r matches Ok(s) ==> s == introduction_of(stored_for(old(self).trust_map(), presented@), IntroductionChannel::Untrusted)
                && final(self).trust_map() == introduced(old(self).trust_map(), presented@, IntroductionChannel::Untrusted),
            old(self).store_never_fails() ==> r is Ok && final(self).store_never_fails(),
    {
        self.introduce(presented.peer_id(), IntroductionChannel::Untrusted)
    }
}

} // verus!
