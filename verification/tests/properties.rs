use p2pcore::{
    after_write, identity_after_save, decide_evaluation, decide_introduction, hybrid_pq_provider, identity_after_load, kx_names,
    kx_preference, load_or_generate_identity, sas, state_from_lookup, Error, EvaluateDecision,
    IdentityKey, IntroductionChannel, KeyStore, KxGroup, MemoryKeyStore, MemoryTrustStore,
    PeerId, PublicKey, RelayConfig, RelayKind, StoredTrust, TrustEngine, TrustError,
    TrustRecord, TrustState, TrustStore,
};

fn hex32(s: &str) -> [u8; 32] {
    let mut out = [0u8; 32];
    for i in 0..32 {
        out[i] = u8::from_str_radix(&s[2 * i..2 * i + 2], 16).unwrap();
    }
    out
}

const SEED_1: &str = "9d61b19deffd5a60ba844af492ec2cc44449c5697b326919703bac031cae7f60";
const PUB_1: &str = "d75a980182b10ab7d54bfed3c964073a0ee172f3daa62325af021a68f707511a";
const SEED_2: &str = "4ccd089b28ff96da9db6c346ec114e0f5b8a319f35aba624da8cf6ed4fb8a6fb";
const PUB_2: &str = "3d4017c3e843895a92b70aa74d1b7ebc9c982ccf2ec4968cc0cd55f12af4660c";

fn engine() -> TrustEngine {
    TrustEngine::new(IdentityKey::generate().unwrap(), Box::new(MemoryTrustStore::new()))
}

#[test]
fn seed_derives_the_rfc8032_public_key() {
    let id1 = IdentityKey::from_seed_bytes(hex32(SEED_1));
    let id2 = IdentityKey::from_seed_bytes(hex32(SEED_2));
    assert_eq!(id1.public_key().to_bytes(), hex32(PUB_1));
    assert_eq!(id2.public_key().to_bytes(), hex32(PUB_2));
    assert_eq!(id1.peer_id().to_bytes(), hex32(PUB_1));
    assert_eq!(id1.to_seed_bytes(), hex32(SEED_1));
}

#[test]
fn sas_of_known_keys_has_exact_text() {
    let a = PublicKey::from_bytes(hex32(PUB_1)).unwrap();
    let b = PublicKey::from_bytes(hex32(PUB_2)).unwrap();
    let expected = "50020 61052 07639 15443 62862 30005 02737 39308";
    assert_eq!(sas(a, b).as_str(), expected);
    assert_eq!(sas(b, a).as_str(), expected);
    assert_eq!(sas(a, b).as_str().len(), 47);
}

#[test]
fn sas_of_a_key_with_itself_is_well_formed() {
    let a = PublicKey::from_bytes(hex32(PUB_1)).unwrap();
    let s = sas(a, a);
    assert_eq!(s.as_str().len(), 47);
    assert_ne!(s, sas(a, PublicKey::from_bytes(hex32(PUB_2)).unwrap()));
}

#[test]
fn bytes_that_are_not_a_point_are_rejected() {
    let mut not_point = [0u8; 32];
    not_point[0] = 2;
    assert_eq!(PublicKey::from_bytes(not_point), Err(TrustError::InvalidPublicKey));
    assert_eq!(PeerId::from_bytes(not_point), Err(TrustError::InvalidPublicKey));
    let mut point = [0u8; 32];
    point[0] = 3;
    assert_eq!(PublicKey::from_bytes(point).unwrap().to_bytes(), point);
    assert_eq!(PeerId::from_bytes(point).unwrap().as_bytes(), &point);
}

#[test]
fn zeroize_clears_the_seed() {
    let mut id = IdentityKey::from_seed_bytes(hex32(SEED_1));
    id.zeroize();
    assert_eq!(id.to_seed_bytes(), [0u8; 32]);
}

#[test]
fn clone_keeps_the_seed() {
    let id = IdentityKey::from_seed_bytes(hex32(SEED_2));
    let copy = id.clone();
    assert_eq!(copy.to_seed_bytes(), id.to_seed_bytes());
}

#[test]
fn introduction_table() {
    assert_eq!(decide_introduction(None, IntroductionChannel::Trusted), StoredTrust::Verified);
    assert_eq!(decide_introduction(None, IntroductionChannel::Untrusted), StoredTrust::Tofu);
    assert_eq!(
        decide_introduction(Some(StoredTrust::Tofu), IntroductionChannel::Trusted),
        StoredTrust::Tofu
    );
    assert_eq!(
        decide_introduction(Some(StoredTrust::Verified), IntroductionChannel::Untrusted),
        StoredTrust::Verified
    );
}

#[test]
fn evaluation_table() {
    let a = PublicKey::from_bytes(hex32(PUB_1)).unwrap();
    let b = PublicKey::from_bytes(hex32(PUB_2)).unwrap();
    let pa = a.peer_id();
    assert_eq!(decide_evaluation(pa, a, None), EvaluateDecision::Allow { state: StoredTrust::Tofu });
    assert_eq!(
        decide_evaluation(pa, a, Some(StoredTrust::Verified)),
        EvaluateDecision::Allow { state: StoredTrust::Verified }
    );
    assert_eq!(
        decide_evaluation(pa, b, Some(StoredTrust::Verified)),
        EvaluateDecision::RejectVerifiedMismatch { intended: pa, presented: b }
    );
    assert_eq!(
        decide_evaluation(pa, b, Some(StoredTrust::Tofu)),
        EvaluateDecision::AlertTofuMismatch { intended: pa, presented: b, previous: StoredTrust::Tofu }
    );
    assert_eq!(
        decide_evaluation(pa, b, None),
        EvaluateDecision::RejectUnknownMismatch { intended: pa, presented: b }
    );
}

#[test]
fn error_messages() {
    assert_eq!(TrustError::InvalidPublicKey.message(), "invalid public key");
    assert_eq!(TrustError::UnknownPeer.message(), "unknown peer");
    assert_eq!(Error::Bind.message(), "failed to bind endpoint");
    assert_eq!(Error::InvalidRelayUrl.message(), "invalid relay url");
    assert_eq!(Error::Trust(TrustError::UnknownPeer).message(), "unknown peer");
    assert_eq!(TrustError::RandomSourceFailed.message(), "random source failed");
}

#[test]
fn stored_trust_reads_as_trust_state() {
    assert_eq!(TrustState::from(StoredTrust::Tofu), TrustState::Tofu);
    assert_eq!(TrustState::from(StoredTrust::Verified), TrustState::Verified);
}

#[test]
fn relay_config_choices() {
    assert!(matches!(RelayConfig::disabled().into_kind(), RelayKind::Disabled));
    assert!(matches!(RelayConfig::n0_public().into_kind(), RelayKind::N0Public));
    match RelayConfig::custom(&["https://a.example", "https://b.example."]).unwrap().into_kind() {
        RelayKind::Custom(urls) => {
            assert_eq!(urls, vec!["https://a.example".to_string(), "https://b.example.".to_string()])
        }
        _ => panic!("expected custom relays"),
    }
    assert!(matches!(
        RelayConfig::custom(&["https://a.example", "no scheme"]),
        Err(Error::InvalidRelayUrl)
    ));
}

#[test]
fn identity_is_generated_once_and_then_reloaded() {
    let mut ks = MemoryKeyStore::new();
    let first = load_or_generate_identity(&mut ks).unwrap();
    let stored = ks.load().unwrap().unwrap();
    assert_eq!(stored.to_seed_bytes(), first.to_seed_bytes());
    let second = load_or_generate_identity(&mut ks).unwrap();
    assert_eq!(second.peer_id(), first.peer_id());

    let mut preset = MemoryKeyStore::new();
    preset.save(&IdentityKey::from_seed_bytes(hex32(SEED_1))).unwrap();
    let loaded = load_or_generate_identity(&mut preset).unwrap();
    assert_eq!(loaded.to_seed_bytes(), hex32(SEED_1));
}

#[test]
fn trust_record_fields() {
    let a = PublicKey::from_bytes(hex32(PUB_1)).unwrap();
    let r = TrustRecord::new(a, StoredTrust::Tofu);
    assert_eq!(r.public_key, a);
    assert_eq!(r.state, StoredTrust::Tofu);
    assert_eq!(r.peer_id(), a.peer_id());
    assert_eq!(r.clone(), r);
}

#[test]
fn memory_trust_store_replaces_a_key_record() {
    let a = PublicKey::from_bytes(hex32(PUB_1)).unwrap();
    let b = PublicKey::from_bytes(hex32(PUB_2)).unwrap();
    let mut store = MemoryTrustStore::new();
    assert_eq!(store.get(&a.peer_id()).unwrap(), None);
    store.put(TrustRecord::new(a, StoredTrust::Tofu)).unwrap();
    store.put(TrustRecord::new(b, StoredTrust::Tofu)).unwrap();
    store.put(TrustRecord::new(a, StoredTrust::Verified)).unwrap();
    assert_eq!(store.get(&a.peer_id()).unwrap().unwrap().state, StoredTrust::Verified);
    assert_eq!(store.get(&b.peer_id()).unwrap().unwrap().state, StoredTrust::Tofu);
    let copy = store.clone();
    assert_eq!(copy.get(&a.peer_id()).unwrap().unwrap().state, StoredTrust::Verified);
}

#[test]
fn engine_exposes_its_identity() {
    let id = IdentityKey::from_seed_bytes(hex32(SEED_1));
    let eng: TrustEngine = TrustEngine::new(id.clone(), Box::new(MemoryTrustStore::new()));
    assert_eq!(eng.to_seed_bytes(), hex32(SEED_1));
    assert_eq!(eng.public_key().to_bytes(), hex32(PUB_1));
    assert_eq!(eng.peer_id(), id.peer_id());
}

#[test]
fn unknown_mismatch_is_rejected_and_not_recorded() {
    let mut eng = engine();
    let a = PublicKey::from_bytes(hex32(PUB_1)).unwrap();
    let b = PublicKey::from_bytes(hex32(PUB_2)).unwrap();
    assert_eq!(
        eng.evaluate(a.peer_id(), b).unwrap(),
        EvaluateDecision::RejectUnknownMismatch { intended: a.peer_id(), presented: b }
    );
    assert_eq!(eng.trust_state(&a.peer_id()).unwrap(), TrustState::Unknown);
    assert_eq!(eng.trust_state(&b.peer_id()).unwrap(), TrustState::Unknown);
}

#[test]
fn verified_survives_every_other_operation() {
    let mut eng = engine();
    let a = PublicKey::from_bytes(hex32(PUB_1)).unwrap();
    let b = PublicKey::from_bytes(hex32(PUB_2)).unwrap();
    eng.introduce(a.peer_id(), IntroductionChannel::Trusted).unwrap();
    eng.evaluate(a.peer_id(), b).unwrap();
    eng.accept_tofu_replacement(a).unwrap();
    eng.evaluate(a.peer_id(), a).unwrap();
    assert_eq!(eng.trust_state(&a.peer_id()).unwrap(), TrustState::Verified);
    assert_eq!(eng.mark_verified(a.peer_id()).unwrap(), StoredTrust::Verified);
}

#[test]
fn tofu_mismatch_leaves_the_record_alone() {
    let mut eng = engine();
    let a = PublicKey::from_bytes(hex32(PUB_1)).unwrap();
    let b = PublicKey::from_bytes(hex32(PUB_2)).unwrap();
    eng.introduce(a.peer_id(), IntroductionChannel::Untrusted).unwrap();
    eng.evaluate(a.peer_id(), b).unwrap();
    assert_eq!(eng.trust_state(&a.peer_id()).unwrap(), TrustState::Tofu);
    assert_eq!(eng.trust_state(&b.peer_id()).unwrap(), TrustState::Unknown);
    assert_eq!(eng.introduce(b.peer_id(), IntroductionChannel::Trusted).unwrap(), StoredTrust::Verified);
    assert_eq!(eng.introduce(b.peer_id(), IntroductionChannel::Trusted).unwrap(), StoredTrust::Verified);
}

#[test]
fn kx_preference_order_and_names() {
    assert_eq!(
        kx_preference(),
        vec![KxGroup::X25519MlKem768, KxGroup::X25519, KxGroup::Secp256r1, KxGroup::Secp384r1]
    );
    assert_eq!(
        kx_names(&kx_preference()),
        vec!["X25519MLKEM768", "X25519", "secp256r1", "secp384r1"]
    );
    let provider = hybrid_pq_provider().into_provider();
    let names: Vec<&str> = provider
        .kx_groups
        .iter()
        .map(|g| g.name().as_str().unwrap())
        .collect();
    assert_eq!(names, kx_names(&kx_preference()));
}

#[test]
fn identity_after_each_load_outcome() {
    let mut ks = MemoryKeyStore::new();
    assert_eq!(
        identity_after_load(&mut ks, Err(TrustError::UnknownPeer)).err(),
        Some(Error::Trust(TrustError::UnknownPeer))
    );
    assert!(ks.load().unwrap().is_none());
    let given = IdentityKey::from_seed_bytes(hex32(SEED_2));
    let kept = identity_after_load(&mut ks, Ok(Some(given))).unwrap();
    assert_eq!(kept.to_seed_bytes(), hex32(SEED_2));
    assert!(ks.load().unwrap().is_none());
    let fresh = identity_after_load(&mut ks, Ok(None)).unwrap();
    assert_eq!(ks.load().unwrap().unwrap().to_seed_bytes(), fresh.to_seed_bytes());
}

#[test]
fn lookup_results_read_as_levels() {
    let a = PublicKey::from_bytes(hex32(PUB_1)).unwrap();
    assert_eq!(state_from_lookup(Err(TrustError::InvalidPublicKey)), Err(TrustError::InvalidPublicKey));
    assert_eq!(state_from_lookup(Ok(None)), Ok(TrustState::Unknown));
    assert_eq!(
        state_from_lookup(Ok(Some(TrustRecord::new(a, StoredTrust::Verified)))),
        Ok(TrustState::Verified)
    );
}

#[test]
fn lookup_errors_come_back_unchanged_and_write_nothing() {
    let mut eng = engine();
    let a = PublicKey::from_bytes(hex32(PUB_1)).unwrap();
    let pa = a.peer_id();
    assert_eq!(
        eng.evaluate_given(pa, a, Err(TrustError::InvalidPublicKey)),
        Err(TrustError::InvalidPublicKey)
    );
    assert_eq!(
        eng.introduce_given(pa, IntroductionChannel::Trusted, Err(TrustError::UnknownPeer)),
        Err(TrustError::UnknownPeer)
    );
    assert_eq!(
        eng.mark_verified_given(pa, Err(TrustError::InvalidPublicKey)),
        Err(TrustError::InvalidPublicKey)
    );
    assert_eq!(eng.mark_verified_given(pa, Ok(None)), Err(TrustError::UnknownPeer));
    assert_eq!(eng.trust_state(&pa).unwrap(), TrustState::Unknown);
    assert_eq!(
        eng.evaluate_given(pa, a, Ok(None)).unwrap(),
        EvaluateDecision::Allow { state: StoredTrust::Tofu }
    );
    assert_eq!(eng.trust_state(&pa).unwrap(), TrustState::Tofu);
}

#[test]
fn re_evaluating_repeats_the_decision() {
    let mut eng = engine();
    let a = PublicKey::from_bytes(hex32(PUB_1)).unwrap();
    let first = eng.evaluate(a.peer_id(), a).unwrap();
    let second = eng.evaluate(a.peer_id(), a).unwrap();
    assert_eq!(first, second);
    assert_eq!(eng.trust_state(&a.peer_id()).unwrap(), TrustState::Tofu);
}

#[test]
fn write_outcomes_come_back_unchanged() {
    assert_eq!(after_write(Ok(()), 7u8), Ok(7u8));
    assert_eq!(after_write(Err(TrustError::UnknownPeer), 7u8), Err(TrustError::UnknownPeer));
    let id = IdentityKey::from_seed_bytes(hex32(SEED_1));
    assert_eq!(
        identity_after_save(id.clone(), Ok(())).unwrap().to_seed_bytes(),
        hex32(SEED_1)
    );
    assert_eq!(
        identity_after_save(id, Err(TrustError::InvalidPublicKey)).err(),
        Some(Error::Trust(TrustError::InvalidPublicKey))
    );
}

#[test]
fn generated_keys_are_fresh() {
    let a = IdentityKey::generate().unwrap();
    let b = IdentityKey::generate().unwrap();
    assert_ne!(a.to_seed_bytes(), b.to_seed_bytes());
}
