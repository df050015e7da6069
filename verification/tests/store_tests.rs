use game_sessions::session::SessionUpdate;
use game_sessions::store::SessionStore;

#[test]
fn create_then_get_returns_same_record() {
    let mut store = SessionStore::new();
    let s = store
        .insert_new(5, 77, b"tok".to_vec())
        .expect("identifier is fresh");
    assert_eq!(s.id, 5);
    assert_eq!(s.user_id, 77);
    assert!(s.is_active);
    assert_eq!(s.health, 100);
    let g = store.get(5).expect("the record exists and is active");
    assert_eq!(g.id, 5);
    assert_eq!(g.user_id, 77);
    assert_eq!(g.session_token, b"tok".to_vec());
    assert_eq!(g.health, 100);
}

#[test]
fn get_of_unknown_identifier_is_none() {
    let store = SessionStore::new();
    assert!(store.get(123).is_none());
    let mut store = SessionStore::new();
    store.insert_new(1, 2, b"t".to_vec()).unwrap();
    assert!(store.get(3).is_none());
}

#[test]
fn update_of_unknown_identifier_is_none_and_changes_nothing() {
    let mut store = SessionStore::new();
    store.insert_new(1, 2, b"t".to_vec()).unwrap();
    let mut u = SessionUpdate::empty();
    u.health = Some(1);
    assert!(store.update(9, &u).is_none());
    assert_eq!(store.get(1).unwrap().health, 100);
}

#[test]
fn insert_under_taken_identifier_is_refused() {
    let mut store = SessionStore::new();
    store.insert_new(4, 1, b"a".to_vec()).unwrap();
    assert!(store.insert_new(4, 2, b"b".to_vec()).is_none());
    assert_eq!(store.len(), 1);
    // The original record is untouched.
    assert_eq!(store.get(4).unwrap().user_id, 1);
}

#[test]
fn update_changes_only_named_fields() {
    let mut store = SessionStore::new();
    store.insert_new(8, 3, b"t".to_vec()).unwrap();
    let mut u = SessionUpdate::empty();
    u.health = Some(50);
    let s = store.update(8, &u).expect("the record is active");
    assert_eq!(s.health, 50);
    assert_eq!(s.score, 0);
    assert_eq!(s.player_x, 0);
    // A second identical update leaves the same state.
    let s2 = store.update(8, &u).expect("still active");
    assert_eq!(s2.health, 50);
    assert_eq!(s2.score, 0);
    let g = store.get(8).unwrap();
    assert_eq!(g.health, 50);
}

#[test]
fn roster_counts_every_creation() {
    let mut store = SessionStore::new();
    assert_eq!(store.list_active().len(), 0);
    for k in 0..5u128 {
        store.insert_new(k, 100 + k, b"t".to_vec()).unwrap();
        assert_eq!(store.list_active().len(), (k + 1) as usize);
    }
    let roster = store.list_active();
    assert_eq!(roster.len(), 5);
    assert!(roster.iter().all(|s| s.is_active));
}

#[test]
fn repeated_creations_yield_distinct_identifiers() {
    let mut store = SessionStore::new();
    let mut ids = Vec::new();
    for _ in 0..8 {
        let s = store
            .create(1, b"t".to_vec())
            .expect("a random identifier collision is practically impossible");
        ids.push(s.id);
    }
    for i in 0..ids.len() {
        for j in 0..i {
            assert_ne!(ids[i], ids[j]);
        }
    }
    assert_eq!(store.len(), 8);
    // Every created record is retrievable afterwards.
    for id in ids {
        assert_eq!(store.get(id).unwrap().id, id);
    }
}

#[test]
fn creation_on_an_empty_store_always_succeeds() {
    let mut store = SessionStore::new();
    assert!(store.create(1, b"t".to_vec()).is_some());
    let mut store = SessionStore::new();
    assert!(store.create_with_generated_token(2).is_some());
    let mut store = SessionStore::new();
    assert!(store.create_from_auth(b"bad", b"t".to_vec()).is_some());
}

#[test]
fn created_identifiers_carry_the_random_version_mark() {
    let mut store = SessionStore::new();
    let s = store.create(1, b"t".to_vec()).unwrap();
    let text = game_sessions::ids::format_session_id(s.id);
    // The drawn identifier has the version nibble 4 and the variant bits
    // set, visible in its canonical text.
    assert_eq!(text[14], b'4');
    assert!(matches!(text[19], b'8' | b'9' | b'a' | b'b'));
}

#[test]
fn generated_token_is_canonical_text() {
    let mut store = SessionStore::new();
    let s = store.create_with_generated_token(9).unwrap();
    assert_eq!(s.session_token.len(), 36);
    assert!(game_sessions::ids::parse_session_id(&s.session_token).is_some());
    assert_eq!(s.user_id, 9);
    assert_eq!(s.health, 100);
}

#[test]
fn auth_creation_keeps_well_formed_user_and_replaces_malformed() {
    let mut store = SessionStore::new();
    let s = store
        .create_from_auth(b"550e8400-e29b-41d4-a716-446655440000", b"game-token".to_vec())
        .unwrap();
    assert_eq!(s.user_id, 0x550e8400_e29b_41d4_a716_446655440000);
    assert_eq!(s.session_token, b"game-token".to_vec());
    let s2 = store
        .create_from_auth(b"not-an-identifier", b"tk".to_vec())
        .unwrap();
    // A malformed user identifier is replaced by a fresh one rather than
    // kept; the session is still created with the caller's token, and
    // the replacement carries the random draw's version and variant
    // marks.
    assert_eq!(s2.session_token, b"tk".to_vec());
    assert_eq!((s2.user_id >> 76) & 0xf, 4);
    assert_eq!((s2.user_id >> 62) & 0x3, 2);
    assert_eq!(store.len(), 2);
}
