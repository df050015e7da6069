use game_sessions::session::{apply_update, new_session, SessionUpdate};

#[test]
fn new_session_starts_at_baseline() {
    let s = new_session(7, 42, b"token".to_vec());
    assert_eq!(s.id, 7);
    assert_eq!(s.user_id, 42);
    assert_eq!(s.session_token, b"token".to_vec());
    assert!(s.is_active);
    assert_eq!(s.health, 100);
    assert_eq!(s.level, 1);
    assert_eq!(s.score, 0);
    assert_eq!(s.experience, 0);
    assert_eq!(s.player_x, 0);
    assert_eq!(s.player_y, 0);
    assert_eq!(s.player_z, 0);
    assert_eq!(s.rotation_x, 0);
    assert_eq!(s.rotation_y, 0);
    assert_eq!(s.rotation_z, 0);
}

#[test]
fn update_overwrites_only_present_fields() {
    let mut s = new_session(1, 2, b"t".to_vec());
    let mut u = SessionUpdate::empty();
    u.health = Some(50);
    u.player_x = Some(0x3ff0000000000000);
    apply_update(&mut s, &u);
    assert_eq!(s.health, 50);
    assert_eq!(s.player_x, 0x3ff0000000000000);
    assert_eq!(s.score, 0);
    assert_eq!(s.level, 1);
    assert_eq!(s.player_y, 0);
    assert!(s.is_active);
    assert_eq!(s.id, 1);
    assert_eq!(s.user_id, 2);
}

#[test]
fn update_applied_twice_equals_once() {
    let mut once = new_session(1, 2, b"t".to_vec());
    let mut twice = new_session(1, 2, b"t".to_vec());
    let mut u = SessionUpdate::empty();
    u.health = Some(50);
    apply_update(&mut once, &u);
    apply_update(&mut twice, &u);
    apply_update(&mut twice, &u);
    assert_eq!(once.health, twice.health);
    assert_eq!(once.score, twice.score);
    assert_eq!(once.level, twice.level);
    assert_eq!(once.experience, twice.experience);
    assert_eq!(once.player_x, twice.player_x);
    assert_eq!(once.player_y, twice.player_y);
    assert_eq!(once.player_z, twice.player_z);
    assert_eq!(once.rotation_x, twice.rotation_x);
    assert_eq!(once.rotation_y, twice.rotation_y);
    assert_eq!(once.rotation_z, twice.rotation_z);
    assert_eq!(once.is_active, twice.is_active);
    // Fields the update does not carry keep their value from before the
    // first application.
    assert_eq!(twice.score, 0);
    assert_eq!(twice.player_x, 0);
}

#[test]
fn empty_update_changes_nothing() {
    let mut s = new_session(9, 8, b"tok".to_vec());
    let u = SessionUpdate::empty();
    apply_update(&mut s, &u);
    assert_eq!(s.health, 100);
    assert_eq!(s.level, 1);
    assert_eq!(s.session_token, b"tok".to_vec());
}
