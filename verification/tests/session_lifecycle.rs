use account_service::error::{Error, InternalError};
use account_service::session::{logout, SessionStore, SHORT_SESSION_LIFETIME, LONG_SESSION_LIFETIME};
use account_service::users::UserStore;

fn store_with_user(name: &str, admin: bool) -> (UserStore, i32) {
    let mut users = UserStore::new();
    let u = users
        .add_user(name.to_string(), admin, false)
        .expect("fresh username");
    // Give the account a placeholder hash so it is active; session tests
    // never verify passwords.
    users.set_password(u.id, Some("$placeholder$".to_string()));
    (users, u.id)
}

#[test]
fn create_then_resolve_round_trip() {
    let (users, uid) = store_with_user("alice", false);
    let mut sessions = SessionStore::new();
    let now = 1_000;
    let s = sessions
        .create(uid, false, now, "key-round-trip".to_string())
        .expect("fresh key");
    assert_eq!(s.userid, uid);
    assert_eq!(s.until, now + SHORT_SESSION_LIFETIME);
    let p = sessions
        .resolve(&users, &"key-round-trip".to_string(), now)
        .expect("active session resolves");
    assert_eq!(p.userid, uid);
    assert_eq!(p.username, "alice");
    assert!(!p.admin);
}

#[test]
fn extended_session_uses_long_lifetime() {
    let (_users, uid) = store_with_user("bob", false);
    let mut sessions = SessionStore::new();
    let s = sessions
        .create(uid, true, 500, "key-extended".to_string())
        .expect("fresh key");
    assert_eq!(s.until, 500 + LONG_SESSION_LIFETIME);
}

#[test]
fn resolution_is_exact_at_the_expiry_instant() {
    let (users, uid) = store_with_user("carol", false);
    let mut sessions = SessionStore::new();
    let now = 10_000;
    let s = sessions
        .create(uid, false, now, "key-boundary".to_string())
        .expect("fresh key");
    let key = "key-boundary".to_string();
    // Valid strictly before the expiry instant.
    assert!(sessions.resolve(&users, &key, s.until - 1).is_some());
    // No context at the expiry instant and after it.
    assert!(sessions.resolve(&users, &key, s.until).is_none());
    assert!(sessions.resolve(&users, &key, s.until + 1).is_none());
}

#[test]
fn revoked_key_fails_immediately() {
    let (users, uid) = store_with_user("dave", false);
    let mut sessions = SessionStore::new();
    sessions
        .create(uid, false, 0, "key-revoked".to_string())
        .expect("fresh key");
    let key = "key-revoked".to_string();
    assert!(sessions.resolve(&users, &key, 0).is_some());
    sessions.revoke(&key);
    assert!(sessions.resolve(&users, &key, 0).is_none());
}

#[test]
fn revoke_is_idempotent() {
    let (users, uid) = store_with_user("erin", false);
    let mut sessions = SessionStore::new();
    sessions
        .create(uid, false, 0, "key-a".to_string())
        .expect("fresh key");
    sessions.revoke(&"key-absent".to_string());
    sessions.revoke(&"key-a".to_string());
    sessions.revoke(&"key-a".to_string());
    assert!(sessions.resolve(&users, &"key-a".to_string(), 0).is_none());
}

#[test]
fn revoke_all_clears_only_that_user() {
    let (mut users, uid) = store_with_user("frank", false);
    let other = users
        .add_user("grace".to_string(), false, false)
        .expect("fresh username");
    users.set_password(other.id, Some("$placeholder$".to_string()));
    let mut sessions = SessionStore::new();
    sessions.create(uid, false, 0, "key-f1".to_string()).unwrap();
    sessions.create(uid, false, 0, "key-f2".to_string()).unwrap();
    sessions.create(other.id, false, 0, "key-g".to_string()).unwrap();
    sessions.revoke_all(uid);
    assert!(sessions.resolve(&users, &"key-f1".to_string(), 0).is_none());
    assert!(sessions.resolve(&users, &"key-f2".to_string(), 0).is_none());
    assert!(sessions.resolve(&users, &"key-g".to_string(), 0).is_some());
}

#[test]
fn colliding_key_is_an_internal_fault_not_an_overwrite() {
    let (users, uid) = store_with_user("heidi", false);
    let mut sessions = SessionStore::new();
    let first = sessions
        .create(uid, false, 100, "key-shared".to_string())
        .expect("fresh key");
    let second = sessions.create(uid, true, 999, "key-shared".to_string());
    assert!(matches!(
        second,
        Err(Error::InternalError(InternalError::SessionKeyCollision))
    ));
    // The original row is untouched.
    let p = sessions.resolve(&users, &"key-shared".to_string(), first.until - 1);
    assert!(p.is_some());
    assert_eq!(sessions.list_for_user(uid, 0).len(), 1);
}

#[test]
fn sweep_deletes_exactly_the_expired_rows() {
    let (users, uid) = store_with_user("ivan", false);
    let mut sessions = SessionStore::new();
    // until == now - 1 (expired), until == now (kept by the sweep, though no
    // longer valid), until == now + 1 (active).
    let now = SHORT_SESSION_LIFETIME + 100;
    sessions.create(uid, false, 99, "key-old".to_string()).unwrap();
    sessions.create(uid, false, 100, "key-edge".to_string()).unwrap();
    sessions.create(uid, false, 101, "key-live".to_string()).unwrap();
    sessions.sweep(now);
    let listed = sessions.list_for_user(uid, now);
    assert_eq!(listed.len(), 2);
    assert!(sessions.resolve(&users, &"key-old".to_string(), now).is_none());
    assert!(sessions.resolve(&users, &"key-edge".to_string(), now).is_none());
    assert!(sessions.resolve(&users, &"key-live".to_string(), now).is_some());
}

#[test]
fn logout_requires_a_key() {
    let mut sessions = SessionStore::new();
    let r = logout(&mut sessions, &None);
    assert!(matches!(r, Err(Error::ClientError(_))));
    assert_eq!(r.map_err(|e| e.status_code()), Err(401));
}

#[test]
fn logout_deletes_the_presented_key() {
    let (users, uid) = store_with_user("judy", false);
    let mut sessions = SessionStore::new();
    sessions.create(uid, false, 0, "key-out".to_string()).unwrap();
    let r = logout(&mut sessions, &Some("key-out".to_string()));
    assert!(r.is_ok());
    assert!(sessions.resolve(&users, &"key-out".to_string(), 0).is_none());
}

#[test]
fn require_session_and_require_admin() {
    let (mut users, uid) = store_with_user("kate", false);
    let boss = users.add_user("root".to_string(), true, false).unwrap();
    users.set_password(boss.id, Some("$placeholder$".to_string()));
    let mut sessions = SessionStore::new();
    sessions.create(uid, false, 0, "key-kate".to_string()).unwrap();
    sessions.create(boss.id, false, 0, "key-root".to_string()).unwrap();

    let missing = sessions.require_session(&users, &None, 0);
    assert_eq!(missing.map(|p| p.userid).map_err(|e| e.status_code()), Err(401));

    let ok = sessions.require_session(&users, &Some("key-kate".to_string()), 0);
    assert_eq!(ok.map(|p| p.userid).map_err(|e| e.status_code()), Ok(uid));

    let forbidden = sessions.require_admin(&users, &Some("key-kate".to_string()), 0);
    assert_eq!(forbidden.map(|p| p.userid).map_err(|e| e.status_code()), Err(403));

    let admin = sessions.require_admin(&users, &Some("key-root".to_string()), 0);
    assert_eq!(admin.map(|p| p.admin).map_err(|e| e.status_code()), Ok(true));
}

#[test]
fn own_session_deletion_is_scoped_to_the_owner() {
    let (mut users, uid) = store_with_user("liam", false);
    let other = users.add_user("mary".to_string(), false, false).unwrap();
    users.set_password(other.id, Some("$placeholder$".to_string()));
    let mut sessions = SessionStore::new();
    let mine = sessions.create(uid, false, 0, "key-mine".to_string()).unwrap();
    let theirs = sessions.create(other.id, false, 0, "key-theirs".to_string()).unwrap();
    // Deleting someone else's session by id does nothing.
    assert!(!sessions.delete_user_session(uid, theirs.id));
    // Deleting one's own works and reports a row.
    assert!(sessions.delete_user_session(uid, mine.id));
    assert!(sessions.resolve(&users, &"key-mine".to_string(), 0).is_none());
    assert!(sessions.resolve(&users, &"key-theirs".to_string(), 0).is_some());
    // The administrator's delete reaches any session.
    assert!(sessions.delete_session(theirs.id));
    assert!(sessions.resolve(&users, &"key-theirs".to_string(), 0).is_none());
    assert!(!sessions.delete_session(theirs.id));
}

#[test]
fn listings_show_unexpired_sessions_only() {
    let (mut users, uid) = store_with_user("nina", false);
    let other = users.add_user("omar".to_string(), false, false).unwrap();
    users.set_password(other.id, Some("$placeholder$".to_string()));
    let mut sessions = SessionStore::new();
    let now = 2 * SHORT_SESSION_LIFETIME;
    let live = sessions.create(uid, true, now, "key-n1".to_string()).unwrap();
    sessions.create(uid, false, 0, "key-n2".to_string()).unwrap(); // expired at `now`
    let foreign = sessions.create(other.id, true, now, "key-o1".to_string()).unwrap();

    let mine = sessions.list_for_user(uid, now);
    assert_eq!(mine.len(), 1);
    assert_eq!(mine[0].id, live.id);
    assert_eq!(mine[0].until, live.until);

    let all = sessions.list_all(now);
    assert_eq!(all.len(), 2);
    assert_eq!(all[0].id, live.id);
    assert_eq!(all[0].userid, uid);
    assert_eq!(all[1].id, foreign.id);
    assert_eq!(all[1].userid, other.id);
}

#[test]
fn session_lifetimes_are_one_day_and_one_year() {
    assert_eq!(SHORT_SESSION_LIFETIME, 86_400);
    assert_eq!(LONG_SESSION_LIFETIME, 31_536_000);
}

#[test]
fn generated_keys_have_the_fixed_length_and_vary() {
    let k1 = account_service::session::generate_session_key();
    let k2 = account_service::session::generate_session_key();
    assert_eq!(k1.chars().count(), 32);
    assert_eq!(k2.chars().count(), 32);
    // Two draws of a 32-character random key never coincide in practice.
    assert_ne!(k1, k2);
}
