use account_service::account::{change_password, deactivate_user, impersonate, reset_password};
use account_service::error::{ClientError, Error, InternalError};
use account_service::hashing::{hash, verify, AdmissionGate, HashConfig};
use account_service::session::{SessionStore, SHORT_SESSION_LIFETIME};
use account_service::types::{Impersonate, PasswordChange, PasswordReset};
use account_service::users::UserStore;

fn cheap_config() -> HashConfig {
    HashConfig { pepper: b"admin-pepper".to_vec(), m_cost: 8, t_cost: 1, p_cost: 1 }
}

#[test]
fn users_are_created_deactivated_with_fresh_ids() {
    let mut users = UserStore::new();
    let u = users.add_user("pat".to_string(), false, false).expect("fresh username");
    assert_eq!(u.id, 1);
    assert_eq!(u.username, "pat");
    assert!(u.pass.is_none());
    assert!(!u.admin);
    assert!(!u.locked);
    let v = users.add_user("quinn".to_string(), true, true).expect("fresh username");
    assert_eq!(v.id, 2);
    assert!(v.admin && v.locked);
    let dup = users.add_user("pat".to_string(), false, false);
    assert!(matches!(dup, Err(Error::ClientError(ClientError::UsernameTaken))));
}

#[test]
fn user_updates_keep_the_hash_and_respect_uniqueness() {
    let mut users = UserStore::new();
    let u = users.add_user("rita".to_string(), false, false).unwrap();
    users.add_user("sven".to_string(), false, false).unwrap();
    users.set_password(u.id, Some("$h$".to_string()));

    let missing = users.update_user(99, "tess".to_string(), false, false);
    assert!(matches!(missing, Err(Error::InternalError(InternalError::Db))));

    let taken = users.update_user(u.id, "sven".to_string(), false, false);
    assert!(matches!(taken, Err(Error::InternalError(InternalError::Db))));

    let updated = users.update_user(u.id, "rita2".to_string(), true, true).expect("free name");
    assert_eq!(updated.username, "rita2");
    assert!(updated.admin && updated.locked);
    assert_eq!(updated.pass.as_deref(), Some("$h$"));
    // Renaming a user to their own name is allowed.
    assert!(users.update_user(u.id, "rita2".to_string(), true, true).is_ok());
}

#[test]
fn deleting_users_reports_whether_a_row_went() {
    let mut users = UserStore::new();
    let u = users.add_user("uma".to_string(), false, false).unwrap();
    assert!(users.delete_user(u.id));
    assert!(!users.delete_user(u.id));
    assert!(users.find_by_username(&"uma".to_string()).is_none());
}

#[test]
fn the_seeded_administrator_is_upserted() {
    let mut users = UserStore::new();
    users.update_admin("$admin-hash$".to_string()).expect("no conflict");
    let seeded = users.find_by_id(0).expect("seeded row");
    assert_eq!(seeded.username, "admin");
    assert!(seeded.admin);
    assert!(!seeded.locked);
    assert_eq!(seeded.pass.as_deref(), Some("$admin-hash$"));
    // Seeding again refreshes the row in place.
    users.update_admin("$new-hash$".to_string()).expect("no conflict");
    let seeded = users.find_by_id(0).expect("seeded row");
    assert_eq!(seeded.pass.as_deref(), Some("$new-hash$"));
    assert!(users.find_by_id(0).is_some());
}

#[test]
fn a_user_holding_the_reserved_name_blocks_seeding() {
    let mut users = UserStore::new();
    users.add_user("admin".to_string(), false, false).unwrap();
    let r = users.update_admin("$h$".to_string());
    assert!(matches!(r, Err(Error::InternalError(InternalError::Db))));
}

#[test]
fn the_admin_listing_shows_every_user_in_store_order() {
    let mut users = UserStore::new();
    users.update_admin("$h$".to_string()).unwrap();
    let a = users.add_user("ana".to_string(), false, true).unwrap();
    let b = users.add_user("ben".to_string(), true, false).unwrap();
    let listed = users.list();
    assert_eq!(listed.len(), 3);
    assert_eq!(listed[0].id, 0);
    assert_eq!(listed[0].username, "admin");
    assert_eq!(listed[1].id, a.id);
    assert_eq!(listed[1].username, "ana");
    assert!(listed[1].locked && !listed[1].admin);
    assert_eq!(listed[2].id, b.id);
    assert!(listed[2].admin && !listed[2].locked);
    // The self-service view of a user carries no lock flag and no hash.
    let own = users.find_by_id(b.id).unwrap().returnable();
    assert_eq!(own.id, b.id);
    assert_eq!(own.username, "ben");
    assert!(own.admin);
}

#[test]
fn password_change_requires_the_old_password() {
    let config = cheap_config();
    let mut gate = AdmissionGate::new(2);
    let mut users = UserStore::new();
    let mut sessions = SessionStore::new();
    let u = users.add_user("vera".to_string(), false, false).unwrap();
    let old_hash = hash(&mut gate, &config, &"old pw".to_string()).unwrap();
    users.set_password(u.id, Some(old_hash));

    let wrong = change_password(
        &mut users,
        &mut sessions,
        &mut gate,
        &config,
        u.id,
        &PasswordChange {
            old_password: "not it".to_string(),
            new_password: "new pw".to_string(),
            clear_sessions: false,
        },
    );
    assert!(matches!(wrong, Err(Error::ClientError(ClientError::Unauthorized))));
}

#[test]
fn password_change_applies_and_clears_sessions() {
    let config = cheap_config();
    let mut gate = AdmissionGate::new(2);
    let mut users = UserStore::new();
    let mut sessions = SessionStore::new();
    let u = users.add_user("wade".to_string(), false, false).unwrap();
    let old_hash = hash(&mut gate, &config, &"old pw".to_string()).unwrap();
    users.set_password(u.id, Some(old_hash));
    sessions.create(u.id, false, 0, "key-wade".to_string()).unwrap();

    let r = change_password(
        &mut users,
        &mut sessions,
        &mut gate,
        &config,
        u.id,
        &PasswordChange {
            old_password: "old pw".to_string(),
            new_password: "new pw".to_string(),
            clear_sessions: true,
        },
    );
    assert!(r.is_ok());
    // Revocation is immediate: the old key no longer resolves.
    assert!(sessions.resolve(&users, &"key-wade".to_string(), 0).is_none());
    // The stored hash now matches the new password and only it.
    let stored = users.find_by_id(u.id).unwrap().pass.clone().expect("hash kept");
    assert_eq!(verify(&mut gate, &config, &stored, &"new pw".to_string()).ok(), Some(true));
    assert_eq!(verify(&mut gate, &config, &stored, &"old pw".to_string()).ok(), Some(false));
}

#[test]
fn deactivation_nulls_the_hash_and_revokes_sessions() {
    let mut users = UserStore::new();
    let mut sessions = SessionStore::new();
    let u = users.add_user("xena".to_string(), false, false).unwrap();
    users.set_password(u.id, Some("$h$".to_string()));
    sessions.create(u.id, false, 0, "key-xena".to_string()).unwrap();

    deactivate_user(&mut users, &mut sessions, u.id);
    assert!(users.find_by_id(u.id).unwrap().pass.is_none());
    assert!(sessions.resolve(&users, &"key-xena".to_string(), 0).is_none());
}

#[test]
fn password_reset_reproves_the_administrator() {
    let config = cheap_config();
    let mut gate = AdmissionGate::new(2);
    let mut users = UserStore::new();
    let mut sessions = SessionStore::new();
    let admin_hash = hash(&mut gate, &config, &"admin pw".to_string()).unwrap();
    users.update_admin(admin_hash).unwrap();
    let target = users.add_user("yuri".to_string(), false, false).unwrap();

    let bad = reset_password(
        &mut users,
        &mut sessions,
        &mut gate,
        &config,
        0,
        target.id,
        &PasswordReset {
            admin_password: "wrong".to_string(),
            new_password: "np".to_string(),
            clear_sessions: false,
        },
    );
    assert!(matches!(bad, Err(Error::ClientError(ClientError::BadLogin))));
    assert!(users.find_by_id(target.id).unwrap().pass.is_none());

    let ok = reset_password(
        &mut users,
        &mut sessions,
        &mut gate,
        &config,
        0,
        target.id,
        &PasswordReset {
            admin_password: "admin pw".to_string(),
            new_password: "np".to_string(),
            clear_sessions: true,
        },
    );
    assert!(ok.is_ok());
    let stored = users.find_by_id(target.id).unwrap().pass.clone().expect("hash set");
    assert_eq!(verify(&mut gate, &config, &stored, &"np".to_string()).ok(), Some(true));
}

#[test]
fn impersonation_creates_a_short_session_for_the_target() {
    let config = cheap_config();
    let mut gate = AdmissionGate::new(2);
    let mut users = UserStore::new();
    let mut sessions = SessionStore::new();
    let admin_hash = hash(&mut gate, &config, &"admin pw".to_string()).unwrap();
    users.update_admin(admin_hash).unwrap();
    let target = users.add_user("zoe".to_string(), false, false).unwrap();
    let now = 1_000;

    let wrong = impersonate(
        &users,
        &mut sessions,
        &mut gate,
        &config,
        0,
        target.id,
        &Impersonate { admin_password: "nope".to_string() },
        now,
    );
    assert!(matches!(wrong, Err(Error::ClientError(ClientError::BadLogin))));

    let missing_target = impersonate(
        &users,
        &mut sessions,
        &mut gate,
        &config,
        0,
        4_242,
        &Impersonate { admin_password: "admin pw".to_string() },
        now,
    );
    assert!(matches!(missing_target, Err(Error::InternalError(InternalError::Db))));

    let s = impersonate(
        &users,
        &mut sessions,
        &mut gate,
        &config,
        0,
        target.id,
        &Impersonate { admin_password: "admin pw".to_string() },
        now,
    )
    .expect("impersonation succeeds");
    // Impersonation sessions are never extended.
    assert_eq!(s.until, now + SHORT_SESSION_LIFETIME);
    assert_eq!(s.userid, target.id);
    let p = sessions.resolve(&users, &s.key, now).expect("session resolves");
    assert_eq!(p.userid, target.id);
    assert_eq!(p.username, "zoe");
}
