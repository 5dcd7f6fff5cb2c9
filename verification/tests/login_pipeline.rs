use account_service::error::{ClientError, Error, InternalError};
use account_service::hashing::{hash, AdmissionGate, HashConfig};
use account_service::login::{arm_login_delay, login_inner};
use account_service::session::{SessionStore, LONG_SESSION_LIFETIME, SHORT_SESSION_LIFETIME};
use account_service::types::Login;
use account_service::users::UserStore;

fn cheap_config() -> HashConfig {
    HashConfig { pepper: b"login-pepper".to_vec(), m_cost: 8, t_cost: 1, p_cost: 1 }
}

struct Fixture {
    users: UserStore,
    sessions: SessionStore,
    gate: AdmissionGate,
    config: HashConfig,
}

/// One active user "alice" with password "open sesame", one deactivated
/// user "dora", one locked user "lena" with password "open sesame".
fn fixture() -> Fixture {
    let config = cheap_config();
    let mut gate = AdmissionGate::new(2);
    let mut users = UserStore::new();
    let pw_hash = hash(&mut gate, &config, &"open sesame".to_string()).expect("hashing succeeds");

    let alice = users.add_user("alice".to_string(), false, false).unwrap();
    users.set_password(alice.id, Some(pw_hash.clone()));
    users.add_user("dora".to_string(), false, false).unwrap();
    let lena = users.add_user("lena".to_string(), false, true).unwrap();
    users.set_password(lena.id, Some(pw_hash));

    Fixture { users, sessions: SessionStore::new(), gate, config }
}

fn form(username: &str, password: &str, extended: bool) -> Login {
    Login { username: username.to_string(), password: password.to_string(), extended }
}

#[test]
fn successful_login_creates_a_resolvable_session() {
    let mut f = fixture();
    let now = 50_000;
    let r = login_inner(
        &f.users,
        &mut f.sessions,
        &mut f.gate,
        &f.config,
        &form("alice", "open sesame", false),
        now,
    );
    let s = r.expect("no fault").expect("valid credentials");
    assert_eq!(s.until, now + SHORT_SESSION_LIFETIME);
    assert_eq!(s.key.chars().count(), 32);
    let p = f.sessions.resolve(&f.users, &s.key, now).expect("fresh session resolves");
    assert_eq!(p.userid, s.userid);
    assert_eq!(p.username, "alice");
}

#[test]
fn extended_login_uses_the_long_lifetime() {
    let mut f = fixture();
    let r = login_inner(
        &f.users,
        &mut f.sessions,
        &mut f.gate,
        &f.config,
        &form("alice", "open sesame", true),
        7,
    );
    let s = r.expect("no fault").expect("valid credentials");
    assert_eq!(s.until, 7 + LONG_SESSION_LIFETIME);
}

#[test]
fn unknown_user_deactivated_user_and_wrong_password_are_one_outcome() {
    let mut f = fixture();
    // The three unified causes all return the same "invalid" value.
    let unknown = login_inner(
        &f.users,
        &mut f.sessions,
        &mut f.gate,
        &f.config,
        &form("nobody", "open sesame", false),
        0,
    );
    let deactivated = login_inner(
        &f.users,
        &mut f.sessions,
        &mut f.gate,
        &f.config,
        &form("dora", "open sesame", false),
        0,
    );
    let wrong_password = login_inner(
        &f.users,
        &mut f.sessions,
        &mut f.gate,
        &f.config,
        &form("alice", "not it", false),
        0,
    );
    assert!(matches!(unknown, Ok(None)));
    assert!(matches!(deactivated, Ok(None)));
    assert!(matches!(wrong_password, Ok(None)));
    // And none of them persisted anything.
    assert_eq!(f.sessions.list_all(0).len(), 0);
}

#[test]
fn locked_account_with_right_password_is_rejected_as_locked() {
    let mut f = fixture();
    let r = login_inner(
        &f.users,
        &mut f.sessions,
        &mut f.gate,
        &f.config,
        &form("lena", "open sesame", false),
        0,
    );
    assert!(matches!(r, Err(Error::ClientError(ClientError::AccountLocked))));
    assert_eq!(f.sessions.list_all(0).len(), 0);
}

#[test]
fn malformed_stored_hash_surfaces_the_internal_fault() {
    let mut f = fixture();
    // An account whose stored hash the primitive cannot parse: the attempt
    // is owed the internal hashing fault, never a silent "invalid".
    let broken = f.users.add_user("mallory".to_string(), false, false).unwrap();
    f.users.set_password(broken.id, Some("not a phc string".to_string()));
    let r = login_inner(
        &f.users,
        &mut f.sessions,
        &mut f.gate,
        &f.config,
        &form("mallory", "whatever", false),
        0,
    );
    assert!(matches!(r, Err(Error::InternalError(InternalError::Hash))));
    assert_eq!(f.sessions.list_all(0).len(), 0);
}

#[test]
fn login_delay_stays_inside_its_jitter_window() {
    for _ in 0..200 {
        let d = arm_login_delay(500);
        assert!(d >= 500);
        assert!(d < 600);
    }
}
