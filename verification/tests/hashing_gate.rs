use account_service::error::{Error, InternalError};
use account_service::hashing::{hash, hash_verify_round_trip, verify, AdmissionGate, HashConfig};

fn cheap_config() -> HashConfig {
    // Minimal argon2 costs: the tests exercise the contracts, not the
    // hardness of the primitive.
    HashConfig { pepper: b"test-pepper".to_vec(), m_cost: 8, t_cost: 1, p_cost: 1 }
}

#[test]
fn fresh_hash_verifies_against_its_password() {
    let config = cheap_config();
    let mut gate = AdmissionGate::new(2);
    let r = hash_verify_round_trip(&mut gate, &config, &"hunter2".to_string());
    assert_eq!(r.map_err(|e| e.status_code()), Ok(true));
}

#[test]
fn wrong_password_is_false_not_an_error() {
    let config = cheap_config();
    let mut gate = AdmissionGate::new(2);
    let h = hash(&mut gate, &config, &"correct horse".to_string()).expect("hashing succeeds");
    let r = verify(&mut gate, &config, &h, &"battery staple".to_string());
    assert_eq!(r.map_err(|e| e.status_code()), Ok(false));
}

#[test]
fn hash_output_is_a_phc_string_not_the_password() {
    let config = cheap_config();
    let mut gate = AdmissionGate::new(1);
    let h = hash(&mut gate, &config, &"pw".to_string()).expect("hashing succeeds");
    assert_ne!(h, "pw");
    assert!(h.starts_with("$argon2"));
}

#[test]
fn different_pepper_rejects_the_same_password() {
    let config = cheap_config();
    let mut gate = AdmissionGate::new(1);
    let h = hash(&mut gate, &config, &"pw".to_string()).expect("hashing succeeds");
    let other = HashConfig { pepper: b"other-pepper".to_vec(), m_cost: 8, t_cost: 1, p_cost: 1 };
    let r = verify(&mut gate, &other, &h, &"pw".to_string());
    assert_eq!(r.map_err(|e| e.status_code()), Ok(false));
}

#[test]
fn malformed_stored_hash_is_an_internal_fault() {
    let config = cheap_config();
    let mut gate = AdmissionGate::new(1);
    let r = verify(&mut gate, &config, &"not a hash".to_string(), &"pw".to_string());
    assert!(matches!(r, Err(Error::InternalError(InternalError::Hash))));
}

#[test]
fn admission_counter_never_exceeds_the_bound() {
    let mut gate = AdmissionGate::new(2);
    assert_eq!(gate.capacity(), 2);
    assert!(gate.try_acquire());
    assert!(gate.try_acquire());
    assert_eq!(gate.in_use(), 2);
    // The third concurrent operation is refused rather than admitted.
    assert!(!gate.try_acquire());
    assert_eq!(gate.in_use(), 2);
    gate.release();
    assert_eq!(gate.in_use(), 1);
    assert!(gate.try_acquire());
    assert_eq!(gate.in_use(), 2);
}

#[test]
fn gated_operations_fail_when_the_gate_is_saturated() {
    let config = cheap_config();
    let mut gate = AdmissionGate::new(1);
    assert!(gate.try_acquire());
    // With the only slot held, hashing is refused by admission control.
    let r = hash(&mut gate, &config, &"pw".to_string());
    assert!(matches!(r, Err(Error::InternalError(InternalError::Semaphore))));
    gate.release();
    let ok = hash(&mut gate, &config, &"pw".to_string());
    assert!(ok.is_ok());
    // The slot taken for the work was given back.
    assert_eq!(gate.in_use(), 0);
}
