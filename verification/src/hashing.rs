//! Hashing gate: password hash and verify operations behind the
//! admission-control discipline.
//!
//! The CPU-bound primitive is argon2, reached only through trusted wrappers;
//! the admission-control counter is an explicit bounded counter whose bound
//! is proved invariant.

use crate::error::{Error, InternalError};
use vstd::prelude::*;

verus! {

/// Process-wide hashing configuration: the secret pepper mixed into every
/// password hash, distinct from the per-password salt, and the fixed cost
/// parameters new hashes are computed with. Old hashes carry their own
/// parameters inside the hash string, so verification never reads these.
pub struct HashConfig {
    pub pepper: Vec<u8>,
    /// Memory cost of new hashes, in KiB blocks.
    pub m_cost: u32,
    /// Iteration count of new hashes.
    pub t_cost: u32,
    /// Degree of parallelism of new hashes.
    pub p_cost: u32,
}

impl HashConfig {
    /// A configuration with the primitive's recommended default costs.
    pub fn new(pepper: Vec<u8>) -> (c: HashConfig)
        ensures
            c.pepper == pepper,
            c.m_cost == 19456,
            c.t_cost == 2,
            c.p_cost == 1,
    {
        HashConfig { pepper, m_cost: 19456, t_cost: 2, p_cost: 1 }
    }
}

/// The admission-control counter: a capacity-bounded gate limiting how many
/// CPU-bound hash or verify operations run concurrently. Constructed once at
/// process start and threaded through every hashing call site.
pub struct AdmissionGate {
    capacity: usize,
    in_use: usize,
}

impl AdmissionGate {
    /// The counter never exceeds the configured bound.
    pub closed spec fn inv(&self) -> bool {
        self.in_use <= self.capacity
    }

    pub closed spec fn spec_capacity(&self) -> usize {
        self.capacity
    }

    pub closed spec fn spec_in_use(&self) -> usize {
        self.in_use
    }

    pub fn new(capacity: usize) -> (g: AdmissionGate)
        ensures
            g.inv(),
            g.spec_capacity() == capacity,
            g.spec_in_use() == 0,
    {
        AdmissionGate { capacity, in_use: 0 }
    }

    /// How many operations hold a slot right now.
    pub fn in_use(&self) -> (n: usize)
        ensures
            n == self.spec_in_use(),
    {
        self.in_use
    }

    pub fn capacity(&self) -> (n: usize)
        ensures
            n == self.spec_capacity(),
    {
        self.capacity
    }

    /// Take one slot if one is free. Granting never pushes the counter past
    /// the bound.
    pub fn try_acquire(&mut self) -> (granted: bool)
        requires
            old(self).inv(),
        ensures
            final(self).inv(),
            final(self).spec_capacity() == old(self).spec_capacity(),
            granted ==> old(self).spec_in_use() < old(self).spec_capacity()
                && final(self).spec_in_use() == old(self).spec_in_use() + 1,
            !granted ==> old(self).spec_in_use() == old(self).spec_capacity()
                && final(self).spec_in_use() == old(self).spec_in_use(),
    {
        if self.in_use < self.capacity {
            self.in_use = self.in_use + 1;
            true
        } else {
            false
        }
    }

    /// Give a slot back.
    pub fn release(&mut self)
        requires
            old(self).inv(),
            old(self).spec_in_use() > 0,
        ensures
            final(self).inv(),
            final(self).spec_capacity() == old(self).spec_capacity(),
            final(self).spec_in_use() == old(self).spec_in_use() - 1,
    {
        self.in_use = self.in_use - 1;
    }
}

/// Whether `password`, hashed under `pepper` with the parameters and salt
/// embedded in the PHC string `hash`, matches that string. This names the
/// outcome of argon2's `verify_password`, which depends on these three
/// values alone.
pub uninterp spec fn password_verifies(
    pepper: Seq<u8>,
    hash: Seq<char>,
    password: Seq<char>,
) -> bool;

/// Whether these three values make argon2's verification fail rather than
/// decide: a malformed or unsupported PHC string, a salt or output length
/// outside the algorithm's bounds, or an over-long pepper. This names the
/// primitive's input-determined failure condition; the one failure the
/// inputs do not determine is a heap-allocation failure inside the
/// recomputation, so a fault can occur even when this is false — but never
/// success when it is true.
pub uninterp spec fn verify_faults(
    pepper: Seq<u8>,
    hash: Seq<char>,
    password: Seq<char>,
) -> bool;

/// Relies on argon2's `PasswordVerifier::verify_password` (argon2 0.6): it
/// recomputes the hash of `password` under the pepper and the algorithm,
/// version, parameters and salt stored in the PHC string, and compares; a
/// mismatch is `Error::PasswordInvalid`, mapped here to `Ok(false)`. Every
/// other failure (a malformed stored hash, lengths outside the algorithm's
/// bounds, an over-long pepper) is input-determined and is `Err(())` — with
/// one exception the inputs do not determine: the recomputation allocates
/// its block buffer, and an allocation failure is also `Err(())`. So an
/// input-determined fault always fails, a success implies no such fault,
/// but a failure does not pin the fault on the inputs.
#[verifier::external_body]
fn argon2_verify(pepper: &[u8], hash: &str, password: &str) -> (r: Result<bool, ()>)
    ensures
        r matches Ok(b) ==> b == password_verifies(pepper@, hash@, password@),
        r matches Ok(b) ==> !verify_faults(pepper@, hash@, password@),
        verify_faults(pepper@, hash@, password@) ==> r is Err,
{
    let hasher = argon2::Argon2::new_with_secret(
        pepper,
        argon2::Algorithm::default(),
        argon2::Version::default(),
        argon2::Params::default(),
    )
    .map_err(|_| ())?;
    match argon2::PasswordVerifier::<str>::verify_password(&hasher, password.as_bytes(), hash) {
        Ok(()) => Ok(true),
        Err(argon2::password_hash::Error::PasswordInvalid) => Ok(false),
        Err(_) => Err(()),
    }
}

/// Relies on argon2's `PasswordHasher::hash_password` (argon2 0.6): it draws
/// a fresh random salt, hashes `password` under `pepper` with the given
/// cost parameters, and returns the PHC string. password-hash documents that
/// `verify_password` recomputes the hash from the parameters and salt stored
/// in that string, so the string it returns verifies against the same pepper
/// and password, whatever cost parameters it was computed with — and none of
/// verification's input-determined error paths is reachable on it: the fresh
/// string re-parses as it was just serialized, its salt and output lengths
/// were accepted by the same bounds, and the pepper was accepted for the
/// hash itself.
#[verifier::external_body]
fn argon2_hash(pepper: &[u8], m_cost: u32, t_cost: u32, p_cost: u32, password: &str) -> (r: Result<
    String,
    (),
>)
    ensures
        r matches Ok(h) ==> password_verifies(pepper@, h@, password@),
        r matches Ok(h) ==> !verify_faults(pepper@, h@, password@),
{
    let params = argon2::Params::new(m_cost, t_cost, p_cost, None).map_err(|_| ())?;
    let hasher = argon2::Argon2::new_with_secret(
        pepper,
        argon2::Algorithm::default(),
        argon2::Version::default(),
        params,
    )
    .map_err(|_| ())?;
    let hash = argon2::PasswordHasher::hash_password(&hasher, password.as_bytes()).map_err(
        |_| (),
    )?;
    Ok(hash.to_string())
}

/// Hash `password` under the configured pepper with a fresh random salt,
/// holding one admission slot for the duration of the work. The admission
/// fault comes only with every slot taken; the hashing fault only on a
/// failure of the primitive. A returned hash verifies against the password
/// and can never make verification itself fault.
pub fn hash(gate: &mut AdmissionGate, config: &HashConfig, password: &String) -> (r: Result<
    String,
    Error,
>)
    requires
        old(gate).inv(),
    ensures
        final(gate).inv(),
        final(gate).spec_capacity() == old(gate).spec_capacity(),
        final(gate).spec_in_use() == old(gate).spec_in_use(),
        r matches Ok(h) ==> password_verifies(config.pepper@, h@, password@),
        r matches Ok(h) ==> !verify_faults(config.pepper@, h@, password@),
        r matches Err(e) ==> e == Error::InternalError(InternalError::Semaphore) || e
            == Error::InternalError(InternalError::Hash),
        r == Err::<String, Error>(Error::InternalError(InternalError::Semaphore)) <==> old(
            gate,
        ).spec_in_use() == old(gate).spec_capacity(),
{
    if !gate.try_acquire() {
        return Err(Error::InternalError(InternalError::Semaphore));
    }
    let result = argon2_hash(
        config.pepper.as_slice(),
        config.m_cost,
        config.t_cost,
        config.p_cost,
        password.as_str(),
    );
    gate.release();
    match result {
        Ok(h) => Ok(h),
        Err(_) => Err(Error::hash_fault()),
    }
}

/// Verify `password` against the stored PHC hash string under the configured
/// pepper, holding one admission slot for the duration of the work. A
/// password mismatch is `Ok(false)`, not an error, and never the fault; the
/// admission fault comes only with every slot taken; an input that makes
/// the primitive fail rather than decide is owed the hashing fault. The one
/// failure the inputs do not determine is an allocation failure inside the
/// primitive, so success itself is not owed.
pub fn verify(
    gate: &mut AdmissionGate,
    config: &HashConfig,
    hash: &String,
    password: &String,
) -> (r: Result<bool, Error>)
    requires
        old(gate).inv(),
    ensures
        final(gate).inv(),
        final(gate).spec_capacity() == old(gate).spec_capacity(),
        final(gate).spec_in_use() == old(gate).spec_in_use(),
        r matches Ok(b) ==> b == password_verifies(config.pepper@, hash@, password@),
        r matches Ok(b) ==> !verify_faults(config.pepper@, hash@, password@),
        old(gate).spec_in_use() < old(gate).spec_capacity() && verify_faults(
            config.pepper@,
            hash@,
            password@,
        ) ==> r == Err::<bool, Error>(Error::InternalError(InternalError::Hash)),
        r matches Err(e) ==> e == Error::InternalError(InternalError::Semaphore) || e
            == Error::InternalError(InternalError::Hash),
        r == Err::<bool, Error>(Error::InternalError(InternalError::Semaphore)) <==> old(
            gate,
        ).spec_in_use() == old(gate).spec_capacity(),
{
    if !gate.try_acquire() {
        return Err(Error::InternalError(InternalError::Semaphore));
    }
    let result = argon2_verify(config.pepper.as_slice(), hash.as_str(), password.as_str());
    gate.release();
    match result {
        Ok(b) => Ok(b),
        Err(_) => Err(Error::hash_fault()),
    }
}

/// Hashing-gate law: a hash freshly computed for a password verifies against
/// that same password. Whenever the round trip returns a verdict, the
/// verdict is `true`; the admission fault comes exactly with a full gate;
/// and the verification step can never fault on the fresh hash — the only
/// other failure left is the hashing step's own, which the environment (the
/// salt draw, the allocator), not the inputs, decides.
pub fn hash_verify_round_trip(
    gate: &mut AdmissionGate,
    config: &HashConfig,
    password: &String,
) -> (r: Result<bool, Error>)
    requires
        old(gate).inv(),
    ensures
        final(gate).inv(),
        final(gate).spec_capacity() == old(gate).spec_capacity(),
        final(gate).spec_in_use() == old(gate).spec_in_use(),
        r matches Ok(b) ==> b,
        r matches Err(e) ==> e == Error::InternalError(InternalError::Semaphore) || e
            == Error::InternalError(InternalError::Hash),
        r == Err::<bool, Error>(Error::InternalError(InternalError::Semaphore)) <==> old(
            gate,
        ).spec_in_use() == old(gate).spec_capacity(),
{
    let hashed = hash(gate, config, password)?;
    verify(gate, config, &hashed, password)
}

} // verus!
