//! Timing-equalized login: the credential-checking pipeline, and the model
//! of the delay race that hides which step rejected an attempt.
//!
//! The pipeline itself — look the user up, reject absent or deactivated
//! accounts, verify the password through the hashing gate, reject locked
//! accounts, create a session — is a verified function over the modelled
//! relations. The race against the randomized timer is asynchronous work
//! that lives with the scheduler; what is provable about it — the latency
//! floor, and that every fast outcome is stretched to the same floor — is
//! stated over the latency model below.

use crate::error::{ClientError, Error, InternalError};
use crate::hashing::{self, AdmissionGate, HashConfig, password_verifies, verify_faults};
use crate::session::{spec_until, SessionStore, generate_session_key};
use crate::types::{Login, Session};
use crate::users::UserStore;
use vstd::prelude::*;

use rand::Rng;

verus! {

/// Relies on rand's `thread_rng().gen_range`: a delay drawn uniformly from
/// `[base, base + base / 5)` milliseconds. Only the bounds are promised; the
/// value is random.
#[verifier::external_body]
fn draw_login_delay(base: u64) -> (d: u64)
    requires
        5 <= base,
        base <= u64::MAX - base,
    ensures
        base <= d < base + base / 5,
{
    rand::thread_rng().gen_range(base..(base + base / 5))
}

/// Arm the randomized timer for one login attempt: a delay jittered up to a
/// fifth above the configured base. Whatever value is drawn, a login race
/// waiting for this timer observes a latency of at least the configured
/// base.
pub fn arm_login_delay(base: u64) -> (d: u64)
    requires
        5 <= base,
        base <= u64::MAX - base,
    ensures
        base <= d < base + base / 5,
        forall|work: int| observed_login_latency(work, d as int) >= base,
{
    draw_login_delay(base)
}

/// The wall-clock latency an observer measures for one login attempt whose
/// real processing takes `work` against a timer armed with `delay`: whichever
/// of the two finishes last is waited for before the result is returned.
pub open spec fn observed_login_latency(work: int, delay: int) -> int {
    if work >= delay {
        work
    } else {
        delay
    }
}

/// Law: the observed latency never falls below the armed delay — the floor
/// holds whatever the outcome of the attempt was.
pub proof fn lemma_login_latency_floor(work: int, delay: int)
    ensures
        observed_login_latency(work, delay) >= delay,
{
}

/// Law: as long as the armed delay covers the real processing time, two
/// login attempts — whatever their outcomes, a missing user, a deactivated
/// account, a wrong password or a success — observe exactly the same
/// latency. Only when processing overruns the delay does the latency leak
/// anything, which the race reports as an operational warning.
pub proof fn lemma_login_latency_uniform(work1: int, work2: int, delay: int)
    requires
        work1 <= delay,
        work2 <= delay,
    ensures
        observed_login_latency(work1, delay) == observed_login_latency(work2, delay),
{
}

/// The login pipeline: accept credentials and hand back either a fresh
/// session or "invalid". A missing user, a deactivated account (no hash set)
/// and a wrong password are deliberately unified into the same `Ok(None)`
/// outcome — the first two before any hashing happens, at the same point.
/// A locked account is rejected after the password check. Only a successful
/// attempt touches the session relation.
pub fn login_inner(
    users: &UserStore,
    sessions: &mut SessionStore,
    gate: &mut AdmissionGate,
    config: &HashConfig,
    form: &Login,
    now: i64,
) -> (r: Result<Option<Session>, Error>)
    requires
        users.wf(),
        old(sessions).wf(),
        old(gate).inv(),
        old(sessions).spec_next_id() < i32::MAX,
        0 <= now,
        now + crate::session::LONG_SESSION_LIFETIME <= i64::MAX,
    ensures
        final(sessions).wf(),
        final(gate).inv(),
        final(gate).spec_capacity() == old(gate).spec_capacity(),
        final(gate).spec_in_use() == old(gate).spec_in_use(),
        // An unknown username and a deactivated account fail identically,
        // with nothing persisted and no hashing attempted.
        !users.has_username(form.username@) ==> r == Ok::<Option<Session>, Error>(None)
            && *final(sessions) == *old(sessions),
        users.has_username(form.username@) && users.user_by_name(form.username@).pass is None ==> r
            == Ok::<Option<Session>, Error>(None) && *final(sessions) == *old(sessions),
        // "Invalid" comes only from the three unified causes, and never
        // touches the session relation.
        r == Ok::<Option<Session>, Error>(None) ==> !users.has_username(form.username@)
            || users.user_by_name(form.username@).pass is None
            || (users.user_by_name(form.username@).pass matches Some(h)
                && !password_verifies(config.pepper@, h@, form.password@)),
        r == Ok::<Option<Session>, Error>(None) ==> *final(sessions) == *old(sessions),
        // With a free slot, a stored hash the primitive cannot decide
        // against is owed the hashing fault.
        old(gate).spec_in_use() < old(gate).spec_capacity() && users.has_username(form.username@)
            && (users.user_by_name(form.username@).pass matches Some(h) && verify_faults(
            config.pepper@,
            h@,
            form.password@,
        )) ==> r == Err::<Option<Session>, Error>(Error::InternalError(InternalError::Hash)),
        // With a free admission slot, a wrong password is owed the same
        // "invalid" value — unless the primitive itself faulted.
        old(gate).spec_in_use() < old(gate).spec_capacity() && users.has_username(form.username@)
            && (users.user_by_name(form.username@).pass matches Some(h)
                && !password_verifies(config.pepper@, h@, form.password@)) ==> (r == Ok::<
            Option<Session>,
            Error,
        >(None) || r == Err::<Option<Session>, Error>(Error::InternalError(InternalError::Hash))),
        // With a free slot, a locked account presenting the right password is
        // owed the locked rejection — unless the primitive itself faulted.
        old(gate).spec_in_use() < old(gate).spec_capacity() && users.has_username(form.username@)
            && (users.user_by_name(form.username@).pass matches Some(h)
                && password_verifies(config.pepper@, h@, form.password@))
            && users.user_by_name(form.username@).locked ==> (r == Err::<Option<Session>, Error>(
            Error::ClientError(ClientError::AccountLocked),
        ) || r == Err::<Option<Session>, Error>(Error::InternalError(InternalError::Hash))),
        // With a free slot, valid credentials on an unlocked account are owed
        // a session — unless the drawn key collided or the primitive faulted.
        old(gate).spec_in_use() < old(gate).spec_capacity() && users.has_username(form.username@)
            && (users.user_by_name(form.username@).pass matches Some(h)
                && password_verifies(config.pepper@, h@, form.password@))
            && !users.user_by_name(form.username@).locked ==> (r matches Ok(Some(_)) || r == Err::<
            Option<Session>,
            Error,
        >(Error::InternalError(InternalError::SessionKeyCollision)) || r == Err::<
            Option<Session>,
            Error,
        >(Error::InternalError(InternalError::Hash))),
        // A session comes only from a verified, unlocked account, and is the
        // single row appended, expiring one configured lifetime from now.
        r matches Ok(Some(s)) ==> (users.has_username(form.username@)
            && (users.user_by_name(form.username@).pass matches Some(h)
                && password_verifies(config.pepper@, h@, form.password@))
            && !users.user_by_name(form.username@).locked
            && s.userid == users.user_by_name(form.username@).id
            && s.until == spec_until(now, form.extended)
            && s.key@.len() == 32
            && s.id == old(sessions).spec_next_id()
            && final(sessions).rows() == old(sessions).rows().push(s)),
        // The locked rejection comes exactly when a locked account presented
        // the right password.
        r == Err::<Option<Session>, Error>(Error::ClientError(ClientError::AccountLocked)) ==> (
            users.has_username(form.username@)
            && (users.user_by_name(form.username@).pass matches Some(h)
                && password_verifies(config.pepper@, h@, form.password@))
            && users.user_by_name(form.username@).locked
            && *final(sessions) == *old(sessions)),
        // A key collision is surfaced as the internal fault, never a silent
        // overwrite, and only on the path where a key was in fact drawn:
        // a verified password on an unlocked account.
        r == Err::<Option<Session>, Error>(Error::InternalError(InternalError::SessionKeyCollision))
            ==> *final(sessions) == *old(sessions) && users.has_username(form.username@)
            && (users.user_by_name(form.username@).pass matches Some(h)
                && password_verifies(config.pepper@, h@, form.password@))
            && !users.user_by_name(form.username@).locked,
        // No other error shape escapes.
        r matches Err(e) ==> (e == Error::ClientError(ClientError::AccountLocked)
            || e == Error::InternalError(InternalError::SessionKeyCollision)
            || e == Error::InternalError(InternalError::Semaphore)
            || e == Error::InternalError(InternalError::Hash)),
        // The two internal hashing-tier faults belong to the verification
        // step: a user row with a hash was found, and nothing was persisted.
        // The admission fault needs every slot taken; the hashing fault on
        // an input the primitive decides needs the fault condition (an
        // environmental allocation failure is the one other source).
        r matches Err(e) && (e == Error::InternalError(InternalError::Semaphore)
            || e == Error::InternalError(InternalError::Hash)) ==> *final(sessions) == *old(
            sessions) && users.has_username(form.username@) && users.user_by_name(
            form.username@,
        ).pass is Some,
        r == Err::<Option<Session>, Error>(Error::InternalError(InternalError::Semaphore)) ==> old(
            gate,
        ).spec_in_use() == old(gate).spec_capacity(),
{
    // Look the user up; an unknown username exits early, exactly like a
    // deactivated account below.
    let user = match users.find_by_username(&form.username) {
        Some(u) => u,
        None => {
            return Ok(None);
        },
    };
    // A nulled password hash is a deactivated account.
    let passhash = match &user.pass {
        Some(h) => h,
        None => {
            return Ok(None);
        },
    };
    // Check the password through the admission-controlled gate.
    let verified = hashing::verify(gate, config, passhash, &form.password)?;
    if !verified {
        // A wrong password is not an error, but it is an early return.
        return Ok(None);
    }
    if user.locked {
        return Err(Error::account_locked());
    }
    // The key is high-entropy random; an actual collision below is an
    // internal fault, not a retryable condition.
    let key = generate_session_key();
    let created = sessions.create(user.id, form.extended, now, key)?;
    Ok(Some(created))
}

} // verus!
