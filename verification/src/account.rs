//! Account self-service and administration: password changes, resets,
//! deactivation and impersonation. Every operation re-validates the
//! presented password through the hashing gate before touching the
//! relations, and session revocation happens only after the password
//! change it belongs to has been applied.

use crate::error::{ClientError, Error, InternalError};
use crate::hashing::{self, AdmissionGate, HashConfig, password_verifies, verify_faults};
use crate::session::{spec_until, SessionStore, generate_session_key};
use crate::types::{Impersonate, PasswordChange, PasswordReset, Session};
use crate::users::{User, UserStore};
use vstd::prelude::*;

verus! {

/// A user changing their own password: the old password is re-verified, the
/// new one hashed and stored, and, when asked for, every session of the
/// user is cleared — after the change is in place.
pub fn change_password(
    users: &mut UserStore,
    sessions: &mut SessionStore,
    gate: &mut AdmissionGate,
    config: &HashConfig,
    userid: i32,
    form: &PasswordChange,
) -> (r: Result<(), Error>)
    requires
        old(users).wf(),
        old(sessions).wf(),
        old(gate).inv(),
    ensures
        final(users).wf(),
        final(sessions).wf(),
        final(gate).inv(),
        final(gate).spec_in_use() == old(gate).spec_in_use(),
        // The account must exist; the storage layer reports a missing row
        // as a fault, and only a missing row reports it.
        !old(users).has_id(userid) ==> r == Err::<(), Error>(
            Error::InternalError(InternalError::Db),
        ) && *final(users) == *old(users) && *final(sessions) == *old(sessions),
        r == Err::<(), Error>(Error::InternalError(InternalError::Db)) ==> !old(users).has_id(
            userid,
        ),
        // A deactivated account cannot authorize a change.
        old(users).has_id(userid) && old(users).user_by_id(userid).pass is None ==> r == Err::<
            (),
            Error,
        >(Error::ClientError(ClientError::Unauthorized)) && *final(users) == *old(users)
            && *final(sessions) == *old(sessions),
        // Rejection for a wrong password comes only from a wrong password
        // or a deactivated account.
        r == Err::<(), Error>(Error::ClientError(ClientError::Unauthorized)) ==> old(
            users,
        ).has_id(userid) && (old(users).user_by_id(userid).pass is None || (old(users).user_by_id(
            userid,
        ).pass matches Some(h) && !password_verifies(config.pepper@, h@, form.old_password@))),
        // On success the old password verified, the stored hash now matches
        // the new password, and the sessions were cleared iff requested.
        r is Ok ==> (old(users).has_id(userid)
            && (old(users).user_by_id(userid).pass matches Some(h)
                && password_verifies(config.pepper@, h@, form.old_password@))
            && spec_rehashed(
                old(users).rows(),
                final(users).rows(),
                old(users).index_of_id(userid),
                config.pepper@,
                form.new_password@,
            )
            && (form.clear_sessions ==> final(sessions).rows() == old(sessions).rows().filter(
                |s: Session| s.userid != userid,
            ))
            && (!form.clear_sessions ==> *final(sessions) == *old(sessions))),
        // With a free slot, a stored hash the primitive cannot decide
        // against is owed the hashing fault.
        old(gate).spec_in_use() < old(gate).spec_capacity() && old(users).has_id(userid) && (old(
            users,
        ).user_by_id(userid).pass matches Some(h) && verify_faults(
            config.pepper@,
            h@,
            form.old_password@,
        )) ==> r == Err::<(), Error>(Error::InternalError(InternalError::Hash)),
        // With a free slot, a wrong old password is owed the rejection, and
        // a right one is owed the change — unless the primitive faulted.
        old(gate).spec_in_use() < old(gate).spec_capacity() && old(users).has_id(userid) && (old(
            users,
        ).user_by_id(userid).pass matches Some(h) && !password_verifies(
            config.pepper@,
            h@,
            form.old_password@,
        )) ==> (r == Err::<(), Error>(Error::ClientError(ClientError::Unauthorized)) || r == Err::<
            (),
            Error,
        >(Error::InternalError(InternalError::Hash))),
        old(gate).spec_in_use() < old(gate).spec_capacity() && old(users).has_id(userid) && (old(
            users,
        ).user_by_id(userid).pass matches Some(h) && password_verifies(
            config.pepper@,
            h@,
            form.old_password@,
        )) ==> (r is Ok || r == Err::<(), Error>(Error::InternalError(InternalError::Hash))),
        // The two internal hashing-tier faults belong to the hashing steps,
        // reached with the row and its hash present; the admission fault
        // needs every slot taken.
        r matches Err(e) && (e == Error::InternalError(InternalError::Semaphore) || e
            == Error::InternalError(InternalError::Hash)) ==> old(users).has_id(userid) && old(
            users,
        ).user_by_id(userid).pass is Some,
        r == Err::<(), Error>(Error::InternalError(InternalError::Semaphore)) ==> old(
            gate,
        ).spec_in_use() == old(gate).spec_capacity(),
        // Every other outcome leaves both relations untouched.
        r matches Err(e) ==> (e == Error::InternalError(InternalError::Db) || e
            == Error::ClientError(ClientError::Unauthorized) || e == Error::InternalError(
            InternalError::Semaphore,
        ) || e == Error::InternalError(InternalError::Hash)) && *final(users) == *old(users)
            && *final(sessions) == *old(sessions),
{
    let current = match users.find_by_id(userid) {
        Some(u) => u,
        None => {
            return Err(Error::InternalError(InternalError::Db));
        },
    };
    let stored = match &current.pass {
        Some(h) => h,
        None => {
            return Err(Error::unauthorized());
        },
    };
    if !hashing::verify(gate, config, stored, &form.old_password)? {
        return Err(Error::unauthorized());
    }
    let new_hash = hashing::hash(gate, config, &form.new_password)?;
    users.set_password(userid, Some(new_hash));
    if form.clear_sessions {
        sessions.revoke_all(userid);
    }
    Ok(())
}

/// An administrator resetting another account's password, re-proving their
/// own password first so that a stolen session key alone cannot take an
/// account over. The target's sessions are cleared, when asked for, only
/// after the new password is in place. Resetting a non-existent target
/// changes nothing and is not an error, exactly as the row update reports
/// it.
pub fn reset_password(
    users: &mut UserStore,
    sessions: &mut SessionStore,
    gate: &mut AdmissionGate,
    config: &HashConfig,
    admin_userid: i32,
    target_userid: i32,
    form: &PasswordReset,
) -> (r: Result<(), Error>)
    requires
        old(users).wf(),
        old(sessions).wf(),
        old(gate).inv(),
    ensures
        final(users).wf(),
        final(sessions).wf(),
        final(gate).inv(),
        final(gate).spec_in_use() == old(gate).spec_in_use(),
        !old(users).has_id(admin_userid) ==> r == Err::<(), Error>(
            Error::InternalError(InternalError::Db),
        ),
        r == Err::<(), Error>(Error::InternalError(InternalError::Db)) ==> !old(users).has_id(
            admin_userid,
        ),
        old(users).has_id(admin_userid) && old(users).user_by_id(admin_userid).pass is None ==> r
            == Err::<(), Error>(Error::ClientError(ClientError::BadLogin)),
        r == Err::<(), Error>(Error::ClientError(ClientError::BadLogin)) ==> old(users).has_id(
            admin_userid,
        ) && (old(users).user_by_id(admin_userid).pass is None || (old(users).user_by_id(
            admin_userid,
        ).pass matches Some(h) && !password_verifies(config.pepper@, h@, form.admin_password@))),
        r == Err::<(), Error>(Error::ClientError(ClientError::AccountLocked)) ==> old(
            users,
        ).has_id(admin_userid) && (old(users).user_by_id(admin_userid).pass matches Some(h)
            && password_verifies(config.pepper@, h@, form.admin_password@)) && old(
            users,
        ).user_by_id(admin_userid).locked,
        r is Ok ==> (old(users).has_id(admin_userid)
            && (old(users).user_by_id(admin_userid).pass matches Some(h)
                && password_verifies(config.pepper@, h@, form.admin_password@))
            && !old(users).user_by_id(admin_userid).locked
            && (old(users).has_id(target_userid) ==> spec_rehashed(
                old(users).rows(),
                final(users).rows(),
                old(users).index_of_id(target_userid),
                config.pepper@,
                form.new_password@,
            ))
            && (!old(users).has_id(target_userid) ==> *final(users) == *old(users))
            && (form.clear_sessions ==> final(sessions).rows() == old(sessions).rows().filter(
                |s: Session| s.userid != target_userid,
            ))
            && (!form.clear_sessions ==> *final(sessions) == *old(sessions))),
        // With a free slot, a stored hash the primitive cannot decide
        // against is owed the hashing fault.
        old(gate).spec_in_use() < old(gate).spec_capacity() && old(users).has_id(admin_userid) && (
        old(users).user_by_id(admin_userid).pass matches Some(h) && verify_faults(
            config.pepper@,
            h@,
            form.admin_password@,
        )) ==> r == Err::<(), Error>(Error::InternalError(InternalError::Hash)),
        // With a free slot, a wrong administrator password is owed the
        // rejection, a right one on an unlocked administrator is owed the
        // reset, and a locked one the locked rejection — unless the
        // primitive faulted.
        old(gate).spec_in_use() < old(gate).spec_capacity() && old(users).has_id(admin_userid) && (
        old(users).user_by_id(admin_userid).pass matches Some(h) && !password_verifies(
            config.pepper@,
            h@,
            form.admin_password@,
        )) ==> (r == Err::<(), Error>(Error::ClientError(ClientError::BadLogin)) || r == Err::<
            (),
            Error,
        >(Error::InternalError(InternalError::Hash))),
        old(gate).spec_in_use() < old(gate).spec_capacity() && old(users).has_id(admin_userid) && (
        old(users).user_by_id(admin_userid).pass matches Some(h) && password_verifies(
            config.pepper@,
            h@,
            form.admin_password@,
        )) && old(users).user_by_id(admin_userid).locked ==> (r == Err::<(), Error>(
            Error::ClientError(ClientError::AccountLocked),
        ) || r == Err::<(), Error>(Error::InternalError(InternalError::Hash))),
        old(gate).spec_in_use() < old(gate).spec_capacity() && old(users).has_id(admin_userid) && (
        old(users).user_by_id(admin_userid).pass matches Some(h) && password_verifies(
            config.pepper@,
            h@,
            form.admin_password@,
        )) && !old(users).user_by_id(admin_userid).locked ==> (r is Ok || r == Err::<(), Error>(
            Error::InternalError(InternalError::Hash),
        )),
        // The two internal hashing-tier faults belong to the hashing steps;
        // the admission fault needs every slot taken.
        r matches Err(e) && (e == Error::InternalError(InternalError::Semaphore) || e
            == Error::InternalError(InternalError::Hash)) ==> old(users).has_id(admin_userid)
            && old(users).user_by_id(admin_userid).pass is Some,
        r == Err::<(), Error>(Error::InternalError(InternalError::Semaphore)) ==> old(
            gate,
        ).spec_in_use() == old(gate).spec_capacity(),
        r matches Err(e) ==> (e == Error::InternalError(InternalError::Db) || e
            == Error::ClientError(ClientError::BadLogin) || e == Error::ClientError(
            ClientError::AccountLocked,
        ) || e == Error::InternalError(InternalError::Semaphore) || e == Error::InternalError(
            InternalError::Hash,
        )) && *final(users) == *old(users) && *final(sessions) == *old(sessions),
{
    let admin_user = match users.find_by_id(admin_userid) {
        Some(u) => u,
        None => {
            return Err(Error::InternalError(InternalError::Db));
        },
    };
    let admin_hash = match &admin_user.pass {
        Some(h) => h,
        None => {
            // Normally impossible, since deactivating also clears sessions;
            // impersonation can make it reachable again.
            return Err(Error::bad_login());
        },
    };
    if !hashing::verify(gate, config, admin_hash, &form.admin_password)? {
        return Err(Error::bad_login());
    }
    if admin_user.locked {
        return Err(Error::account_locked());
    }
    let new_hash = hashing::hash(gate, config, &form.new_password)?;
    users.set_password(target_userid, Some(new_hash));
    // The revocation runs only after the password change is applied.
    if form.clear_sessions {
        sessions.revoke_all(target_userid);
    }
    Ok(())
}

/// An administrator deactivating an account: the password hash is nulled so
/// the account can no longer authenticate, and every session of the account
/// is revoked. The built-in seeded administrator (ids at or below zero)
/// cannot be deactivated.
pub fn deactivate_user(users: &mut UserStore, sessions: &mut SessionStore, target_userid: i32)
    requires
        old(users).wf(),
        old(sessions).wf(),
        target_userid >= 1,
    ensures
        final(users).wf(),
        final(sessions).wf(),
        !old(users).has_id(target_userid) ==> *final(users) == *old(users),
        old(users).has_id(target_userid) ==> {
            let i = old(users).index_of_id(target_userid);
            let u = old(users).rows()[i];
            final(users).rows() == old(users).rows().update(
                i,
                User { id: u.id, username: u.username, pass: None, admin: u.admin, locked: u.locked },
            )
        },
        final(sessions).rows() == old(sessions).rows().filter(
            |s: Session| s.userid != target_userid,
        ),
{
    users.set_password(target_userid, None);
    sessions.revoke_all(target_userid);
}

/// An administrator opening a session on another account, re-proving their
/// own password. The created session always has the short lifetime: an
/// extended impersonation is not allowed.
pub fn impersonate(
    users: &UserStore,
    sessions: &mut SessionStore,
    gate: &mut AdmissionGate,
    config: &HashConfig,
    admin_userid: i32,
    target_userid: i32,
    form: &Impersonate,
    now: i64,
) -> (r: Result<Session, Error>)
    requires
        users.wf(),
        old(sessions).wf(),
        old(gate).inv(),
        old(sessions).spec_next_id() < i32::MAX,
        0 <= now,
        now + crate::session::LONG_SESSION_LIFETIME <= i64::MAX,
    ensures
        final(sessions).wf(),
        final(gate).inv(),
        final(gate).spec_in_use() == old(gate).spec_in_use(),
        !users.has_id(admin_userid) ==> r == Err::<Session, Error>(
            Error::InternalError(InternalError::Db),
        ),
        // The storage fault comes only from a missing row: the
        // administrator's, or the target's the session must reference.
        r == Err::<Session, Error>(Error::InternalError(InternalError::Db)) ==> !users.has_id(
            admin_userid,
        ) || !users.has_id(target_userid),
        users.has_id(admin_userid) && users.user_by_id(admin_userid).pass is None ==> r == Err::<
            Session,
            Error,
        >(Error::ClientError(ClientError::BadLogin)),
        r == Err::<Session, Error>(Error::ClientError(ClientError::BadLogin)) ==> users.has_id(
            admin_userid,
        ) && (users.user_by_id(admin_userid).pass is None || (users.user_by_id(
            admin_userid,
        ).pass matches Some(h) && !password_verifies(config.pepper@, h@, form.admin_password@))),
        r == Err::<Session, Error>(Error::ClientError(ClientError::AccountLocked)) ==> users.has_id(
            admin_userid,
        ) && (users.user_by_id(admin_userid).pass matches Some(h) && password_verifies(
            config.pepper@,
            h@,
            form.admin_password@,
        )) && users.user_by_id(admin_userid).locked,
        // The created session belongs to the target, for the short lifetime.
        r matches Ok(s) ==> (users.has_id(admin_userid)
            && (users.user_by_id(admin_userid).pass matches Some(h)
                && password_verifies(config.pepper@, h@, form.admin_password@))
            && !users.user_by_id(admin_userid).locked
            && users.has_id(target_userid)
            && s.userid == target_userid
            && s.until == spec_until(now, false)
            && s.key@.len() == 32
            && s.id == old(sessions).spec_next_id()
            && final(sessions).rows() == old(sessions).rows().push(s)),
        // A key collision can only arise where a key was in fact drawn: a
        // verified, unlocked administrator and an existing target.
        r == Err::<Session, Error>(Error::InternalError(InternalError::SessionKeyCollision)) ==> (
        users.has_id(admin_userid) && (users.user_by_id(admin_userid).pass matches Some(h)
            && password_verifies(config.pepper@, h@, form.admin_password@)) && !users.user_by_id(
            admin_userid,
        ).locked && users.has_id(target_userid)),
        // With a free slot, a stored hash the primitive cannot decide
        // against is owed the hashing fault.
        old(gate).spec_in_use() < old(gate).spec_capacity() && users.has_id(admin_userid) && (
        users.user_by_id(admin_userid).pass matches Some(h) && verify_faults(
            config.pepper@,
            h@,
            form.admin_password@,
        )) ==> r == Err::<Session, Error>(Error::InternalError(InternalError::Hash)),
        // With a free slot, each outcome is owed on its path — unless the
        // primitive faulted: the rejection for a wrong administrator
        // password, the locked rejection, the storage fault for a missing
        // target, and the session otherwise, short of a key collision.
        old(gate).spec_in_use() < old(gate).spec_capacity() && users.has_id(admin_userid) && (
        users.user_by_id(admin_userid).pass matches Some(h) && !password_verifies(
            config.pepper@,
            h@,
            form.admin_password@,
        )) ==> (r == Err::<Session, Error>(Error::ClientError(ClientError::BadLogin)) || r == Err::<
            Session,
            Error,
        >(Error::InternalError(InternalError::Hash))),
        old(gate).spec_in_use() < old(gate).spec_capacity() && users.has_id(admin_userid) && (
        users.user_by_id(admin_userid).pass matches Some(h) && password_verifies(
            config.pepper@,
            h@,
            form.admin_password@,
        )) && users.user_by_id(admin_userid).locked ==> (r == Err::<Session, Error>(
            Error::ClientError(ClientError::AccountLocked),
        ) || r == Err::<Session, Error>(Error::InternalError(InternalError::Hash))),
        old(gate).spec_in_use() < old(gate).spec_capacity() && users.has_id(admin_userid) && (
        users.user_by_id(admin_userid).pass matches Some(h) && password_verifies(
            config.pepper@,
            h@,
            form.admin_password@,
        )) && !users.user_by_id(admin_userid).locked && !users.has_id(target_userid) ==> (r
            == Err::<Session, Error>(Error::InternalError(InternalError::Db)) || r == Err::<
            Session,
            Error,
        >(Error::InternalError(InternalError::Hash))),
        old(gate).spec_in_use() < old(gate).spec_capacity() && users.has_id(admin_userid) && (
        users.user_by_id(admin_userid).pass matches Some(h) && password_verifies(
            config.pepper@,
            h@,
            form.admin_password@,
        )) && !users.user_by_id(admin_userid).locked && users.has_id(target_userid) ==> (r matches
            Ok(_) || r == Err::<Session, Error>(
            Error::InternalError(InternalError::SessionKeyCollision),
        ) || r == Err::<Session, Error>(Error::InternalError(InternalError::Hash))),
        // The two internal hashing-tier faults belong to the verification
        // step; the admission fault needs every slot taken.
        r matches Err(e) && (e == Error::InternalError(InternalError::Semaphore) || e
            == Error::InternalError(InternalError::Hash)) ==> users.has_id(admin_userid)
            && users.user_by_id(admin_userid).pass is Some,
        r == Err::<Session, Error>(Error::InternalError(InternalError::Semaphore)) ==> old(
            gate,
        ).spec_in_use() == old(gate).spec_capacity(),
        r matches Err(e) ==> (e == Error::InternalError(InternalError::Db) || e
            == Error::ClientError(ClientError::BadLogin) || e == Error::ClientError(
            ClientError::AccountLocked,
        ) || e == Error::InternalError(InternalError::SessionKeyCollision) || e
            == Error::InternalError(InternalError::Semaphore) || e == Error::InternalError(
            InternalError::Hash,
        )) && *final(sessions) == *old(sessions),
{
    let admin_user = match users.find_by_id(admin_userid) {
        Some(u) => u,
        None => {
            return Err(Error::InternalError(InternalError::Db));
        },
    };
    let admin_hash = match &admin_user.pass {
        Some(h) => h,
        None => {
            return Err(Error::bad_login());
        },
    };
    if !hashing::verify(gate, config, admin_hash, &form.admin_password)? {
        return Err(Error::bad_login());
    }
    if admin_user.locked {
        return Err(Error::account_locked());
    }
    // The target must exist for the session row to reference it.
    if users.find_by_id(target_userid).is_none() {
        return Err(Error::InternalError(InternalError::Db));
    }
    let key = generate_session_key();
    let created = sessions.create(target_userid, false, now, key)?;
    Ok(created)
}

/// Row `i` of the table now holds a hash that verifies against `password`
/// under `pepper`, its other fields are untouched, and every other row is
/// exactly as before.
pub open spec fn spec_rehashed(
    pre: Seq<User>,
    post: Seq<User>,
    i: int,
    pepper: Seq<u8>,
    password: Seq<char>,
) -> bool {
    &&& post.len() == pre.len()
    &&& 0 <= i < pre.len()
    &&& forall|k: int| 0 <= k < pre.len() && k != i ==> #[trigger] post[k] == pre[k]
    &&& post[i].id == pre[i].id
    &&& post[i].username == pre[i].username
    &&& post[i].admin == pre[i].admin
    &&& post[i].locked == pre[i].locked
    &&& post[i].pass matches Some(nh) && password_verifies(pepper, nh@, password)
}

} // verus!
