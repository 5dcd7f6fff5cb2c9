//! Session lifecycle: creation, resolution, revocation and the periodic
//! sweep, over the `sessions` relation modelled as an in-memory table.
//!
//! A session is valid iff its expiry is strictly in the future; validity is
//! derived at read time, never stored. Sessions are immutable once created:
//! logout, password changes and administrative revocation all work by
//! deletion. The current time is always an argument, so expiry rules are
//! stated against an explicit instant.

use crate::error::{ClientError, Error, InternalError};
use crate::table;
use crate::types::{AdminReturnableSession, ReturnableSession, Session};
use crate::users::{User, UserStore};
use vstd::prelude::*;

verus! {

/// Default lifetime of a session, in seconds (one day).
pub const SHORT_SESSION_LIFETIME: i64 = 86400;

/// Lifetime of an extended session, in seconds (one year).
pub const LONG_SESSION_LIFETIME: i64 = 31536000;

/// The execution context a session resolves to: everything a handler needs
/// to know about the requester. Derived per request, never persisted.
pub struct Permissions {
    pub username: String,
    pub userid: i32,
    pub admin: bool,
}

/// Relies on `nanoid::format` with the URL-safe alphabet: a high-entropy
/// random 32-character key. Only its length is promised; the value is drawn
/// fresh from the system RNG on every call.
#[verifier::external_body]
pub fn generate_session_key() -> (r: String)
    ensures
        r@.len() == 32,
{
    nanoid::format(nanoid::rngs::default, &nanoid::alphabet::SAFE, 32)
}

/// Relies on chrono's `Utc::now`: the wall clock, as seconds since the
/// epoch. Nothing is promised of the value; every rule that depends on the
/// current time takes the instant as an argument.
#[verifier::external_body]
pub fn now_utc_seconds() -> i64 {
    chrono::Utc::now().timestamp()
}

/// The expiry instant of a session created at `now`.
pub open spec fn spec_until(now: i64, extended: bool) -> int {
    now + if extended {
        LONG_SESSION_LIFETIME as int
    } else {
        SHORT_SESSION_LIFETIME as int
    }
}

/// The `sessions` relation.
pub struct SessionStore {
    sessions: Vec<Session>,
    next_id: i32,
}

impl SessionStore {
    pub closed spec fn rows(&self) -> Seq<Session> {
        self.sessions@
    }

    pub closed spec fn spec_next_id(&self) -> i32 {
        self.next_id
    }

    /// Schema invariants: ids unique, keys unique, every id below the
    /// allocation cursor.
    pub open spec fn wf(&self) -> bool {
        &&& forall|i: int, j: int|
            0 <= i < j < self.rows().len() ==> (#[trigger] self.rows()[i]).id != (
            #[trigger] self.rows()[j]).id
        &&& forall|i: int, j: int|
            0 <= i < j < self.rows().len() ==> (#[trigger] self.rows()[i]).key@ != (
            #[trigger] self.rows()[j]).key@
        &&& forall|i: int|
            0 <= i < self.rows().len() ==> (#[trigger] self.rows()[i]).id < self.spec_next_id()
    }

    pub open spec fn has_key(&self, key: Seq<char>) -> bool {
        exists|i: int| 0 <= i < self.rows().len() && (#[trigger] self.rows()[i]).key@ == key
    }

    /// The unique session holding `key`.
    pub open spec fn session_by_key(&self, key: Seq<char>) -> Session {
        self.rows()[choose|i: int|
            0 <= i < self.rows().len() && (#[trigger] self.rows()[i]).key@ == key]
    }

    /// Whether `key` names a session that is valid at `now`.
    pub open spec fn has_active_key(&self, key: Seq<char>, now: i64) -> bool {
        exists|i: int|
            0 <= i < self.rows().len() && (#[trigger] self.rows()[i]).key@ == key
                && self.rows()[i].until > now
    }

    pub open spec fn has_id(&self, id: i32) -> bool {
        exists|i: int| 0 <= i < self.rows().len() && (#[trigger] self.rows()[i]).id == id
    }

    /// In a well-formed store two rows with the same key are one row.
    pub proof fn lemma_key_unique(&self, i: int, j: int)
        requires
            self.wf(),
            0 <= i < self.rows().len(),
            0 <= j < self.rows().len(),
            self.rows()[i].key@ == self.rows()[j].key@,
        ensures
            i == j,
    {
    }

    pub fn new() -> (s: SessionStore)
        ensures
            s.wf(),
            s.rows() == Seq::<Session>::empty(),
            s.spec_next_id() == 1,
    {
        SessionStore { sessions: Vec::new(), next_id: 1 }
    }

    /// Whether a fresh id can still be allocated.
    pub fn can_allocate(&self) -> (b: bool)
        ensures
            b == (self.spec_next_id() < i32::MAX),
    {
        self.next_id < i32::MAX
    }

    /// Create a session for `userid` at instant `now`, under the given
    /// freshly generated key. The expiry is the short lifetime away, or the
    /// long one if `extended` was requested. A key already present is the
    /// internal session-key-collision fault — never a silent overwrite — and
    /// leaves the relation unchanged.
    pub fn create(&mut self, userid: i32, extended: bool, now: i64, key: String) -> (r: Result<
        Session,
        Error,
    >)
        requires
            old(self).wf(),
            old(self).spec_next_id() < i32::MAX,
            0 <= now,
            now + LONG_SESSION_LIFETIME <= i64::MAX,
        ensures
            final(self).wf(),
            old(self).has_key(key@) ==> r == Err::<Session, Error>(
                Error::InternalError(InternalError::SessionKeyCollision),
            ) && *final(self) == *old(self),
            !old(self).has_key(key@) ==> (r matches Ok(s)
                && s.id == old(self).spec_next_id()
                && s.userid == userid
                && s.key@ == key@
                && s.until == spec_until(now, extended)
                && final(self).rows() == old(self).rows().push(s)
                && final(self).spec_next_id() == old(self).spec_next_id() + 1),
    {
        let n = self.sessions.len();
        for i in 0..n
            invariant
                n == self.rows().len(),
                self.wf(),
                *self == *old(self),
                forall|k: int| 0 <= k < i ==> (#[trigger] self.rows()[k]).key@ != key@,
        {
            if self.sessions[i].key == key {
                return Err(Error::session_key_collision());
            }
        }
        let id = self.next_id;
        self.next_id = id + 1;
        let until = now + if extended {
            LONG_SESSION_LIFETIME
        } else {
            SHORT_SESSION_LIFETIME
        };
        let session = Session { id, userid, key, until };
        let ret = Session {
            id: session.id,
            userid: session.userid,
            key: session.key.clone(),
            until: session.until,
        };
        self.sessions.push(session);
        Ok(ret)
    }

    /// Resolve a presented key to an execution context: the join of the
    /// session, filtered to `until > now`, with its owning user. An absent,
    /// expired or orphaned key is "no context", not an error.
    pub fn resolve(&self, users: &UserStore, key: &String, now: i64) -> (r: Option<Permissions>)
        requires
            self.wf(),
            users.wf(),
        ensures
            match r {
                Some(p) => self.has_active_key(key@, now) && {
                    let s = self.session_by_key(key@);
                    users.has_id(s.userid) && p.userid == s.userid && p.username@ == users.user_by_id(
                        s.userid,
                    ).username@ && p.admin == users.user_by_id(s.userid).admin
                },
                None => !self.has_active_key(key@, now) || !users.has_id(
                    self.session_by_key(key@).userid,
                ),
            },
    {
        let n = self.sessions.len();
        for i in 0..n
            invariant
                n == self.rows().len(),
                self.wf(),
                users.wf(),
                forall|k: int|
                    0 <= k < i ==> !((#[trigger] self.rows()[k]).key@ == key@ && self.rows()[k].until
                        > now),
        {
            let s = &self.sessions[i];
            if s.key == *key && s.until > now {
                proof {
                    let j = choose|j: int|
                        0 <= j < self.rows().len() && (#[trigger] self.rows()[j]).key@ == key@;
                    self.lemma_key_unique(i as int, j);
                }
                return match users.find_by_id(s.userid) {
                    Some(u) => Some(
                        Permissions { username: u.username.clone(), userid: u.id, admin: u.admin },
                    ),
                    None => None,
                };
            }
        }
        None
    }

    /// Resolve an optionally presented key: no key is "no context", exactly
    /// like a key that does not resolve.
    pub fn session(&self, users: &UserStore, key: &Option<String>, now: i64) -> (r: Option<
        Permissions,
    >)
        requires
            self.wf(),
            users.wf(),
        ensures
            match key {
                Some(k) => match r {
                    Some(p) => self.has_active_key(k@, now) && {
                        let s = self.session_by_key(k@);
                        users.has_id(s.userid) && p.userid == s.userid && p.username@
                            == users.user_by_id(s.userid).username@ && p.admin == users.user_by_id(
                            s.userid,
                        ).admin
                    },
                    None => !self.has_active_key(k@, now) || !users.has_id(
                        self.session_by_key(k@).userid,
                    ),
                },
                None => r is None,
            },
    {
        match key {
            Some(k) => self.resolve(users, k, now),
            None => None,
        }
    }

    /// Resolve a required key; a missing or non-resolving key is the
    /// unauthorized client error.
    pub fn require_session(&self, users: &UserStore, key: &Option<String>, now: i64) -> (r: Result<
        Permissions,
        Error,
    >)
        requires
            self.wf(),
            users.wf(),
        ensures
            match r {
                Ok(p) => key matches Some(k) && self.has_active_key(k@, now) && {
                    let s = self.session_by_key(k@);
                    users.has_id(s.userid) && p.userid == s.userid && p.username@
                        == users.user_by_id(s.userid).username@ && p.admin == users.user_by_id(
                        s.userid,
                    ).admin
                },
                Err(e) => e == Error::ClientError(ClientError::Unauthorized) && match key {
                    Some(k) => !self.has_active_key(k@, now) || !users.has_id(
                        self.session_by_key(k@).userid,
                    ),
                    None => true,
                },
            },
    {
        match self.session(users, key, now) {
            Some(p) => Ok(p),
            None => Err(Error::unauthorized()),
        }
    }

    /// Resolve a required key and then require the admin role: a
    /// non-resolving key is unauthorized, a resolving non-admin one is
    /// forbidden.
    pub fn require_admin(&self, users: &UserStore, key: &Option<String>, now: i64) -> (r: Result<
        Permissions,
        Error,
    >)
        requires
            self.wf(),
            users.wf(),
        ensures
            match r {
                Ok(p) => p.admin && (key matches Some(k) && self.has_active_key(k@, now) && {
                    let s = self.session_by_key(k@);
                    users.has_id(s.userid) && p.userid == s.userid && p.username@
                        == users.user_by_id(s.userid).username@ && p.admin == users.user_by_id(
                        s.userid,
                    ).admin
                }),
                Err(e) => (e == Error::ClientError(ClientError::Unauthorized) || e
                    == Error::ClientError(ClientError::Forbidden)) && (e == Error::ClientError(
                    ClientError::Forbidden,
                ) ==> (key matches Some(k) && self.has_active_key(k@, now) && !users.user_by_id(
                    self.session_by_key(k@).userid,
                ).admin)) && (e == Error::ClientError(ClientError::Unauthorized) ==> match key {
                    Some(k) => !self.has_active_key(k@, now) || !users.has_id(
                        self.session_by_key(k@).userid,
                    ),
                    None => true,
                }),
            },
    {
        let data = self.require_session(users, key, now)?;
        if data.admin {
            Ok(data)
        } else {
            Err(Error::forbidden())
        }
    }

    /// Delete the session holding `key`. Deleting an absent key is not an
    /// error: the operation is idempotent.
    pub fn revoke(&mut self, key: &String)
        requires
            old(self).wf(),
        ensures
            final(self).wf(),
            final(self).spec_next_id() == old(self).spec_next_id(),
            final(self).rows() == old(self).rows().filter(
                |s: Session| s.key@ != key@,
            ),
    {
        let ghost old_rows = self.rows();
        let ghost pred = |s: Session| s.key@ != key@;
        let mut kept: Vec<Session> = Vec::new();
        let n = self.sessions.len();
        assert(old_rows.subrange(0, 0).filter(pred) =~= Seq::<Session>::empty());
        for i in 0..n
            invariant
                n == self.rows().len(),
                self.wf(),
                *self == *old(self),
                old_rows == self.rows(),
                pred == (|s: Session| s.key@ != key@),
                kept@ == old_rows.subrange(0, i as int).filter(pred),
        {
            let s = &self.sessions[i];
            proof {
                reveal(Seq::filter);
                let s0 = old_rows.subrange(0, i as int);
                let s1 = old_rows.subrange(0, i + 1 as int);
                assert(s1.drop_last() =~= s0);
                assert(s1.last() == old_rows[i as int]);
            }
            if !(s.key == *key) {
                kept.push(
                    Session { id: s.id, userid: s.userid, key: s.key.clone(), until: s.until },
                );
            }
        }
        assert(old_rows.subrange(0, n as int) =~= old_rows);
        self.sessions = kept;
        proof {
            lemma_session_rows_wf_after_filter(old_rows, pred, self.spec_next_id());
        }
    }

    /// Delete all sessions of a user; used after password changes and
    /// deactivation.
    pub fn revoke_all(&mut self, userid: i32)
        requires
            old(self).wf(),
        ensures
            final(self).wf(),
            final(self).spec_next_id() == old(self).spec_next_id(),
            final(self).rows() == old(self).rows().filter(
                |s: Session| s.userid != userid,
            ),
    {
        let ghost old_rows = self.rows();
        let ghost pred = |s: Session| s.userid != userid;
        let mut kept: Vec<Session> = Vec::new();
        let n = self.sessions.len();
        assert(old_rows.subrange(0, 0).filter(pred) =~= Seq::<Session>::empty());
        for i in 0..n
            invariant
                n == self.rows().len(),
                self.wf(),
                *self == *old(self),
                old_rows == self.rows(),
                pred == (|s: Session| s.userid != userid),
                kept@ == old_rows.subrange(0, i as int).filter(pred),
        {
            let s = &self.sessions[i];
            proof {
                reveal(Seq::filter);
                let s0 = old_rows.subrange(0, i as int);
                let s1 = old_rows.subrange(0, i + 1 as int);
                assert(s1.drop_last() =~= s0);
                assert(s1.last() == old_rows[i as int]);
            }
            if !(s.userid == userid) {
                kept.push(
                    Session { id: s.id, userid: s.userid, key: s.key.clone(), until: s.until },
                );
            }
        }
        assert(old_rows.subrange(0, n as int) =~= old_rows);
        self.sessions = kept;
        proof {
            lemma_session_rows_wf_after_filter(old_rows, pred, self.spec_next_id());
        }
    }

    /// One pass of the periodic sweep: delete every row whose expiry is
    /// strictly in the past, leaving all others untouched.
    pub fn sweep(&mut self, now: i64)
        requires
            old(self).wf(),
        ensures
            final(self).wf(),
            final(self).spec_next_id() == old(self).spec_next_id(),
            final(self).rows() == old(self).rows().filter(
                |s: Session| s.until >= now,
            ),
    {
        let ghost old_rows = self.rows();
        let ghost pred = |s: Session| s.until >= now;
        let mut kept: Vec<Session> = Vec::new();
        let n = self.sessions.len();
        assert(old_rows.subrange(0, 0).filter(pred) =~= Seq::<Session>::empty());
        for i in 0..n
            invariant
                n == self.rows().len(),
                self.wf(),
                *self == *old(self),
                old_rows == self.rows(),
                pred == (|s: Session| s.until >= now),
                kept@ == old_rows.subrange(0, i as int).filter(pred),
        {
            let s = &self.sessions[i];
            proof {
                reveal(Seq::filter);
                let s0 = old_rows.subrange(0, i as int);
                let s1 = old_rows.subrange(0, i + 1 as int);
                assert(s1.drop_last() =~= s0);
                assert(s1.last() == old_rows[i as int]);
            }
            if s.until >= now {
                kept.push(
                    Session { id: s.id, userid: s.userid, key: s.key.clone(), until: s.until },
                );
            }
        }
        assert(old_rows.subrange(0, n as int) =~= old_rows);
        self.sessions = kept;
        proof {
            lemma_session_rows_wf_after_filter(old_rows, pred, self.spec_next_id());
        }
    }

    /// Delete one session of one user by id, as the owner revoking their own
    /// session. Says whether a row was in fact deleted.
    pub fn delete_user_session(&mut self, userid: i32, id: i32) -> (affected: bool)
        requires
            old(self).wf(),
        ensures
            final(self).wf(),
            final(self).spec_next_id() == old(self).spec_next_id(),
            affected == exists|k: int|
                0 <= k < old(self).rows().len() && (#[trigger] old(self).rows()[k]).id == id && old(
                    self,
                ).rows()[k].userid == userid,
            final(self).rows() == old(self).rows().filter(
                |s: Session| !(s.id == id && s.userid == userid),
            ),
    {
        let ghost old_rows = self.rows();
        let ghost pred = |s: Session| !(s.id == id && s.userid == userid);
        let mut kept: Vec<Session> = Vec::new();
        let mut affected = false;
        let n = self.sessions.len();
        assert(old_rows.subrange(0, 0).filter(pred) =~= Seq::<Session>::empty());
        for i in 0..n
            invariant
                n == self.rows().len(),
                self.wf(),
                *self == *old(self),
                old_rows == self.rows(),
                pred == (|s: Session| !(s.id == id && s.userid == userid)),
                kept@ == old_rows.subrange(0, i as int).filter(pred),
                affected == exists|k: int|
                    0 <= k < i && (#[trigger] old_rows[k]).id == id && old_rows[k].userid == userid,
        {
            let s = &self.sessions[i];
            proof {
                reveal(Seq::filter);
                let s0 = old_rows.subrange(0, i as int);
                let s1 = old_rows.subrange(0, i + 1 as int);
                assert(s1.drop_last() =~= s0);
                assert(s1.last() == old_rows[i as int]);
            }
            if s.id == id && s.userid == userid {
                affected = true;
            } else {
                kept.push(
                    Session { id: s.id, userid: s.userid, key: s.key.clone(), until: s.until },
                );
            }
        }
        assert(old_rows.subrange(0, n as int) =~= old_rows);
        self.sessions = kept;
        proof {
            lemma_session_rows_wf_after_filter(old_rows, pred, self.spec_next_id());
        }
        affected
    }

    /// Delete one session by id across all users, as an administrator. Says
    /// whether a row was in fact deleted.
    pub fn delete_session(&mut self, id: i32) -> (affected: bool)
        requires
            old(self).wf(),
        ensures
            final(self).wf(),
            final(self).spec_next_id() == old(self).spec_next_id(),
            affected == old(self).has_id(id),
            final(self).rows() == old(self).rows().filter(
                |s: Session| s.id != id,
            ),
    {
        let ghost old_rows = self.rows();
        let ghost pred = |s: Session| s.id != id;
        let mut kept: Vec<Session> = Vec::new();
        let mut affected = false;
        let n = self.sessions.len();
        assert(old_rows.subrange(0, 0).filter(pred) =~= Seq::<Session>::empty());
        for i in 0..n
            invariant
                n == self.rows().len(),
                self.wf(),
                *self == *old(self),
                old_rows == self.rows(),
                pred == (|s: Session| s.id != id),
                kept@ == old_rows.subrange(0, i as int).filter(pred),
                affected == exists|k: int| 0 <= k < i && (#[trigger] old_rows[k]).id == id,
        {
            let s = &self.sessions[i];
            proof {
                reveal(Seq::filter);
                let s0 = old_rows.subrange(0, i as int);
                let s1 = old_rows.subrange(0, i + 1 as int);
                assert(s1.drop_last() =~= s0);
                assert(s1.last() == old_rows[i as int]);
            }
            if s.id == id {
                affected = true;
            } else {
                kept.push(
                    Session { id: s.id, userid: s.userid, key: s.key.clone(), until: s.until },
                );
            }
        }
        assert(old_rows.subrange(0, n as int) =~= old_rows);
        self.sessions = kept;
        proof {
            lemma_session_rows_wf_after_filter(old_rows, pred, self.spec_next_id());
        }
        affected
    }

    /// List a user's own not-yet-expired sessions, without the keys, in
    /// store order.
    pub fn list_for_user(&self, userid: i32, now: i64) -> (r: Vec<ReturnableSession>)
        requires
            self.wf(),
        ensures
            r@ == self.rows().filter(
                |s: Session| s.userid == userid && s.until >= now,
            ).map_values(|s: Session| ReturnableSession { id: s.id, until: s.until }),
    {
        let ghost pred = |s: Session| s.userid == userid && s.until >= now;
        let ghost f = |s: Session| ReturnableSession { id: s.id, until: s.until };
        let mut out: Vec<ReturnableSession> = Vec::new();
        let n = self.sessions.len();
        assert(self.rows().subrange(0, 0).filter(pred) =~= Seq::<Session>::empty());
        assert(out@ =~= self.rows().subrange(0, 0).filter(pred).map_values(f));
        for i in 0..n
            invariant
                n == self.rows().len(),
                self.wf(),
                pred == (|s: Session| s.userid == userid && s.until >= now),
                f == (|s: Session| ReturnableSession { id: s.id, until: s.until }),
                out@ == self.rows().subrange(0, i as int).filter(pred).map_values(f),
        {
            let s = &self.sessions[i];
            proof {
                reveal(Seq::filter);
                let s0 = self.rows().subrange(0, i as int);
                let s1 = self.rows().subrange(0, i + 1 as int);
                assert(s1.drop_last() =~= s0);
                assert(s1.last() == self.rows()[i as int]);
                if pred(self.rows()[i as int]) {
                    assert(s1.filter(pred).map_values(f) =~= s0.filter(pred).map_values(f).push(
                        f(self.rows()[i as int]),
                    ));
                }
            }
            if s.userid == userid && s.until >= now {
                out.push(ReturnableSession { id: s.id, until: s.until });
            }
        }
        assert(self.rows().subrange(0, n as int) =~= self.rows());
        out
    }

    /// List every user's not-yet-expired sessions, as an administrator sees
    /// them, in store order.
    pub fn list_all(&self, now: i64) -> (r: Vec<AdminReturnableSession>)
        requires
            self.wf(),
        ensures
            r@ == self.rows().filter(
                |s: Session| s.until >= now,
            ).map_values(
                |s: Session| AdminReturnableSession { id: s.id, userid: s.userid, until: s.until },
            ),
    {
        let ghost pred = |s: Session| s.until >= now;
        let ghost f = |s: Session| AdminReturnableSession {
            id: s.id,
            userid: s.userid,
            until: s.until,
        };
        let mut out: Vec<AdminReturnableSession> = Vec::new();
        let n = self.sessions.len();
        assert(self.rows().subrange(0, 0).filter(pred) =~= Seq::<Session>::empty());
        assert(out@ =~= self.rows().subrange(0, 0).filter(pred).map_values(f));
        for i in 0..n
            invariant
                n == self.rows().len(),
                self.wf(),
                pred == (|s: Session| s.until >= now),
                f == (|s: Session| AdminReturnableSession {
                    id: s.id,
                    userid: s.userid,
                    until: s.until,
                }),
                out@ == self.rows().subrange(0, i as int).filter(pred).map_values(f),
        {
            let s = &self.sessions[i];
            proof {
                reveal(Seq::filter);
                let s0 = self.rows().subrange(0, i as int);
                let s1 = self.rows().subrange(0, i + 1 as int);
                assert(s1.drop_last() =~= s0);
                assert(s1.last() == self.rows()[i as int]);
                if pred(self.rows()[i as int]) {
                    assert(s1.filter(pred).map_values(f) =~= s0.filter(pred).map_values(f).push(
                        f(self.rows()[i as int]),
                    ));
                }
            }
            if s.until >= now {
                out.push(AdminReturnableSession { id: s.id, userid: s.userid, until: s.until });
            }
        }
        assert(self.rows().subrange(0, n as int) =~= self.rows());
        out
    }
}

/// One pass of the periodic sweep against the wall clock: delete every row
/// already expired at the instant the clock read, and say which instant
/// that was.
pub fn sweep_now(store: &mut SessionStore) -> (now: i64)
    requires
        old(store).wf(),
    ensures
        final(store).wf(),
        final(store).spec_next_id() == old(store).spec_next_id(),
        final(store).rows() == old(store).rows().filter(
            |s: Session| s.until >= now,
        ),
{
    let now = now_utc_seconds();
    store.sweep(now);
    now
}

/// Invalidate a presented session key by deleting its row; a missing key is
/// the unauthorized client error, and deleting a key with no row is not an
/// error.
pub fn logout(store: &mut SessionStore, key: &Option<String>) -> (r: Result<(), Error>)
    requires
        old(store).wf(),
    ensures
        final(store).wf(),
        final(store).spec_next_id() == old(store).spec_next_id(),
        match key {
            Some(k) => r is Ok && final(store).rows() == old(store).rows().filter(
                |s: Session| s.key@ != k@,
            ),
            None => r == Err::<(), Error>(Error::ClientError(ClientError::Unauthorized))
                && *final(store) == *old(store),
        },
{
    match key {
        Some(k) => {
            store.revoke(k);
            Ok(())
        },
        None => Err(Error::unauthorized()),
    }
}

/// Deleting rows (filtering) preserves the `sessions` schema invariants.
proof fn lemma_session_rows_wf_after_filter(
    s: Seq<Session>,
    pred: spec_fn(Session) -> bool,
    bound: i32,
)
    requires
        forall|a: int, b: int|
            0 <= a < b < s.len() ==> (#[trigger] s[a]).id != (#[trigger] s[b]).id,
        forall|a: int, b: int|
            0 <= a < b < s.len() ==> (#[trigger] s[a]).key@ != (#[trigger] s[b]).key@,
        forall|a: int| 0 <= a < s.len() ==> (#[trigger] s[a]).id < bound,
    ensures
        forall|i: int, j: int|
            0 <= i < j < s.filter(pred).len() ==> (#[trigger] s.filter(pred)[i]).id != (
            #[trigger] s.filter(pred)[j]).id,
        forall|i: int, j: int|
            0 <= i < j < s.filter(pred).len() ==> (#[trigger] s.filter(pred)[i]).key@ != (
            #[trigger] s.filter(pred)[j]).key@,
        forall|i: int| 0 <= i < s.filter(pred).len() ==> (#[trigger] s.filter(pred)[i]).id < bound,
{
    table::lemma_filter_members(s, pred);
    table::lemma_filter_distinct(s, pred);
    let f = s.filter(pred);
    assert forall|i: int, j: int| 0 <= i < j < f.len() implies (#[trigger] f[i]).id != (
    #[trigger] f[j]).id && f[i].key@ != f[j].key@ by {
        let a = choose|a: int| 0 <= a < s.len() && f[i] == s[a];
        let b = choose|b: int| 0 <= b < s.len() && f[j] == s[b];
        assert(f[i] != f[j]);
        assert(a != b);
    }
    assert forall|i: int| 0 <= i < f.len() implies (#[trigger] f[i]).id < bound by {
        let a = choose|a: int| 0 <= a < s.len() && f[i] == s[a];
    }
}

/// Law: revocation is immediate. Once the rows with `key` are gone — by
/// logout, password-change-with-clear or administrative deletion — the very
/// next resolution attempt with that key finds no active session, at any
/// instant.
pub proof fn lemma_revoked_key_resolves_to_nothing(
    pre: SessionStore,
    post: SessionStore,
    key: Seq<char>,
    now: i64,
)
    requires
        post.rows() == pre.rows().filter(|s: Session| s.key@ != key),
    ensures
        !post.has_active_key(key, now),
        !post.has_key(key),
{
    let pred = |s: Session| s.key@ != key;
    broadcast use vstd::seq_lib::group_seq_lib_default;

    assert forall|i: int| 0 <= i < post.rows().len() implies (#[trigger] post.rows()[i]).key@
        != key by {
        Seq::lemma_filter_pred(pre.rows(), pred, i);
    }
}

/// Law: revoking every session of a user invalidates each of that user's
/// keys at once: a key whose session belonged to `userid` no longer
/// resolves.
pub proof fn lemma_revoke_all_resolves_to_nothing(
    pre: SessionStore,
    post: SessionStore,
    userid: i32,
    key: Seq<char>,
    now: i64,
)
    requires
        pre.wf(),
        post.rows() == pre.rows().filter(|s: Session| s.userid != userid),
        pre.has_key(key),
        pre.session_by_key(key).userid == userid,
    ensures
        !post.has_active_key(key, now),
        !post.has_key(key),
{
    let pred = |s: Session| s.userid != userid;
    table::lemma_filter_members(pre.rows(), pred);
    assert forall|i: int| 0 <= i < post.rows().len() implies (#[trigger] post.rows()[i]).key@
        != key by {
        Seq::lemma_filter_pred(pre.rows(), pred, i);
        let a = choose|a: int| 0 <= a < pre.rows().len() && post.rows()[i] == pre.rows()[a];
        if post.rows()[i].key@ == key {
            let j = choose|j: int|
                0 <= j < pre.rows().len() && (#[trigger] pre.rows()[j]).key@ == key;
            pre.lemma_key_unique(a, j);
        }
    }
}

/// Law: a session created at `now` resolves to its owner at any instant
/// before its expiry, and that expiry sits exactly one configured lifetime
/// after creation.
pub proof fn lemma_created_session_is_active(
    pre: SessionStore,
    post: SessionStore,
    s: Session,
    now: i64,
    extended: bool,
    t: i64,
)
    requires
        pre.wf(),
        !pre.has_key(s.key@),
        post.rows() == pre.rows().push(s),
        s.until == spec_until(now, extended),
        t < s.until,
    ensures
        post.has_active_key(s.key@, t),
        post.wf() ==> post.session_by_key(s.key@) == s,
{
    assert(post.rows()[post.rows().len() - 1] == s);
    if post.wf() {
        let j = choose|j: int|
            0 <= j < post.rows().len() && (#[trigger] post.rows()[j]).key@ == s.key@;
        post.lemma_key_unique(post.rows().len() - 1, j);
    }
}

/// Law: the sweep deletes exactly the expired rows. A key that is valid at
/// `now` resolves to the same session before and after the sweep, and a key
/// with no live row before the sweep has none after it.
pub proof fn lemma_sweep_exact(pre: SessionStore, post: SessionStore, now: i64, key: Seq<char>)
    requires
        pre.wf(),
        post.rows() == pre.rows().filter(|s: Session| s.until >= now),
    ensures
        post.has_active_key(key, now) == pre.has_active_key(key, now),
        pre.has_active_key(key, now) ==> post.has_key(key) && pre.has_key(key),
        forall|i: int|
            0 <= i < pre.rows().len() && (#[trigger] pre.rows()[i]).until >= now ==> post.rows().contains(
                pre.rows()[i],
            ),
        forall|i: int| 0 <= i < post.rows().len() ==> (#[trigger] post.rows()[i]).until >= now,
{
    let pred = |s: Session| s.until >= now;
    table::lemma_filter_members(pre.rows(), pred);
    assert forall|i: int|
        0 <= i < pre.rows().len() && (#[trigger] pre.rows()[i]).until >= now implies post.rows().contains(
        pre.rows()[i],
    ) by {
        Seq::lemma_filter_contains(pre.rows(), pred, i);
    }
    assert forall|i: int| 0 <= i < post.rows().len() implies (#[trigger] post.rows()[i]).until
        >= now by {
        Seq::lemma_filter_pred(pre.rows(), pred, i);
    }
    if pre.has_active_key(key, now) {
        let i = choose|i: int|
            0 <= i < pre.rows().len() && (#[trigger] pre.rows()[i]).key@ == key && pre.rows()[i].until
                > now;
        assert(post.rows().contains(pre.rows()[i]));
        let j = choose|j: int| 0 <= j < post.rows().len() && post.rows()[j] == pre.rows()[i];
        assert(post.rows()[j].key@ == key && post.rows()[j].until > now);
    }
    if post.has_active_key(key, now) {
        let i = choose|i: int|
            0 <= i < post.rows().len() && (#[trigger] post.rows()[i]).key@ == key
                && post.rows()[i].until > now;
        let a = choose|a: int| 0 <= a < pre.rows().len() && post.rows()[i] == pre.rows()[a];
        assert(pre.rows()[a].key@ == key && pre.rows()[a].until > now);
    }
}

} // verus!
