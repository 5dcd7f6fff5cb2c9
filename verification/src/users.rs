//! Credential store access: the `users` relation, modelled as an in-memory
//! table with its schema invariants (unique ids, unique usernames, ids below
//! the allocation cursor).

use crate::error::{ClientError, Error, InternalError};
use crate::types::{AdminReturnableUser, ReturnableUser};
use vstd::prelude::*;

verus! {

/// A credential record. A missing `pass` means the account is deactivated
/// and cannot authenticate; `locked` blocks authentication and privileged
/// self-service even when a hash is present. Ids at or below zero are
/// reserved for the built-in seeded administrator.
pub struct User {
    pub id: i32,
    pub username: String,
    pub pass: Option<String>,
    pub admin: bool,
    pub locked: bool,
}

impl User {
    /// The user as returned to themselves: no hash, no lock flag.
    pub fn returnable(&self) -> (r: ReturnableUser)
        ensures
            r.id == self.id,
            r.username@ == self.username@,
            r.admin == self.admin,
    {
        ReturnableUser { id: self.id, username: self.username.clone(), admin: self.admin }
    }

    /// The user as returned to an administrator: the lock flag too, never
    /// the hash.
    pub fn admin_returnable(&self) -> (r: AdminReturnableUser)
        ensures
            r.id == self.id,
            r.username@ == self.username@,
            r.admin == self.admin,
            r.locked == self.locked,
    {
        AdminReturnableUser {
            id: self.id,
            username: self.username.clone(),
            admin: self.admin,
            locked: self.locked,
        }
    }

    /// A field-for-field copy.
    pub fn duplicate(&self) -> (u: User)
        ensures
            u == *self,
    {
        User {
            id: self.id,
            username: self.username.clone(),
            pass: match &self.pass {
                Some(p) => Some(p.clone()),
                None => None,
            },
            admin: self.admin,
            locked: self.locked,
        }
    }
}

/// The `users` relation.
pub struct UserStore {
    users: Vec<User>,
    next_id: i32,
}

impl UserStore {
    pub closed spec fn rows(&self) -> Seq<User> {
        self.users@
    }

    pub closed spec fn spec_next_id(&self) -> i32 {
        self.next_id
    }

    /// Schema invariants: ids unique, usernames unique, every id below the
    /// allocation cursor, which never falls below the first regular id.
    pub open spec fn wf(&self) -> bool {
        &&& forall|i: int, j: int|
            0 <= i < j < self.rows().len() ==> (#[trigger] self.rows()[i]).id != (
            #[trigger] self.rows()[j]).id
        &&& forall|i: int, j: int|
            0 <= i < j < self.rows().len() ==> (#[trigger] self.rows()[i]).username@ != (
            #[trigger] self.rows()[j]).username@
        &&& forall|i: int|
            0 <= i < self.rows().len() ==> (#[trigger] self.rows()[i]).id < self.spec_next_id()
        &&& self.spec_next_id() >= 1
    }

    /// Whether a fresh id can still be allocated.
    pub fn can_allocate(&self) -> (b: bool)
        ensures
            b == (self.spec_next_id() < i32::MAX),
    {
        self.next_id < i32::MAX
    }

    pub open spec fn has_username(&self, name: Seq<char>) -> bool {
        exists|i: int| 0 <= i < self.rows().len() && (#[trigger] self.rows()[i]).username@ == name
    }

    pub open spec fn user_by_name(&self, name: Seq<char>) -> User {
        self.rows()[choose|i: int|
            0 <= i < self.rows().len() && (#[trigger] self.rows()[i]).username@ == name]
    }

    pub open spec fn has_id(&self, id: i32) -> bool {
        exists|i: int| 0 <= i < self.rows().len() && (#[trigger] self.rows()[i]).id == id
    }

    pub open spec fn index_of_id(&self, id: i32) -> int {
        choose|i: int| 0 <= i < self.rows().len() && (#[trigger] self.rows()[i]).id == id
    }

    pub open spec fn user_by_id(&self, id: i32) -> User {
        self.rows()[self.index_of_id(id)]
    }

    /// In a well-formed store two rows with the same username are one row.
    pub proof fn lemma_username_unique(&self, i: int, j: int)
        requires
            self.wf(),
            0 <= i < self.rows().len(),
            0 <= j < self.rows().len(),
            self.rows()[i].username@ == self.rows()[j].username@,
        ensures
            i == j,
    {
    }

    /// In a well-formed store two rows with the same id are one row.
    pub proof fn lemma_id_unique(&self, i: int, j: int)
        requires
            self.wf(),
            0 <= i < self.rows().len(),
            0 <= j < self.rows().len(),
            self.rows()[i].id == self.rows()[j].id,
        ensures
            i == j,
    {
    }

    pub fn new() -> (s: UserStore)
        ensures
            s.wf(),
            s.rows() == Seq::<User>::empty(),
            s.spec_next_id() == 1,
    {
        UserStore { users: Vec::new(), next_id: 1 }
    }

    /// Look a credential record up by username.
    pub fn find_by_username(&self, username: &String) -> (r: Option<&User>)
        requires
            self.wf(),
        ensures
            match r {
                Some(u) => self.has_username(username@) && *u == self.user_by_name(username@),
                None => !self.has_username(username@),
            },
    {
        let n = self.users.len();
        for i in 0..n
            invariant
                n == self.rows().len(),
                self.wf(),
                forall|k: int| 0 <= k < i ==> (#[trigger] self.rows()[k]).username@ != username@,
        {
            if self.users[i].username == *username {
                proof {
                    let j = choose|j: int|
                        0 <= j < self.rows().len() && (#[trigger] self.rows()[j]).username@
                            == username@;
                    self.lemma_username_unique(i as int, j);
                }
                return Some(&self.users[i]);
            }
        }
        None
    }

    /// Look a credential record up by id.
    pub fn find_by_id(&self, id: i32) -> (r: Option<&User>)
        requires
            self.wf(),
        ensures
            match r {
                Some(u) => self.has_id(id) && *u == self.user_by_id(id),
                None => !self.has_id(id),
            },
    {
        let n = self.users.len();
        for i in 0..n
            invariant
                n == self.rows().len(),
                self.wf(),
                forall|k: int| 0 <= k < i ==> (#[trigger] self.rows()[k]).id != id,
        {
            if self.users[i].id == id {
                proof {
                    let j = choose|j: int|
                        0 <= j < self.rows().len() && (#[trigger] self.rows()[j]).id == id;
                    self.lemma_id_unique(i as int, j);
                }
                return Some(&self.users[i]);
            }
        }
        None
    }

    /// Create a user. The account starts deactivated (no password hash); a
    /// taken username is the client-facing error, exactly as the unique
    /// constraint reports it.
    pub fn add_user(&mut self, username: String, admin: bool, locked: bool) -> (r: Result<
        User,
        Error,
    >)
        requires
            old(self).wf(),
            old(self).spec_next_id() < i32::MAX,
        ensures
            final(self).wf(),
            old(self).has_username(username@) ==> r == Err::<User, Error>(
                Error::ClientError(ClientError::UsernameTaken),
            ) && *final(self) == *old(self),
            !old(self).has_username(username@) ==> (r matches Ok(u)
                && u.id == old(self).spec_next_id()
                && u.username@ == username@
                && u.pass is None
                && u.admin == admin
                && u.locked == locked
                && final(self).rows() == old(self).rows().push(u)
                && final(self).spec_next_id() == old(self).spec_next_id() + 1),
    {
        if self.find_by_username(&username).is_some() {
            return Err(Error::username_taken());
        }
        let id = self.next_id;
        self.next_id = id + 1;
        let user = User { id, username, pass: None, admin, locked };
        let ret = user.duplicate();
        self.users.push(user);
        Ok(ret)
    }

    /// Replace a user's editable fields (username, admin, locked), keeping
    /// the password hash. A missing row and a username held by another user
    /// both surface as the storage fault, exactly as the underlying relation
    /// reports them.
    pub fn update_user(&mut self, id: i32, username: String, admin: bool, locked: bool) -> (r:
        Result<User, Error>)
        requires
            old(self).wf(),
        ensures
            final(self).wf(),
            final(self).spec_next_id() == old(self).spec_next_id(),
            !old(self).has_id(id) ==> r == Err::<User, Error>(
                Error::InternalError(InternalError::Db),
            ) && *final(self) == *old(self),
            old(self).has_id(id) && old(self).has_username(username@) && old(self).user_by_name(
                username@,
            ).id != id ==> r == Err::<User, Error>(Error::InternalError(InternalError::Db))
                && *final(self) == *old(self),
            old(self).has_id(id) && (!old(self).has_username(username@) || old(self).user_by_name(
                username@,
            ).id == id) ==> (r matches Ok(u)
                && u.id == id
                && u.username@ == username@
                && u.admin == admin
                && u.locked == locked
                && u.pass == old(self).user_by_id(id).pass
                && final(self).rows() == old(self).rows().update(old(self).index_of_id(id), u)),
    {
        let n = self.users.len();
        let mut at: usize = 0;
        let mut found = false;
        for i in 0..n
            invariant
                n == self.rows().len(),
                self.wf(),
                found ==> at < n && self.rows()[at as int].id == id,
                !found ==> forall|k: int| 0 <= k < i ==> (#[trigger] self.rows()[k]).id != id,
        {
            if self.users[i].id == id {
                at = i;
                found = true;
            }
        }
        if !found {
            return Err(Error::InternalError(InternalError::Db));
        }
        proof {
            let j = choose|j: int|
                0 <= j < self.rows().len() && (#[trigger] self.rows()[j]).id == id;
            self.lemma_id_unique(at as int, j);
        }
        // The unique-username constraint: a different row holding the new
        // username makes the update fail.
        let m = self.users.len();
        for i in 0..m
            invariant
                m == self.rows().len(),
                self.wf(),
                at < m,
                self.rows()[at as int].id == id,
                forall|k: int|
                    0 <= k < i && k != at ==> (#[trigger] self.rows()[k]).username@ != username@,
        {
            if i != at && self.users[i].username == *&username {
                proof {
                    let j = choose|j: int|
                        0 <= j < self.rows().len() && (#[trigger] self.rows()[j]).username@
                            == username@;
                    self.lemma_username_unique(i as int, j);
                }
                return Err(Error::InternalError(InternalError::Db));
            }
        }
        let pass = match &self.users[at].pass {
            Some(p) => Some(p.clone()),
            None => None,
        };
        let updated = User { id, username, pass, admin, locked };
        let ret = updated.duplicate();
        self.users[at] = updated;
        proof {
            let j = choose|j: int|
                0 <= j < old(self).rows().len() && (#[trigger] old(self).rows()[j]).id == id;
            old(self).lemma_id_unique(at as int, j);
            assert forall|i: int, j: int| 0 <= i < j < self.rows().len() implies (
            #[trigger] self.rows()[i]).username@ != (#[trigger] self.rows()[j]).username@ by {
                if i != at as int && j != at as int {
                    assert(old(self).rows()[i].username@ != old(self).rows()[j].username@);
                }
            }
        }
        Ok(ret)
    }

    /// Set or clear a user's password hash. Clearing deactivates the
    /// account. A missing row leaves the relation unchanged.
    pub fn set_password(&mut self, id: i32, pass: Option<String>)
        requires
            old(self).wf(),
        ensures
            final(self).wf(),
            final(self).spec_next_id() == old(self).spec_next_id(),
            !old(self).has_id(id) ==> *final(self) == *old(self),
            old(self).has_id(id) ==> {
                let i = old(self).index_of_id(id);
                let u = old(self).rows()[i];
                final(self).rows() == old(self).rows().update(
                    i,
                    User { id: u.id, username: u.username, pass: pass, admin: u.admin, locked: u.locked },
                )
            },
    {
        let n = self.users.len();
        for i in 0..n
            invariant
                n == self.rows().len(),
                self.wf(),
                *self == *old(self),
                forall|k: int| 0 <= k < i ==> (#[trigger] self.rows()[k]).id != id,
        {
            if self.users[i].id == id {
                proof {
                    let j = choose|j: int|
                        0 <= j < self.rows().len() && (#[trigger] self.rows()[j]).id == id;
                    self.lemma_id_unique(i as int, j);
                }
                let u = &self.users[i];
                let updated = User {
                    id: u.id,
                    username: u.username.clone(),
                    pass,
                    admin: u.admin,
                    locked: u.locked,
                };
                self.users[i] = updated;
                proof {
                    assert forall|p: int, q: int| 0 <= p < q < self.rows().len() implies (
                    #[trigger] self.rows()[p]).username@ != (#[trigger] self.rows()[q]).username@ by {
                        assert(old(self).rows()[p].username@ != old(self).rows()[q].username@);
                    }
                }
                return ;
            }
        }
    }

    /// A row other than the seeded administrator's already holds the
    /// reserved name, so seeding would break the unique-username constraint.
    pub open spec fn admin_name_conflict(&self) -> bool {
        exists|i: int|
            0 <= i < self.rows().len() && (#[trigger] self.rows()[i]).id != 0 && self.rows()[i].username@
                == "admin"@
    }

    /// Seed or refresh the built-in administrator: id zero, the reserved
    /// username, the given password hash, the admin role, never locked. Any
    /// other account holding the reserved name makes the write fail with the
    /// storage fault, as the unique constraint would report it.
    pub fn update_admin(&mut self, hash: String) -> (r: Result<(), Error>)
        requires
            old(self).wf(),
        ensures
            final(self).wf(),
            final(self).spec_next_id() == old(self).spec_next_id(),
            old(self).admin_name_conflict() ==> r == Err::<(), Error>(
                Error::InternalError(InternalError::Db),
            ) && *final(self) == *old(self),
            !old(self).admin_name_conflict() && old(self).has_id(0) ==> (r is Ok && {
                let row = final(self).rows()[old(self).index_of_id(0)];
                final(self).rows() == old(self).rows().update(old(self).index_of_id(0), row)
                    && row.id == 0 && row.username@ == "admin"@ && row.pass == Some(hash)
                    && row.admin && !row.locked
            }),
            !old(self).admin_name_conflict() && !old(self).has_id(0) ==> (r is Ok && {
                let row = final(self).rows()[old(self).rows().len() as int];
                final(self).rows() == old(self).rows().push(row) && row.id == 0 && row.username@
                    == "admin"@ && row.pass == Some(hash) && row.admin && !row.locked
            }),
    {
        let admin_name: String = admin_username();
        let n = self.users.len();
        for i in 0..n
            invariant
                n == self.rows().len(),
                self.wf(),
                *self == *old(self),
                admin_name@ == "admin"@,
                forall|k: int|
                    0 <= k < i ==> !((#[trigger] self.rows()[k]).id != 0 && self.rows()[k].username@
                        == "admin"@),
        {
            if self.users[i].id != 0 && self.users[i].username == admin_name {
                return Err(Error::InternalError(InternalError::Db));
            }
        }
        let row = User { id: 0, username: admin_name, pass: Some(hash), admin: true, locked: false };
        let m = self.users.len();
        for i in 0..m
            invariant
                m == self.rows().len(),
                self.wf(),
                *self == *old(self),
                row.id == 0 && row.username@ == "admin"@ && row.pass == Some(hash) && row.admin
                    && !row.locked,
                !self.admin_name_conflict(),
                forall|k: int| 0 <= k < i ==> (#[trigger] self.rows()[k]).id != 0,
        {
            if self.users[i].id == 0 {
                proof {
                    let j = choose|j: int|
                        0 <= j < self.rows().len() && (#[trigger] self.rows()[j]).id == 0;
                    self.lemma_id_unique(i as int, j);
                }
                self.users[i] = row;
                proof {
                    assert forall|p: int, q: int| 0 <= p < q < self.rows().len() implies (
                    #[trigger] self.rows()[p]).username@ != (#[trigger] self.rows()[q]).username@ by {
                        assert(old(self).rows()[p].username@ != old(self).rows()[q].username@);
                        if p == i as int {
                            assert(old(self).rows()[q].id != 0);
                        }
                        if q == i as int {
                            assert(old(self).rows()[p].id != 0);
                        }
                    }
                }
                return Ok(());
            }
        }
        self.users.push(row);
        proof {
            assert forall|p: int, q: int| 0 <= p < q < self.rows().len() implies (
            #[trigger] self.rows()[p]).username@ != (#[trigger] self.rows()[q]).username@ by {
                if q == self.rows().len() - 1 {
                    assert(old(self).rows()[p].id != 0);
                } else {
                    assert(old(self).rows()[p].username@ != old(self).rows()[q].username@);
                }
            }
        }
        Ok(())
    }

    /// List every user as an administrator sees them, in store order.
    pub fn list(&self) -> (r: Vec<AdminReturnableUser>)
        ensures
            r@ == self.rows().map_values(
                |u: User| AdminReturnableUser {
                    id: u.id,
                    username: u.username,
                    admin: u.admin,
                    locked: u.locked,
                },
            ),
    {
        let ghost f = |u: User| AdminReturnableUser {
            id: u.id,
            username: u.username,
            admin: u.admin,
            locked: u.locked,
        };
        let mut out: Vec<AdminReturnableUser> = Vec::new();
        let n = self.users.len();
        assert(out@ =~= self.rows().subrange(0, 0).map_values(f));
        for i in 0..n
            invariant
                n == self.rows().len(),
                f == (|u: User| AdminReturnableUser {
                    id: u.id,
                    username: u.username,
                    admin: u.admin,
                    locked: u.locked,
                }),
                out@ == self.rows().subrange(0, i as int).map_values(f),
        {
            let u = &self.users[i];
            proof {
                let s0 = self.rows().subrange(0, i as int);
                let s1 = self.rows().subrange(0, i + 1 as int);
                assert(s1.drop_last() =~= s0);
                assert(s1.last() == self.rows()[i as int]);
                assert(s1.map_values(f) =~= s0.map_values(f).push(f(self.rows()[i as int])));
            }
            out.push(
                AdminReturnableUser {
                    id: u.id,
                    username: u.username.clone(),
                    admin: u.admin,
                    locked: u.locked,
                },
            );
        }
        assert(self.rows().subrange(0, n as int) =~= self.rows());
        out
    }

    /// Delete a user row. Says whether a row was in fact deleted.
    pub fn delete_user(&mut self, id: i32) -> (affected: bool)
        requires
            old(self).wf(),
        ensures
            final(self).wf(),
            final(self).spec_next_id() == old(self).spec_next_id(),
            affected == old(self).has_id(id),
            final(self).rows() == old(self).rows().filter(|u: User| u.id != id),
    {
        let ghost old_rows = self.rows();
        let ghost pred = |u: User| u.id != id;
        let mut kept: Vec<User> = Vec::new();
        let mut affected = false;
        let n = self.users.len();
        assert(old_rows.subrange(0, 0).filter(pred) =~= Seq::<User>::empty());
        for i in 0..n
            invariant
                n == self.rows().len(),
                self.wf(),
                *self == *old(self),
                old_rows == self.rows(),
                pred == (|u: User| u.id != id),
                kept@ == old_rows.subrange(0, i as int).filter(pred),
                affected == exists|k: int| 0 <= k < i && (#[trigger] old_rows[k]).id == id,
        {
            let u = &self.users[i];
            proof {
                reveal(Seq::filter);
                let s0 = old_rows.subrange(0, i as int);
                let s1 = old_rows.subrange(0, i + 1 as int);
                assert(s1.drop_last() =~= s0);
                assert(s1.last() == old_rows[i as int]);
                assert(s1.filter(pred) == if pred(old_rows[i as int]) {
                    s0.filter(pred).push(old_rows[i as int])
                } else {
                    s0.filter(pred)
                });
            }
            if u.id == id {
                affected = true;
            } else {
                kept.push(u.duplicate());
            }
        }
        assert(old_rows.subrange(0, n as int) =~= old_rows);
        self.users = kept;
        proof {
            lemma_user_rows_wf_after_filter(old_rows, pred, self.spec_next_id());
        }
        affected
    }
}

/// The reserved username of the built-in administrator.
fn admin_username() -> (s: String)
    ensures
        s@ == "admin"@,
{
    proof {
        reveal_strlit("admin");
    }
    String::from_str("admin")
}

/// Deleting rows (filtering) preserves the `users` schema invariants.
proof fn lemma_user_rows_wf_after_filter(s: Seq<User>, pred: spec_fn(User) -> bool, bound: i32)
    requires
        forall|a: int, b: int|
            0 <= a < b < s.len() ==> (#[trigger] s[a]).id != (#[trigger] s[b]).id,
        forall|a: int, b: int|
            0 <= a < b < s.len() ==> (#[trigger] s[a]).username@ != (#[trigger] s[b]).username@,
        forall|a: int| 0 <= a < s.len() ==> (#[trigger] s[a]).id < bound,
    ensures
        forall|i: int, j: int|
            0 <= i < j < s.filter(pred).len() ==> (#[trigger] s.filter(pred)[i]).id != (
            #[trigger] s.filter(pred)[j]).id,
        forall|i: int, j: int|
            0 <= i < j < s.filter(pred).len() ==> (#[trigger] s.filter(pred)[i]).username@ != (
            #[trigger] s.filter(pred)[j]).username@,
        forall|i: int| 0 <= i < s.filter(pred).len() ==> (#[trigger] s.filter(pred)[i]).id < bound,
{
    crate::table::lemma_filter_members(s, pred);
    crate::table::lemma_filter_distinct(s, pred);
    let f = s.filter(pred);
    assert forall|i: int, j: int| 0 <= i < j < f.len() implies (#[trigger] f[i]).id != (
    #[trigger] f[j]).id && f[i].username@ != f[j].username@ by {
        let a = choose|a: int| 0 <= a < s.len() && f[i] == s[a];
        let b = choose|b: int| 0 <= b < s.len() && f[j] == s[b];
        assert(f[i] != f[j]);
        assert(a != b);
    }
    assert forall|i: int| 0 <= i < f.len() implies (#[trigger] f[i]).id < bound by {
        let a = choose|a: int| 0 <= a < s.len() && f[i] == s[a];
    }
}

} // verus!
