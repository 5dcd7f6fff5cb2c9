//! Plain data types of the service API: login and administration forms,
//! client-returnable views of users and sessions, and the list filters.

use vstd::prelude::*;

verus! {

/// Login form: credentials plus the request for a long-lived session.
pub struct Login {
    pub username: String,
    pub password: String,
    /// If true the created session lasts the long lifetime.
    pub extended: bool,
}

/// A session as persisted and as handed out at login. The cleartext `key` is
/// returned to its owner exactly once, at creation.
pub struct Session {
    pub id: i32,
    pub userid: i32,
    pub key: String,
    /// Absolute expiry instant, seconds since the epoch. The session is
    /// valid iff `until` is strictly in the future.
    pub until: i64,
}

/// A session as returned to its owner later: no key, no implied user.
pub struct ReturnableSession {
    pub id: i32,
    pub until: i64,
}

/// A session as returned to an administrator.
pub struct AdminReturnableSession {
    pub id: i32,
    pub userid: i32,
    pub until: i64,
}

pub enum SessionsOrder {
    IdAsc,
    IdDesc,
    UntilAsc,
    UntilDesc,
}

/// Bounds a user may filter their own session list by.
pub struct SessionsFilter {
    pub id_mte: Option<i32>,
    pub id_lte: Option<i32>,
    pub until_lte: Option<i64>,
    pub until_mte: Option<i64>,
    pub order_by: SessionsOrder,
    pub limit: Option<i64>,
}

pub enum AdminSessionsOrder {
    IdAsc,
    IdDesc,
    UserIdAsc,
    UserIdDesc,
    UntilAsc,
    UntilDesc,
}

/// Bounds an administrator may filter the session list by.
pub struct AdminSessionsFilter {
    pub id_mte: Option<i32>,
    pub id_lte: Option<i32>,
    pub userid_eq: Option<i32>,
    pub until_lte: Option<i64>,
    pub until_mte: Option<i64>,
    pub order_by: AdminSessionsOrder,
    pub limit: Option<i64>,
}

/// A user as returned to themselves.
pub struct ReturnableUser {
    pub id: i32,
    pub username: String,
    pub admin: bool,
}

/// A user as returned to an administrator.
pub struct AdminReturnableUser {
    pub id: i32,
    pub username: String,
    pub admin: bool,
    pub locked: bool,
}

pub enum UsersOrder {
    IdAsc,
    IdDesc,
    UsernameAsc,
    UsernameDesc,
}

/// Bounds an administrator may filter the user list by.
pub struct UsersFilter {
    pub id_mte: Option<i32>,
    pub id_lte: Option<i32>,
    pub username_regex: Option<String>,
    pub username_nregex: Option<String>,
    pub admin_eq: Option<bool>,
    pub locked_eq: Option<bool>,
    pub order_by: UsersOrder,
    pub limit: Option<i64>,
}

/// Form for a user changing their own password.
pub struct PasswordChange {
    pub old_password: String,
    pub new_password: String,
    pub clear_sessions: bool,
}

/// Administration form: create a user (deactivated until a password is set).
pub struct NewUser {
    pub username: String,
    pub admin: bool,
    pub locked: bool,
}

/// Administration form: replace a user's editable fields.
pub struct UpdateUser {
    pub username: String,
    pub admin: bool,
    pub locked: bool,
}

/// Administration form: open a session on another account, re-proving the
/// administrator's own password.
pub struct Impersonate {
    pub admin_password: String,
}

/// Administration form: reset another account's password.
pub struct PasswordReset {
    pub admin_password: String,
    pub new_password: String,
    pub clear_sessions: bool,
}

} // verus!
