//! Request-dispatcher discipline: a strict, explicit path-segment-stack
//! matcher. Every route sees exactly the method it expects, no unconsumed
//! trailing segments, and numeric path data parsed exactly; everything else
//! fails fast with the matching client error before any handler runs.

use crate::error::{ClientError, Error};
use crate::text::{self, spec_parse_i32};
use vstd::prelude::*;
use vstd::string::StrSliceExecFns;
use vstd::string::StringExecFns;

verus! {

/// The request methods the service distinguishes; everything else is
/// `Other` and can never match an expected method.
#[derive(Clone, Copy, PartialEq, Eq, Structural, Debug)]
pub enum Method {
    Get,
    Post,
    Put,
    Delete,
    Other,
}

impl Method {
    pub open spec fn spec_name(&self) -> Seq<char> {
        match self {
            Method::Get => "GET"@,
            Method::Post => "POST"@,
            Method::Put => "PUT"@,
            Method::Delete => "DELETE"@,
            Method::Other => "OTHER"@,
        }
    }

    /// The method's name, as reported in errors.
    pub fn name(&self) -> (s: String)
        ensures
            s@ == self.spec_name(),
    {
        match self {
            Method::Get => String::from_str("GET"),
            Method::Post => String::from_str("POST"),
            Method::Put => String::from_str("PUT"),
            Method::Delete => String::from_str("DELETE"),
            Method::Other => String::from_str("OTHER"),
        }
    }
}

/// No unconsumed trailing segments may remain, unless the route explicitly
/// wants a sub-path.
pub fn verify_path_end(path_vec: &Vec<String>, path: &String) -> (r: Result<(), Error>)
    ensures
        path_vec@.len() == 0 ==> r is Ok,
        path_vec@.len() > 0 ==> (r matches Err(e) && e matches Error::ClientError(c) && c matches
            ClientError::PathNotFound(m) && m@ == path@),
{
    if !path_vec.is_empty() {
        Err(Error::path_not_found(path.clone()))
    } else {
        Ok(())
    }
}

/// The request's method must be exactly what the route expects.
pub fn verify_method(method: &Method, expected: &Method) -> (r: Result<(), Error>)
    ensures
        *method == *expected ==> r is Ok,
        *method != *expected ==> (r matches Err(e) && e matches Error::ClientError(c) && c matches
            ClientError::MethodNotFound(m) && m@ == method.spec_name()),
{
    if method == expected {
        Ok(())
    } else {
        Err(Error::method_not_found(method.name()))
    }
}

/// Both dispatcher checks, the trailing path first.
pub fn verify_method_path_end(
    path_vec: &Vec<String>,
    path: &String,
    method: &Method,
    expected: &Method,
) -> (r: Result<(), Error>)
    ensures
        path_vec@.len() == 0 && *method == *expected ==> r is Ok,
        path_vec@.len() > 0 ==> (r matches Err(e) && e matches Error::ClientError(c) && c matches
            ClientError::PathNotFound(m) && m@ == path@),
        path_vec@.len() == 0 && *method != *expected ==> (r matches Err(e) && e matches
            Error::ClientError(c) && c matches ClientError::MethodNotFound(m) && m@
            == method.spec_name()),
{
    verify_path_end(path_vec, path)?;
    verify_method(method, expected)?;
    Ok(())
}

/// The segments of a path, split on every slash; empty segments are kept.
pub open spec fn spec_split_slash(s: Seq<char>, cur: Seq<char>) -> Seq<Seq<char>>
    decreases s.len(),
{
    if s.len() == 0 {
        seq![cur]
    } else if s[0] == '/' {
        seq![cur] + spec_split_slash(s.drop_first(), Seq::empty())
    } else {
        spec_split_slash(s.drop_first(), cur.push(s[0]))
    }
}

pub open spec fn spec_path_segments(s: Seq<char>) -> Seq<Seq<char>> {
    spec_split_slash(s, Seq::<char>::empty())
}

/// Split a request path into its segment stack: the segments in reverse
/// order, so that popping walks the path left to right.
pub fn split_path(path: &str) -> (r: Vec<String>)
    ensures
        r@.map_values(|t: String| t@) == spec_path_segments(path@).reverse(),
{
    let n = path.unicode_len();
    let mut forward: Vec<String> = Vec::new();
    let mut seg_start: usize = 0;
    let mut i: usize = 0;
    proof {
        assert(path@.skip(0) =~= path@);
        assert(path@.subrange(0, 0) =~= Seq::<char>::empty());
        assert(forward@.map_values(|t: String| t@) + spec_split_slash(path@, Seq::empty())
            =~= spec_split_slash(path@, Seq::empty()));
    }
    while i < n
        invariant
            seg_start <= i <= n,
            n == path@.len(),
            spec_path_segments(path@) == forward@.map_values(|t: String| t@) + spec_split_slash(
                path@.skip(i as int),
                path@.subrange(seg_start as int, i as int),
            ),
        decreases n - i,
    {
        let c = path.get_char(i);
        let ghost cur = path@.subrange(seg_start as int, i as int);
        let ghost rem = path@.skip(i as int);
        proof {
            assert(rem[0] == path@[i as int]);
            assert(rem.drop_first() =~= path@.skip(i + 1 as int));
        }
        if c == '/' {
            let seg = path.substring_char(seg_start, i);
            forward.push(seg.to_owned());
            proof {
                let old_map = forward@.drop_last().map_values(|t: String| t@);
                let tail = spec_split_slash(path@.skip(i + 1 as int), Seq::empty());
                assert(spec_split_slash(rem, cur) == seq![cur] + tail);
                assert(forward@.map_values(|t: String| t@) =~= old_map.push(cur));
                assert(old_map.push(cur) =~= old_map + seq![cur]);
                assert(old_map + (seq![cur] + tail) =~= (old_map + seq![cur]) + tail);
                assert(path@.subrange(i + 1 as int, i + 1 as int) =~= Seq::<char>::empty());
            }
            seg_start = i + 1;
        } else {
            proof {
                assert(cur.push(rem[0]) =~= path@.subrange(seg_start as int, i + 1 as int));
                assert(spec_split_slash(rem, cur) == spec_split_slash(
                    rem.drop_first(),
                    cur.push(rem[0]),
                ));
            }
        }
        i = i + 1;
    }
    let last = path.substring_char(seg_start, n);
    forward.push(last.to_owned());
    proof {
        let ghost cur = path@.subrange(seg_start as int, n as int);
        assert(path@.skip(n as int) =~= Seq::<char>::empty());
        assert(spec_split_slash(Seq::empty(), cur) == seq![cur]);
        let old_map = forward@.drop_last().map_values(|t: String| t@);
        assert(forward@.map_values(|t: String| t@) =~= old_map.push(cur));
        assert(old_map.push(cur) =~= old_map + seq![cur]);
    }
    // Reverse into the stack the dispatcher pops from.
    let m = forward.len();
    let mut stack: Vec<String> = Vec::new();
    for k in 0..m
        invariant
            m == forward@.len(),
            stack@.len() == k,
            forall|j: int| 0 <= j < k ==> #[trigger] stack@[j]@ == forward@[m - 1 - j]@,
    {
        let s = forward[m - 1 - k].clone();
        stack.push(s);
    }
    proof {
        assert(stack@.map_values(|t: String| t@) =~= forward@.map_values(|t: String| t@).reverse());
    }
    stack
}

/// Who must stand behind a request before its route may run.
#[derive(Clone, Copy, PartialEq, Eq, Structural, Debug)]
pub enum AuthLevel {
    Anonymous,
    User,
    Admin,
}

/// Why a request is refused by the dispatcher before any handler runs.
#[derive(Clone, Copy, PartialEq, Eq, Structural, Debug)]
pub enum RejectKind {
    /// Unconsumed trailing segments, or no such path.
    NotFound,
    /// The path exists but not under this method.
    MethodNotAllowed,
    /// A path segment that must be a numeric id is not one.
    BadIndex,
}

/// The routes of the service, as the path-segment-stack matcher decides
/// them. A `Reject` still carries the authorization level of the area it
/// was found in: inside the protected areas authorization is checked before
/// the refusal is reported.
#[derive(Clone, Copy, PartialEq, Eq, Structural, Debug)]
pub enum ApiRoute {
    Doc,
    Login,
    Logout,
    UserInfo,
    UserPassword,
    UserSessionsList,
    UserSessionDelete(i32),
    AdminDoc,
    AdminUsersList,
    AdminUserCreate,
    AdminUserGet(i32),
    AdminUserUpdate(i32),
    AdminUserDelete(i32),
    AdminUserDeactivate(i32),
    AdminUserResetPassword(i32),
    AdminImpersonate(i32),
    AdminSessionsList,
    AdminSessionDelete(i32),
    Reject(AuthLevel, RejectKind),
}

impl ApiRoute {
    pub open spec fn spec_auth_level(&self) -> AuthLevel {
        match self {
            ApiRoute::Doc => AuthLevel::Anonymous,
            ApiRoute::Login => AuthLevel::Anonymous,
            ApiRoute::Logout => AuthLevel::User,
            ApiRoute::UserInfo => AuthLevel::User,
            ApiRoute::UserPassword => AuthLevel::User,
            ApiRoute::UserSessionsList => AuthLevel::User,
            ApiRoute::UserSessionDelete(_) => AuthLevel::User,
            ApiRoute::AdminDoc => AuthLevel::Admin,
            ApiRoute::AdminUsersList => AuthLevel::Admin,
            ApiRoute::AdminUserCreate => AuthLevel::Admin,
            ApiRoute::AdminUserGet(_) => AuthLevel::Admin,
            ApiRoute::AdminUserUpdate(_) => AuthLevel::Admin,
            ApiRoute::AdminUserDelete(_) => AuthLevel::Admin,
            ApiRoute::AdminUserDeactivate(_) => AuthLevel::Admin,
            ApiRoute::AdminUserResetPassword(_) => AuthLevel::Admin,
            ApiRoute::AdminImpersonate(_) => AuthLevel::Admin,
            ApiRoute::AdminSessionsList => AuthLevel::Admin,
            ApiRoute::AdminSessionDelete(_) => AuthLevel::Admin,
            ApiRoute::Reject(l, _) => *l,
        }
    }

    /// The authorization the request must carry before this route — or this
    /// refusal — may be acted on.
    pub fn auth_level(&self) -> (l: AuthLevel)
        ensures
            l == self.spec_auth_level(),
    {
        match self {
            ApiRoute::Doc => AuthLevel::Anonymous,
            ApiRoute::Login => AuthLevel::Anonymous,
            ApiRoute::Logout => AuthLevel::User,
            ApiRoute::UserInfo => AuthLevel::User,
            ApiRoute::UserPassword => AuthLevel::User,
            ApiRoute::UserSessionsList => AuthLevel::User,
            ApiRoute::UserSessionDelete(_) => AuthLevel::User,
            ApiRoute::AdminDoc => AuthLevel::Admin,
            ApiRoute::AdminUsersList => AuthLevel::Admin,
            ApiRoute::AdminUserCreate => AuthLevel::Admin,
            ApiRoute::AdminUserGet(_) => AuthLevel::Admin,
            ApiRoute::AdminUserUpdate(_) => AuthLevel::Admin,
            ApiRoute::AdminUserDelete(_) => AuthLevel::Admin,
            ApiRoute::AdminUserDeactivate(_) => AuthLevel::Admin,
            ApiRoute::AdminUserResetPassword(_) => AuthLevel::Admin,
            ApiRoute::AdminImpersonate(_) => AuthLevel::Admin,
            ApiRoute::AdminSessionsList => AuthLevel::Admin,
            ApiRoute::AdminSessionDelete(_) => AuthLevel::Admin,
            ApiRoute::Reject(l, _) => *l,
        }
    }
}

/// The stack's next segment is missing or empty: the "base path" arm of a
/// route match.
pub open spec fn spec_blank_top(st: Seq<Seq<char>>) -> bool {
    st.len() == 0 || st.last().len() == 0
}

/// The stack after one pop (popping an empty stack leaves it).
pub open spec fn spec_rest(st: Seq<Seq<char>>) -> Seq<Seq<char>> {
    if st.len() == 0 {
        st
    } else {
        st.drop_last()
    }
}

/// The routing table under `/api/user/sessions`.
pub open spec fn spec_classify_user_sessions(st: Seq<Seq<char>>, m: Method) -> ApiRoute {
    if spec_blank_top(st) {
        if spec_rest(st).len() > 0 {
            ApiRoute::Reject(AuthLevel::User, RejectKind::NotFound)
        } else if m == Method::Get {
            ApiRoute::UserSessionsList
        } else {
            ApiRoute::Reject(AuthLevel::User, RejectKind::MethodNotAllowed)
        }
    } else {
        if st.drop_last().len() > 0 {
            ApiRoute::Reject(AuthLevel::User, RejectKind::NotFound)
        } else if m != Method::Delete {
            ApiRoute::Reject(AuthLevel::User, RejectKind::MethodNotAllowed)
        } else {
            match spec_parse_i32(st.last()) {
                Some(id) => ApiRoute::UserSessionDelete(id),
                None => ApiRoute::Reject(AuthLevel::User, RejectKind::BadIndex),
            }
        }
    }
}

/// The routing table under `/api/user`.
pub open spec fn spec_classify_user(st: Seq<Seq<char>>, m: Method) -> ApiRoute {
    if spec_blank_top(st) {
        if spec_rest(st).len() > 0 {
            ApiRoute::Reject(AuthLevel::User, RejectKind::NotFound)
        } else if m == Method::Get {
            ApiRoute::UserInfo
        } else {
            ApiRoute::Reject(AuthLevel::User, RejectKind::MethodNotAllowed)
        }
    } else {
        let seg = st.last();
        let rest = st.drop_last();
        if seg == "password"@ {
            if rest.len() > 0 {
                ApiRoute::Reject(AuthLevel::User, RejectKind::NotFound)
            } else if m != Method::Post {
                ApiRoute::Reject(AuthLevel::User, RejectKind::MethodNotAllowed)
            } else {
                ApiRoute::UserPassword
            }
        } else if seg == "sessions"@ {
            spec_classify_user_sessions(rest, m)
        } else {
            ApiRoute::Reject(AuthLevel::User, RejectKind::NotFound)
        }
    }
}

/// The routing table under `/api/admin/users/{id}`.
pub open spec fn spec_classify_admin_user(id: i32, st: Seq<Seq<char>>, m: Method) -> ApiRoute {
    if spec_blank_top(st) {
        if spec_rest(st).len() > 0 {
            ApiRoute::Reject(AuthLevel::Admin, RejectKind::NotFound)
        } else if m == Method::Get {
            ApiRoute::AdminUserGet(id)
        } else if m == Method::Put {
            if id < 1 {
                ApiRoute::Reject(AuthLevel::Admin, RejectKind::MethodNotAllowed)
            } else {
                ApiRoute::AdminUserUpdate(id)
            }
        } else if m == Method::Delete {
            if id < 1 {
                ApiRoute::Reject(AuthLevel::Admin, RejectKind::MethodNotAllowed)
            } else {
                ApiRoute::AdminUserDelete(id)
            }
        } else {
            ApiRoute::Reject(AuthLevel::Admin, RejectKind::MethodNotAllowed)
        }
    } else {
        let seg = st.last();
        let rest = st.drop_last();
        if seg == "password"@ {
            if rest.len() > 0 {
                ApiRoute::Reject(AuthLevel::Admin, RejectKind::NotFound)
            } else if m == Method::Delete {
                if id < 1 {
                    ApiRoute::Reject(AuthLevel::Admin, RejectKind::MethodNotAllowed)
                } else {
                    ApiRoute::AdminUserDeactivate(id)
                }
            } else if m == Method::Post {
                ApiRoute::AdminUserResetPassword(id)
            } else {
                ApiRoute::Reject(AuthLevel::Admin, RejectKind::MethodNotAllowed)
            }
        } else if seg == "impersonate"@ {
            if rest.len() > 0 {
                ApiRoute::Reject(AuthLevel::Admin, RejectKind::NotFound)
            } else if m != Method::Post {
                ApiRoute::Reject(AuthLevel::Admin, RejectKind::MethodNotAllowed)
            } else {
                ApiRoute::AdminImpersonate(id)
            }
        } else {
            ApiRoute::Reject(AuthLevel::Admin, RejectKind::NotFound)
        }
    }
}

/// The routing table under `/api/admin/users`.
pub open spec fn spec_classify_admin_users(st: Seq<Seq<char>>, m: Method) -> ApiRoute {
    if spec_blank_top(st) {
        if spec_rest(st).len() > 0 {
            ApiRoute::Reject(AuthLevel::Admin, RejectKind::NotFound)
        } else if m == Method::Get {
            ApiRoute::AdminUsersList
        } else if m == Method::Post {
            ApiRoute::AdminUserCreate
        } else {
            ApiRoute::Reject(AuthLevel::Admin, RejectKind::MethodNotAllowed)
        }
    } else {
        match spec_parse_i32(st.last()) {
            Some(id) => spec_classify_admin_user(id, st.drop_last(), m),
            None => ApiRoute::Reject(AuthLevel::Admin, RejectKind::BadIndex),
        }
    }
}

/// The routing table under `/api/admin/sessions`.
pub open spec fn spec_classify_admin_sessions(st: Seq<Seq<char>>, m: Method) -> ApiRoute {
    if spec_blank_top(st) {
        if spec_rest(st).len() > 0 {
            ApiRoute::Reject(AuthLevel::Admin, RejectKind::NotFound)
        } else if m == Method::Get {
            ApiRoute::AdminSessionsList
        } else {
            ApiRoute::Reject(AuthLevel::Admin, RejectKind::MethodNotAllowed)
        }
    } else {
        if st.drop_last().len() > 0 {
            ApiRoute::Reject(AuthLevel::Admin, RejectKind::NotFound)
        } else if m != Method::Delete {
            ApiRoute::Reject(AuthLevel::Admin, RejectKind::MethodNotAllowed)
        } else {
            match spec_parse_i32(st.last()) {
                Some(id) => ApiRoute::AdminSessionDelete(id),
                None => ApiRoute::Reject(AuthLevel::Admin, RejectKind::BadIndex),
            }
        }
    }
}

/// The routing table under `/api/admin`.
pub open spec fn spec_classify_admin(st: Seq<Seq<char>>, m: Method) -> ApiRoute {
    if spec_blank_top(st) {
        if spec_rest(st).len() > 0 {
            ApiRoute::Reject(AuthLevel::Admin, RejectKind::NotFound)
        } else if m == Method::Get {
            ApiRoute::AdminDoc
        } else {
            ApiRoute::Reject(AuthLevel::Admin, RejectKind::MethodNotAllowed)
        }
    } else {
        let seg = st.last();
        let rest = st.drop_last();
        if seg == "users"@ {
            spec_classify_admin_users(rest, m)
        } else if seg == "sessions"@ {
            spec_classify_admin_sessions(rest, m)
        } else {
            ApiRoute::Reject(AuthLevel::Admin, RejectKind::NotFound)
        }
    }
}

/// The routing table under `/api`: what the dispatcher decides from the
/// remaining segment stack and the method.
pub open spec fn spec_classify_api(st: Seq<Seq<char>>, m: Method) -> ApiRoute {
    if spec_blank_top(st) {
        if spec_rest(st).len() > 0 {
            ApiRoute::Reject(AuthLevel::Anonymous, RejectKind::NotFound)
        } else if m == Method::Get {
            ApiRoute::Doc
        } else {
            ApiRoute::Reject(AuthLevel::Anonymous, RejectKind::MethodNotAllowed)
        }
    } else {
        let seg = st.last();
        let rest = st.drop_last();
        if seg == "login"@ {
            if rest.len() > 0 {
                ApiRoute::Reject(AuthLevel::Anonymous, RejectKind::NotFound)
            } else if m != Method::Post {
                ApiRoute::Reject(AuthLevel::Anonymous, RejectKind::MethodNotAllowed)
            } else {
                ApiRoute::Login
            }
        } else if seg == "admin"@ {
            spec_classify_admin(rest, m)
        } else if seg == "logout"@ {
            if rest.len() > 0 {
                ApiRoute::Reject(AuthLevel::User, RejectKind::NotFound)
            } else if m != Method::Post {
                ApiRoute::Reject(AuthLevel::User, RejectKind::MethodNotAllowed)
            } else {
                ApiRoute::Logout
            }
        } else if seg == "user"@ {
            spec_classify_user(rest, m)
        } else {
            ApiRoute::Reject(AuthLevel::User, RejectKind::NotFound)
        }
    }
}

fn classify_user_sessions(mut path_vec: Vec<String>, method: Method) -> (r: ApiRoute)
    ensures
        r == spec_classify_user_sessions(path_vec@.map_values(|t: String| t@), method),
{
    let ghost st = path_vec@.map_values(|t: String| t@);
    let top = path_vec.pop();
    proof {
        if st.len() > 0 {
            assert(path_vec@.map_values(|t: String| t@) =~= st.drop_last());
        }
    }
    match top {
        None => {
            if method == Method::Get {
                ApiRoute::UserSessionsList
            } else {
                ApiRoute::Reject(AuthLevel::User, RejectKind::MethodNotAllowed)
            }
        },
        Some(seg) => {
            proof {
                assert(seg@ == st.last());
            }
            if seg.as_str().is_empty() {
                if path_vec.len() > 0 {
                    ApiRoute::Reject(AuthLevel::User, RejectKind::NotFound)
                } else if method == Method::Get {
                    ApiRoute::UserSessionsList
                } else {
                    ApiRoute::Reject(AuthLevel::User, RejectKind::MethodNotAllowed)
                }
            } else if path_vec.len() > 0 {
                ApiRoute::Reject(AuthLevel::User, RejectKind::NotFound)
            } else if method != Method::Delete {
                ApiRoute::Reject(AuthLevel::User, RejectKind::MethodNotAllowed)
            } else {
                match text::parse_i32(seg.as_str()) {
                    Some(id) => ApiRoute::UserSessionDelete(id),
                    None => ApiRoute::Reject(AuthLevel::User, RejectKind::BadIndex),
                }
            }
        },
    }
}

fn classify_user(mut path_vec: Vec<String>, method: Method) -> (r: ApiRoute)
    ensures
        r == spec_classify_user(path_vec@.map_values(|t: String| t@), method),
{
    let ghost st = path_vec@.map_values(|t: String| t@);
    let top = path_vec.pop();
    proof {
        if st.len() > 0 {
            assert(path_vec@.map_values(|t: String| t@) =~= st.drop_last());
        }
    }
    match top {
        None => {
            if method == Method::Get {
                ApiRoute::UserInfo
            } else {
                ApiRoute::Reject(AuthLevel::User, RejectKind::MethodNotAllowed)
            }
        },
        Some(seg) => {
            proof {
                assert(seg@ == st.last());
            }
            if seg.as_str().is_empty() {
                if path_vec.len() > 0 {
                    ApiRoute::Reject(AuthLevel::User, RejectKind::NotFound)
                } else if method == Method::Get {
                    ApiRoute::UserInfo
                } else {
                    ApiRoute::Reject(AuthLevel::User, RejectKind::MethodNotAllowed)
                }
            } else if text::str_eq(seg.as_str(), "password") {
                if path_vec.len() > 0 {
                    ApiRoute::Reject(AuthLevel::User, RejectKind::NotFound)
                } else if method != Method::Post {
                    ApiRoute::Reject(AuthLevel::User, RejectKind::MethodNotAllowed)
                } else {
                    ApiRoute::UserPassword
                }
            } else if text::str_eq(seg.as_str(), "sessions") {
                classify_user_sessions(path_vec, method)
            } else {
                ApiRoute::Reject(AuthLevel::User, RejectKind::NotFound)
            }
        },
    }
}

fn classify_admin_user(id: i32, mut path_vec: Vec<String>, method: Method) -> (r: ApiRoute)
    ensures
        r == spec_classify_admin_user(id, path_vec@.map_values(|t: String| t@), method),
{
    let ghost st = path_vec@.map_values(|t: String| t@);
    let top = path_vec.pop();
    proof {
        if st.len() > 0 {
            assert(path_vec@.map_values(|t: String| t@) =~= st.drop_last());
        }
    }
    match top {
        None => classify_admin_user_base(id, 0, method),
        Some(seg) => {
            proof {
                assert(seg@ == st.last());
            }
            if seg.as_str().is_empty() {
                classify_admin_user_base(id, path_vec.len(), method)
            } else if text::str_eq(seg.as_str(), "password") {
                if path_vec.len() > 0 {
                    ApiRoute::Reject(AuthLevel::Admin, RejectKind::NotFound)
                } else if method == Method::Delete {
                    if id < 1 {
                        ApiRoute::Reject(AuthLevel::Admin, RejectKind::MethodNotAllowed)
                    } else {
                        ApiRoute::AdminUserDeactivate(id)
                    }
                } else if method == Method::Post {
                    ApiRoute::AdminUserResetPassword(id)
                } else {
                    ApiRoute::Reject(AuthLevel::Admin, RejectKind::MethodNotAllowed)
                }
            } else if text::str_eq(seg.as_str(), "impersonate") {
                if path_vec.len() > 0 {
                    ApiRoute::Reject(AuthLevel::Admin, RejectKind::NotFound)
                } else if method != Method::Post {
                    ApiRoute::Reject(AuthLevel::Admin, RejectKind::MethodNotAllowed)
                } else {
                    ApiRoute::AdminImpersonate(id)
                }
            } else {
                ApiRoute::Reject(AuthLevel::Admin, RejectKind::NotFound)
            }
        },
    }
}

/// The base-path arm of `/api/admin/users/{id}`: `rest_len` trailing
/// segments remain after the blank pop.
fn classify_admin_user_base(id: i32, rest_len: usize, method: Method) -> (r: ApiRoute)
    ensures
        rest_len > 0 ==> r == ApiRoute::Reject(AuthLevel::Admin, RejectKind::NotFound),
        rest_len == 0 ==> r == (if method == Method::Get {
            ApiRoute::AdminUserGet(id)
        } else if method == Method::Put {
            if id < 1 {
                ApiRoute::Reject(AuthLevel::Admin, RejectKind::MethodNotAllowed)
            } else {
                ApiRoute::AdminUserUpdate(id)
            }
        } else if method == Method::Delete {
            if id < 1 {
                ApiRoute::Reject(AuthLevel::Admin, RejectKind::MethodNotAllowed)
            } else {
                ApiRoute::AdminUserDelete(id)
            }
        } else {
            ApiRoute::Reject(AuthLevel::Admin, RejectKind::MethodNotAllowed)
        }),
{
    if rest_len > 0 {
        ApiRoute::Reject(AuthLevel::Admin, RejectKind::NotFound)
    } else if method == Method::Get {
        ApiRoute::AdminUserGet(id)
    } else if method == Method::Put {
        if id < 1 {
            ApiRoute::Reject(AuthLevel::Admin, RejectKind::MethodNotAllowed)
        } else {
            ApiRoute::AdminUserUpdate(id)
        }
    } else if method == Method::Delete {
        if id < 1 {
            ApiRoute::Reject(AuthLevel::Admin, RejectKind::MethodNotAllowed)
        } else {
            ApiRoute::AdminUserDelete(id)
        }
    } else {
        ApiRoute::Reject(AuthLevel::Admin, RejectKind::MethodNotAllowed)
    }
}

fn classify_admin_users(mut path_vec: Vec<String>, method: Method) -> (r: ApiRoute)
    ensures
        r == spec_classify_admin_users(path_vec@.map_values(|t: String| t@), method),
{
    let ghost st = path_vec@.map_values(|t: String| t@);
    let top = path_vec.pop();
    proof {
        if st.len() > 0 {
            assert(path_vec@.map_values(|t: String| t@) =~= st.drop_last());
        }
    }
    match top {
        None => {
            if method == Method::Get {
                ApiRoute::AdminUsersList
            } else if method == Method::Post {
                ApiRoute::AdminUserCreate
            } else {
                ApiRoute::Reject(AuthLevel::Admin, RejectKind::MethodNotAllowed)
            }
        },
        Some(seg) => {
            proof {
                assert(seg@ == st.last());
            }
            if seg.as_str().is_empty() {
                if path_vec.len() > 0 {
                    ApiRoute::Reject(AuthLevel::Admin, RejectKind::NotFound)
                } else if method == Method::Get {
                    ApiRoute::AdminUsersList
                } else if method == Method::Post {
                    ApiRoute::AdminUserCreate
                } else {
                    ApiRoute::Reject(AuthLevel::Admin, RejectKind::MethodNotAllowed)
                }
            } else {
                match text::parse_i32(seg.as_str()) {
                    Some(id) => classify_admin_user(id, path_vec, method),
                    None => ApiRoute::Reject(AuthLevel::Admin, RejectKind::BadIndex),
                }
            }
        },
    }
}

fn classify_admin_sessions(mut path_vec: Vec<String>, method: Method) -> (r: ApiRoute)
    ensures
        r == spec_classify_admin_sessions(path_vec@.map_values(|t: String| t@), method),
{
    let ghost st = path_vec@.map_values(|t: String| t@);
    let top = path_vec.pop();
    proof {
        if st.len() > 0 {
            assert(path_vec@.map_values(|t: String| t@) =~= st.drop_last());
        }
    }
    match top {
        None => {
            if method == Method::Get {
                ApiRoute::AdminSessionsList
            } else {
                ApiRoute::Reject(AuthLevel::Admin, RejectKind::MethodNotAllowed)
            }
        },
        Some(seg) => {
            proof {
                assert(seg@ == st.last());
            }
            if seg.as_str().is_empty() {
                if path_vec.len() > 0 {
                    ApiRoute::Reject(AuthLevel::Admin, RejectKind::NotFound)
                } else if method == Method::Get {
                    ApiRoute::AdminSessionsList
                } else {
                    ApiRoute::Reject(AuthLevel::Admin, RejectKind::MethodNotAllowed)
                }
            } else if path_vec.len() > 0 {
                ApiRoute::Reject(AuthLevel::Admin, RejectKind::NotFound)
            } else if method != Method::Delete {
                ApiRoute::Reject(AuthLevel::Admin, RejectKind::MethodNotAllowed)
            } else {
                match text::parse_i32(seg.as_str()) {
                    Some(id) => ApiRoute::AdminSessionDelete(id),
                    None => ApiRoute::Reject(AuthLevel::Admin, RejectKind::BadIndex),
                }
            }
        },
    }
}

fn classify_admin(mut path_vec: Vec<String>, method: Method) -> (r: ApiRoute)
    ensures
        r == spec_classify_admin(path_vec@.map_values(|t: String| t@), method),
{
    let ghost st = path_vec@.map_values(|t: String| t@);
    let top = path_vec.pop();
    proof {
        if st.len() > 0 {
            assert(path_vec@.map_values(|t: String| t@) =~= st.drop_last());
        }
    }
    match top {
        None => {
            if method == Method::Get {
                ApiRoute::AdminDoc
            } else {
                ApiRoute::Reject(AuthLevel::Admin, RejectKind::MethodNotAllowed)
            }
        },
        Some(seg) => {
            proof {
                assert(seg@ == st.last());
            }
            if seg.as_str().is_empty() {
                if path_vec.len() > 0 {
                    ApiRoute::Reject(AuthLevel::Admin, RejectKind::NotFound)
                } else if method == Method::Get {
                    ApiRoute::AdminDoc
                } else {
                    ApiRoute::Reject(AuthLevel::Admin, RejectKind::MethodNotAllowed)
                }
            } else if text::str_eq(seg.as_str(), "users") {
                classify_admin_users(path_vec, method)
            } else if text::str_eq(seg.as_str(), "sessions") {
                classify_admin_sessions(path_vec, method)
            } else {
                ApiRoute::Reject(AuthLevel::Admin, RejectKind::NotFound)
            }
        },
    }
}

/// Where a request goes at the top level: the API, one of the two static
/// frontend assets, or the index page that every other path serves.
#[derive(Debug)]
pub enum TopRoute {
    Api,
    PackageJs,
    PackageWasm,
    Index,
    /// The path did not start with a slash: data stood before the root.
    BadRoot(String),
}

/// Decide the top level of a request from its segment stack: the path must
/// begin at the root, `api` hands the remaining stack to the API matcher,
/// the two bundled assets are served by name, and every other path serves
/// the index page.
pub fn classify_top(path_vec: &mut Vec<String>) -> (r: TopRoute)
    ensures
        ({
            let st = old(path_vec)@.map_values(|t: String| t@);
            let rest = spec_rest(st);
            if st.len() > 0 && st.last().len() > 0 {
                r matches TopRoute::BadRoot(s) && s@ == st.last()
            } else if rest.len() > 0 && rest.last() == "api"@ {
                r is Api && final(path_vec)@.map_values(|t: String| t@) == rest.drop_last()
            } else if rest.len() > 0 && rest.last() == "package.js"@ {
                r is PackageJs && final(path_vec)@.map_values(|t: String| t@) == rest.drop_last()
            } else if rest.len() > 0 && rest.last() == "package_bg.wasm"@ {
                r is PackageWasm && final(path_vec)@.map_values(|t: String| t@) == rest.drop_last()
            } else {
                r is Index && final(path_vec)@.map_values(|t: String| t@) == spec_rest(rest)
            }
        }),
{
    let ghost st = path_vec@.map_values(|t: String| t@);
    let top = path_vec.pop();
    proof {
        if st.len() > 0 {
            assert(path_vec@.map_values(|t: String| t@) =~= st.drop_last());
        }
    }
    if let Some(seg) = top {
        proof {
            assert(seg@ == st.last());
        }
        if !seg.as_str().is_empty() {
            return TopRoute::BadRoot(seg);
        }
    }
    let ghost rest = path_vec@.map_values(|t: String| t@);
    let second = path_vec.pop();
    proof {
        if rest.len() > 0 {
            assert(path_vec@.map_values(|t: String| t@) =~= rest.drop_last());
        }
    }
    match second {
        Some(seg) => {
            proof {
                assert(seg@ == rest.last());
            }
            if text::str_eq(seg.as_str(), "api") {
                TopRoute::Api
            } else if text::str_eq(seg.as_str(), "package.js") {
                TopRoute::PackageJs
            } else if text::str_eq(seg.as_str(), "package_bg.wasm") {
                TopRoute::PackageWasm
            } else {
                TopRoute::Index
            }
        },
        None => TopRoute::Index,
    }
}

/// Decide the route — or the refusal — for a request under `/api`, from the
/// remaining segment stack and the method. Pure segment matching: the
/// caller authorizes to the route's level before acting on the decision.
pub fn classify_api(mut path_vec: Vec<String>, method: Method) -> (r: ApiRoute)
    ensures
        r == spec_classify_api(path_vec@.map_values(|t: String| t@), method),
{
    let ghost st = path_vec@.map_values(|t: String| t@);
    let top = path_vec.pop();
    proof {
        if st.len() > 0 {
            assert(path_vec@.map_values(|t: String| t@) =~= st.drop_last());
        }
    }
    match top {
        None => {
            if method == Method::Get {
                ApiRoute::Doc
            } else {
                ApiRoute::Reject(AuthLevel::Anonymous, RejectKind::MethodNotAllowed)
            }
        },
        Some(seg) => {
            proof {
                assert(seg@ == st.last());
            }
            if seg.as_str().is_empty() {
                if path_vec.len() > 0 {
                    ApiRoute::Reject(AuthLevel::Anonymous, RejectKind::NotFound)
                } else if method == Method::Get {
                    ApiRoute::Doc
                } else {
                    ApiRoute::Reject(AuthLevel::Anonymous, RejectKind::MethodNotAllowed)
                }
            } else if text::str_eq(seg.as_str(), "login") {
                if path_vec.len() > 0 {
                    ApiRoute::Reject(AuthLevel::Anonymous, RejectKind::NotFound)
                } else if method != Method::Post {
                    ApiRoute::Reject(AuthLevel::Anonymous, RejectKind::MethodNotAllowed)
                } else {
                    ApiRoute::Login
                }
            } else if text::str_eq(seg.as_str(), "admin") {
                classify_admin(path_vec, method)
            } else if text::str_eq(seg.as_str(), "logout") {
                if path_vec.len() > 0 {
                    ApiRoute::Reject(AuthLevel::User, RejectKind::NotFound)
                } else if method != Method::Post {
                    ApiRoute::Reject(AuthLevel::User, RejectKind::MethodNotAllowed)
                } else {
                    ApiRoute::Logout
                }
            } else if text::str_eq(seg.as_str(), "user") {
                classify_user(path_vec, method)
            } else {
                ApiRoute::Reject(AuthLevel::User, RejectKind::NotFound)
            }
        },
    }
}

} // verus!
