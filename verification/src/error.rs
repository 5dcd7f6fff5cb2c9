//! Two-tier error taxonomy: client-facing errors that are safe to serialize
//! with a specific HTTP status, and internal errors that collapse to a
//! generic server fault for the client.

use crate::text::{spec_decimal, u64_to_decimal};
use vstd::prelude::*;
use vstd::string::StringExecFns;

verus! {

/// Message reported when a declared content length exceeds the configured
/// maximum.
pub open spec fn spec_too_large_msg(max: int, len: int) -> Seq<char> {
    "Too large. Maximum allowed is "@ + spec_decimal(max) + ", received "@ + spec_decimal(len)
}

/// Message reported when the bytes received disagree with the declared
/// content length.
pub open spec fn spec_mismatch_msg(given: int, promised: int) -> Seq<char> {
    "Mismatch. Header is "@ + spec_decimal(promised) + ", received"@ + (if given > promised {
        " at least"@
    } else {
        Seq::<char>::empty()
    }) + " "@ + spec_decimal(given)
}

/// Message reported when the content type is not the expected one.
pub open spec fn spec_content_type_msg(expected: Seq<char>, received: Seq<char>) -> Seq<char> {
    "Expected "@ + expected + ", received "@ + received
}

/// Client-facing errors. Each maps to a specific HTTP status code and may
/// be returned to the requester in full.
#[derive(Debug)]
pub enum ClientError {
    PathNotFound(String),
    MethodNotFound(String),
    Unauthorized,
    Forbidden,

    PathDataBeforeRoot(String),
    UnreadableHeader(String),
    InvalidContentLength(String),
    InvalidContentType(String),
    InvalidJson(String),
    InvalidUrlEncoding(String),
    InvalidIndexPath(String),

    BadPassword,
    UsernameTaken,
    BadLogin,
    AccountLocked,
}

impl ClientError {
    /// The HTTP status a client error is reported with.
    pub open spec fn spec_status_code(&self) -> u16 {
        match self {
            ClientError::PathNotFound(_) => 404,
            ClientError::MethodNotFound(_) => 405,
            ClientError::Unauthorized => 401,
            ClientError::Forbidden => 403,
            ClientError::PathDataBeforeRoot(_) => 400,
            ClientError::UnreadableHeader(_) => 400,
            ClientError::InvalidContentLength(_) => 400,
            ClientError::InvalidContentType(_) => 400,
            ClientError::InvalidJson(_) => 400,
            ClientError::InvalidUrlEncoding(_) => 400,
            ClientError::InvalidIndexPath(_) => 400,
            ClientError::BadPassword => 400,
            ClientError::UsernameTaken => 400,
            ClientError::BadLogin => 401,
            ClientError::AccountLocked => 401,
        }
    }

    pub fn status_code(&self) -> (s: u16)
        ensures
            s == self.spec_status_code(),
    {
        match self {
            ClientError::PathNotFound(_) => 404,
            ClientError::MethodNotFound(_) => 405,
            ClientError::Unauthorized => 401,
            ClientError::Forbidden => 403,
            ClientError::PathDataBeforeRoot(_) => 400,
            ClientError::UnreadableHeader(_) => 400,
            ClientError::InvalidContentLength(_) => 400,
            ClientError::InvalidContentType(_) => 400,
            ClientError::InvalidJson(_) => 400,
            ClientError::InvalidUrlEncoding(_) => 400,
            ClientError::InvalidIndexPath(_) => 400,
            ClientError::BadPassword => 400,
            ClientError::UsernameTaken => 400,
            ClientError::BadLogin => 401,
            ClientError::AccountLocked => 401,
        }
    }
}

/// Internal errors. Logged server-side in detail; a client only ever sees a
/// generic server fault derived from one of these.
#[derive(Debug)]
pub enum InternalError {
    /// The unique-key constraint fired on a session insert: astronomically
    /// unlikely, treated as a fault rather than retried.
    SessionKeyCollision,
    /// A scheduler worker could not be joined.
    Join,
    /// The admission-control counter could not be acquired.
    Semaphore,
    /// The password-hashing primitive failed for a reason other than a
    /// password mismatch.
    Hash,
    /// A storage round-trip failed.
    Db,
    /// The transport connection failed.
    Connection,
}

impl InternalError {
    /// Every internal error is collapsed to a generic server fault.
    pub fn status_code(&self) -> (s: u16)
        ensures
            s == 500,
    {
        500
    }
}

/// The error type of every fallible operation in the library: either safe to
/// show a client, or internal.
#[derive(Debug)]
pub enum Error {
    InternalError(InternalError),
    ClientError(ClientError),
}

impl Error {
    pub open spec fn spec_status_code(&self) -> u16 {
        match self {
            Error::InternalError(_) => 500,
            Error::ClientError(c) => c.spec_status_code(),
        }
    }

    /// The HTTP status this error is reported with.
    pub fn status_code(&self) -> (s: u16)
        ensures
            s == self.spec_status_code(),
    {
        match self {
            Error::InternalError(e) => e.status_code(),
            Error::ClientError(c) => c.status_code(),
        }
    }

    pub fn session_key_collision() -> (e: Error)
        ensures
            e == Error::InternalError(InternalError::SessionKeyCollision),
    {
        Error::InternalError(InternalError::SessionKeyCollision)
    }

    pub fn unauthorized() -> (e: Error)
        ensures
            e == Error::ClientError(ClientError::Unauthorized),
    {
        Error::ClientError(ClientError::Unauthorized)
    }

    pub fn forbidden() -> (e: Error)
        ensures
            e == Error::ClientError(ClientError::Forbidden),
    {
        Error::ClientError(ClientError::Forbidden)
    }

    pub fn bad_password() -> (e: Error)
        ensures
            e == Error::ClientError(ClientError::BadPassword),
    {
        Error::ClientError(ClientError::BadPassword)
    }

    pub fn username_taken() -> (e: Error)
        ensures
            e == Error::ClientError(ClientError::UsernameTaken),
    {
        Error::ClientError(ClientError::UsernameTaken)
    }

    pub fn bad_login() -> (e: Error)
        ensures
            e == Error::ClientError(ClientError::BadLogin),
    {
        Error::ClientError(ClientError::BadLogin)
    }

    pub fn account_locked() -> (e: Error)
        ensures
            e == Error::ClientError(ClientError::AccountLocked),
    {
        Error::ClientError(ClientError::AccountLocked)
    }

    pub fn path_data_before_root(data: String) -> (e: Error)
        ensures
            e == Error::ClientError(ClientError::PathDataBeforeRoot(data)),
    {
        Error::ClientError(ClientError::PathDataBeforeRoot(data))
    }

    pub fn path_not_found(path: String) -> (e: Error)
        ensures
            e == Error::ClientError(ClientError::PathNotFound(path)),
    {
        Error::ClientError(ClientError::PathNotFound(path))
    }

    pub fn method_not_found(method: String) -> (e: Error)
        ensures
            e == Error::ClientError(ClientError::MethodNotFound(method)),
    {
        Error::ClientError(ClientError::MethodNotFound(method))
    }

    pub fn unreadable_header(header: &str) -> (e: Error)
        ensures
            e matches Error::ClientError(c) && c matches ClientError::UnreadableHeader(m) && m@
                == "Error reading header "@ + header@,
    {
        proof {
            reveal_strlit("Error reading header ");
        }
        let mut m = String::from_str("Error reading header ");
        m.append(header);
        Error::ClientError(ClientError::UnreadableHeader(m))
    }

    pub fn content_length_missing() -> (e: Error)
        ensures
            e matches Error::ClientError(c) && c matches ClientError::InvalidContentLength(m) && m@
                == "No content length given"@,
    {
        proof {
            reveal_strlit("No content length given");
        }
        Error::ClientError(
            ClientError::InvalidContentLength(String::from_str("No content length given")),
        )
    }

    pub fn content_length_not_int() -> (e: Error)
        ensures
            e matches Error::ClientError(c) && c matches ClientError::InvalidContentLength(m) && m@
                == "Invalid unsigned int"@,
    {
        proof {
            reveal_strlit("Invalid unsigned int");
        }
        Error::ClientError(
            ClientError::InvalidContentLength(String::from_str("Invalid unsigned int")),
        )
    }

    pub fn content_length_too_large(parsed: usize, max: usize) -> (e: Error)
        ensures
            e matches Error::ClientError(c) && c matches ClientError::InvalidContentLength(m) && m@
                == spec_too_large_msg(max as int, parsed as int),
    {
        proof {
            reveal_strlit("Too large. Maximum allowed is ");
            reveal_strlit(", received ");
        }
        let mut m = String::from_str("Too large. Maximum allowed is ");
        let max_s = u64_to_decimal(max as u64);
        m.append(max_s.as_str());
        m.append(", received ");
        let len_s = u64_to_decimal(parsed as u64);
        m.append(len_s.as_str());
        Error::ClientError(ClientError::InvalidContentLength(m))
    }

    pub fn content_length_mismatch(given: usize, promised: usize) -> (e: Error)
        ensures
            e matches Error::ClientError(c) && c matches ClientError::InvalidContentLength(m) && m@
                == spec_mismatch_msg(given as int, promised as int),
    {
        proof {
            reveal_strlit("Mismatch. Header is ");
            reveal_strlit(", received");
            reveal_strlit(" at least");
            reveal_strlit(" ");
        }
        let mut m = String::from_str("Mismatch. Header is ");
        let promised_s = u64_to_decimal(promised as u64);
        m.append(promised_s.as_str());
        m.append(", received");
        if given > promised {
            m.append(" at least");
        }
        m.append(" ");
        let given_s = u64_to_decimal(given as u64);
        m.append(given_s.as_str());
        proof {
            assert(m@ =~= spec_mismatch_msg(given as int, promised as int));
        }
        Error::ClientError(ClientError::InvalidContentLength(m))
    }

    pub fn invalid_content_type(expected: &str, received: &str) -> (e: Error)
        ensures
            e matches Error::ClientError(c) && c matches ClientError::InvalidContentType(m) && m@
                == spec_content_type_msg(expected@, received@),
    {
        proof {
            reveal_strlit("Expected ");
            reveal_strlit(", received ");
        }
        let mut m = String::from_str("Expected ");
        m.append(expected);
        m.append(", received ");
        m.append(received);
        Error::ClientError(ClientError::InvalidContentType(m))
    }

    pub fn hash_fault() -> (e: Error)
        ensures
            e == Error::InternalError(InternalError::Hash),
    {
        Error::InternalError(InternalError::Hash)
    }
}

} // verus!
