//! Request-body discipline: a declared content length is required, bounded
//! by the configured maximum, and enforced against the bytes actually
//! received — a mismatch in either direction is a hard client error, never
//! silently tolerated.

use crate::error::{
    spec_content_type_msg, spec_mismatch_msg, spec_too_large_msg, ClientError, Error,
};
use crate::text::{self, spec_parse_usize};
use vstd::prelude::*;

verus! {

/// Validate the declared content length: it must be present, a plain
/// unsigned number, and within the configured maximum.
pub fn validate_get_content_len(header: Option<&String>, max_len: usize) -> (r: Result<
    usize,
    Error,
>)
    ensures
        match header {
            None => r matches Err(e) && e matches Error::ClientError(c) && c matches
                ClientError::InvalidContentLength(m) && m@ == "No content length given"@,
            Some(h) => match spec_parse_usize(h@) {
                None => r matches Err(e) && e matches Error::ClientError(c) && c matches
                    ClientError::InvalidContentLength(m) && m@ == "Invalid unsigned int"@,
                Some(len) => if len <= max_len {
                    r == Ok::<usize, Error>(len)
                } else {
                    r matches Err(e) && e matches Error::ClientError(c) && c matches
                        ClientError::InvalidContentLength(m) && m@ == spec_too_large_msg(
                        max_len as int,
                        len as int,
                    )
                },
            },
        },
{
    match header {
        Some(x) => match text::parse_usize(x.as_str()) {
            Some(length) => if length <= max_len {
                Ok(length)
            } else {
                Err(Error::content_length_too_large(length, max_len))
            },
            None => Err(Error::content_length_not_int()),
        },
        None => Err(Error::content_length_missing()),
    }
}

/// The length estimate reported when a body overruns its declared length:
/// what has arrived plus what the stream says is still pending, saturated.
pub open spec fn spec_body_estimate(have: int, chunk: int, pending: int) -> int {
    if have + chunk + pending <= usize::MAX {
        have + chunk + pending
    } else {
        usize::MAX as int
    }
}

/// Append one received chunk to the body buffer, refusing it if it would
/// overrun the declared length. `pending_hint` is the stream's lower bound
/// on what is still to come, used only in the error report.
pub fn body_append(
    bytes: &mut Vec<u8>,
    data: &[u8],
    expected_len: usize,
    pending_hint: usize,
) -> (r: Result<(), Error>)
    requires
        old(bytes)@.len() <= expected_len,
    ensures
        old(bytes)@.len() + data@.len() <= expected_len ==> (r is Ok && final(bytes)@ == old(
            bytes,
        )@ + data@),
        old(bytes)@.len() + data@.len() > expected_len ==> (*final(bytes) == *old(bytes) && (
        r matches Err(e) && e matches Error::ClientError(c) && c matches
            ClientError::InvalidContentLength(m) && m@ == spec_mismatch_msg(
            spec_body_estimate(old(bytes)@.len() as int, data@.len() as int, pending_hint as int),
            expected_len as int,
        ))),
        final(bytes)@.len() <= expected_len,
{
    if data.len() > expected_len - bytes.len() {
        // Estimate how large the request really is, for the report.
        let mut estimate: usize = bytes.len();
        if data.len() > usize::MAX - estimate {
            estimate = usize::MAX;
        } else {
            estimate = estimate + data.len();
        }
        if pending_hint > usize::MAX - estimate {
            estimate = usize::MAX;
        } else {
            estimate = estimate + pending_hint;
        }
        return Err(Error::content_length_mismatch(estimate, expected_len));
    }
    let mut i: usize = 0;
    let n = data.len();
    while i < n
        invariant
            i <= n,
            n == data@.len(),
            bytes@ == old(bytes)@ + data@.take(i as int),
            old(bytes)@.len() + n <= expected_len,
        decreases n - i,
    {
        bytes.push(data[i]);
        proof {
            assert(old(bytes)@ + data@.take(i + 1 as int) =~= (old(bytes)@ + data@.take(
                i as int,
            )).push(data@[i as int]));
        }
        i = i + 1;
    }
    proof {
        assert(data@.take(n as int) =~= data@);
    }
    Ok(())
}

/// Check a fully received body against its declared length: fewer bytes
/// than promised is the same hard error as more.
pub fn body_finish(bytes: &Vec<u8>, expected_len: usize) -> (r: Result<(), Error>)
    requires
        bytes@.len() <= expected_len,
    ensures
        bytes@.len() == expected_len ==> r is Ok,
        bytes@.len() < expected_len ==> (r matches Err(e) && e matches Error::ClientError(c)
            && c matches ClientError::InvalidContentLength(m) && m@ == spec_mismatch_msg(
            bytes@.len() as int,
            expected_len as int,
        )),
{
    if bytes.len() < expected_len {
        Err(Error::content_length_mismatch(bytes.len(), expected_len))
    } else {
        Ok(())
    }
}

/// Check the content type a request declared against the one the route
/// expects; a missing header counts as an empty declaration.
pub fn validate_content_type(received: Option<&String>, expected: &str) -> (r: Result<(), Error>)
    ensures
        match received {
            Some(h) => if h@ == expected@ {
                r is Ok
            } else {
                r matches Err(e) && e matches Error::ClientError(c) && c matches
                    ClientError::InvalidContentType(m) && m@ == spec_content_type_msg(expected@, h@)
            },
            None => if expected@.len() == 0 {
                r is Ok
            } else {
                r matches Err(e) && e matches Error::ClientError(c) && c matches
                    ClientError::InvalidContentType(m) && m@ == spec_content_type_msg(
                    expected@,
                    Seq::<char>::empty(),
                )
            },
        },
{
    let got: &str = match received {
        Some(h) => h.as_str(),
        None => "",
    };
    proof {
        reveal_strlit("");
        assert(""@ =~= Seq::<char>::empty());
        if expected@.len() == 0 {
            assert(expected@ =~= Seq::<char>::empty());
        }
    }
    if text::str_eq(got, expected) {
        Ok(())
    } else {
        Err(Error::invalid_content_type(expected, got))
    }
}

} // verus!
