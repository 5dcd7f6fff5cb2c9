use account_service::body::{
    body_append, body_finish, validate_content_type, validate_get_content_len,
};
use account_service::error::{ClientError, Error, InternalError};
use account_service::text::{parse_i32, parse_usize, str_eq, u64_to_decimal};

fn content_length_message(r: Result<usize, Error>) -> String {
    match r {
        Err(Error::ClientError(ClientError::InvalidContentLength(m))) => m,
        other => panic!("expected an invalid-content-length error, got {:?}", other),
    }
}

#[test]
fn content_length_must_be_present() {
    let r = validate_get_content_len(None, 100);
    assert_eq!(content_length_message(r), "No content length given");
}

#[test]
fn content_length_must_be_a_number() {
    let h = "12a".to_string();
    let r = validate_get_content_len(Some(&h), 100);
    assert_eq!(content_length_message(r), "Invalid unsigned int");
}

#[test]
fn content_length_must_fit_the_maximum() {
    let h = "50".to_string();
    let r = validate_get_content_len(Some(&h), 10);
    assert_eq!(
        content_length_message(r),
        "Too large. Maximum allowed is 10, received 50"
    );
}

#[test]
fn content_length_within_bounds_is_accepted() {
    let h = "5".to_string();
    assert!(matches!(validate_get_content_len(Some(&h), 10), Ok(5)));
    let plus = "+7".to_string();
    assert!(matches!(validate_get_content_len(Some(&plus), 10), Ok(7)));
}

#[test]
fn body_overrun_reports_an_estimate() {
    let mut bytes: Vec<u8> = vec![1, 2];
    let r = body_append(&mut bytes, &[3, 4, 5], 4, 7);
    match r {
        Err(Error::ClientError(ClientError::InvalidContentLength(m))) => {
            assert_eq!(m, "Mismatch. Header is 4, received at least 12");
        },
        other => panic!("expected a mismatch error, got {:?}", other),
    }
    // The refused chunk was not appended.
    assert_eq!(bytes, vec![1, 2]);
}

#[test]
fn body_chunks_accumulate_up_to_the_declared_length() {
    let mut bytes: Vec<u8> = Vec::new();
    assert!(body_append(&mut bytes, &[1, 2], 4, 0).is_ok());
    assert!(body_append(&mut bytes, &[3, 4], 4, 0).is_ok());
    assert_eq!(bytes, vec![1, 2, 3, 4]);
    assert!(body_finish(&bytes, 4).is_ok());
}

#[test]
fn body_undershoot_is_a_mismatch_too() {
    let bytes: Vec<u8> = vec![9, 9];
    let r = body_finish(&bytes, 4);
    match r {
        Err(Error::ClientError(ClientError::InvalidContentLength(m))) => {
            assert_eq!(m, "Mismatch. Header is 4, received 2");
        },
        other => panic!("expected a mismatch error, got {:?}", other),
    }
}

#[test]
fn content_type_is_checked_verbatim() {
    let good = "application/json; charset=utf-8".to_string();
    assert!(validate_content_type(Some(&good), "application/json; charset=utf-8").is_ok());
    let bad = "text/plain".to_string();
    let r = validate_content_type(Some(&bad), "application/json; charset=utf-8");
    match r {
        Err(Error::ClientError(ClientError::InvalidContentType(m))) => {
            assert_eq!(
                m,
                "Expected application/json; charset=utf-8, received text/plain"
            );
        },
        other => panic!("expected a content-type error, got {:?}", other),
    }
    let missing = validate_content_type(None, "application/json; charset=utf-8");
    assert!(matches!(
        missing,
        Err(Error::ClientError(ClientError::InvalidContentType(_)))
    ));
}

#[test]
fn statuses_follow_the_error_taxonomy() {
    assert_eq!(Error::bad_login().status_code(), 401);
    assert_eq!(Error::account_locked().status_code(), 401);
    assert_eq!(Error::unauthorized().status_code(), 401);
    assert_eq!(Error::forbidden().status_code(), 403);
    assert_eq!(Error::bad_password().status_code(), 400);
    assert_eq!(Error::username_taken().status_code(), 400);
    assert_eq!(Error::path_not_found("/x".to_string()).status_code(), 404);
    assert_eq!(Error::method_not_found("GET".to_string()).status_code(), 405);
    assert_eq!(Error::path_data_before_root("x".to_string()).status_code(), 400);
    assert_eq!(Error::unreadable_header("Authorization").status_code(), 400);
    assert_eq!(Error::content_length_missing().status_code(), 400);
    assert_eq!(Error::session_key_collision().status_code(), 500);
    assert_eq!(Error::hash_fault().status_code(), 500);
    assert_eq!(Error::InternalError(InternalError::Db).status_code(), 500);
    assert_eq!(Error::InternalError(InternalError::Semaphore).status_code(), 500);
    assert_eq!(Error::InternalError(InternalError::Join).status_code(), 500);
    assert_eq!(Error::InternalError(InternalError::Connection).status_code(), 500);
    assert_eq!(Error::ClientError(ClientError::InvalidJson("x".to_string())).status_code(), 400);
    assert_eq!(
        Error::ClientError(ClientError::InvalidUrlEncoding("x".to_string())).status_code(),
        400
    );
    assert_eq!(
        Error::ClientError(ClientError::InvalidIndexPath("x".to_string())).status_code(),
        400
    );
}

#[test]
fn unsigned_parsing_matches_the_standard_parser() {
    for s in ["0", "123", "+7", "", "12a", "a12", "-3", "++1", " 5", "99999999999999999999999"] {
        assert_eq!(parse_usize(s), s.parse::<usize>().ok(), "on {:?}", s);
    }
    assert_eq!(parse_usize("18446744073709551615"), Some(usize::MAX));
    assert_eq!(parse_usize("18446744073709551616"), None);
}

#[test]
fn signed_parsing_matches_the_standard_parser() {
    for s in ["0", "5", "-1", "+4", "-2147483648", "2147483647", "2147483648", "-2147483649", "",
        "-", "1.5"] {
        assert_eq!(parse_i32(s), s.parse::<i32>().ok(), "on {:?}", s);
    }
}

#[test]
fn decimal_rendering_is_exact() {
    assert_eq!(u64_to_decimal(0), "0");
    assert_eq!(u64_to_decimal(7), "7");
    assert_eq!(u64_to_decimal(10), "10");
    assert_eq!(u64_to_decimal(12345), "12345");
    assert_eq!(u64_to_decimal(u64::MAX), "18446744073709551615");
}

#[test]
fn string_equality_compares_characters() {
    assert!(str_eq("", ""));
    assert!(str_eq("abc", "abc"));
    assert!(!str_eq("abc", "abd"));
    assert!(!str_eq("abc", "ab"));
    assert!(str_eq("naïve", "naïve"));
}
