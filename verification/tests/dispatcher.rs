use account_service::dispatch::{
    classify_api, classify_top, split_path, verify_method, verify_method_path_end,
    verify_path_end, ApiRoute, AuthLevel, Method, RejectKind, TopRoute,
};
use account_service::error::{ClientError, Error};

/// The segment stack for a path, with the root and `api` segments consumed.
fn api_stack(path: &str) -> Vec<String> {
    let mut stack = split_path(path);
    match classify_top(&mut stack) {
        TopRoute::Api => stack,
        other => panic!("expected an api path, got {:?}", other),
    }
}

#[test]
fn split_keeps_every_segment_reversed() {
    let stack = split_path("/api/login");
    assert_eq!(stack, vec!["login".to_string(), "api".to_string(), "".to_string()]);
    let doubled = split_path("/a//b");
    assert_eq!(
        doubled,
        vec!["b".to_string(), "".to_string(), "a".to_string(), "".to_string()]
    );
    assert_eq!(split_path(""), vec!["".to_string()]);
    assert_eq!(split_path("/"), vec!["".to_string(), "".to_string()]);
}

#[test]
fn top_level_routing() {
    let mut v = split_path("/");
    assert!(matches!(classify_top(&mut v), TopRoute::Index));
    let mut v = split_path("/somewhere");
    assert!(matches!(classify_top(&mut v), TopRoute::Index));
    let mut v = split_path("/package.js");
    assert!(matches!(classify_top(&mut v), TopRoute::PackageJs));
    let mut v = split_path("/package_bg.wasm");
    assert!(matches!(classify_top(&mut v), TopRoute::PackageWasm));
    let mut v = split_path("/api");
    assert!(matches!(classify_top(&mut v), TopRoute::Api));
    // A path with data before the first slash never reaches a route.
    let mut v = split_path("oops/api");
    match classify_top(&mut v) {
        TopRoute::BadRoot(seg) => assert_eq!(seg, "oops"),
        other => panic!("expected a bad root, got {:?}", other),
    }
}

#[test]
fn anonymous_routes() {
    assert_eq!(classify_api(api_stack("/api"), Method::Get), ApiRoute::Doc);
    assert_eq!(classify_api(api_stack("/api/"), Method::Get), ApiRoute::Doc);
    assert_eq!(
        classify_api(api_stack("/api"), Method::Post),
        ApiRoute::Reject(AuthLevel::Anonymous, RejectKind::MethodNotAllowed)
    );
    assert_eq!(classify_api(api_stack("/api/login"), Method::Post), ApiRoute::Login);
    assert_eq!(
        classify_api(api_stack("/api/login"), Method::Get),
        ApiRoute::Reject(AuthLevel::Anonymous, RejectKind::MethodNotAllowed)
    );
    assert_eq!(
        classify_api(api_stack("/api/login/extra"), Method::Post),
        ApiRoute::Reject(AuthLevel::Anonymous, RejectKind::NotFound)
    );
}

#[test]
fn user_routes_and_their_authorization_level() {
    assert_eq!(classify_api(api_stack("/api/logout"), Method::Post), ApiRoute::Logout);
    assert_eq!(classify_api(api_stack("/api/user"), Method::Get), ApiRoute::UserInfo);
    assert_eq!(
        classify_api(api_stack("/api/user/password"), Method::Post),
        ApiRoute::UserPassword
    );
    assert_eq!(
        classify_api(api_stack("/api/user/sessions"), Method::Get),
        ApiRoute::UserSessionsList
    );
    assert_eq!(
        classify_api(api_stack("/api/user/sessions/7"), Method::Delete),
        ApiRoute::UserSessionDelete(7)
    );
    assert_eq!(
        classify_api(api_stack("/api/user/sessions/x7"), Method::Delete),
        ApiRoute::Reject(AuthLevel::User, RejectKind::BadIndex)
    );
    // An unknown protected path is refused only after a session is required.
    let unknown = classify_api(api_stack("/api/garbage"), Method::Get);
    assert_eq!(unknown, ApiRoute::Reject(AuthLevel::User, RejectKind::NotFound));
    assert_eq!(unknown.auth_level(), AuthLevel::User);
    assert_eq!(ApiRoute::Login.auth_level(), AuthLevel::Anonymous);
    assert_eq!(ApiRoute::UserSessionsList.auth_level(), AuthLevel::User);
}

#[test]
fn admin_routes() {
    assert_eq!(classify_api(api_stack("/api/admin"), Method::Get), ApiRoute::AdminDoc);
    assert_eq!(
        classify_api(api_stack("/api/admin/users"), Method::Get),
        ApiRoute::AdminUsersList
    );
    assert_eq!(
        classify_api(api_stack("/api/admin/users"), Method::Post),
        ApiRoute::AdminUserCreate
    );
    assert_eq!(
        classify_api(api_stack("/api/admin/users/5"), Method::Get),
        ApiRoute::AdminUserGet(5)
    );
    assert_eq!(
        classify_api(api_stack("/api/admin/users/5"), Method::Put),
        ApiRoute::AdminUserUpdate(5)
    );
    assert_eq!(
        classify_api(api_stack("/api/admin/users/5"), Method::Delete),
        ApiRoute::AdminUserDelete(5)
    );
    assert_eq!(
        classify_api(api_stack("/api/admin/users/abc"), Method::Get),
        ApiRoute::Reject(AuthLevel::Admin, RejectKind::BadIndex)
    );
    assert_eq!(
        classify_api(api_stack("/api/admin/users/5/password"), Method::Post),
        ApiRoute::AdminUserResetPassword(5)
    );
    assert_eq!(
        classify_api(api_stack("/api/admin/users/5/password"), Method::Delete),
        ApiRoute::AdminUserDeactivate(5)
    );
    assert_eq!(
        classify_api(api_stack("/api/admin/users/5/impersonate"), Method::Post),
        ApiRoute::AdminImpersonate(5)
    );
    assert_eq!(
        classify_api(api_stack("/api/admin/sessions"), Method::Get),
        ApiRoute::AdminSessionsList
    );
    assert_eq!(
        classify_api(api_stack("/api/admin/sessions/9"), Method::Delete),
        ApiRoute::AdminSessionDelete(9)
    );
    assert_eq!(classify_api(api_stack("/api/admin/sessions/9"), Method::Delete).auth_level(),
        AuthLevel::Admin);
}

#[test]
fn seeded_accounts_are_protected_from_edits() {
    // Ids at or below zero belong to the seeded administrator: editing,
    // deleting or deactivating them is refused as if the method did not
    // exist, exactly like reads are allowed.
    assert_eq!(
        classify_api(api_stack("/api/admin/users/0"), Method::Get),
        ApiRoute::AdminUserGet(0)
    );
    assert_eq!(
        classify_api(api_stack("/api/admin/users/0"), Method::Put),
        ApiRoute::Reject(AuthLevel::Admin, RejectKind::MethodNotAllowed)
    );
    assert_eq!(
        classify_api(api_stack("/api/admin/users/-1"), Method::Delete),
        ApiRoute::Reject(AuthLevel::Admin, RejectKind::MethodNotAllowed)
    );
    assert_eq!(
        classify_api(api_stack("/api/admin/users/0/password"), Method::Delete),
        ApiRoute::Reject(AuthLevel::Admin, RejectKind::MethodNotAllowed)
    );
    // Resetting the seeded administrator's password stays possible.
    assert_eq!(
        classify_api(api_stack("/api/admin/users/0/password"), Method::Post),
        ApiRoute::AdminUserResetPassword(0)
    );
}

#[test]
fn dispatcher_checks_report_the_exact_errors() {
    let path = "/api/login/extra".to_string();
    let leftover = vec!["extra".to_string()];
    let r = verify_path_end(&leftover, &path);
    match r {
        Err(Error::ClientError(ClientError::PathNotFound(p))) => assert_eq!(p, path),
        other => panic!("expected path-not-found, got {:?}", other),
    }
    assert!(verify_path_end(&Vec::new(), &path).is_ok());

    let r = verify_method(&Method::Get, &Method::Post);
    match r {
        Err(Error::ClientError(ClientError::MethodNotFound(m))) => assert_eq!(m, "GET"),
        other => panic!("expected method-not-found, got {:?}", other),
    }
    assert!(verify_method(&Method::Post, &Method::Post).is_ok());

    // The trailing-path check comes before the method check.
    let r = verify_method_path_end(&leftover, &path, &Method::Get, &Method::Post);
    assert!(matches!(r, Err(Error::ClientError(ClientError::PathNotFound(_)))));
}
