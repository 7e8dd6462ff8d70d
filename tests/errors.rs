use magic_nix_cache::{BackendError, BackendErrorKind, Error};

fn api(kind: BackendErrorKind) -> Error {
    Error::Api(BackendError { kind, message: "boom".to_string() })
}

#[test]
fn backend_failures_map_to_distinct_statuses() {
    assert_eq!(api(BackendErrorKind::RateLimited).status_code(), 429);
    assert_eq!(api(BackendErrorKind::NotFound).status_code(), 404);
    assert_eq!(api(BackendErrorKind::Other).status_code(), 418);
}

#[test]
fn other_errors_map_to_statuses() {
    assert_eq!(Error::NotFound.status_code(), 404);
    assert_eq!(Error::BadRequest.status_code(), 400);
    assert_eq!(Error::GHADisabled.status_code(), 503);
    assert_eq!(Error::IO("x".to_string()).status_code(), 500);
    assert_eq!(Error::Io("x".to_string(), "y".to_string()).status_code(), 500);
    assert_eq!(Error::Config("x".to_string()).status_code(), 500);
    assert_eq!(Error::Internal("x".to_string()).status_code(), 500);
}

#[test]
fn error_messages() {
    assert_eq!(api(BackendErrorKind::Other).message(), "GitHub API error: boom");
    assert_eq!(Error::NotFound.message(), "Not Found");
    assert_eq!(Error::BadRequest.message(), "Bad Request");
    assert_eq!(Error::GHADisabled.message(), "GHA cache is disabled");
    assert_eq!(Error::IO("disk".to_string()).message(), "IO error: disk");
    assert_eq!(
        Error::Io("disk".to_string(), "reading nar".to_string()).message(),
        "I/O error: disk. Context: reading nar"
    );
    assert_eq!(Error::Internal("gone".to_string()).message(), "Internal error: gone");
    assert_eq!(Error::Config("bad".to_string()).message(), "Configuration error: bad");
}

#[test]
fn backend_errors_keep_their_kind() {
    let e = opendal::Error::new(opendal::ErrorKind::RateLimited, "slow down");
    let err = Error::from_backend(&e);
    assert_eq!(err.status_code(), 429);
    let e = opendal::Error::new(opendal::ErrorKind::NotFound, "no such key");
    assert_eq!(Error::from_backend(&e).status_code(), 404);
    let e = opendal::Error::new(opendal::ErrorKind::Unexpected, "internal");
    let err = Error::from_backend(&e);
    assert_eq!(err.status_code(), 418);
    match err {
        Error::Api(b) => assert!(b.message.contains("internal")),
        other => panic!("expected a backend error, got {:?}", other),
    }
}

#[test]
fn configuration_error_messages() {
    assert_eq!(Error::FlakeHub("x".to_string()).message(), "FlakeHub cache error: x");
    assert_eq!(Error::FlakeHubHttp("x".to_string()).message(), "FlakeHub HTTP error: x");
    assert_eq!(
        Error::GetCacheName(403, "denied".to_string()).message(),
        "Got HTTP response 403 getting the cache name from FlakeHub: denied"
    );
    assert_eq!(Error::Netrc("line 3".to_string()).message(), "netrc parse error: line 3");
    assert_eq!(
        Error::MissingCreds("cache.flakehub.com".to_string()).message(),
        "Cannot find netrc credentials for cache.flakehub.com"
    );
    assert_eq!(Error::Attic("db".to_string()).message(), "Attic error: db");
    assert_eq!(Error::BadUrl("::".to_string()).message(), "Bad URL");
    assert_eq!(Error::GetCacheName(403, "denied".to_string()).status_code(), 500);
    assert_eq!(Error::BadUrl("::".to_string()).status_code(), 500);
}
