//! Parsing of request tokens: methods, revisions, query strings, paths; and
//! the full raw-request entry point.

use edgelet_http_mgmt::auth::IdentityLookup;
use edgelet_http_mgmt::route::{HandlerId, Method};
use edgelet_http_mgmt::service::{Decision, ErrorKind, ManagementService};
use edgelet_http_mgmt::text;
use edgelet_http_mgmt::version::{version_from_query, ApiVersion};

#[test]
fn version_tokens_parse() {
    assert_eq!(ApiVersion::parse("2018-06-28"), Some(ApiVersion::V2018_06_28));
    assert_eq!(ApiVersion::parse("2019-01-30"), Some(ApiVersion::V2019_01_30));
    assert_eq!(ApiVersion::parse("2020-01-01"), None);
    assert_eq!(ApiVersion::parse(""), None);
    assert_eq!(ApiVersion::parse("2018-06-28 "), None);
}

#[test]
fn versions_are_ordered_chronologically() {
    assert!(ApiVersion::V2019_01_30.ge(ApiVersion::V2018_06_28));
    assert!(!ApiVersion::V2018_06_28.ge(ApiVersion::V2019_01_30));
    assert!(ApiVersion::V2018_06_28.ge(ApiVersion::V2018_06_28));
    assert!(ApiVersion::V2019_01_30.ge(ApiVersion::V2019_01_30));
}

#[test]
fn method_tokens_parse() {
    assert_eq!(Method::parse("GET"), Some(Method::Get));
    assert_eq!(Method::parse("POST"), Some(Method::Post));
    assert_eq!(Method::parse("PUT"), Some(Method::Put));
    assert_eq!(Method::parse("DELETE"), Some(Method::Delete));
    assert_eq!(Method::parse("PATCH"), Some(Method::Patch));
    assert_eq!(Method::parse("get"), None);
    assert_eq!(Method::parse("HEAD"), None);
    assert_eq!(Method::parse(""), None);
}

#[test]
fn query_declares_version() {
    assert_eq!(version_from_query("api-version=2018-06-28"), Some(ApiVersion::V2018_06_28));
    assert_eq!(
        version_from_query("timeout=20&api-version=2019-01-30"),
        Some(ApiVersion::V2019_01_30)
    );
    assert_eq!(version_from_query(""), None);
    assert_eq!(version_from_query("api-version"), None);
    assert_eq!(version_from_query("api-version="), None);
    assert_eq!(version_from_query("api-version=yesterday"), None);
    assert_eq!(version_from_query("apiversion=2018-06-28"), None);
}

#[test]
fn first_declared_version_wins() {
    assert_eq!(
        version_from_query("api-version=2018-06-28&api-version=2019-01-30"),
        Some(ApiVersion::V2018_06_28)
    );
    assert_eq!(
        version_from_query("api-version=bogus&api-version=2019-01-30"),
        None
    );
}

#[test]
fn split_cuts_at_every_separator() {
    let r = text::split("modules/foo/start", '/');
    assert_eq!(r, vec!["modules".to_owned(), "foo".to_owned(), "start".to_owned()]);
    let r = text::split("", '/');
    assert_eq!(r, vec!["".to_owned()]);
    let r = text::split("a//b", '/');
    assert_eq!(r, vec!["a".to_owned(), "".to_owned(), "b".to_owned()]);
    let r = text::split("/", '/');
    assert_eq!(r, vec!["".to_owned(), "".to_owned()]);
}

#[test]
fn str_eq_is_exact() {
    assert!(text::str_eq("", ""));
    assert!(text::str_eq("abc", "abc"));
    assert!(!text::str_eq("abc", "abd"));
    assert!(!text::str_eq("abc", "abcd"));
}

#[test]
fn statuses_follow_the_error_taxonomy() {
    assert_eq!(ErrorKind::NotFound.status(), 404);
    assert_eq!(ErrorKind::MethodNotAllowed.status(), 405);
    assert_eq!(ErrorKind::Denied.status(), 403);
    assert_eq!(ErrorKind::InvalidApiVersion.status(), 400);
    assert_eq!(ErrorKind::RuntimeError.status(), 500);
}

#[test]
fn raw_request_is_routed() {
    let svc = ManagementService::new().unwrap();
    let d = svc.handle_request("GET", "/modules", "api-version=2018-06-28", &IdentityLookup::Unknown);
    assert_eq!(
        d,
        Decision::Invoke { handler: HandlerId::ListModules, captures: vec![] }
    );
}

#[test]
fn raw_request_without_version_is_rejected() {
    let svc = ManagementService::new().unwrap();
    let d = svc.handle_request("GET", "/modules", "", &IdentityLookup::Unknown);
    assert_eq!(d, Decision::Reject { error: ErrorKind::InvalidApiVersion });
    let d = svc.handle_request("GET", "/modules", "api-version=tomorrow", &IdentityLookup::Unknown);
    assert_eq!(d, Decision::Reject { error: ErrorKind::InvalidApiVersion });
}

#[test]
fn raw_request_with_unknown_method_is_answered_by_path() {
    let svc = ManagementService::new().unwrap();
    let d = svc.handle_request("HEAD", "/modules", "api-version=2018-06-28", &IdentityLookup::Unknown);
    assert_eq!(d, Decision::Reject { error: ErrorKind::MethodNotAllowed });
    let d = svc.handle_request("HEAD", "/devices", "api-version=2018-06-28", &IdentityLookup::Unknown);
    assert_eq!(d, Decision::Reject { error: ErrorKind::NotFound });
}
