//! End-to-end dispatch decisions of the management service: routing,
//! version gating, and per-route authorization.

use edgelet_http_mgmt::auth::IdentityLookup;
use edgelet_http_mgmt::route::{HandlerId, Method};
use edgelet_http_mgmt::service::{agent, Decision, ErrorKind, ManagementService};
use edgelet_http_mgmt::version::ApiVersion;

fn service() -> ManagementService {
    ManagementService::new().expect("the management table has no colliding routes")
}

fn resolved(name: &str) -> IdentityLookup {
    IdentityLookup::Resolved(name.to_owned())
}

#[test]
fn construction_succeeds() {
    assert!(ManagementService::new().is_ok());
}

#[test]
fn list_modules_matches_anonymously() {
    let svc = service();
    let d = svc.dispatch(Method::Get, ApiVersion::V2018_06_28, "/modules", &IdentityLookup::Unknown);
    assert_eq!(
        d,
        Decision::Invoke { handler: HandlerId::ListModules, captures: vec![] }
    );
}

#[test]
fn get_module_captures_name() {
    let svc = service();
    let d = svc.dispatch(
        Method::Get,
        ApiVersion::V2018_06_28,
        "/modules/edgeHub",
        &IdentityLookup::Unknown,
    );
    assert_eq!(
        d,
        Decision::Invoke {
            handler: HandlerId::GetModule,
            captures: vec![("name".to_owned(), "edgeHub".to_owned())],
        }
    );
}

#[test]
fn create_module_as_agent_is_invoked() {
    let svc = service();
    let d = svc.dispatch(Method::Post, ApiVersion::V2018_06_28, "/modules", &resolved(agent()));
    assert_eq!(
        d,
        Decision::Invoke { handler: HandlerId::CreateModule, captures: vec![] }
    );
}

#[test]
fn create_module_as_other_module_is_denied() {
    let svc = service();
    let d = svc.dispatch(
        Method::Post,
        ApiVersion::V2018_06_28,
        "/modules",
        &resolved("camera-module"),
    );
    assert_eq!(d, Decision::Reject { error: ErrorKind::Denied });
    match d {
        Decision::Reject { error } => assert_eq!(error.status(), 403),
        Decision::Invoke { .. } => panic!("handler must not run"),
    }
}

#[test]
fn create_module_with_unknown_caller_is_denied() {
    let svc = service();
    let d = svc.dispatch(
        Method::Post,
        ApiVersion::V2018_06_28,
        "/modules",
        &IdentityLookup::Unknown,
    );
    assert_eq!(d, Decision::Reject { error: ErrorKind::Denied });
}

#[test]
fn resolution_failure_is_denied_not_server_error() {
    let svc = service();
    let d = svc.dispatch(
        Method::Post,
        ApiVersion::V2018_06_28,
        "/modules",
        &IdentityLookup::Failed,
    );
    assert_eq!(d, Decision::Reject { error: ErrorKind::Denied });
    match d {
        Decision::Reject { error } => {
            assert_eq!(error.status(), 403);
            assert_ne!(error.status(), 500);
        },
        Decision::Invoke { .. } => panic!("handler must not run"),
    }
}

#[test]
fn anonymous_route_ignores_resolution_failure() {
    let svc = service();
    let d = svc.dispatch(
        Method::Get,
        ApiVersion::V2018_06_28,
        "/systeminfo",
        &IdentityLookup::Failed,
    );
    assert_eq!(
        d,
        Decision::Invoke { handler: HandlerId::GetSystemInfo, captures: vec![] }
    );
}

#[test]
fn start_module_is_anonymous() {
    let svc = service();
    let d = svc.dispatch(
        Method::Post,
        ApiVersion::V2018_06_28,
        "/modules/tempSensor/start",
        &IdentityLookup::Unknown,
    );
    assert_eq!(
        d,
        Decision::Invoke {
            handler: HandlerId::StartModule,
            captures: vec![("name".to_owned(), "tempSensor".to_owned())],
        }
    );
}

#[test]
fn prepare_update_is_invisible_below_its_version() {
    let svc = service();
    let d = svc.dispatch(
        Method::Post,
        ApiVersion::V2018_06_28,
        "/modules/foo/prepareupdate",
        &resolved(agent()),
    );
    assert_eq!(d, Decision::Reject { error: ErrorKind::NotFound });
    match d {
        Decision::Reject { error } => assert_eq!(error.status(), 404),
        Decision::Invoke { .. } => panic!("handler must not run"),
    }
}

#[test]
fn prepare_update_matches_at_its_version() {
    let svc = service();
    let d = svc.dispatch(
        Method::Post,
        ApiVersion::V2019_01_30,
        "/modules/foo/prepareupdate",
        &resolved(agent()),
    );
    assert_eq!(
        d,
        Decision::Invoke {
            handler: HandlerId::PrepareUpdateModule,
            captures: vec![("name".to_owned(), "foo".to_owned())],
        }
    );
}

#[test]
fn patch_is_method_not_allowed_on_known_path() {
    let svc = service();
    let d = svc.dispatch(
        Method::Patch,
        ApiVersion::V2018_06_28,
        "/modules/foo",
        &resolved(agent()),
    );
    assert_eq!(d, Decision::Reject { error: ErrorKind::MethodNotAllowed });
    match d {
        Decision::Reject { error } => assert_eq!(error.status(), 405),
        Decision::Invoke { .. } => panic!("handler must not run"),
    }
}

#[test]
fn wrong_method_on_version_gated_path_is_method_not_allowed() {
    let svc = service();
    let d = svc.dispatch(
        Method::Get,
        ApiVersion::V2018_06_28,
        "/modules/foo/prepareupdate",
        &resolved(agent()),
    );
    assert_eq!(d, Decision::Reject { error: ErrorKind::MethodNotAllowed });
}

#[test]
fn unknown_path_is_not_found() {
    let svc = service();
    let d = svc.dispatch(
        Method::Get,
        ApiVersion::V2019_01_30,
        "/devices",
        &resolved(agent()),
    );
    assert_eq!(d, Decision::Reject { error: ErrorKind::NotFound });
}

#[test]
fn trailing_slash_does_not_match() {
    let svc = service();
    let d = svc.dispatch(Method::Get, ApiVersion::V2018_06_28, "/modules/", &IdentityLookup::Unknown);
    assert_eq!(d, Decision::Reject { error: ErrorKind::NotFound });
}

#[test]
fn empty_capture_segment_does_not_match() {
    let svc = service();
    let d = svc.dispatch(
        Method::Post,
        ApiVersion::V2018_06_28,
        "/modules//start",
        &IdentityLookup::Unknown,
    );
    assert_eq!(d, Decision::Reject { error: ErrorKind::NotFound });
}

#[test]
fn unrooted_path_is_not_found() {
    let svc = service();
    let d = svc.dispatch(Method::Get, ApiVersion::V2018_06_28, "modules", &IdentityLookup::Unknown);
    assert_eq!(d, Decision::Reject { error: ErrorKind::NotFound });
    let d = svc.dispatch(Method::Get, ApiVersion::V2018_06_28, "", &IdentityLookup::Unknown);
    assert_eq!(d, Decision::Reject { error: ErrorKind::NotFound });
}

#[test]
fn identities_are_restricted_to_agent() {
    let svc = service();
    let d = svc.dispatch(
        Method::Get,
        ApiVersion::V2018_06_28,
        "/identities",
        &IdentityLookup::Unknown,
    );
    assert_eq!(d, Decision::Reject { error: ErrorKind::Denied });
    let d = svc.dispatch(Method::Get, ApiVersion::V2018_06_28, "/identities", &resolved(agent()));
    assert_eq!(
        d,
        Decision::Invoke { handler: HandlerId::ListIdentities, captures: vec![] }
    );
}

#[test]
fn delete_identity_captures_name() {
    let svc = service();
    let d = svc.dispatch(
        Method::Delete,
        ApiVersion::V2018_06_28,
        "/identities/sensor",
        &resolved(agent()),
    );
    assert_eq!(
        d,
        Decision::Invoke {
            handler: HandlerId::DeleteIdentity,
            captures: vec![("name".to_owned(), "sensor".to_owned())],
        }
    );
}

#[test]
fn repeated_request_yields_same_outcome() {
    let svc = service();
    let first = svc.dispatch(
        Method::Get,
        ApiVersion::V2018_06_28,
        "/modules/edgeHub",
        &IdentityLookup::Unknown,
    );
    let second = svc.dispatch(
        Method::Get,
        ApiVersion::V2018_06_28,
        "/modules/edgeHub",
        &IdentityLookup::Unknown,
    );
    assert_eq!(first, second);
    let first = svc.dispatch(Method::Get, ApiVersion::V2018_06_28, "/systeminfo", &resolved("x"));
    let second = svc.dispatch(Method::Get, ApiVersion::V2018_06_28, "/systeminfo", &resolved("x"));
    assert_eq!(first, second);
}

#[test]
fn owner_check_is_exact_name_equality() {
    let svc = service();
    for wrong in ["edgeagent", "edgeAgent ", " edgeAgent", "EdgeAgent", ""] {
        let d = svc.dispatch(Method::Put, ApiVersion::V2018_06_28, "/modules/foo", &resolved(wrong));
        assert_eq!(d, Decision::Reject { error: ErrorKind::Denied });
    }
    let d = svc.dispatch(Method::Put, ApiVersion::V2018_06_28, "/modules/foo", &resolved("edgeAgent"));
    assert_eq!(
        d,
        Decision::Invoke {
            handler: HandlerId::UpdateModule,
            captures: vec![("name".to_owned(), "foo".to_owned())],
        }
    );
}
