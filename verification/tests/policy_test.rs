use sentinel_core::errors::{ErrorKind, ServiceError};
use sentinel_core::policy::{
    active_version_missing, compilation_failed, create_policy_response, engine_load_error,
    invalid_rules_format, new_policy, next_version, policy_not_found, AuthzAction, AuthzEvent,
    BatchCheck, PolicyApplication,
};

type App = PolicyApplication<&'static str>;

fn policy_app() -> App {
    PolicyApplication::new("0.1.0".to_string())
}

fn done(a: AuthzAction) -> Result<(bool, i64), ServiceError> {
    match a {
        AuthzAction::Done(r) => r,
        _ => panic!("the plan is not finished"),
    }
}

#[test]
fn the_cache_holds_one_engine_per_policy() {
    let mut app = policy_app();
    assert_eq!(app.cached_version(1), None);
    app.swap_engine(1, 3, "engine-1-v3");
    app.swap_engine(2, 1, "engine-2-v1");
    app.swap_engine(1, 4, "engine-1-v4");
    assert_eq!(app.cached_version(1), Some(4));
    assert_eq!(app.cached_engine(1), Some(&"engine-1-v4"));
    assert_eq!(app.cached_version(2), Some(1));
    app.remove_cached(1);
    assert_eq!(app.cached_version(1), None);
    assert!(app.cached_engine(1).is_none());
    assert_eq!(app.cached_version(2), Some(1));
}

#[test]
fn a_cached_policy_at_the_active_version_is_evaluated_from_the_cache() {
    let mut app = policy_app();
    app.swap_engine(1, 3, "e");
    let (mut plan, a) = app.begin_is_allowed(Some(1));
    assert!(matches!(a, AuthzAction::FetchPolicy { policy_id: 1 }));
    let a = app.step_is_allowed(&mut plan, AuthzEvent::PolicyFetched(Ok(Some(3))));
    assert!(matches!(a, AuthzAction::Evaluate { policy_id: 1 }));
    let a = app.step_is_allowed(&mut plan, AuthzEvent::Evaluated(true));
    assert_eq!(done(a).unwrap(), (true, 3));
}

#[test]
fn a_stale_cached_policy_is_reloaded_at_the_active_version() {
    let mut app = policy_app();
    app.swap_engine(1, 3, "old");
    let (mut plan, _) = app.begin_is_allowed(Some(1));
    let a = app.step_is_allowed(&mut plan, AuthzEvent::PolicyFetched(Ok(Some(4))));
    assert!(matches!(a, AuthzAction::FetchVersion { policy_id: 1, version: 4 }));
    let a = app.step_is_allowed(&mut plan, AuthzEvent::VersionFetched(Ok(true)));
    assert!(matches!(a, AuthzAction::InstallEngine { policy_id: 1, version: 4 }));
    app.swap_engine(1, 4, "new");
    let a = app.step_is_allowed(&mut plan, AuthzEvent::EngineInstalled(Ok(())));
    assert!(matches!(a, AuthzAction::Evaluate { policy_id: 1 }));
    assert_eq!(app.cached_version(1), Some(4));
    assert_eq!(app.cached_engine(1), Some(&"new"));
    let a = app.step_is_allowed(&mut plan, AuthzEvent::Evaluated(false));
    assert_eq!(done(a).unwrap(), (false, 4));
}

#[test]
fn a_cold_policy_is_loaded_then_evaluated() {
    let mut app = policy_app();
    let (mut plan, a) = app.begin_is_allowed(Some(9));
    assert!(matches!(a, AuthzAction::FetchPolicy { policy_id: 9 }));
    let a = app.step_is_allowed(&mut plan, AuthzEvent::PolicyFetched(Ok(Some(2))));
    assert!(matches!(a, AuthzAction::FetchVersion { policy_id: 9, version: 2 }));
    let a = app.step_is_allowed(&mut plan, AuthzEvent::VersionFetched(Ok(true)));
    assert!(matches!(a, AuthzAction::InstallEngine { policy_id: 9, version: 2 }));
    app.swap_engine(9, 2, "fresh");
    let a = app.step_is_allowed(&mut plan, AuthzEvent::EngineInstalled(Ok(())));
    assert!(matches!(a, AuthzAction::Evaluate { policy_id: 9 }));
    let a = app.step_is_allowed(&mut plan, AuthzEvent::Evaluated(false));
    assert_eq!(done(a).unwrap(), (false, 2));
}

#[test]
fn missing_policies_and_versions_are_errors() {
    let app = policy_app();
    let (mut plan, _) = app.begin_is_allowed(Some(9));
    let e = done(app.step_is_allowed(&mut plan, AuthzEvent::PolicyFetched(Ok(None)))).unwrap_err();
    assert_eq!(e.kind(), ErrorKind::InternalError);
    assert_eq!(e.message(), "Policy not found");

    let (mut plan, _) = app.begin_is_allowed(Some(9));
    app.step_is_allowed(&mut plan, AuthzEvent::PolicyFetched(Ok(Some(7))));
    let e = done(app.step_is_allowed(&mut plan, AuthzEvent::VersionFetched(Ok(false)))).unwrap_err();
    assert_eq!(e.message(), "Active policy version 7 not found");

    let (mut plan, a) = app.begin_is_allowed(None);
    assert!(matches!(a, AuthzAction::ListPolicies));
    let e = done(app.step_is_allowed(&mut plan, AuthzEvent::PoliciesListed(Ok(vec![])))).unwrap_err();
    assert_eq!(e.message(), "No policy found");
}

#[test]
fn an_engine_that_did_not_load_is_an_error() {
    let app = policy_app();
    let (mut plan, _) = app.begin_is_allowed(Some(9));
    app.step_is_allowed(&mut plan, AuthzEvent::PolicyFetched(Ok(Some(1))));
    app.step_is_allowed(&mut plan, AuthzEvent::VersionFetched(Ok(true)));
    let e = done(app.step_is_allowed(&mut plan, AuthzEvent::EngineInstalled(Ok(())))).unwrap_err();
    assert_eq!(e.message(), "Engine failed to load");
}

#[test]
fn any_active_policy_may_allow() {
    let mut app = policy_app();
    app.swap_engine(1, 1, "p1");
    let (mut plan, _) = app.begin_is_allowed(None);
    let a = app.step_is_allowed(&mut plan, AuthzEvent::PoliciesListed(Ok(vec![(1, 1), (2, 5), (3, 2)])));
    assert!(matches!(a, AuthzAction::Evaluate { policy_id: 1 }));
    let a = app.step_is_allowed(&mut plan, AuthzEvent::Evaluated(false));
    assert!(matches!(a, AuthzAction::FetchVersion { policy_id: 2, version: 5 }));
    let a = app.step_is_allowed(&mut plan, AuthzEvent::VersionFetched(Ok(true)));
    assert!(matches!(a, AuthzAction::InstallEngine { policy_id: 2, version: 5 }));
    app.swap_engine(2, 5, "p2");
    let a = app.step_is_allowed(&mut plan, AuthzEvent::EngineInstalled(Ok(())));
    assert!(matches!(a, AuthzAction::Evaluate { policy_id: 2 }));
    let a = app.step_is_allowed(&mut plan, AuthzEvent::Evaluated(true));
    assert_eq!(done(a).unwrap(), (true, 5));
}

#[test]
fn no_allowing_policy_means_denied_at_version_zero() {
    let mut app = policy_app();
    app.swap_engine(1, 1, "p1");
    let (mut plan, _) = app.begin_is_allowed(None);
    app.step_is_allowed(&mut plan, AuthzEvent::PoliciesListed(Ok(vec![(1, 1)])));
    let a = app.step_is_allowed(&mut plan, AuthzEvent::Evaluated(false));
    assert_eq!(done(a).unwrap(), (false, 0));
}

#[test]
fn batch_verdicts_follow_the_checks() {
    let checks = vec![
        BatchCheck { method: "GET".to_string(), path: "/a".to_string() },
        BatchCheck { method: "POST".to_string(), path: "/b".to_string() },
    ];
    let r = App::check_authorization_batch(Some(4), checks, vec![(true, 2), (false, 3)]);
    assert_eq!(r.policy_id, Some(4));
    assert_eq!(r.results.len(), 2);
    assert_eq!((r.results[0].method.as_str(), r.results[0].path.as_str(), r.results[0].allowed), ("GET", "/a", true));
    assert_eq!((r.results[1].method.as_str(), r.results[1].path.as_str(), r.results[1].allowed), ("POST", "/b", false));
    assert_eq!(r.evaluated_version, 3);
    let empty = App::check_authorization_batch(None, vec![], vec![]);
    assert_eq!(empty.evaluated_version, 0);
    assert!(empty.results.is_empty());
}

#[test]
fn versions_count_up_from_one() {
    assert_eq!(next_version(None), 1);
    assert_eq!(next_version(Some(1)), 2);
    assert_eq!(next_version(Some(41)), 42);
}

#[test]
fn policy_errors_carry_their_detail() {
    let e = policy_not_found(0x67e5_5044_10b1_426f_9247_bb68_0e5f_e0c8);
    assert_eq!(e.kind(), ErrorKind::NotFoundError);
    assert_eq!(e.message(), "Policy 67e55044-10b1-426f-9247-bb680e5fe0c8 not found");
    assert_eq!(invalid_rules_format("eof").message(), "Invalid rules format: eof");
    assert_eq!(compilation_failed("dup").message(), "Compile error: dup");
    assert_eq!(engine_load_error("bad").message(), "Engine load error: bad");
    assert_eq!(active_version_missing().message(), "Active policy version not found");
    assert_eq!(active_version_missing().kind(), ErrorKind::InternalError);
}

#[test]
fn a_new_policy_starts_active_at_version_one() {
    let p = new_policy(5, None, "prod".to_string(), "api".to_string(), None, 100);
    assert_eq!(p.active_version, 1);
    assert!(p.is_active);
    assert_eq!((p.created_at, p.updated_at), (100, 100));
    let r = create_policy_response(p);
    assert_eq!(r.policy_id, 5);
    assert_eq!(r.environment, "prod");
    assert_eq!(r.active_version, 1);
}

#[test]
fn probes_trim_the_base_url() {
    assert_eq!(App::probe_base_url("https://app.example.com///"), "https://app.example.com");
    assert_eq!(App::probe_base_url("https://app.example.com"), "https://app.example.com");
    assert_eq!(App::probe_base_url("///"), "");
    assert_eq!(App::probe_url("http://x/", "/health"), "http://x/health");
    let ok = App::probe_result_from_status("GET".to_string(), "/a".to_string(), 200);
    assert!(ok.allowed);
    assert_eq!(ok.status_code, Some(200));
    let denied = App::probe_result_from_status("GET".to_string(), "/a".to_string(), 403);
    assert!(!denied.allowed);
    let failed = App::probe_result_from_error("GET".to_string(), "/a".to_string(), "timeout".to_string());
    assert!(!failed.allowed);
    assert!(failed.status_code.is_none());
    assert_eq!(failed.error.as_deref(), Some("timeout"));
}

#[test]
fn stored_versions_hash_rules_and_bytes() {
    let app = policy_app();
    let pv = app.new_policy_version(1, 2, 3, serde_json::Value::Null, "{\"rules\":[]}", vec![1, 2, 3], 50);
    assert_eq!(pv.rules_hash, sentinel_core::crypto::sha256_hex("{\"rules\":[]}"));
    assert_eq!(pv.compiled_hash, sentinel_core::crypto::sha256_hex_bytes(&[1, 2, 3]));
    assert_eq!(pv.compiler_version, "0.1.0");
    assert!(!pv.is_active);
    assert_eq!(pv.version, 3);
}
