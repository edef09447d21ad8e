use sentinel_core::crypto::{sha256_hex, sha256_hex_bytes};
use sentinel_core::errors::{ErrorKind, ServiceError};
use sentinel_core::policy::{Policy, PolicyApplication, PolicyRule};
use sentinel_core::rules_json::bundle_text;
use sentinel_core::policy_write::{compile_failure_error, CompileFailure, CompiledRules, WriteEvent, WriteStep};

type WApp = PolicyApplication<u8>;

fn compiled(text: &str, bytes: &[u8]) -> CompiledRules {
    CompiledRules { rules: serde_json::from_str(text).unwrap(), bytes: bytes.to_vec() }
}

fn rule(method: &str, path: &str, roles: &[&str]) -> PolicyRule {
    PolicyRule {
        method: method.to_string(),
        path: path.to_string(),
        roles: roles.iter().map(|r| r.to_string()).collect(),
    }
}

/// The text serde_json writes for the bundle of `rules`, as the original stores it.
fn serde_bundle(rules: &[PolicyRule]) -> String {
    let list: Vec<serde_json::Value> = rules
        .iter()
        .map(|r| {
            let mut m = serde_json::Map::new();
            m.insert("method".to_string(), serde_json::Value::String(r.method.clone()));
            m.insert("path".to_string(), serde_json::Value::String(r.path.clone()));
            m.insert(
                "roles".to_string(),
                serde_json::Value::Array(r.roles.iter().map(|x| serde_json::Value::String(x.clone())).collect()),
            );
            serde_json::Value::Object(m)
        })
        .collect();
    let mut top = serde_json::Map::new();
    top.insert("rules".to_string(), serde_json::Value::Array(list));
    serde_json::Value::Object(top).to_string()
}

#[test]
fn the_bundle_text_is_what_serde_json_writes() {
    let sets = vec![
        vec![],
        vec![rule("GET", "/a", &["user"])],
        vec![rule("GET", "/a", &[]), rule("POST", "/b/{id}", &["admin", "user"])],
        vec![rule("PUT", "/q\"uote\\back", &["tab\there", "nl\nand\rcr"])],
        vec![rule("GET", "/ctl\u{1}\u{8}\u{c}\u{1f}\u{7f}", &["é", "日本"])],
    ];
    for rules in sets {
        assert_eq!(bundle_text(&rules), serde_bundle(&rules));
    }
    assert_eq!(bundle_text(&vec![]), "{\"rules\":[]}");
    assert_eq!(
        bundle_text(&vec![rule("GET", "/a", &["user"])]),
        "{\"rules\":[{\"method\":\"GET\",\"path\":\"/a\",\"roles\":[\"user\"]}]}"
    );
}

fn stored_policy(id: u128) -> Policy {
    Policy {
        policy_id: id,
        tenant_id: None,
        environment: "prod".to_string(),
        name: "api".to_string(),
        description: Some("d".to_string()),
        active_version: 1,
        created_at: 10,
        updated_at: 10,
        is_active: true,
    }
}

#[test]
fn creating_a_policy_stores_and_activates_version_one() {
    let app: WApp = PolicyApplication::new("9.9.9".to_string());
    let rules = vec![rule("GET", "/a", &["user"])];
    let (mut flow, step) = app.begin_create_policy(None, "prod".to_string(), "api".to_string(), Some("d".to_string()), &rules);
    let text = "{\"rules\":[{\"method\":\"GET\",\"path\":\"/a\",\"roles\":[\"user\"]}]}";
    assert!(matches!(step, WriteStep::Compile { ref bundle_text } if bundle_text == text));
    let p = match app.step_create_policy(&mut flow, WriteEvent::Compiled(Ok(compiled(text, &[7, 7])))) {
        WriteStep::CreatePolicy(p) => p,
        _ => panic!("expected the policy insert"),
    };
    assert_eq!(p.active_version, 1);
    assert!(p.is_active);
    assert_eq!(p.name, "api");
    let policy_id = p.policy_id;
    let pv = match app.step_create_policy(&mut flow, WriteEvent::PolicyCreated(Ok(stored_policy(policy_id)))) {
        WriteStep::StoreVersion(pv) => pv,
        _ => panic!("expected the version insert"),
    };
    assert_eq!(pv.policy_id, policy_id);
    assert_eq!(pv.version, 1);
    assert_eq!(pv.rules_hash, sha256_hex(text));
    assert_eq!(pv.compiled_hash, sha256_hex_bytes(&[7, 7]));
    assert_eq!(pv.compiler_version, "9.9.9");
    assert!(!pv.is_active);
    assert_eq!(pv.compiled_at, pv.created_at);
    assert!(pv.created_at > 1_577_836_800);
    assert_eq!(pv.policy_version_id >> 76 & 0xf, 4);
    assert_eq!(pv.policy_version_id >> 62 & 0x3, 2);
    let step = app.step_create_policy(&mut flow, WriteEvent::VersionStored(Ok(())));
    assert!(matches!(step, WriteStep::ActivateVersion { policy_id: id, version: 1 } if id == policy_id));
    match app.step_create_policy(&mut flow, WriteEvent::Activated(Ok(()))) {
        WriteStep::LoadEngine { policy_id: id, version, compiled } => {
            assert_eq!((id, version, compiled), (policy_id, 1, vec![7, 7]));
        }
        _ => panic!("expected the engine load"),
    }
    // The cache warm-up failing does not fail the creation.
    match app.step_create_policy(&mut flow, WriteEvent::EngineLoaded(Err("corrupt".to_string()))) {
        WriteStep::Done(Ok(r)) => {
            assert_eq!(r.policy_id, policy_id);
            assert_eq!(r.active_version, 1);
            assert_eq!(r.description.as_deref(), Some("d"));
            assert_eq!(r.created_at, 10);
        }
        _ => panic!("expected success"),
    }
}

#[test]
fn a_rejected_rule_set_writes_nothing() {
    let app: WApp = PolicyApplication::new("1".to_string());
    let (mut flow, _) = app.begin_create_policy(None, "prod".to_string(), "api".to_string(), None, &vec![]);
    match app.step_create_policy(&mut flow, WriteEvent::Compiled(Err(CompileFailure::Rejected("duplicate rule".to_string())))) {
        WriteStep::Done(Err(e)) => {
            assert_eq!(e.kind(), ErrorKind::InternalError);
            assert_eq!(e.message(), "Compile error: duplicate rule");
        }
        _ => panic!("expected the compile error"),
    }
    assert_eq!(
        compile_failure_error(CompileFailure::InvalidFormat("missing field".to_string())).message(),
        "Invalid rules format: missing field"
    );
}

#[test]
fn updating_rules_stores_the_next_version() {
    let app: WApp = PolicyApplication::new("1".to_string());
    let (mut flow, step) = app.begin_update_policy_rules(3, &vec![]);
    assert!(matches!(step, WriteStep::FindPolicy { policy_id: 3 }));
    let step = app.step_update_policy_rules(&mut flow, WriteEvent::PolicyFound(Ok(Some(stored_policy(3)))));
    assert!(matches!(step, WriteStep::GetLatestVersion { policy_id: 3 }));
    let step = app.step_update_policy_rules(&mut flow, WriteEvent::LatestVersion(Ok(Some(4))));
    assert!(matches!(step, WriteStep::Compile { ref bundle_text } if bundle_text == "{\"rules\":[]}"));
    let pv = match app.step_update_policy_rules(&mut flow, WriteEvent::Compiled(Ok(compiled("{\"rules\":[]}", &[1])))) {
        WriteStep::StoreVersion(pv) => pv,
        _ => panic!("expected the version insert"),
    };
    assert_eq!((pv.policy_id, pv.version), (3, 5));
    assert_eq!(pv.rules_hash, sha256_hex("{\"rules\":[]}"));
    let step = app.step_update_policy_rules(&mut flow, WriteEvent::VersionStored(Ok(())));
    assert!(matches!(step, WriteStep::ActivateVersion { policy_id: 3, version: 5 }));
    let step = app.step_update_policy_rules(&mut flow, WriteEvent::Activated(Ok(())));
    assert!(matches!(step, WriteStep::LoadEngine { policy_id: 3, version: 5, ref compiled } if compiled == &vec![1u8]));
    match app.step_update_policy_rules(&mut flow, WriteEvent::EngineLoaded(Err("x".to_string()))) {
        WriteStep::Done(Ok(r)) => assert_eq!((r.policy_id, r.activated_version), (3, 5)),
        _ => panic!("expected success"),
    }
}

#[test]
fn updating_an_unknown_policy_is_not_found() {
    let app: WApp = PolicyApplication::new("1".to_string());
    let (mut flow, _) = app.begin_update_policy_rules(0x67e5_5044_10b1_426f_9247_bb68_0e5f_e0c8, &vec![]);
    match app.step_update_policy_rules(&mut flow, WriteEvent::PolicyFound(Ok(None))) {
        WriteStep::Done(Err(e)) => {
            assert_eq!(e.kind(), ErrorKind::NotFoundError);
            assert_eq!(e.message(), "Policy 67e55044-10b1-426f-9247-bb680e5fe0c8 not found");
        }
        _ => panic!("expected not found"),
    }
}

#[test]
fn a_first_version_is_number_one() {
    let app: WApp = PolicyApplication::new("1".to_string());
    let (mut flow, _) = app.begin_update_policy_rules(3, &vec![]);
    app.step_update_policy_rules(&mut flow, WriteEvent::PolicyFound(Ok(Some(stored_policy(3)))));
    app.step_update_policy_rules(&mut flow, WriteEvent::LatestVersion(Ok(None)));
    match app.step_update_policy_rules(&mut flow, WriteEvent::Compiled(Ok(compiled("{}", &[])))) {
        WriteStep::StoreVersion(pv) => assert_eq!(pv.version, 1),
        _ => panic!("expected the version insert"),
    }
}

#[test]
fn recompiling_reports_a_failed_engine_load() {
    let app: WApp = PolicyApplication::new("1".to_string());
    let (mut flow, step) = app.begin_compile_and_activate(6, "{}".to_string());
    assert!(matches!(step, WriteStep::Compile { ref bundle_text } if bundle_text == "{}"));
    let step = app.step_compile_and_activate(&mut flow, WriteEvent::Compiled(Ok(compiled("{}", &[2]))));
    assert!(matches!(step, WriteStep::GetLatestVersion { policy_id: 6 }));
    match app.step_compile_and_activate(&mut flow, WriteEvent::LatestVersion(Ok(Some(1)))) {
        WriteStep::StoreVersion(pv) => assert_eq!((pv.policy_id, pv.version), (6, 2)),
        _ => panic!("expected the version insert"),
    }
    app.step_compile_and_activate(&mut flow, WriteEvent::VersionStored(Ok(())));
    app.step_compile_and_activate(&mut flow, WriteEvent::Activated(Ok(())));
    match app.step_compile_and_activate(&mut flow, WriteEvent::EngineLoaded(Err("truncated".to_string()))) {
        WriteStep::Done(Err(e)) => assert_eq!(e.message(), "Engine load error: truncated"),
        _ => panic!("expected the load error"),
    }
}

#[test]
fn recompiling_answers_the_activated_version() {
    let app: WApp = PolicyApplication::new("1".to_string());
    let (mut flow, _) = app.begin_compile_and_activate(6, "{}".to_string());
    app.step_compile_and_activate(&mut flow, WriteEvent::Compiled(Ok(compiled("{}", &[2]))));
    app.step_compile_and_activate(&mut flow, WriteEvent::LatestVersion(Ok(Some(8))));
    app.step_compile_and_activate(&mut flow, WriteEvent::VersionStored(Ok(())));
    app.step_compile_and_activate(&mut flow, WriteEvent::Activated(Ok(())));
    let step = app.step_compile_and_activate(&mut flow, WriteEvent::EngineLoaded(Ok(())));
    assert!(matches!(step, WriteStep::Done(Ok(9))));
    let (mut flow, _) = app.begin_compile_and_activate(6, "{}".to_string());
    let step = app.step_compile_and_activate(
        &mut flow,
        WriteEvent::Compiled(Err(CompileFailure::InvalidFormat("expected array".to_string()))),
    );
    assert!(matches!(step, WriteStep::Done(Err(ServiceError::InternalError(ref m))) if m == "Invalid rules format: expected array"));
}
