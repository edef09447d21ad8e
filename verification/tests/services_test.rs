use sentinel_core::domain::{AuthenticatedUserContext, IdentityProvider, Session, SessionTokens, User, UserIdentity, UserStatus};
use sentinel_core::errors::{ErrorKind, ServiceError};
use sentinel_core::federation::{FederationApplication, SupabaseFederationConfig};
use sentinel_core::system::{OidcClientInfo, SystemApplication};
use sentinel_core::templates::{EmailTemplateApplication, EmailTemplateType};
use sentinel_core::tokens::ApiTokenApplication;
use sentinel_core::user::{AdminSessionApplication, UserApplication};

fn svc_ctx(roles: &[&str]) -> AuthenticatedUserContext {
    AuthenticatedUserContext { user_id: 4, session_id: 40, roles: roles.iter().map(|r| r.to_string()).collect() }
}

fn svc_session(id: u128, expires: i64, revoked: Option<i64>) -> Session {
    Session {
        session_id: id,
        user_id: 4,
        identity_id: 5,
        refresh_token_hash: "h".to_string(),
        refresh_token_family: 1,
        refresh_token_expires_at: expires,
        user_agent: Some("ua".to_string()),
        ip_address: None,
        device_type: None,
        revoked_at: revoked,
        last_used_at: Some(3),
        created_at: Some(1),
        updated_at: Some(1),
        created_by: None,
        updated_by: None,
    }
}

fn svc_config(enabled: bool) -> SupabaseFederationConfig {
    SupabaseFederationConfig {
        enabled,
        jwks_url: "https://x.supabase.co/jwks".to_string(),
        jwt_issuer: "https://x.supabase.co/auth/v1".to_string(),
        jwt_audience: "authenticated".to_string(),
    }
}

#[test]
fn disabled_federation_refuses_exchanges() {
    let app = FederationApplication::new(svc_config(false), 900);
    assert!(!app.is_supabase_enabled());
    let e = app.require_enabled().unwrap_err();
    assert_eq!(e.kind(), ErrorKind::FederationNotEnabled);
    assert_eq!(e.message(), "Supabase federation is not enabled");
    let on = FederationApplication::new(svc_config(true), 900);
    assert!(on.is_supabase_enabled());
    assert!(on.require_enabled().is_ok());
    let kept = on.settings();
    let given = svc_config(true);
    assert!(kept.enabled);
    assert_eq!(kept.jwks_url, given.jwks_url);
    assert_eq!(kept.jwt_issuer, given.jwt_issuer);
    assert_eq!(kept.jwt_audience, given.jwt_audience);
    assert_eq!(FederationApplication::verifier_missing().message(), "Supabase verifier not initialized");
}

#[test]
fn federated_identities_are_keyed_by_issuer_and_subject() {
    let app = FederationApplication::new(svc_config(true), 900);
    let (provider, issuer, subject) = app.external_identity_key(0x67e5_5044_10b1_426f_9247_bb68_0e5f_e0c8);
    assert_eq!(provider, "supabase");
    assert_eq!(issuer, "https://x.supabase.co/auth/v1");
    assert_eq!(subject, "67e55044-10b1-426f-9247-bb680e5fe0c8");
    let r = app.exchange_response(
        7,
        SessionTokens { access_token: "a".to_string(), refresh_token: "r".to_string(), refresh_token_hash: "h".to_string() },
        1_000,
    );
    assert_eq!((r.user_id, r.expires_at), (7, 1_900));
    assert!(!r.must_change_password && !r.mfa_setup_required);
}

#[test]
fn provider_tests_report_internal_failures_as_results() {
    let ok = SystemApplication::test_config(Ok(())).unwrap();
    assert!(ok.success);
    assert_eq!(ok.message, "SMTP connection successful");
    let failed = SystemApplication::test_config(Err(ServiceError::InternalError("auth refused".to_string()))).unwrap();
    assert!(!failed.success);
    assert_eq!(failed.message, "auth refused");
    let e = SystemApplication::send_test_email_config(Err(ServiceError::NotFoundError("no config".to_string()))).unwrap_err();
    assert_eq!(e.kind(), ErrorKind::NotFoundError);
    assert_eq!(SystemApplication::send_test_email_config(Ok(())).unwrap().message, "Test email sent");
    assert_eq!(SystemApplication::existing_config(None).unwrap_err().message(), "Provider configuration not found");
}

#[test]
fn auth_methods_announce_oidc_when_clients_exist() {
    let none = SystemApplication::get_auth_methods(false, vec![]);
    assert!(none.password_enabled && none.mfa_totp_available && none.api_tokens_available);
    assert!(!none.oidc_enabled);
    assert!(!none.email_provider_active);
    let some = SystemApplication::get_auth_methods(
        true,
        vec![OidcClientInfo { client_id: "c".to_string(), name: "C".to_string(), allowed_scopes: vec![], pkce_required: true }],
    );
    assert!(some.oidc_enabled);
    assert!(some.email_provider_active);
    assert_eq!(some.oidc_clients.len(), 1);
}

#[test]
fn provider_configs_record_their_author() {
    let c = SystemApplication::add_provider_config(
        &svc_ctx(&["admin"]),
        1,
        None,
        "smtp".to_string(),
        "enc".to_string(),
        serde_json::Value::Null,
        true,
        50,
    )
    .unwrap();
    assert_eq!(c.created_by, Some(4));
    assert_eq!(c.updated_at, 50);
    let listed = SystemApplication::config_to_response(c);
    assert_eq!(listed.provider, "smtp");
    assert!(listed.is_active);
}

#[test]
fn provider_configs_need_the_admin_role() {
    let r = SystemApplication::add_provider_config(
        &svc_ctx(&["user"]),
        1,
        None,
        "smtp".to_string(),
        "enc".to_string(),
        serde_json::Value::Null,
        true,
        50,
    );
    let e = r.unwrap_err();
    assert_eq!(e.kind(), ErrorKind::AuthorizationError);
    assert_eq!(e.message(), "Admin role required");
}

#[test]
fn sessions_show_which_is_current_and_live() {
    let ctx = svc_ctx(&[]);
    let list = UserApplication::get_sessions(&ctx, vec![svc_session(40, 100, None), svc_session(41, 100, None)]);
    assert!(list[0].is_current);
    assert!(!list[1].is_current);
    assert_eq!(list[0].expires_at, 100);
    let live = UserApplication::get_session(&ctx, svc_session(41, 100, None), 99);
    assert!(live.is_active);
    let expired = UserApplication::get_session(&ctx, svc_session(41, 100, None), 100);
    assert!(!expired.is_active);
    let revoked = UserApplication::get_session(&ctx, svc_session(41, 100, Some(50)), 10);
    assert!(!revoked.is_active);
    let all = AdminSessionApplication::get_all_active_sessions(vec![(svc_session(7, 9, None), "x@y.z".to_string())]);
    assert_eq!(all[0].user_email, "x@y.z");
    assert_eq!(AdminSessionApplication::revoke_sessions_bulk(3).revoked_count, 3);
}

#[test]
fn profiles_show_the_primary_email() {
    let user = User {
        user_id: 4,
        first_name: Some("Fe".to_string()),
        last_name: None,
        avatar_url: None,
        display_name: None,
        status: UserStatus::Active,
        token_version: 0,
        mfa_required: false,
        created_by: None,
        created_at: Some(2),
        updated_by: None,
        updated_at: None,
    };
    let identity = UserIdentity {
        identity_id: 5,
        user_id: 4,
        provider: IdentityProvider::EmailPassword,
        provider_user_id: None,
        email: "fe@example.com".to_string(),
        password_hash: None,
        email_verified: None,
        is_primary: true,
        must_change_password: false,
        created_by: None,
        created_at: None,
        updated_by: None,
        updated_at: None,
    };
    let me = UserApplication::get_me(user, identity, true);
    assert_eq!(me.email, "fe@example.com");
    assert!(!me.email_verified);
    assert!(me.mfa_enabled);
    assert_eq!(UserApplication::existing_user(None).unwrap_err().message(), "User not found");
}

#[test]
fn api_tokens_are_listed_without_their_value() {
    let ctx = svc_ctx(&["admin"]);
    assert!(ApiTokenApplication::require_admin(&svc_ctx(&["user"])).is_err());
    let t = ApiTokenApplication::new_api_token(&ctx, 8, "ci".to_string(), None, "hash".to_string(), Some(99), 10);
    assert_eq!(t.user_id, 4);
    assert!(t.revoked_at.is_none());
    let listed = ApiTokenApplication::list_api_tokens(vec![t]);
    assert_eq!(listed[0].api_token_id, 8);
    assert_eq!(listed[0].expires_at, Some(99));
    let created = ApiTokenApplication::new_api_token(&ctx, 9, "cd".to_string(), None, "h2".to_string(), None, 11);
    let r = ApiTokenApplication::create_api_token_response(created, "raw".to_string());
    assert_eq!(r.token, "raw");
    assert_eq!(r.created_at, 11);
}

#[test]
fn templates_are_managed_by_admins() {
    let q = EmailTemplateApplication::create_template(
        &svc_ctx(&["admin"]),
        EmailTemplateType::PasswordReset,
        "Reset".to_string(),
        "Body".to_string(),
        None,
    )
    .unwrap();
    assert_eq!(q.created_by, Some(4));
    assert_eq!(q.subject, "Reset");
    let e = EmailTemplateApplication::create_template(
        &svc_ctx(&[]),
        EmailTemplateType::PasswordReset,
        "Reset".to_string(),
        "Body".to_string(),
        None,
    )
    .unwrap_err();
    assert_eq!(e.message(), "Admin role required");
    let (u, by) = EmailTemplateApplication::update_template(&svc_ctx(&["admin"]), None, Some("b".to_string()), None, Some(false)).unwrap();
    assert_eq!(by, Some(4));
    assert_eq!(u.body_text.as_deref(), Some("b"));
    assert_eq!(u.is_active, Some(false));
}
