use sentinel_core::auth::{AuthApplication, LoginGate, LoginOutcome, SessionClaims};
use sentinel_core::domain::{IdentityProvider, Role, RoleType, SessionTokens, User, UserIdentity, UserStatus};
use sentinel_core::errors::{ErrorKind, ServiceError};
use sentinel_core::login::{
    LoginEvent, LoginStep, MfaLoginEvent, MfaLoginStep, RefreshEvent, RefreshStep,
};

fn login_user(id: u128, mfa_required: bool) -> User {
    User {
        user_id: id,
        first_name: Some("Ada".to_string()),
        last_name: Some("Lovelace".to_string()),
        avatar_url: None,
        display_name: None,
        status: UserStatus::Active,
        token_version: 0,
        mfa_required,
        created_by: None,
        created_at: Some(1),
        updated_by: None,
        updated_at: Some(1),
    }
}

fn login_identity(id: u128, user_id: u128, must_change: bool) -> UserIdentity {
    UserIdentity {
        identity_id: id,
        user_id,
        provider: IdentityProvider::EmailPassword,
        provider_user_id: None,
        email: "ada@example.com".to_string(),
        password_hash: None,
        email_verified: Some(true),
        is_primary: true,
        must_change_password: must_change,
        created_by: None,
        created_at: None,
        updated_by: None,
        updated_at: None,
    }
}

fn login_role(t: RoleType) -> Role {
    Role {
        role_id: 77,
        type_: t,
        name: "r".to_string(),
        description: None,
        created_at: 0,
        updated_at: 0,
        created_by: None,
        updated_by: None,
    }
}

fn login_tokens() -> SessionTokens {
    SessionTokens {
        access_token: "acc".to_string(),
        refresh_token: "ref".to_string(),
        refresh_token_hash: "hash".to_string(),
    }
}

#[test]
fn password_login_opens_a_session() {
    let app = AuthApplication::new(900, 86_400);
    let (mut flow, step) = app.begin_login("ada@example.com".to_string(), "pw".to_string());
    assert!(matches!(step, LoginStep::VerifyCredentials { ref email, ref password } if email == "ada@example.com" && password == "pw"));
    let step = app.step_login(&mut flow, LoginEvent::Credentials(Ok(login_identity(5, 1, true))));
    assert!(matches!(step, LoginStep::FindUser { user_id: 1 }));
    let step = app.step_login(&mut flow, LoginEvent::User(Ok(Some(login_user(1, true)))));
    assert!(matches!(step, LoginStep::CheckMfa { user_id: 1 }));
    let step = app.step_login(&mut flow, LoginEvent::MfaEnabled(Ok(false)));
    assert!(matches!(step, LoginStep::GetRoles));
    let step = app.step_login(&mut flow, LoginEvent::Roles(Ok(vec![login_role(RoleType::User)])));
    let session_id = match step {
        LoginStep::SignTokens { session_id } => session_id,
        other => panic!("unexpected {other:?}"),
    };
    let step = app.step_login(&mut flow, LoginEvent::Tokens(Ok(login_tokens())));
    let session = match step {
        LoginStep::CreateSession(s) => s,
        other => panic!("unexpected {other:?}"),
    };
    assert_eq!(session.session_id, session_id);
    assert_eq!(session.user_id, 1);
    assert_eq!(session.identity_id, 5);
    assert_eq!(session.refresh_token_hash, "hash");
    let created = session.created_at.unwrap();
    assert_eq!(session.refresh_token_expires_at, created + 86_400);
    assert_eq!(session.created_by, Some(1));
    assert!(session.revoked_at.is_none());
    let step = app.step_login(&mut flow, LoginEvent::SessionCreated(Ok(())));
    match step {
        LoginStep::Done(Ok(LoginOutcome::Success(r))) => {
            assert_eq!(r.user_id, 1);
            assert_eq!(r.access_token, "acc");
            assert_eq!(r.refresh_token, "ref");
            assert_eq!(r.expires_at, created + 900);
            assert!(r.must_change_password);
            // MFA not enrolled, but required by an admin.
            assert!(r.mfa_setup_required);
        }
        other => panic!("unexpected {other:?}"),
    }
}

#[test]
fn mfa_accounts_get_a_challenge_and_no_session() {
    let app = AuthApplication::new(900, 86_400);
    let (mut flow, _) = app.begin_login("ada@example.com".to_string(), "pw".to_string());
    app.step_login(&mut flow, LoginEvent::Credentials(Ok(login_identity(5, 1, false))));
    app.step_login(&mut flow, LoginEvent::User(Ok(Some(login_user(1, false)))));
    let step = app.step_login(&mut flow, LoginEvent::MfaEnabled(Ok(true)));
    assert!(matches!(step, LoginStep::IssueChallenge { user_id: 1 }));
    let step = app.step_login(&mut flow, LoginEvent::Challenge(Ok("challenge".to_string())));
    match step {
        LoginStep::Done(Ok(LoginOutcome::MfaChallenge(c))) => {
            assert_eq!(c.user_id, 1);
            assert!(c.mfa_required);
            assert_eq!(c.mfa_session_token, "challenge");
        }
        other => panic!("unexpected {other:?}"),
    }
}

#[test]
fn login_failures_are_reported() {
    let app = AuthApplication::new(900, 86_400);
    let (mut flow, _) = app.begin_login("ada@example.com".to_string(), "pw".to_string());
    let step = app.step_login(
        &mut flow,
        LoginEvent::Credentials(Err(ServiceError::AuthenticationError("Invalid credentials".to_string()))),
    );
    assert!(matches!(step, LoginStep::Done(Err(ServiceError::AuthenticationError(ref m))) if m == "Invalid credentials"));

    let (mut flow, _) = app.begin_login("ada@example.com".to_string(), "pw".to_string());
    app.step_login(&mut flow, LoginEvent::Credentials(Ok(login_identity(5, 1, false))));
    let step = app.step_login(&mut flow, LoginEvent::User(Ok(None)));
    assert!(matches!(step, LoginStep::Done(Err(ServiceError::AuthenticationError(ref m))) if m == "USER_NOT_FOUND"));

    let (mut flow, _) = app.begin_login("ada@example.com".to_string(), "pw".to_string());
    app.step_login(&mut flow, LoginEvent::Credentials(Ok(login_identity(5, 1, false))));
    let step = app.step_login(&mut flow, LoginEvent::User(Err(ServiceError::PoolError("busy".to_string()))));
    assert!(matches!(step, LoginStep::Done(Err(ServiceError::DatabaseError(ref m))) if m == "busy"));
}

#[test]
fn a_failed_session_insert_is_a_database_error() {
    let app = AuthApplication::new(60, 120);
    let (mut flow, _) = app.begin_login("ada@example.com".to_string(), "pw".to_string());
    app.step_login(&mut flow, LoginEvent::Credentials(Ok(login_identity(5, 1, false))));
    app.step_login(&mut flow, LoginEvent::User(Ok(Some(login_user(1, false)))));
    app.step_login(&mut flow, LoginEvent::MfaEnabled(Ok(false)));
    app.step_login(&mut flow, LoginEvent::Roles(Ok(vec![])));
    app.step_login(&mut flow, LoginEvent::Tokens(Ok(login_tokens())));
    let step = app.step_login(
        &mut flow,
        LoginEvent::SessionCreated(Err(ServiceError::InternalError("unique violation".to_string()))),
    );
    assert!(matches!(step, LoginStep::Done(Err(ServiceError::DatabaseError(ref m))) if m == "unique violation"));
}

#[test]
fn mfa_login_completes_with_a_session() {
    let app = AuthApplication::new(900, 3_600);
    let (mut flow, step) = app.begin_mfa_login(1);
    assert!(matches!(step, MfaLoginStep::VerifyCode { user_id: 1 }));
    let step = app.step_mfa_login(&mut flow, MfaLoginEvent::CodeVerified(Ok(())));
    assert!(matches!(step, MfaLoginStep::FindUser { user_id: 1 }));
    let step = app.step_mfa_login(&mut flow, MfaLoginEvent::User(Ok(Some(login_user(1, true)))));
    assert!(matches!(step, MfaLoginStep::FindIdentity { user_id: 1 }));
    let step = app.step_mfa_login(&mut flow, MfaLoginEvent::Identity(Ok(Some(login_identity(5, 1, false)))));
    assert!(matches!(step, MfaLoginStep::GetRoles));
    let step = app.step_mfa_login(&mut flow, MfaLoginEvent::Roles(Ok(vec![login_role(RoleType::Admin)])));
    assert!(matches!(step, MfaLoginStep::SignTokens { .. }));
    let step = app.step_mfa_login(&mut flow, MfaLoginEvent::Tokens(Ok(login_tokens())));
    let created = match step {
        MfaLoginStep::CreateSession(s) => {
            assert_eq!(s.user_id, 1);
            s.created_at.unwrap()
        }
        other => panic!("unexpected {other:?}"),
    };
    match app.step_mfa_login(&mut flow, MfaLoginEvent::SessionCreated(Ok(()))) {
        MfaLoginStep::Done(Ok(r)) => {
            assert_eq!(r.expires_at, created + 900);
            assert!(!r.mfa_setup_required);
        }
        other => panic!("unexpected {other:?}"),
    }
}

#[test]
fn a_wrong_mfa_code_ends_the_login_with_that_error() {
    let app = AuthApplication::new(900, 3_600);
    let (mut flow, _) = app.begin_mfa_login(1);
    let step = app.step_mfa_login(
        &mut flow,
        MfaLoginEvent::CodeVerified(Err(ServiceError::MfaInvalidCode("Invalid MFA code".to_string()))),
    );
    assert!(matches!(step, MfaLoginStep::Done(Err(ServiceError::MfaInvalidCode(_)))));
    let (mut flow, _) = app.begin_mfa_login(1);
    app.step_mfa_login(&mut flow, MfaLoginEvent::CodeVerified(Ok(())));
    app.step_mfa_login(&mut flow, MfaLoginEvent::User(Ok(Some(login_user(1, false)))));
    let step = app.step_mfa_login(&mut flow, MfaLoginEvent::Identity(Ok(None)));
    assert!(matches!(step, MfaLoginStep::Done(Err(ServiceError::AuthenticationError(ref m))) if m == "Identity not found"));
}

#[test]
fn refresh_rotates_the_same_session() {
    let app = AuthApplication::new(900, 3_600);
    let (mut flow, step) = app.begin_refresh("rt-1".to_string());
    assert!(matches!(step, RefreshStep::ValidateRefreshToken { ref refresh_token } if refresh_token == "rt-1"));
    let mut session = login_session_for_refresh();
    session.session_id = 42;
    let step = app.step_refresh(&mut flow, RefreshEvent::SessionFound(Ok(session)));
    assert!(matches!(step, RefreshStep::FindUser { user_id: 1 }));
    app.step_refresh(&mut flow, RefreshEvent::User(Ok(Some(login_user(1, false)))));
    app.step_refresh(&mut flow, RefreshEvent::Identity(Ok(Some(login_identity(5, 1, true)))));
    let step = app.step_refresh(&mut flow, RefreshEvent::Roles(Ok(vec![])));
    assert!(matches!(step, RefreshStep::SignTokens { session_id: 42 }));
    let step = app.step_refresh(&mut flow, RefreshEvent::Tokens(Ok(login_tokens())));
    assert!(matches!(step, RefreshStep::RotateSession { session_id: 42, ref refresh_token_hash } if refresh_token_hash == "hash"));
    match app.step_refresh(&mut flow, RefreshEvent::Rotated(Ok(()))) {
        RefreshStep::Done(Ok(r)) => {
            assert_eq!(r.user_id, 1);
            assert_eq!(r.access_token, "acc");
            assert!(r.must_change_password);
            assert!(!r.mfa_setup_required);
        }
        other => panic!("unexpected {other:?}"),
    }
}

fn login_session_for_refresh() -> sentinel_core::domain::Session {
    sentinel_core::domain::Session {
        session_id: 0,
        user_id: 1,
        identity_id: 5,
        refresh_token_hash: "old".to_string(),
        refresh_token_family: 3,
        refresh_token_expires_at: 10,
        user_agent: None,
        ip_address: None,
        device_type: None,
        revoked_at: None,
        last_used_at: None,
        created_at: Some(0),
        updated_at: Some(0),
        created_by: None,
        updated_by: None,
    }
}

#[test]
fn the_login_gate_challenges_only_enrolled_accounts() {
    assert_eq!(AuthApplication::login_gate(&login_user(1, true), true), LoginGate::Challenge);
    assert_eq!(
        AuthApplication::login_gate(&login_user(1, true), false),
        LoginGate::Proceed { mfa_setup_required: true }
    );
    assert_eq!(
        AuthApplication::login_gate(&login_user(1, false), false),
        LoginGate::Proceed { mfa_setup_required: false }
    );
}

#[test]
fn token_claims_keep_only_string_roles() {
    let ctx = AuthApplication::authenticate_token(SessionClaims {
        user_id: 1,
        session_id: 2,
        role_values: vec![Some("admin".to_string()), None, Some("user".to_string())],
        email_verified: true,
        must_change_password: false,
        scope: Some("openid".to_string()),
        policy_test_id: None,
    });
    assert_eq!(ctx.roles, vec!["admin".to_string(), "user".to_string()]);
    assert_eq!(ctx.session_id, 2);
    assert_eq!(ctx.scope.as_deref(), Some("openid"));
}

#[test]
fn api_tokens_authenticate_with_role_type_names() {
    let roles = vec![login_role(RoleType::Admin), login_role(RoleType::Support)];
    let ctx = AuthApplication::authenticate_api_token(9, &roles);
    assert_eq!(ctx.user_id, 9);
    assert_eq!(ctx.session_id, 0);
    assert_eq!(ctx.roles, vec!["admin".to_string(), "support".to_string()]);
    assert!(ctx.email_verified);
    assert!(!ctx.must_change_password);
    let e = AuthApplication::api_token_owner(Ok(None)).unwrap_err();
    assert_eq!(e.kind(), ErrorKind::AuthenticationError);
}

#[test]
fn ttl_arithmetic_is_exact() {
    let app = AuthApplication::new(900, 86_400);
    assert_eq!(app.access_ttl_secs(), 900);
    assert_eq!(app.refresh_ttl_secs(), 86_400);
    assert_eq!(app.access_expiry(1_000), 1_900);
}
