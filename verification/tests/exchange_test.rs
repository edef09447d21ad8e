use sentinel_core::auth::AuthApplication;
use sentinel_core::domain::{IdentityProvider, Role, RoleType, SessionTokens, User, UserIdentity, UserStatus};
use sentinel_core::errors::{ErrorKind, ServiceError};
use sentinel_core::exchange::{ExchangeEvent, ExchangeStep};
use sentinel_core::tokens::ApiToken;

fn ex_token(owner: u128) -> ApiToken {
    ApiToken {
        api_token_id: 900,
        user_id: owner,
        name: "ci".to_string(),
        description: None,
        token_hash: "h".to_string(),
        expires_at: None,
        last_used_at: None,
        revoked_at: None,
        created_at: 0,
        updated_at: None,
        created_by: None,
        updated_by: None,
    }
}

fn ex_role(t: RoleType, id: u128) -> Role {
    Role {
        role_id: id,
        type_: t,
        name: "r".to_string(),
        description: None,
        created_at: 0,
        updated_at: 0,
        created_by: None,
        updated_by: None,
    }
}

fn ex_identity(provider: IdentityProvider) -> UserIdentity {
    UserIdentity {
        identity_id: 31,
        user_id: 30,
        provider,
        provider_user_id: None,
        email: "grace@example.com".to_string(),
        password_hash: None,
        email_verified: Some(false),
        is_primary: true,
        must_change_password: true,
        created_by: None,
        created_at: None,
        updated_by: None,
        updated_at: None,
    }
}

fn ex_user(id: u128) -> User {
    User {
        user_id: id,
        first_name: None,
        last_name: None,
        avatar_url: None,
        display_name: Some("Old Name".to_string()),
        status: UserStatus::Active,
        token_version: 0,
        mfa_required: true,
        created_by: None,
        created_at: None,
        updated_by: None,
        updated_at: None,
    }
}

fn ex_tokens() -> SessionTokens {
    SessionTokens {
        access_token: "a".to_string(),
        refresh_token: "r".to_string(),
        refresh_token_hash: "rh".to_string(),
    }
}

fn ex_start(app: &AuthApplication) -> sentinel_core::exchange::ExchangeFlow {
    let (mut flow, step) = app.begin_exchange(
        "sk_admin".to_string(),
        "grace@example.com".to_string(),
        "Grace Brewster Hopper".to_string(),
        Some("https://img/g.png".to_string()),
    );
    assert!(matches!(step, ExchangeStep::ValidateApiToken { ref api_token } if api_token == "sk_admin"));
    let step = app.step_exchange(&mut flow, ExchangeEvent::TokenValidated(Ok(ex_token(1))));
    assert!(matches!(step, ExchangeStep::GetAdminRoles { user_id: 1 }));
    let step = app.step_exchange(&mut flow, ExchangeEvent::AdminRoles(Ok(vec![ex_role(RoleType::Admin, 1)])));
    assert!(matches!(step, ExchangeStep::FindIdentityByEmail { ref email } if email == "grace@example.com"));
    flow
}

#[test]
fn exchange_creates_a_missing_user() {
    let app = AuthApplication::new(600, 7_200);
    let mut flow = ex_start(&app);
    let u = match app.step_exchange(&mut flow, ExchangeEvent::IdentityByEmail(Ok(None))) {
        ExchangeStep::CreateUser(u) => u,
        other => panic!("unexpected {other:?}"),
    };
    assert_eq!(u.first_name.as_deref(), Some("Grace"));
    assert_eq!(u.last_name.as_deref(), Some("Brewster Hopper"));
    assert_eq!(u.display_name.as_deref(), Some("Grace Brewster Hopper"));
    assert_eq!(u.avatar_url.as_deref(), Some("https://img/g.png"));
    assert_eq!(u.status, UserStatus::Active);
    assert!(!u.mfa_required);
    assert_eq!(u.created_by, Some(1));
    let new_user_id = u.user_id;
    let i = match app.step_exchange(&mut flow, ExchangeEvent::UserCreated(Ok(u))) {
        ExchangeStep::CreateIdentity(i) => i,
        other => panic!("unexpected {other:?}"),
    };
    assert_eq!(i.user_id, new_user_id);
    assert_eq!(i.provider, IdentityProvider::TokenFederation);
    assert_eq!(i.email, "grace@example.com");
    assert!(i.password_hash.is_none());
    assert_eq!(i.email_verified, Some(true));
    assert!(!i.must_change_password);
    let step = app.step_exchange(&mut flow, ExchangeEvent::IdentityCreated(Ok(i)));
    assert!(matches!(step, ExchangeStep::GetDefaultRole));
    let ur = match app.step_exchange(&mut flow, ExchangeEvent::DefaultRole(Ok(ex_role(RoleType::User, 5)))) {
        ExchangeStep::AssignRole(ur) => ur,
        other => panic!("unexpected {other:?}"),
    };
    assert_eq!(ur.user_id, new_user_id);
    assert_eq!(ur.role_id, 5);
    assert_eq!(ur.created_by, Some(1));
    let step = app.step_exchange(&mut flow, ExchangeEvent::RoleAssigned(Ok(())));
    assert!(matches!(step, ExchangeStep::GetRoles { user_id } if user_id == new_user_id));
    let step = app.step_exchange(&mut flow, ExchangeEvent::Roles(Ok(vec![ex_role(RoleType::User, 5)])));
    assert!(matches!(step, ExchangeStep::SignTokens { .. }));
    let s = match app.step_exchange(&mut flow, ExchangeEvent::Tokens(Ok(ex_tokens()))) {
        ExchangeStep::CreateSession(s) => s,
        other => panic!("unexpected {other:?}"),
    };
    assert_eq!(s.user_id, new_user_id);
    assert_eq!(s.created_by, Some(1));
    let created = s.created_at.unwrap();
    assert_eq!(s.refresh_token_expires_at, created + 7_200);
    let step = app.step_exchange(&mut flow, ExchangeEvent::SessionCreated(Ok(())));
    assert!(matches!(step, ExchangeStep::RecordUsage { api_token_id: 900 }));
    match app.step_exchange(&mut flow, ExchangeEvent::UsageRecorded(Ok(()))) {
        ExchangeStep::Done(Ok(r)) => {
            assert_eq!(r.user_id, new_user_id);
            assert_eq!(r.expires_at, created + 600);
            assert!(!r.must_change_password);
            assert!(!r.mfa_setup_required);
        }
        other => panic!("unexpected {other:?}"),
    }
}

#[test]
fn exchange_refreshes_an_existing_federated_user() {
    let app = AuthApplication::new(600, 7_200);
    let mut flow = ex_start(&app);
    let step = app.step_exchange(
        &mut flow,
        ExchangeEvent::IdentityByEmail(Ok(Some(ex_identity(IdentityProvider::TokenFederation)))),
    );
    assert!(matches!(step, ExchangeStep::FindUser { user_id: 30 }));
    match app.step_exchange(&mut flow, ExchangeEvent::User(Ok(Some(ex_user(30))))) {
        ExchangeStep::UpdateProfile { user_id, display_name, avatar_url } => {
            assert_eq!(user_id, 30);
            assert_eq!(display_name, "Grace Brewster Hopper");
            assert_eq!(avatar_url.as_deref(), Some("https://img/g.png"));
        }
        other => panic!("unexpected {other:?}"),
    }
    let step = app.step_exchange(&mut flow, ExchangeEvent::ProfileUpdated(Ok(ex_user(30))));
    assert!(matches!(step, ExchangeStep::EnsureIdentityState { identity_id: 31 }));
    let mut fixed = ex_identity(IdentityProvider::TokenFederation);
    fixed.must_change_password = false;
    let step = app.step_exchange(&mut flow, ExchangeEvent::IdentityState(Ok(fixed)));
    assert!(matches!(step, ExchangeStep::GetRoles { user_id: 30 }));
}

#[test]
fn exchange_refuses_other_accounts_and_non_admins() {
    let app = AuthApplication::new(600, 7_200);
    let mut flow = ex_start(&app);
    app.step_exchange(
        &mut flow,
        ExchangeEvent::IdentityByEmail(Ok(Some(ex_identity(IdentityProvider::EmailPassword)))),
    );
    match app.step_exchange(&mut flow, ExchangeEvent::User(Ok(Some(ex_user(30))))) {
        ExchangeStep::Done(Err(e)) => {
            assert_eq!(e.kind(), ErrorKind::ValidationError);
            assert_eq!(e.message(), "User exists but was not created via token federation");
        }
        other => panic!("unexpected {other:?}"),
    }

    let (mut flow, _) = app.begin_exchange("sk_admin".to_string(), "x@example.com".to_string(), "X".to_string(), None);
    app.step_exchange(&mut flow, ExchangeEvent::TokenValidated(Ok(ex_token(2))));
    match app.step_exchange(&mut flow, ExchangeEvent::AdminRoles(Ok(vec![ex_role(RoleType::Support, 2)]))) {
        ExchangeStep::Done(Err(e)) => {
            assert_eq!(e.kind(), ErrorKind::AuthorizationError);
            assert_eq!(e.message(), "Insufficient permissions");
        }
        other => panic!("unexpected {other:?}"),
    }

    let (mut flow, _) = app.begin_exchange("sk_admin".to_string(), "x@example.com".to_string(), "X".to_string(), None);
    let step = app.step_exchange(
        &mut flow,
        ExchangeEvent::TokenValidated(Err(ServiceError::ApiTokenNotFound("revoked".to_string()))),
    );
    assert!(matches!(step, ExchangeStep::Done(Err(ServiceError::ApiTokenNotFound(_)))));
}

#[test]
fn exchange_of_an_unknown_account_owner_fails_authentication() {
    let app = AuthApplication::new(600, 7_200);
    let mut flow = ex_start(&app);
    app.step_exchange(
        &mut flow,
        ExchangeEvent::IdentityByEmail(Ok(Some(ex_identity(IdentityProvider::TokenFederation)))),
    );
    match app.step_exchange(&mut flow, ExchangeEvent::User(Ok(None))) {
        ExchangeStep::Done(Err(e)) => {
            assert_eq!(e.kind(), ErrorKind::AuthenticationError);
            assert_eq!(e.message(), "User not found");
        }
        other => panic!("unexpected {other:?}"),
    }
}

#[test]
fn display_names_split_at_the_first_space() {
    assert_eq!(
        AuthApplication::split_display_name("Grace Brewster Hopper"),
        (Some("Grace".to_string()), Some("Brewster Hopper".to_string()))
    );
    assert_eq!(AuthApplication::split_display_name("Cher"), (Some("Cher".to_string()), None));
    assert_eq!(AuthApplication::split_display_name(""), (Some(String::new()), None));
    assert_eq!(
        AuthApplication::split_display_name(" lead"),
        (Some(String::new()), Some("lead".to_string()))
    );
}
