use sentinel_core::admin::AdminApplication;
use sentinel_core::domain::{AuthenticatedUserContext, IdentityProvider, Role, RoleType, User, UserIdentity, UserStatus};
use sentinel_core::errors::ErrorKind;

fn adm_ctx(roles: &[&str]) -> AuthenticatedUserContext {
    AuthenticatedUserContext { user_id: 1, session_id: 2, roles: roles.iter().map(|r| r.to_string()).collect() }
}

fn adm_user() -> User {
    User {
        user_id: 20,
        first_name: Some("Lin".to_string()),
        last_name: Some("Qi".to_string()),
        avatar_url: Some("a.png".to_string()),
        display_name: None,
        status: UserStatus::Active,
        token_version: 1,
        mfa_required: true,
        created_by: None,
        created_at: Some(5),
        updated_by: None,
        updated_at: Some(6),
    }
}

fn adm_identity(verified: Option<bool>) -> UserIdentity {
    UserIdentity {
        identity_id: 21,
        user_id: 20,
        provider: IdentityProvider::EmailPassword,
        provider_user_id: None,
        email: "lin@example.com".to_string(),
        password_hash: None,
        email_verified: verified,
        is_primary: true,
        must_change_password: false,
        created_by: None,
        created_at: None,
        updated_by: None,
        updated_at: None,
    }
}

fn adm_role(id: u128, t: RoleType) -> Role {
    Role {
        role_id: id,
        type_: t,
        name: format!("role{id}"),
        description: None,
        created_at: 0,
        updated_at: 0,
        created_by: None,
        updated_by: None,
    }
}

#[test]
fn role_types_parse_by_name() {
    assert_eq!(AdminApplication::parse_role_type("admin"), RoleType::Admin);
    assert_eq!(AdminApplication::parse_role_type("support"), RoleType::Support);
    assert_eq!(AdminApplication::parse_role_type("user"), RoleType::User);
    assert_eq!(AdminApplication::parse_role_type("ADMIN"), RoleType::User);
    assert_eq!(AdminApplication::parse_role_type(""), RoleType::User);
}

#[test]
fn roles_are_created_by_admins_only() {
    let r = AdminApplication::create_role(&adm_ctx(&["admin"]), 3, "Ops".to_string(), None, "support", 99).unwrap();
    assert_eq!(r.role_id, 3);
    assert_eq!(r.type_, RoleType::Support);
    assert_eq!(r.created_by, Some(1));
    assert_eq!((r.created_at, r.updated_at), (99, 99));
    assert!(r.updated_by.is_none());
    let e = AdminApplication::create_role(&adm_ctx(&["support"]), 3, "Ops".to_string(), None, "support", 99).unwrap_err();
    assert_eq!(e.kind(), ErrorKind::AuthorizationError);
    assert_eq!(e.message(), "Admin role required");
}

#[test]
fn page_parameters_are_clamped() {
    assert_eq!(AdminApplication::page_params(None, None), (1, 20));
    assert_eq!(AdminApplication::page_params(Some(0), Some(0)), (1, 1));
    assert_eq!(AdminApplication::page_params(Some(-3), Some(500)), (1, 100));
    assert_eq!(AdminApplication::page_params(Some(7), Some(50)), (7, 50));
}

#[test]
fn user_statuses_parse_by_name() {
    assert_eq!(AdminApplication::parse_user_status("active").unwrap(), UserStatus::Active);
    assert_eq!(AdminApplication::parse_user_status("suspended").unwrap(), UserStatus::Suspended);
    assert_eq!(AdminApplication::parse_user_status("inactive").unwrap(), UserStatus::Inactive);
    let e = AdminApplication::parse_user_status("pending_verification").unwrap_err();
    assert_eq!(e.kind(), ErrorKind::ValidationError);
    assert_eq!(e.message(), "Invalid status 'pending_verification'. Use: active, suspended, inactive");
}

#[test]
fn listed_users_show_their_primary_email() {
    let item = AdminApplication::list_users_item(adm_user(), Some(adm_identity(None)), vec![adm_role(1, RoleType::User)], true);
    assert_eq!(item.email, "lin@example.com");
    assert!(!item.email_verified);
    assert!(item.mfa_enabled);
    assert!(item.mfa_required);
    assert_eq!(item.roles.len(), 1);
    let bare = AdminApplication::list_users_item(adm_user(), None, vec![], false);
    assert_eq!(bare.email, "");
    assert!(!bare.email_verified);
    let page = AdminApplication::list_users_page(vec![item, bare], 42, 2, 2);
    assert_eq!(page.items.len(), 2);
    assert_eq!((page.total, page.page, page.page_size), (42, 2, 2));
}

#[test]
fn auth_info_reports_unknown_verification_as_false() {
    let info = AdminApplication::get_user_auth_info(adm_user(), adm_identity(None), vec![adm_role(2, RoleType::Admin)]);
    assert_eq!(info.user_id, 20);
    assert_eq!(info.email, "lin@example.com");
    assert!(!info.email_verified);
    assert_eq!(info.avatar_url.as_deref(), Some("a.png"));
    assert_eq!(info.roles[0].role_type, "admin");
    let verified = AdminApplication::get_user_auth_info(adm_user(), adm_identity(Some(true)), vec![]);
    assert!(verified.email_verified);
}

#[test]
fn missing_entities_are_not_found() {
    assert_eq!(AdminApplication::existing_role(None).unwrap_err().message(), "Role not found");
    assert_eq!(AdminApplication::existing_user(None).unwrap_err().message(), "User not found");
    assert_eq!(AdminApplication::existing_identity(None).unwrap_err().message(), "Identity not found");
    let e = AdminApplication::check_not_assigned(true).unwrap_err();
    assert_eq!(e.kind(), ErrorKind::InternalError);
    assert_eq!(e.message(), "Role already assigned to user");
    assert!(AdminApplication::check_not_assigned(false).is_ok());
}

#[test]
fn invitations_go_to_unverified_identities() {
    let e = AdminApplication::invitable_identity(None).unwrap_err();
    assert_eq!(e.kind(), ErrorKind::NotFoundError);
    assert_eq!(e.message(), "User identity not found");
    let e = AdminApplication::invitable_identity(Some(adm_identity(Some(true)))).unwrap_err();
    assert_eq!(e.kind(), ErrorKind::ValidationError);
    assert_eq!(e.message(), "Email is already verified");
    assert!(AdminApplication::invitable_identity(Some(adm_identity(Some(false)))).is_ok());
    let app = AdminApplication::new("https://console.example.com".to_string());
    assert_eq!(
        app.get_invite_link("tok123").invite_url,
        "https://console.example.com/verify-email?token=tok123"
    );
}

#[test]
fn requiring_mfa_revokes_sessions() {
    assert!(AdminApplication::set_mfa_required_revokes(true));
    assert!(!AdminApplication::set_mfa_required_revokes(false));
    let s = AdminApplication::set_mfa_required(true, false);
    assert!(s.mfa_required && !s.mfa_enabled);
    assert!(AdminApplication::sends_invite(Some(true)));
    assert!(!AdminApplication::sends_invite(Some(false)));
    assert!(!AdminApplication::sends_invite(None));
}

#[test]
fn status_updates_answer_the_admin_view() {
    let mut u = adm_user();
    u.status = UserStatus::Suspended;
    let r = AdminApplication::update_user_status_response(u, adm_identity(Some(true)), vec![], false);
    assert_eq!(r.status, UserStatus::Suspended);
    assert!(r.email_verified);
    assert!(r.mfa_required);
    let p = AdminApplication::get_user_permissions(20, vec![adm_role(1, RoleType::User), adm_role(2, RoleType::Admin)]);
    assert_eq!(p.roles.len(), 2);
    assert_eq!(p.roles[1].role_type, "admin");
    let listed = AdminApplication::list_roles(vec![adm_role(9, RoleType::Support)]);
    assert_eq!(listed[0].name, "role9");
}
