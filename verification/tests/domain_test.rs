use sentinel_core::domain::{
    contains_role, found_or, found_or_not_found, is_verified, permissions_response,
    require_admin_role, role_response, role_responses, AuthenticatedUserContext, Role, RoleType,
};
use sentinel_core::errors::{ErrorKind, ServiceError};

fn ctx_with(roles: &[&str]) -> AuthenticatedUserContext {
    AuthenticatedUserContext {
        user_id: 7,
        session_id: 9,
        roles: roles.iter().map(|r| r.to_string()).collect(),
    }
}

fn sample_role(id: u128, t: RoleType, name: &str) -> Role {
    Role {
        role_id: id,
        type_: t,
        name: name.to_string(),
        description: Some(format!("{name} role")),
        created_at: 100,
        updated_at: 200,
        created_by: None,
        updated_by: None,
    }
}

#[test]
fn admin_role_is_required_exactly() {
    assert!(require_admin_role(&ctx_with(&["user", "admin"])).is_ok());
    let e = require_admin_role(&ctx_with(&["user", "Admin", "administrator"])).unwrap_err();
    assert_eq!(e.kind(), ErrorKind::AuthorizationError);
    assert_eq!(e.message(), "Admin role required");
    assert!(require_admin_role(&ctx_with(&[])).is_err());
}

#[test]
fn contains_role_compares_whole_names() {
    let roles = vec!["support".to_string(), "user".to_string()];
    assert!(contains_role(&roles, "user"));
    assert!(!contains_role(&roles, "use"));
    assert!(!contains_role(&Vec::new(), "user"));
}

#[test]
fn role_type_names_are_lowercase() {
    assert_eq!(RoleType::Admin.as_str(), "admin");
    assert_eq!(RoleType::Support.as_str(), "support");
    assert_eq!(RoleType::User.as_str(), "user");
}

#[test]
fn role_responses_keep_order_and_fields() {
    let rs = role_responses(vec![
        sample_role(1, RoleType::Admin, "Administrators"),
        sample_role(2, RoleType::User, "Members"),
    ]);
    assert_eq!(rs.len(), 2);
    assert_eq!(rs[0].role_id, 1);
    assert_eq!(rs[0].role_type, "admin");
    assert_eq!(rs[0].name, "Administrators");
    assert_eq!(rs[1].role_id, 2);
    assert_eq!(rs[1].role_type, "user");
    assert_eq!(rs[1].description.as_deref(), Some("Members role"));
    let single = role_response(sample_role(3, RoleType::Support, "Helpdesk"));
    assert_eq!(single.role_type, "support");
    let p = permissions_response(5, vec![sample_role(4, RoleType::User, "Members")]);
    assert_eq!(p.user_id, 5);
    assert_eq!(p.roles.len(), 1);
    assert_eq!(p.roles[0].role_id, 4);
}

#[test]
fn missing_values_become_errors() {
    assert_eq!(found_or_not_found(Some(3), "gone").unwrap(), 3);
    let e = found_or_not_found::<u8>(None, "Role not found").unwrap_err();
    assert_eq!(e.kind(), ErrorKind::NotFoundError);
    assert_eq!(e.message(), "Role not found");
    let e = found_or::<u8>(None, ErrorKind::InternalError, "User not found").unwrap_err();
    assert!(matches!(e, ServiceError::InternalError(ref m) if m == "User not found"));
}

#[test]
fn unknown_verification_counts_as_unverified() {
    assert!(is_verified(Some(true)));
    assert!(!is_verified(Some(false)));
    assert!(!is_verified(None));
}
