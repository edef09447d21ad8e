//! The entities the applications read and write, as plain values.
//!
//! Identifiers are `u128` (UUID bytes, big-endian); timestamps are whole
//! seconds since the Unix epoch.

use vstd::prelude::*;
use crate::errors::{ErrorKind, ServiceError};

verus! {

/// Lifecycle status of a user account.
#[derive(Clone, Copy, Debug, PartialEq, Eq, Structural)]
pub enum UserStatus {
    PendingVerification,
    Active,
    Suspended,
    Inactive,
}

/// Built-in role categories.
#[derive(Clone, Copy, Debug, PartialEq, Eq, Structural)]
pub enum RoleType {
    Admin,
    Support,
    User,
}

/// The stored name of a role type.
pub open spec fn role_type_name(t: RoleType) -> Seq<char> {
    match t {
        RoleType::Admin => "admin"@,
        RoleType::Support => "support"@,
        RoleType::User => "user"@,
    }
}

impl RoleType {
    /// The stored name of this role type.
    pub fn as_str(&self) -> (s: &'static str)
        ensures
            s@ == role_type_name(*self),
    {
        match self {
            RoleType::Admin => "admin",
            RoleType::Support => "support",
            RoleType::User => "user",
        }
    }
}

/// How an identity authenticates.
#[derive(Clone, Copy, Debug, PartialEq, Eq, Structural)]
pub enum IdentityProvider {
    /// Email address and password.
    EmailPassword,
    /// Created and refreshed through an admin API token exchange.
    TokenFederation,
}

/// The caller of a request, as established by its session token.
#[derive(Debug)]
pub struct AuthenticatedUserContext {
    pub user_id: u128,
    pub session_id: u128,
    pub roles: Vec<String>,
}

/// A user account.
#[derive(Debug)]
pub struct User {
    pub user_id: u128,
    pub first_name: Option<String>,
    pub last_name: Option<String>,
    pub avatar_url: Option<String>,
    pub display_name: Option<String>,
    pub status: UserStatus,
    pub token_version: i32,
    pub mfa_required: bool,
    pub created_by: Option<u128>,
    pub created_at: Option<i64>,
    pub updated_by: Option<u128>,
    pub updated_at: Option<i64>,
}

/// A way for a user to log in: an email address with its credential.
#[derive(Debug)]
pub struct UserIdentity {
    pub identity_id: u128,
    pub user_id: u128,
    pub provider: IdentityProvider,
    pub provider_user_id: Option<String>,
    pub email: String,
    /// On insert: the plaintext password, which the database hashes.
    pub password_hash: Option<String>,
    pub email_verified: Option<bool>,
    pub is_primary: bool,
    pub must_change_password: bool,
    pub created_by: Option<u128>,
    pub created_at: Option<i64>,
    pub updated_by: Option<u128>,
    pub updated_at: Option<i64>,
}

/// A role that can be assigned to users.
#[derive(Debug)]
pub struct Role {
    pub role_id: u128,
    pub type_: RoleType,
    pub name: String,
    pub description: Option<String>,
    pub created_at: i64,
    pub updated_at: i64,
    pub created_by: Option<u128>,
    pub updated_by: Option<u128>,
}

/// The assignment of a role to a user.
#[derive(Debug)]
pub struct UserRole {
    pub user_role_id: u128,
    pub user_id: u128,
    pub role_id: u128,
    pub created_at: i64,
    pub created_by: Option<u128>,
}

/// A login session, identified by its refresh token's hash.
#[derive(Debug)]
pub struct Session {
    pub session_id: u128,
    pub user_id: u128,
    pub identity_id: u128,
    pub refresh_token_hash: String,
    pub refresh_token_family: u128,
    pub refresh_token_expires_at: i64,
    pub user_agent: Option<String>,
    pub ip_address: Option<String>,
    pub device_type: Option<String>,
    pub revoked_at: Option<i64>,
    pub last_used_at: Option<i64>,
    pub created_at: Option<i64>,
    pub updated_at: Option<i64>,
    pub created_by: Option<u128>,
    pub updated_by: Option<u128>,
}

/// A freshly signed access/refresh token pair and the hash of the refresh token.
#[derive(Debug)]
pub struct SessionTokens {
    pub access_token: String,
    pub refresh_token: String,
    pub refresh_token_hash: String,
}

/// Whether `name` is one of `roles`.
pub open spec fn has_role(roles: Seq<String>, name: Seq<char>) -> bool {
    exists|i: int| 0 <= i < roles.len() && #[trigger] roles[i]@ == name
}

/// Whether one of `roles` is named `name`.
pub fn contains_role(roles: &Vec<String>, name: &str) -> (b: bool)
    ensures
        b == has_role(roles@, name@),
{
    let wanted = name.to_owned();
    let mut i: usize = 0;
    while i < roles.len()
        invariant
            0 <= i <= roles.len(),
            wanted@ == name@,
            forall|j: int| 0 <= j < i ==> #[trigger] roles@[j]@ != name@,
        decreases roles.len() - i,
    {
        if roles[i] == wanted {
            assert(roles@[i as int]@ == name@);
            return true;
        }
        i = i + 1;
    }
    false
}

/// The error every admin-only operation answers a caller without the `admin` role.
pub open spec fn admin_required(e: ServiceError) -> bool {
    e@ == (ErrorKind::AuthorizationError, "Admin role required"@)
}

/// Succeeds exactly when the caller holds the `admin` role.
pub fn require_admin_role(ctx: &AuthenticatedUserContext) -> (r: Result<(), ServiceError>)
    ensures
        r.is_ok() == has_role(ctx.roles@, "admin"@),
        r matches Err(e) ==> admin_required(e),
{
    if !contains_role(&ctx.roles, "admin") {
        return Err(ServiceError::AuthorizationError("Admin role required".to_owned()));
    }
    Ok(())
}

/// `value` when present, else a not-found error carrying `message`.
pub fn found_or_not_found<T>(value: Option<T>, message: &str) -> (r: Result<T, ServiceError>)
    ensures
        value matches Some(v) ==> r == Ok::<T, ServiceError>(v),
        value is None ==> (r matches Err(e) && e@ == (ErrorKind::NotFoundError, message@)),
{
    match value {
        Some(v) => Ok(v),
        None => Err(ServiceError::NotFoundError(message.to_owned())),
    }
}

/// `value` when present, else an error of kind `kind` carrying `message`.
pub fn found_or<T>(value: Option<T>, kind: ErrorKind, message: &str) -> (r: Result<T, ServiceError>)
    ensures
        value matches Some(v) ==> r == Ok::<T, ServiceError>(v),
        value is None ==> (r matches Err(e) && e@ == (kind, message@)),
{
    match value {
        Some(v) => Ok(v),
        None => Err(ServiceError::of_kind(kind, message.to_owned())),
    }
}

/// A role as shown to clients.
#[derive(Debug)]
pub struct RoleResponse {
    pub role_id: u128,
    pub name: String,
    pub role_type: String,
    pub description: Option<String>,
}

/// The client view of `role`.
pub fn role_response(role: Role) -> (r: RoleResponse)
    ensures
        r.role_id == role.role_id,
        r.name == role.name,
        r.role_type@ == role_type_name(role.type_),
        r.description == role.description,
{
    RoleResponse {
        role_id: role.role_id,
        name: role.name,
        role_type: role.type_.as_str().to_owned(),
        description: role.description,
    }
}

/// Whether `r` is the client view of `role`.
pub open spec fn is_role_response(r: RoleResponse, role: Role) -> bool {
    &&& r.role_id == role.role_id
    &&& r.name == role.name
    &&& r.role_type@ == role_type_name(role.type_)
    &&& r.description == role.description
}

/// The client views of `roles`, in order.
pub fn role_responses(roles: Vec<Role>) -> (rs: Vec<RoleResponse>)
    ensures
        rs@.len() == roles@.len(),
        forall|i: int| 0 <= i < roles@.len() ==> is_role_response(#[trigger] rs@[i], roles@[i]),
{
    let ghost all = roles@;
    let mut roles = roles;
    let mut rev: Vec<RoleResponse> = Vec::new();
    while roles.len() > 0
        invariant
            roles@.len() + rev@.len() == all.len(),
            forall|j: int| 0 <= j < roles@.len() ==> roles@[j] == all[j],
            forall|j: int| 0 <= j < rev@.len() ==> is_role_response(#[trigger] rev@[j], all[all.len() - 1 - j]),
        decreases roles@.len(),
    {
        let r = roles.pop().unwrap();
        rev.push(role_response(r));
    }
    let mut out: Vec<RoleResponse> = Vec::new();
    while rev.len() > 0
        invariant
            rev@.len() + out@.len() == all.len(),
            forall|j: int| 0 <= j < rev@.len() ==> is_role_response(#[trigger] rev@[j], all[all.len() - 1 - j]),
            forall|j: int| 0 <= j < out@.len() ==> is_role_response(#[trigger] out@[j], all[j]),
        decreases rev@.len(),
    {
        let r = rev.pop().unwrap();
        out.push(r);
    }
    out
}

/// The roles assigned to a user.
#[derive(Debug)]
pub struct UserPermissionsResponse {
    pub user_id: u128,
    pub roles: Vec<RoleResponse>,
}

/// The permissions of `user_id`: the client views of its roles.
pub fn permissions_response(user_id: u128, roles: Vec<Role>) -> (r: UserPermissionsResponse)
    ensures
        r.user_id == user_id,
        r.roles@.len() == roles@.len(),
        forall|i: int| 0 <= i < roles@.len() ==> is_role_response(#[trigger] r.roles@[i], roles@[i]),
{
    UserPermissionsResponse { user_id, roles: role_responses(roles) }
}

/// Whether an identity's email counts as verified (unknown counts as not).
pub open spec fn verified(flag: Option<bool>) -> bool {
    flag == Some(true)
}

/// Whether an identity's email counts as verified (unknown counts as not).
pub fn is_verified(flag: Option<bool>) -> (b: bool)
    ensures
        b == verified(flag),
{
    match flag {
        Some(v) => v,
        None => false,
    }
}

} // verus!
