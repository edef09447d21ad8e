//! Administration: roles, role assignment, user management, invitations and
//! MFA requirements. Every operation is reserved to callers holding `admin`.

use vstd::prelude::*;
use crate::domain::{
    admin_required, found_or_not_found, has_role, is_role_response, is_verified, permissions_response,
    require_admin_role, role_response, role_responses, verified,
    AuthenticatedUserContext, IdentityProvider, Role, RoleResponse, RoleType, User, UserIdentity,
    UserPermissionsResponse, UserStatus,
};
use crate::errors::{ErrorKind, ServiceError};

verus! {

/// A user as listed for administrators.
#[derive(Debug)]
pub struct AdminUserResponse {
    pub user_id: u128,
    pub first_name: Option<String>,
    pub last_name: Option<String>,
    pub email: String,
    pub email_verified: bool,
    pub status: UserStatus,
    pub roles: Vec<RoleResponse>,
    pub mfa_enabled: bool,
    pub mfa_required: bool,
    pub created_at: Option<i64>,
}

/// One page of users.
#[derive(Debug)]
pub struct PaginatedUsersResponse {
    pub items: Vec<AdminUserResponse>,
    pub total: i64,
    pub page: i64,
    pub page_size: i64,
}

/// Everything support needs to know about how a user authenticates.
#[derive(Debug)]
pub struct UserAuthInfoResponse {
    pub user_id: u128,
    pub first_name: Option<String>,
    pub last_name: Option<String>,
    pub avatar_url: Option<String>,
    pub status: UserStatus,
    pub email: String,
    pub email_verified: bool,
    pub created_at: Option<i64>,
    pub roles: Vec<RoleResponse>,
}

/// A user's MFA requirement and enrollment.
#[derive(Debug)]
pub struct UserMfaStatusResponse {
    pub mfa_required: bool,
    pub mfa_enabled: bool,
}

/// A link inviting a user to verify their email.
#[derive(Debug)]
pub struct InviteLinkResponse {
    pub invite_url: String,
}

/// The role type named `s`; unknown names are plain users.
pub open spec fn role_type_of(s: Seq<char>) -> RoleType {
    if s == "admin"@ {
        RoleType::Admin
    } else if s == "support"@ {
        RoleType::Support
    } else {
        RoleType::User
    }
}

/// The status an administrator may set by the name `s`, if it is one.
pub open spec fn settable_status(s: Seq<char>) -> Option<UserStatus> {
    if s == "active"@ {
        Some(UserStatus::Active)
    } else if s == "suspended"@ {
        Some(UserStatus::Suspended)
    } else if s == "inactive"@ {
        Some(UserStatus::Inactive)
    } else {
        None
    }
}

/// The page size shown for a requested one: 20 by default, between 1 and 100.
pub open spec fn effective_page_size(requested: Option<i64>) -> i64 {
    let s = match requested {
        Some(s) => s,
        None => 20,
    };
    if s < 1 {
        1
    } else if s > 100 {
        100
    } else {
        s
    }
}

/// The page shown for a requested one: 1 by default, never below 1.
pub open spec fn effective_page(requested: Option<i64>) -> i64 {
    let p = match requested {
        Some(p) => p,
        None => 1,
    };
    if p < 1 {
        1
    } else {
        p
    }
}

/// Whether `r` is the admin view of `user` with the given email, verification,
/// roles and MFA state.
pub open spec fn is_admin_user_response(
    r: AdminUserResponse,
    user: User,
    email: String,
    email_verified: bool,
    roles: Seq<Role>,
    mfa_enabled: bool,
    mfa_required: bool,
) -> bool {
    &&& r.user_id == user.user_id
    &&& r.first_name == user.first_name
    &&& r.last_name == user.last_name
    &&& r.email == email
    &&& r.email_verified == email_verified
    &&& r.status == user.status
    &&& r.roles@.len() == roles.len()
    &&& forall|i: int| 0 <= i < roles.len() ==> is_role_response(#[trigger] r.roles@[i], roles[i])
    &&& r.mfa_enabled == mfa_enabled
    &&& r.mfa_required == mfa_required
    &&& r.created_at == user.created_at
}

/// The email and its verification shown for a user whose primary identity
/// may be missing: that identity's, or an empty unverified email.
pub open spec fn listed_email(identity: Option<UserIdentity>) -> (Seq<char>, bool) {
    match identity {
        Some(i) => (i.email@, verified(i.email_verified)),
        None => (Seq::empty(), false),
    }
}

/// The administration application; it knows the front end invitations point at.
pub struct AdminApplication {
    frontend_url: String,
}

impl AdminApplication {
    /// The front-end base URL of invitation links.
    pub closed spec fn frontend_url(&self) -> Seq<char> {
        self.frontend_url@
    }

    /// An application whose invitation links point at `frontend_url`.
    pub fn new(frontend_url: String) -> (a: AdminApplication)
        ensures
            a.frontend_url() == frontend_url@,
    {
        AdminApplication { frontend_url }
    }

    /// Succeeds exactly when the caller holds the `admin` role.
    pub fn require_admin(ctx: &AuthenticatedUserContext) -> (r: Result<(), ServiceError>)
        ensures
            r.is_ok() == has_role(ctx.roles@, "admin"@),
            r matches Err(e) ==> admin_required(e),
    {
        require_admin_role(ctx)
    }

    /// The role type named `s`: `admin`, `support`, anything else a user.
    pub fn parse_role_type(s: &str) -> (t: RoleType)
        ensures
            t == role_type_of(s@),
    {
        let v = s.to_owned();
        if v == "admin".to_owned() {
            RoleType::Admin
        } else if v == "support".to_owned() {
            RoleType::Support
        } else {
            RoleType::User
        }
    }

    /// The client view of `role`.
    pub fn role_to_response(role: Role) -> (r: RoleResponse)
        ensures
            is_role_response(r, role),
    {
        role_response(role)
    }

    /// The role an admin creates: of the named type, created by the caller at `now`.
    pub fn create_role(
        ctx: &AuthenticatedUserContext,
        role_id: u128,
        name: String,
        description: Option<String>,
        role_type: &str,
        now: i64,
    ) -> (r: Result<Role, ServiceError>)
        ensures
            r.is_ok() == has_role(ctx.roles@, "admin"@),
            r matches Err(e) ==> admin_required(e),
            r matches Ok(role) ==> role.role_id == role_id && role.type_ == role_type_of(role_type@)
                && role.name == name && role.description == description && role.created_at == now
                && role.updated_at == now && role.created_by == Some(ctx.user_id)
                && role.updated_by is None,
    {
        Self::require_admin(ctx)?;
        Ok(
            Role {
                role_id,
                type_: Self::parse_role_type(role_type),
                name,
                description,
                created_at: now,
                updated_at: now,
                created_by: Some(ctx.user_id),
                updated_by: None,
            },
        )
    }

    /// The client views of all roles.
    pub fn list_roles(roles: Vec<Role>) -> (rs: Vec<RoleResponse>)
        ensures
            rs@.len() == roles@.len(),
            forall|i: int| 0 <= i < roles@.len() ==> is_role_response(#[trigger] rs@[i], roles@[i]),
    {
        role_responses(roles)
    }

    /// The role a role operation names, or "Role not found".
    pub fn existing_role(found: Option<Role>) -> (r: Result<Role, ServiceError>)
        ensures
            found matches Some(x) ==> r == Ok::<Role, ServiceError>(x),
            found is None ==> (r matches Err(e) && e@ == (ErrorKind::NotFoundError, "Role not found"@)),
    {
        found_or_not_found(found, "Role not found")
    }

    /// The user a user operation names, or "User not found".
    pub fn existing_user(found: Option<User>) -> (r: Result<User, ServiceError>)
        ensures
            found matches Some(x) ==> r == Ok::<User, ServiceError>(x),
            found is None ==> (r matches Err(e) && e@ == (ErrorKind::NotFoundError, "User not found"@)),
    {
        found_or_not_found(found, "User not found")
    }

    /// The primary identity a profile view needs, or "Identity not found".
    pub fn existing_identity(found: Option<UserIdentity>) -> (r: Result<UserIdentity, ServiceError>)
        ensures
            found matches Some(x) ==> r == Ok::<UserIdentity, ServiceError>(x),
            found is None ==> (r matches Err(e) && e@ == (ErrorKind::NotFoundError, "Identity not found"@)),
    {
        found_or_not_found(found, "Identity not found")
    }

    /// Whether a role may be assigned to a user who has `existing` assignments
    /// of it: never twice.
    pub fn check_not_assigned(already_assigned: bool) -> (r: Result<(), ServiceError>)
        ensures
            r.is_ok() == !already_assigned,
            r matches Err(e) ==> e@ == (ErrorKind::InternalError, "Role already assigned to user"@),
    {
        if already_assigned {
            return Err(ServiceError::InternalError("Role already assigned to user".to_owned()));
        }
        Ok(())
    }

    /// The roles of `user_id` as an administrator sees them.
    pub fn get_user_permissions(user_id: u128, roles: Vec<Role>) -> (r: UserPermissionsResponse)
        ensures
            r.user_id == user_id,
            r.roles@.len() == roles@.len(),
            forall|i: int| 0 <= i < roles@.len() ==> is_role_response(#[trigger] r.roles@[i], roles@[i]),
    {
        permissions_response(user_id, roles)
    }

    /// The authentication profile of `user`, whose primary identity is `identity`.
    pub fn get_user_auth_info(user: User, identity: UserIdentity, roles: Vec<Role>) -> (r: UserAuthInfoResponse)
        ensures
            r.user_id == user.user_id,
            r.first_name == user.first_name,
            r.last_name == user.last_name,
            r.avatar_url == user.avatar_url,
            r.status == user.status,
            r.email == identity.email,
            r.email_verified == verified(identity.email_verified),
            r.created_at == user.created_at,
            r.roles@.len() == roles@.len(),
            forall|i: int| 0 <= i < roles@.len() ==> is_role_response(#[trigger] r.roles@[i], roles@[i]),
    {
        UserAuthInfoResponse {
            user_id: user.user_id,
            first_name: user.first_name,
            last_name: user.last_name,
            avatar_url: user.avatar_url,
            status: user.status,
            email: identity.email,
            email_verified: is_verified(identity.email_verified),
            created_at: user.created_at,
            roles: role_responses(roles),
        }
    }

    /// The admin view of `user`.
    pub fn user_to_admin_response(
        user: User,
        email: String,
        email_verified: bool,
        roles: Vec<Role>,
        mfa_enabled: bool,
        mfa_required: bool,
    ) -> (r: AdminUserResponse)
        ensures
            is_admin_user_response(r, user, email, email_verified, roles@, mfa_enabled, mfa_required),
    {
        let ghost role_list = roles@;
        AdminUserResponse {
            user_id: user.user_id,
            first_name: user.first_name,
            last_name: user.last_name,
            email,
            email_verified,
            status: user.status,
            roles: role_responses(roles),
            mfa_enabled,
            mfa_required,
            created_at: user.created_at,
        }
    }

    /// The page and page size a listing uses for the requested ones.
    pub fn page_params(page: Option<i64>, page_size: Option<i64>) -> (r: (i64, i64))
        ensures
            r.0 == effective_page(page),
            r.1 == effective_page_size(page_size),
            r.0 >= 1,
            1 <= r.1 <= 100,
    {
        let p = match page {
            Some(p) => p,
            None => 1,
        };
        let s = match page_size {
            Some(s) => s,
            None => 20,
        };
        let p = if p < 1 {
            1
        } else {
            p
        };
        let s = if s < 1 {
            1
        } else if s > 100 {
            100
        } else {
            s
        };
        (p, s)
    }

    /// The admin view of a listed user: its primary identity's email and
    /// verification (empty and unverified without one), its roles and MFA state.
    pub fn list_users_item(
        user: User,
        identity: Option<UserIdentity>,
        roles: Vec<Role>,
        mfa_enabled: bool,
    ) -> (r: AdminUserResponse)
        ensures
            r.user_id == user.user_id,
            r.first_name == user.first_name,
            r.last_name == user.last_name,
            r.email@ == listed_email(identity).0,
            r.email_verified == listed_email(identity).1,
            r.status == user.status,
            r.roles@.len() == roles@.len(),
            forall|i: int| 0 <= i < roles@.len() ==> is_role_response(#[trigger] r.roles@[i], roles@[i]),
            r.mfa_enabled == mfa_enabled,
            r.mfa_required == user.mfa_required,
            r.created_at == user.created_at,
    {
        let (email, email_verified) = match identity {
            Some(i) => (i.email, is_verified(i.email_verified)),
            None => (String::new(), false),
        };
        let mfa_required = user.mfa_required;
        Self::user_to_admin_response(user, email, email_verified, roles, mfa_enabled, mfa_required)
    }

    /// One page of users.
    pub fn list_users_page(items: Vec<AdminUserResponse>, total: i64, page: i64, page_size: i64) -> (r: PaginatedUsersResponse)
        ensures
            r.items@ == items@,
            r.total == total,
            r.page == page,
            r.page_size == page_size,
    {
        PaginatedUsersResponse { items, total, page, page_size }
    }

    /// The account an administrator creates: pending verification, created and
    /// updated by the caller at `now`.
    pub fn new_invited_user(
        admin_user_id: u128,
        user_id: u128,
        first_name: String,
        last_name: String,
        now: i64,
    ) -> (u: User)
        ensures
            u.user_id == user_id,
            u.first_name == Some(first_name),
            u.last_name == Some(last_name),
            u.avatar_url is None,
            u.display_name is None,
            u.status == UserStatus::PendingVerification,
            u.token_version == 0,
            !u.mfa_required,
            u.created_by == Some(admin_user_id) && u.updated_by == Some(admin_user_id),
            u.created_at == Some(now) && u.updated_at == Some(now),
    {
        User {
            user_id,
            first_name: Some(first_name),
            last_name: Some(last_name),
            avatar_url: None,
            display_name: None,
            status: UserStatus::PendingVerification,
            token_version: 0,
            mfa_required: false,
            created_by: Some(admin_user_id),
            created_at: Some(now),
            updated_by: Some(admin_user_id),
            updated_at: Some(now),
        }
    }

    /// The identity of an account an administrator creates: the temporary
    /// password (hashed by the database), unverified, primary, and to be
    /// changed at first login.
    pub fn new_invited_identity(
        admin_user_id: u128,
        identity_id: u128,
        user_id: u128,
        email: String,
        password: String,
        now: i64,
    ) -> (i: UserIdentity)
        ensures
            i.identity_id == identity_id,
            i.user_id == user_id,
            i.provider == IdentityProvider::EmailPassword,
            i.provider_user_id is None,
            i.email == email,
            i.password_hash == Some(password),
            i.email_verified == Some(false),
            i.is_primary,
            i.must_change_password,
            i.created_by == Some(admin_user_id) && i.updated_by == Some(admin_user_id),
            i.created_at == Some(now) && i.updated_at == Some(now),
    {
        UserIdentity {
            identity_id,
            user_id,
            provider: IdentityProvider::EmailPassword,
            provider_user_id: None,
            email,
            password_hash: Some(password),
            email_verified: Some(false),
            is_primary: true,
            must_change_password: true,
            created_by: Some(admin_user_id),
            created_at: Some(now),
            updated_by: Some(admin_user_id),
            updated_at: Some(now),
        }
    }

    /// Whether a user creation sends the invitation email: only when asked.
    pub fn sends_invite(send_invite_email: Option<bool>) -> (b: bool)
        ensures
            b == (send_invite_email == Some(true)),
    {
        match send_invite_email {
            Some(b) => b,
            None => false,
        }
    }

    /// The status an administrator sets by name, or a validation error naming
    /// the accepted ones.
    pub fn parse_user_status(status: &str) -> (r: Result<UserStatus, ServiceError>)
        ensures
            settable_status(status@) matches Some(s) ==> r == Ok::<UserStatus, ServiceError>(s),
            settable_status(status@) is None ==> (r matches Err(e) && e@ == (
                ErrorKind::ValidationError,
                "Invalid status '"@ + status@ + "'. Use: active, suspended, inactive"@,
            )),
    {
        let v = status.to_owned();
        if v == "active".to_owned() {
            Ok(UserStatus::Active)
        } else if v == "suspended".to_owned() {
            Ok(UserStatus::Suspended)
        } else if v == "inactive".to_owned() {
            Ok(UserStatus::Inactive)
        } else {
            Err(
                ServiceError::ValidationError(
                    "Invalid status '".to_owned().concat(status).concat(
                        "'. Use: active, suspended, inactive",
                    ),
                ),
            )
        }
    }

    /// The identity an invitation goes to: it must exist and be unverified.
    pub fn invitable_identity(found: Option<UserIdentity>) -> (r: Result<UserIdentity, ServiceError>)
        ensures
            found is None ==> (r matches Err(e) && e@ == (ErrorKind::NotFoundError, "User identity not found"@)),
            found matches Some(i) && verified(i.email_verified) ==> (r matches Err(e) && e@ == (
                ErrorKind::ValidationError,
                "Email is already verified"@,
            )),
            found matches Some(i) ==> (!verified(i.email_verified) ==> r == Ok::<UserIdentity, ServiceError>(i)),
    {
        let identity = found_or_not_found(found, "User identity not found")?;
        if is_verified(identity.email_verified) {
            return Err(ServiceError::ValidationError("Email is already verified".to_owned()));
        }
        Ok(identity)
    }

    /// The link inviting the holder of `raw_token` to verify their email.
    pub fn get_invite_link(&self, raw_token: &str) -> (r: InviteLinkResponse)
        ensures
            r.invite_url@ == self.frontend_url() + "/verify-email?token="@ + raw_token@,
    {
        InviteLinkResponse {
            invite_url: self.frontend_url.clone().concat("/verify-email?token=").concat(raw_token),
        }
    }

    /// Whether setting the MFA requirement to `required` revokes the user's
    /// sessions: exactly when it is switched on.
    pub fn set_mfa_required_revokes(required: bool) -> (b: bool)
        ensures
            b == required,
    {
        required
    }

    /// The MFA state after setting the requirement.
    pub fn set_mfa_required(required: bool, mfa_enabled: bool) -> (r: UserMfaStatusResponse)
        ensures
            r.mfa_required == required,
            r.mfa_enabled == mfa_enabled,
    {
        UserMfaStatusResponse { mfa_required: required, mfa_enabled }
    }

    /// The admin view of a user whose status was just updated.
    pub fn update_user_status_response(
        updated: User,
        identity: UserIdentity,
        roles: Vec<Role>,
        mfa_enabled: bool,
    ) -> (r: AdminUserResponse)
        ensures
            r.user_id == updated.user_id,
            r.status == updated.status,
            r.email == identity.email,
            r.email_verified == verified(identity.email_verified),
            r.roles@.len() == roles@.len(),
            r.mfa_enabled == mfa_enabled,
            r.mfa_required == updated.mfa_required,
    {
        let mfa_required = updated.mfa_required;
        let email_verified = is_verified(identity.email_verified);
        Self::user_to_admin_response(updated, identity.email, email_verified, roles, mfa_enabled, mfa_required)
    }
}

} // verus!
