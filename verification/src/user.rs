//! The signed-in user's own profile, sessions, roles and password, and the
//! administrators' view of every live session.

use vstd::prelude::*;
use crate::domain::{
    admin_required, found_or, found_or_not_found, has_role, is_role_response, is_verified,
    permissions_response, require_admin_role, verified, AuthenticatedUserContext, Role, Session, User,
    UserIdentity, UserPermissionsResponse, UserStatus,
};
use crate::errors::{ErrorKind, ServiceError};

verus! {

/// The signed-in user's profile.
#[derive(Debug)]
pub struct UserProfileResponse {
    pub user_id: u128,
    pub first_name: Option<String>,
    pub last_name: Option<String>,
    pub avatar_url: Option<String>,
    pub status: UserStatus,
    pub email: String,
    pub email_verified: bool,
    pub mfa_enabled: bool,
    pub created_at: Option<i64>,
}

/// One of the signed-in user's sessions.
#[derive(Debug)]
pub struct UserSessionResponse {
    pub session_id: u128,
    pub user_agent: Option<String>,
    pub ip_address: Option<String>,
    pub device_type: Option<String>,
    pub last_used_at: Option<i64>,
    pub created_at: Option<i64>,
    pub expires_at: i64,
    /// The session of the request itself.
    pub is_current: bool,
}

/// One of the signed-in user's sessions, in detail.
#[derive(Debug)]
pub struct UserSessionDetailResponse {
    pub session_id: u128,
    pub user_agent: Option<String>,
    pub ip_address: Option<String>,
    pub device_type: Option<String>,
    pub last_used_at: Option<i64>,
    pub created_at: Option<i64>,
    pub expires_at: i64,
    pub revoked_at: Option<i64>,
    pub is_current: bool,
    /// Neither revoked nor expired.
    pub is_active: bool,
}

/// A live session as administrators see it.
#[derive(Debug)]
pub struct AdminSessionResponse {
    pub session_id: u128,
    pub user_id: u128,
    pub user_email: String,
    pub user_agent: Option<String>,
    pub ip_address: Option<String>,
    pub device_type: Option<String>,
    pub last_used_at: Option<i64>,
    pub created_at: Option<i64>,
    pub expires_at: i64,
}

/// How many sessions a bulk revocation revoked.
#[derive(Debug)]
pub struct BulkRevokeSessionsResponse {
    pub revoked_count: usize,
}

/// Whether `r` lists `s` for the caller whose session is `current`.
pub open spec fn is_session_response(r: UserSessionResponse, s: Session, current: u128) -> bool {
    &&& r.session_id == s.session_id
    &&& r.user_agent == s.user_agent
    &&& r.ip_address == s.ip_address
    &&& r.device_type == s.device_type
    &&& r.last_used_at == s.last_used_at
    &&& r.created_at == s.created_at
    &&& r.expires_at == s.refresh_token_expires_at
    &&& r.is_current == (s.session_id == current)
}

/// Whether `r` shows `s`, which belongs to the user with `email`, to an administrator.
pub open spec fn is_admin_session_response(r: AdminSessionResponse, s: Session, email: String) -> bool {
    &&& r.session_id == s.session_id
    &&& r.user_id == s.user_id
    &&& r.user_email == email
    &&& r.user_agent == s.user_agent
    &&& r.ip_address == s.ip_address
    &&& r.device_type == s.device_type
    &&& r.last_used_at == s.last_used_at
    &&& r.created_at == s.created_at
    &&& r.expires_at == s.refresh_token_expires_at
}

/// Whether a session is live at `now`: not revoked and not expired.
pub open spec fn session_live(s: Session, now: i64) -> bool {
    s.revoked_at is None && s.refresh_token_expires_at > now
}

/// The user application (it keeps no state).
pub struct UserApplication {}

impl UserApplication {
    /// The user application.
    pub fn new() -> (a: UserApplication) {
        UserApplication {  }
    }

    /// The user a profile operation is about, or "User not found".
    pub fn existing_user(found: Option<User>) -> (r: Result<User, ServiceError>)
        ensures
            found matches Some(x) ==> r == Ok::<User, ServiceError>(x),
            found is None ==> (r matches Err(e) && e@ == (ErrorKind::NotFoundError, "User not found"@)),
    {
        found_or_not_found(found, "User not found")
    }

    /// The primary identity of that user, or "Identity not found".
    pub fn existing_identity(found: Option<UserIdentity>) -> (r: Result<UserIdentity, ServiceError>)
        ensures
            found matches Some(x) ==> r == Ok::<UserIdentity, ServiceError>(x),
            found is None ==> (r matches Err(e) && e@ == (ErrorKind::NotFoundError, "Identity not found"@)),
    {
        found_or_not_found(found, "Identity not found")
    }

    /// The profile of `user`, whose primary identity is `identity`.
    pub fn get_me(user: User, identity: UserIdentity, mfa_enabled: bool) -> (r: UserProfileResponse)
        ensures
            r.user_id == user.user_id,
            r.first_name == user.first_name,
            r.last_name == user.last_name,
            r.avatar_url == user.avatar_url,
            r.status == user.status,
            r.email == identity.email,
            r.email_verified == verified(identity.email_verified),
            r.mfa_enabled == mfa_enabled,
            r.created_at == user.created_at,
    {
        UserProfileResponse {
            user_id: user.user_id,
            first_name: user.first_name,
            last_name: user.last_name,
            avatar_url: user.avatar_url,
            status: user.status,
            email: identity.email,
            email_verified: is_verified(identity.email_verified),
            mfa_enabled,
            created_at: user.created_at,
        }
    }

    /// The profile after an update (the same view as [`Self::get_me`]).
    pub fn update_me(updated: User, identity: UserIdentity, mfa_enabled: bool) -> (r: UserProfileResponse)
        ensures
            r.user_id == updated.user_id,
            r.first_name == updated.first_name,
            r.last_name == updated.last_name,
            r.avatar_url == updated.avatar_url,
            r.status == updated.status,
            r.email == identity.email,
            r.email_verified == verified(identity.email_verified),
            r.mfa_enabled == mfa_enabled,
            r.created_at == updated.created_at,
    {
        Self::get_me(updated, identity, mfa_enabled)
    }

    /// The caller's sessions, each marked when it is the caller's own.
    pub fn get_sessions(ctx: &AuthenticatedUserContext, sessions: Vec<Session>) -> (r: Vec<UserSessionResponse>)
        ensures
            r@.len() == sessions@.len(),
            forall|i: int|
                0 <= i < sessions@.len() ==> is_session_response(#[trigger] r@[i], sessions@[i], ctx.session_id),
    {
        let ghost all = sessions@;
        let mut sessions = sessions;
        let mut rev: Vec<UserSessionResponse> = Vec::new();
        while sessions.len() > 0
            invariant
                sessions@.len() + rev@.len() == all.len(),
                forall|j: int| 0 <= j < sessions@.len() ==> sessions@[j] == all[j],
                forall|j: int|
                    0 <= j < rev@.len() ==> is_session_response(
                        #[trigger] rev@[j],
                        all[all.len() - 1 - j],
                        ctx.session_id,
                    ),
            decreases sessions@.len(),
        {
            let s = sessions.pop().unwrap();
            let is_current = s.session_id == ctx.session_id;
            rev.push(
                UserSessionResponse {
                    session_id: s.session_id,
                    user_agent: s.user_agent,
                    ip_address: s.ip_address,
                    device_type: s.device_type,
                    last_used_at: s.last_used_at,
                    created_at: s.created_at,
                    expires_at: s.refresh_token_expires_at,
                    is_current,
                },
            );
        }
        let mut out: Vec<UserSessionResponse> = Vec::new();
        while rev.len() > 0
            invariant
                rev@.len() + out@.len() == all.len(),
                forall|j: int|
                    0 <= j < rev@.len() ==> is_session_response(
                        #[trigger] rev@[j],
                        all[all.len() - 1 - j],
                        ctx.session_id,
                    ),
                forall|j: int| 0 <= j < out@.len() ==> is_session_response(#[trigger] out@[j], all[j], ctx.session_id),
            decreases rev@.len(),
        {
            let r = rev.pop().unwrap();
            out.push(r);
        }
        out
    }

    /// One of the caller's sessions in detail, judged live or not at `now`.
    pub fn get_session(ctx: &AuthenticatedUserContext, s: Session, now: i64) -> (r: UserSessionDetailResponse)
        ensures
            r.session_id == s.session_id,
            r.user_agent == s.user_agent,
            r.ip_address == s.ip_address,
            r.device_type == s.device_type,
            r.last_used_at == s.last_used_at,
            r.created_at == s.created_at,
            r.expires_at == s.refresh_token_expires_at,
            r.revoked_at == s.revoked_at,
            r.is_current == (s.session_id == ctx.session_id),
            r.is_active == session_live(s, now),
    {
        let is_active = s.revoked_at.is_none() && s.refresh_token_expires_at > now;
        let is_current = s.session_id == ctx.session_id;
        UserSessionDetailResponse {
            session_id: s.session_id,
            user_agent: s.user_agent,
            ip_address: s.ip_address,
            device_type: s.device_type,
            last_used_at: s.last_used_at,
            created_at: s.created_at,
            expires_at: s.refresh_token_expires_at,
            revoked_at: s.revoked_at,
            is_current,
            is_active,
        }
    }

    /// The caller's roles.
    pub fn get_permissions(ctx: &AuthenticatedUserContext, roles: Vec<Role>) -> (r: UserPermissionsResponse)
        ensures
            r.user_id == ctx.user_id,
            r.roles@.len() == roles@.len(),
            forall|i: int| 0 <= i < roles@.len() ==> is_role_response(#[trigger] r.roles@[i], roles@[i]),
    {
        permissions_response(ctx.user_id, roles)
    }
}

/// The administrators' session application (it keeps no state).
pub struct AdminSessionApplication {}

impl AdminSessionApplication {
    /// The administrators' session application.
    pub fn new() -> (a: AdminSessionApplication) {
        AdminSessionApplication {  }
    }

    /// Succeeds exactly when the caller holds the `admin` role.
    pub fn require_admin(ctx: &AuthenticatedUserContext) -> (r: Result<(), ServiceError>)
        ensures
            r.is_ok() == has_role(ctx.roles@, "admin"@),
            r matches Err(e) ==> admin_required(e),
    {
        require_admin_role(ctx)
    }

    /// The live sessions, each with its owner's email.
    pub fn get_all_active_sessions(rows: Vec<(Session, String)>) -> (r: Vec<AdminSessionResponse>)
        ensures
            r@.len() == rows@.len(),
            forall|i: int|
                0 <= i < rows@.len() ==> is_admin_session_response(#[trigger] r@[i], rows@[i].0, rows@[i].1),
    {
        let ghost all = rows@;
        let mut rows = rows;
        let mut rev: Vec<AdminSessionResponse> = Vec::new();
        while rows.len() > 0
            invariant
                rows@.len() + rev@.len() == all.len(),
                forall|j: int| 0 <= j < rows@.len() ==> rows@[j] == all[j],
                forall|j: int|
                    0 <= j < rev@.len() ==> is_admin_session_response(
                        #[trigger] rev@[j],
                        all[all.len() - 1 - j].0,
                        all[all.len() - 1 - j].1,
                    ),
            decreases rows@.len(),
        {
            let (s, email) = rows.pop().unwrap();
            rev.push(
                AdminSessionResponse {
                    session_id: s.session_id,
                    user_id: s.user_id,
                    user_email: email,
                    user_agent: s.user_agent,
                    ip_address: s.ip_address,
                    device_type: s.device_type,
                    last_used_at: s.last_used_at,
                    created_at: s.created_at,
                    expires_at: s.refresh_token_expires_at,
                },
            );
        }
        let mut out: Vec<AdminSessionResponse> = Vec::new();
        while rev.len() > 0
            invariant
                rev@.len() + out@.len() == all.len(),
                forall|j: int|
                    0 <= j < rev@.len() ==> is_admin_session_response(
                        #[trigger] rev@[j],
                        all[all.len() - 1 - j].0,
                        all[all.len() - 1 - j].1,
                    ),
                forall|j: int| 0 <= j < out@.len() ==> is_admin_session_response(#[trigger] out@[j], all[j].0, all[j].1),
            decreases rev@.len(),
        {
            let r = rev.pop().unwrap();
            out.push(r);
        }
        out
    }

    /// The answer to a bulk revocation.
    pub fn revoke_sessions_bulk(revoked_count: usize) -> (r: BulkRevokeSessionsResponse)
        ensures
            r.revoked_count == revoked_count,
    {
        BulkRevokeSessionsResponse { revoked_count }
    }
}

/// The signed-in user's password change (it keeps no state).
pub struct UserPasswordApplication {}

impl UserPasswordApplication {
    /// The password-change application.
    pub fn new() -> (a: UserPasswordApplication) {
        UserPasswordApplication {  }
    }

    /// The caller's primary identity, or "Identity not found".
    pub fn existing_identity(found: Option<UserIdentity>) -> (r: Result<UserIdentity, ServiceError>)
        ensures
            found matches Some(x) ==> r == Ok::<UserIdentity, ServiceError>(x),
            found is None ==> (r matches Err(e) && e@ == (ErrorKind::NotFoundError, "Identity not found"@)),
    {
        found_or_not_found(found, "Identity not found")
    }

    /// The outcome of checking the current password: any failure to verify
    /// it is reported as an incorrect password, whatever its cause.
    pub fn check_current_password<T>(verification: Result<T, ServiceError>) -> (r: Result<(), ServiceError>)
        ensures
            verification is Ok ==> r is Ok,
            verification is Err ==> (r matches Err(e) && e@ == (ErrorKind::AuthenticationError, "Current password is incorrect"@)),
    {
        match verification {
            Ok(_) => Ok(()),
            Err(_) => Err(ServiceError::AuthenticationError("Current password is incorrect".to_owned())),
        }
    }

    /// The caller's user row, needed for the notification; its absence is an
    /// internal error.
    pub fn existing_user(found: Option<User>) -> (r: Result<User, ServiceError>)
        ensures
            found matches Some(x) ==> r == Ok::<User, ServiceError>(x),
            found is None ==> (r matches Err(e) && e@ == (ErrorKind::InternalError, "User not found"@)),
    {
        found_or(found, ErrorKind::InternalError, "User not found")
    }
}

} // verus!
