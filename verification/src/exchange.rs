//! Token exchange as a plan: an admin's API token is traded for a session of
//! the user named by e-mail, creating that user when there is none.
//!
//! The API token is validated and its owner must hold the admin role. The
//! target is looked up by e-mail. An existing target must have been created by
//! token exchange; its profile is refreshed and its identity marked verified.
//! A missing target is created (active, verified, no password) with the
//! default user role. Either way its roles are read, tokens are signed for a
//! fresh session id, the session row is written on the admin's behalf, the
//! API token's use is recorded, and the tokens are returned. MFA is never
//! asked for.

use vstd::prelude::*;
use crate::auth::{after_first_space, first_space, first_word, has_admin_role, AuthApplication, BasicLoginResponse, new_user_role};
use crate::domain::{IdentityProvider, Role, Session, SessionTokens, User, UserIdentity, UserRole, UserStatus};
use crate::errors::{ErrorKind, ServiceError};
use crate::ids::{new_id, now_seconds, CLOCK_BOUND, UUID_V4_BITS, UUID_VERSION_VARIANT_MASK};
use crate::tokens::ApiToken;

verus! {

/// Where an exchange stands.
#[derive(Clone, Copy, Debug, PartialEq, Eq, Structural)]
pub enum ExchangePhase {
    AwaitToken,
    AwaitAdminRoles,
    AwaitIdentity,
    AwaitUser,
    AwaitProfile,
    AwaitIdentityState,
    AwaitUserCreated,
    AwaitIdentityCreated,
    AwaitDefaultRole,
    AwaitRoleAssigned,
    AwaitRoles,
    AwaitTokens,
    AwaitSession,
    AwaitUsage,
    Finished,
}

/// What the caller does next for an exchange.
#[derive(Debug)]
pub enum ExchangeStep {
    /// Validate the presented `api_token` (hash, revocation, expiry); answer
    /// with [`ExchangeEvent::TokenValidated`].
    ValidateApiToken { api_token: String },
    /// Read the roles of the token's owner; answer with [`ExchangeEvent::AdminRoles`].
    GetAdminRoles { user_id: u128 },
    /// Look the target up by e-mail; answer with [`ExchangeEvent::IdentityByEmail`].
    FindIdentityByEmail { email: String },
    /// Load the target's account; answer with [`ExchangeEvent::User`].
    FindUser { user_id: u128 },
    /// Store the display name and avatar on the target's account; answer with
    /// [`ExchangeEvent::ProfileUpdated`].
    UpdateProfile { user_id: u128, display_name: String, avatar_url: Option<String> },
    /// Mark the identity verified and free of a forced password change;
    /// answer with [`ExchangeEvent::IdentityState`].
    EnsureIdentityState { identity_id: u128 },
    /// Insert this account; answer with [`ExchangeEvent::UserCreated`].
    CreateUser(User),
    /// Insert this identity; answer with [`ExchangeEvent::IdentityCreated`].
    CreateIdentity(UserIdentity),
    /// Read the role of type `user`; answer with [`ExchangeEvent::DefaultRole`].
    GetDefaultRole,
    /// Insert this role assignment; answer with [`ExchangeEvent::RoleAssigned`].
    AssignRole(UserRole),
    /// Read the roles of `user_id`; answer with [`ExchangeEvent::Roles`].
    GetRoles { user_id: u128 },
    /// Sign session tokens for the target under `session_id`; answer with
    /// [`ExchangeEvent::Tokens`].
    SignTokens { session_id: u128 },
    /// Insert this session row; answer with [`ExchangeEvent::SessionCreated`].
    CreateSession(Session),
    /// Stamp the API token as used; answer with [`ExchangeEvent::UsageRecorded`].
    RecordUsage { api_token_id: u128 },
    /// The exchange's answer.
    Done(Result<BasicLoginResponse, ServiceError>),
}

/// What the caller learned by performing an [`ExchangeStep`].
#[derive(Debug)]
pub enum ExchangeEvent {
    TokenValidated(Result<ApiToken, ServiceError>),
    AdminRoles(Result<Vec<Role>, ServiceError>),
    IdentityByEmail(Result<Option<UserIdentity>, ServiceError>),
    User(Result<Option<User>, ServiceError>),
    ProfileUpdated(Result<User, ServiceError>),
    IdentityState(Result<UserIdentity, ServiceError>),
    UserCreated(Result<User, ServiceError>),
    IdentityCreated(Result<UserIdentity, ServiceError>),
    DefaultRole(Result<Role, ServiceError>),
    RoleAssigned(Result<(), ServiceError>),
    Roles(Result<Vec<Role>, ServiceError>),
    Tokens(Result<SessionTokens, ServiceError>),
    SessionCreated(Result<(), ServiceError>),
    UsageRecorded(Result<(), ServiceError>),
}

/// Whether an exchange `step` ends the flow with an error whose view is `e`.
pub open spec fn exchange_fails_with(step: ExchangeStep, e: (ErrorKind, Seq<char>)) -> bool {
    step matches ExchangeStep::Done(Err(x)) && x@ == e
}

/// Whether `u` is the account token exchange creates with id `user_id` for
/// `display_name` and `avatar_url`, on behalf of `admin` at `now`.
pub open spec fn is_federated_user(
    u: User,
    user_id: u128,
    display_name: Seq<char>,
    avatar_url: Option<String>,
    admin: u128,
    now: i64,
) -> bool {
    &&& u.user_id == user_id
    &&& u.first_name matches Some(f) && f@ == first_word(display_name)
    &&& (u.last_name is Some <==> first_space(display_name) is Some)
    &&& (u.last_name matches Some(l) ==> Some(l@) == after_first_space(display_name))
    &&& u.avatar_url == avatar_url
    &&& u.display_name matches Some(d) && d@ == display_name
    &&& u.status == UserStatus::Active
    &&& u.token_version == 0
    &&& !u.mfa_required
    &&& u.created_by == Some(admin) && u.updated_by == Some(admin)
    &&& u.created_at == Some(now) && u.updated_at == Some(now)
}

/// Whether `i` is the identity token exchange creates for account `user_id`
/// and `email`, on behalf of `admin` at `now`.
pub open spec fn is_federated_identity(i: UserIdentity, user_id: u128, email: String, admin: u128, now: i64) -> bool {
    &&& i.user_id == user_id
    &&& i.provider == IdentityProvider::TokenFederation
    &&& i.provider_user_id is None
    &&& i.email == email
    &&& i.password_hash is None
    &&& i.email_verified == Some(true)
    &&& i.is_primary
    &&& !i.must_change_password
    &&& i.created_by == Some(admin) && i.updated_by == Some(admin)
    &&& i.created_at == Some(now) && i.updated_at == Some(now)
}

/// An exchange in progress.
pub struct ExchangeFlow {
    phase: ExchangePhase,
    email: String,
    display_name: String,
    avatar_url: Option<String>,
    api_token_id: u128,
    admin_user_id: u128,
    existing: Option<UserIdentity>,
    new_user_id: u128,
    created_at: i64,
    user: Option<User>,
    identity: Option<UserIdentity>,
    roles: Vec<Role>,
    session_id: u128,
    pending: Option<BasicLoginResponse>,
}

impl ExchangeFlow {
    pub closed spec fn phase(&self) -> ExchangePhase {
        self.phase
    }

    /// The e-mail that names the target.
    pub closed spec fn email(&self) -> String {
        self.email
    }

    /// The display name the target gets.
    pub closed spec fn display_name(&self) -> Seq<char> {
        self.display_name@
    }

    /// The avatar the target gets.
    pub closed spec fn avatar_url(&self) -> Option<String> {
        self.avatar_url
    }

    /// The validated API token.
    pub closed spec fn api_token_id(&self) -> u128 {
        self.api_token_id
    }

    /// The admin who owns the API token.
    pub closed spec fn admin_user_id(&self) -> u128 {
        self.admin_user_id
    }

    /// The target's identity, when the e-mail was already known.
    pub closed spec fn existing(&self) -> Option<UserIdentity> {
        self.existing
    }

    /// The id given to a target created by this exchange.
    pub closed spec fn new_user_id(&self) -> u128 {
        self.new_user_id
    }

    /// When a created target was created.
    pub closed spec fn created_at(&self) -> i64 {
        self.created_at
    }

    /// The target's account, as last written.
    pub closed spec fn user(&self) -> Option<User> {
        self.user
    }

    /// The target's identity, as last written.
    pub closed spec fn identity(&self) -> Option<UserIdentity> {
        self.identity
    }

    /// The target's roles.
    pub closed spec fn roles(&self) -> Seq<Role> {
        self.roles@
    }

    /// The id of the session being opened.
    pub closed spec fn session_id(&self) -> u128 {
        self.session_id
    }

    /// The answer waiting for the last writes.
    pub closed spec fn pending(&self) -> Option<BasicLoginResponse> {
        self.pending
    }

    /// What the flow holds in each phase.
    pub closed spec fn wf(&self) -> bool {
        match self.phase {
            ExchangePhase::AwaitUser => self.existing is Some,
            ExchangePhase::AwaitProfile | ExchangePhase::AwaitIdentityState => self.existing is Some
                && self.user is Some,
            ExchangePhase::AwaitIdentityCreated => self.user is Some,
            ExchangePhase::AwaitDefaultRole | ExchangePhase::AwaitRoleAssigned
            | ExchangePhase::AwaitRoles | ExchangePhase::AwaitTokens => self.user is Some
                && self.identity is Some,
            ExchangePhase::AwaitSession | ExchangePhase::AwaitUsage => self.pending is Some,
            _ => true,
        }
    }

    /// Whether `event` answers the flow's last step.
    pub open spec fn accepts(&self, event: ExchangeEvent) -> bool {
        match self.phase() {
            ExchangePhase::AwaitToken => event is TokenValidated,
            ExchangePhase::AwaitAdminRoles => event is AdminRoles,
            ExchangePhase::AwaitIdentity => event is IdentityByEmail,
            ExchangePhase::AwaitUser => event is User,
            ExchangePhase::AwaitProfile => event is ProfileUpdated,
            ExchangePhase::AwaitIdentityState => event is IdentityState,
            ExchangePhase::AwaitUserCreated => event is UserCreated,
            ExchangePhase::AwaitIdentityCreated => event is IdentityCreated,
            ExchangePhase::AwaitDefaultRole => event is DefaultRole,
            ExchangePhase::AwaitRoleAssigned => event is RoleAssigned,
            ExchangePhase::AwaitRoles => event is Roles,
            ExchangePhase::AwaitTokens => event is Tokens,
            ExchangePhase::AwaitSession => event is SessionCreated,
            ExchangePhase::AwaitUsage => event is UsageRecorded,
            ExchangePhase::Finished => false,
        }
    }

    /// The target's account (once known).
    pub fn user_ref(&self) -> (u: &User)
        requires
            self.user() is Some,
        ensures
            Some(*u) == self.user(),
    {
        self.user.as_ref().unwrap()
    }

    /// The target's identity (once known).
    pub fn identity_ref(&self) -> (i: &UserIdentity)
        requires
            self.identity() is Some,
        ensures
            Some(*i) == self.identity(),
    {
        self.identity.as_ref().unwrap()
    }

    /// The target's roles (once read).
    pub fn roles_ref(&self) -> (r: &Vec<Role>)
        ensures
            r@ == self.roles(),
    {
        &self.roles
    }

    /// A copy of the avatar the target gets.
    fn avatar_copy(&self) -> (a: Option<String>)
        ensures
            a == self.avatar_url(),
    {
        match &self.avatar_url {
            Some(s) => Some(s.clone()),
            None => None,
        }
    }
}

impl AuthApplication {
    /// Start exchanging `api_token` for a session of the user with `email`,
    /// who gets `display_name` and `avatar_url`.
    pub fn begin_exchange(
        &self,
        api_token: String,
        email: String,
        display_name: String,
        avatar_url: Option<String>,
    ) -> (r: (ExchangeFlow, ExchangeStep))
        ensures
            r.0.wf(),
            r.0.phase() == ExchangePhase::AwaitToken,
            r.0.email() == email,
            r.0.display_name() == display_name@,
            r.0.avatar_url() == avatar_url,
            r.1 == (ExchangeStep::ValidateApiToken { api_token }),
    {
        (
            ExchangeFlow {
                phase: ExchangePhase::AwaitToken,
                email,
                display_name,
                avatar_url,
                api_token_id: 0,
                admin_user_id: 0,
                existing: None,
                new_user_id: 0,
                created_at: 0,
                user: None,
                identity: None,
                roles: Vec::new(),
                session_id: 0,
                pending: None,
            },
            ExchangeStep::ValidateApiToken { api_token },
        )
    }

    /// Advance an exchange with the answer to its last step. Every failed
    /// read or write ends the exchange with that very error.
    pub fn step_exchange(&self, flow: &mut ExchangeFlow, event: ExchangeEvent) -> (step: ExchangeStep)
        requires
            old(flow).wf(),
            old(flow).accepts(event),
        ensures
            final(flow).wf(),
            step is Done <==> final(flow).phase() == ExchangePhase::Finished,
            final(flow).email() == old(flow).email(),
            final(flow).display_name() == old(flow).display_name(),
            final(flow).avatar_url() == old(flow).avatar_url(),
            old(flow).phase() != ExchangePhase::AwaitToken ==> final(flow).admin_user_id()
                == old(flow).admin_user_id() && final(flow).api_token_id() == old(flow).api_token_id(),
            // What a step does not set is carried unchanged: the target account
            // and identity, its roles, the session id and the prepared answer.
            !(event is IdentityByEmail) ==> final(flow).existing() == old(flow).existing()
                && final(flow).new_user_id() == old(flow).new_user_id()
                && final(flow).created_at() == old(flow).created_at(),
            !(event is User) && !(event is ProfileUpdated) && !(event is UserCreated) ==> final(flow).user()
                == old(flow).user(),
            !(event is IdentityState) && !(event is IdentityCreated) ==> final(flow).identity() == old(flow).identity(),
            !(event is Roles) ==> final(flow).roles() == old(flow).roles()
                && final(flow).session_id() == old(flow).session_id(),
            !(event is Tokens) && !(event is UsageRecorded) ==> final(flow).pending() == old(flow).pending(),
            // The API token and its owner, who must be an admin.
            event matches ExchangeEvent::TokenValidated(Err(e)) ==> exchange_fails_with(step, e@),
            event matches ExchangeEvent::TokenValidated(Ok(t)) ==> (step == ExchangeStep::GetAdminRoles {
                user_id: t.user_id,
            } && final(flow).admin_user_id() == t.user_id && final(flow).api_token_id() == t.api_token_id
                && final(flow).phase() == ExchangePhase::AwaitAdminRoles),
            event matches ExchangeEvent::AdminRoles(Err(e)) ==> exchange_fails_with(step, e@),
            event matches ExchangeEvent::AdminRoles(Ok(rs)) ==> (if has_admin_role(rs@) {
                step == ExchangeStep::FindIdentityByEmail { email: old(flow).email() }
                    && final(flow).phase() == ExchangePhase::AwaitIdentity
            } else {
                exchange_fails_with(step, (ErrorKind::AuthorizationError, "Insufficient permissions"@))
            }),
            // The target: known by e-mail, or to be created.
            event matches ExchangeEvent::IdentityByEmail(Err(e)) ==> exchange_fails_with(step, e@),
            event matches ExchangeEvent::IdentityByEmail(Ok(Some(i))) ==> (step == ExchangeStep::FindUser {
                user_id: i.user_id,
            } && final(flow).existing() == Some(i) && final(flow).phase() == ExchangePhase::AwaitUser),
            event matches ExchangeEvent::IdentityByEmail(Ok(None)) ==> (step matches ExchangeStep::CreateUser(u)
                && is_federated_user(
                u,
                final(flow).new_user_id(),
                old(flow).display_name(),
                old(flow).avatar_url(),
                old(flow).admin_user_id(),
                final(flow).created_at(),
            ) && 0 <= final(flow).created_at() < CLOCK_BOUND && final(flow).existing() is None
                && final(flow).phase() == ExchangePhase::AwaitUserCreated),
            // An existing target must have been created by token exchange.
            event matches ExchangeEvent::User(Err(e)) ==> exchange_fails_with(step, e@),
            event matches ExchangeEvent::User(Ok(None)) ==> exchange_fails_with(
                step,
                (ErrorKind::AuthenticationError, "User not found"@),
            ),
            event matches ExchangeEvent::User(Ok(Some(u))) ==> (if old(flow).existing().unwrap().provider
                == IdentityProvider::TokenFederation {
                step == ExchangeStep::UpdateProfile {
                    user_id: u.user_id,
                    display_name: step->display_name,
                    avatar_url: old(flow).avatar_url(),
                } && step->display_name@ == old(flow).display_name() && final(flow).user() == Some(u)
                    && final(flow).phase() == ExchangePhase::AwaitProfile
            } else {
                exchange_fails_with(
                    step,
                    (ErrorKind::ValidationError, "User exists but was not created via token federation"@),
                )
            }),
            event matches ExchangeEvent::ProfileUpdated(Err(e)) ==> exchange_fails_with(step, e@),
            event matches ExchangeEvent::ProfileUpdated(Ok(u)) ==> (step == ExchangeStep::EnsureIdentityState {
                identity_id: old(flow).existing().unwrap().identity_id,
            } && final(flow).user() == Some(u) && final(flow).phase() == ExchangePhase::AwaitIdentityState),
            event matches ExchangeEvent::IdentityState(Err(e)) ==> exchange_fails_with(step, e@),
            event matches ExchangeEvent::IdentityState(Ok(i)) ==> (step == ExchangeStep::GetRoles {
                user_id: old(flow).user().unwrap().user_id,
            } && final(flow).identity() == Some(i) && final(flow).user() == old(flow).user()
                && final(flow).phase() == ExchangePhase::AwaitRoles),
            // A created target: its identity, then the default role.
            event matches ExchangeEvent::UserCreated(Err(e)) ==> exchange_fails_with(step, e@),
            event matches ExchangeEvent::UserCreated(Ok(u)) ==> (step matches ExchangeStep::CreateIdentity(i)
                && is_federated_identity(
                i,
                old(flow).new_user_id(),
                old(flow).email(),
                old(flow).admin_user_id(),
                old(flow).created_at(),
            ) && final(flow).user() == Some(u) && final(flow).phase() == ExchangePhase::AwaitIdentityCreated),
            event matches ExchangeEvent::IdentityCreated(Err(e)) ==> exchange_fails_with(step, e@),
            event matches ExchangeEvent::IdentityCreated(Ok(i)) ==> (step is GetDefaultRole
                && final(flow).identity() == Some(i) && final(flow).user() == old(flow).user()
                && final(flow).phase() == ExchangePhase::AwaitDefaultRole),
            event matches ExchangeEvent::DefaultRole(Err(e)) ==> exchange_fails_with(step, e@),
            event matches ExchangeEvent::DefaultRole(Ok(role)) ==> (step matches ExchangeStep::AssignRole(ur)
                && ur.user_id == old(flow).new_user_id() && ur.role_id == role.role_id && ur.created_by
                == Some(old(flow).admin_user_id()) && 0 <= ur.created_at < CLOCK_BOUND
                && final(flow).phase() == ExchangePhase::AwaitRoleAssigned),
            event matches ExchangeEvent::RoleAssigned(Err(e)) ==> exchange_fails_with(step, e@),
            event matches ExchangeEvent::RoleAssigned(Ok(())) ==> (step == ExchangeStep::GetRoles {
                user_id: old(flow).user().unwrap().user_id,
            } && final(flow).phase() == ExchangePhase::AwaitRoles),
            // Roles, tokens for a fresh session id, the session row, the usage stamp.
            event matches ExchangeEvent::Roles(Err(e)) ==> exchange_fails_with(step, e@),
            event matches ExchangeEvent::Roles(Ok(rs)) ==> (step == ExchangeStep::SignTokens {
                session_id: final(flow).session_id(),
            } && final(flow).session_id() & UUID_VERSION_VARIANT_MASK == UUID_V4_BITS
                && final(flow).roles() == rs@ && final(flow).user() == old(flow).user()
                && final(flow).identity() == old(flow).identity() && final(flow).phase() == ExchangePhase::AwaitTokens),
            event matches ExchangeEvent::Tokens(Err(e)) ==> exchange_fails_with(step, e@),
            event matches ExchangeEvent::Tokens(Ok(t)) ==> (step matches ExchangeStep::CreateSession(s)
                && s.session_id == old(flow).session_id() && s.user_id == old(flow).user().unwrap().user_id
                && s.identity_id == old(flow).identity().unwrap().identity_id && s.refresh_token_hash
                == t.refresh_token_hash && s.revoked_at is None && s.created_at is Some
                && 0 <= s.created_at.unwrap() < CLOCK_BOUND
                && s.user_agent is None && s.ip_address is None && s.device_type is None
                && s.last_used_at is None && s.updated_at == s.created_at && s.updated_by == s.created_by
                && s.refresh_token_family & UUID_VERSION_VARIANT_MASK == UUID_V4_BITS
                && s.refresh_token_expires_at == s.created_at.unwrap() + self.refresh_ttl()
                && s.created_by == Some(old(flow).admin_user_id()) && s.updated_by == Some(old(flow).admin_user_id())
                && final(flow).phase() == ExchangePhase::AwaitSession && (final(flow).pending()
                matches Some(p) && p.user_id == s.user_id && p.access_token == t.access_token
                && p.refresh_token == t.refresh_token && p.expires_at == s.created_at.unwrap()
                + self.access_ttl() && p.must_change_password == old(flow).identity().unwrap().must_change_password && !p.mfa_setup_required)),
            event matches ExchangeEvent::SessionCreated(Err(e)) ==> exchange_fails_with(step, e@),
            event matches ExchangeEvent::SessionCreated(Ok(())) ==> (step == ExchangeStep::RecordUsage {
                api_token_id: old(flow).api_token_id(),
            } && final(flow).pending() == old(flow).pending() && final(flow).phase() == ExchangePhase::AwaitUsage),
            event matches ExchangeEvent::UsageRecorded(Err(e)) ==> exchange_fails_with(step, e@),
            event matches ExchangeEvent::UsageRecorded(Ok(())) ==> step == ExchangeStep::Done(
                Ok(old(flow).pending().unwrap()),
            ),
    {
        match event {
            ExchangeEvent::TokenValidated(r) => match r {
                Err(e) => self.finish_exchange(flow, e),
                Ok(t) => {
                    flow.admin_user_id = t.user_id;
                    flow.api_token_id = t.api_token_id;
                    flow.phase = ExchangePhase::AwaitAdminRoles;
                    ExchangeStep::GetAdminRoles { user_id: t.user_id }
                },
            },
            ExchangeEvent::AdminRoles(r) => match r {
                Err(e) => self.finish_exchange(flow, e),
                Ok(rs) => match AuthApplication::require_token_admin(&rs) {
                    Err(e) => self.finish_exchange(flow, e),
                    Ok(()) => {
                        flow.phase = ExchangePhase::AwaitIdentity;
                        ExchangeStep::FindIdentityByEmail { email: flow.email.clone() }
                    },
                },
            },
            ExchangeEvent::IdentityByEmail(r) => match r {
                Err(e) => self.finish_exchange(flow, e),
                Ok(Some(i)) => {
                    let user_id = i.user_id;
                    flow.existing = Some(i);
                    flow.phase = ExchangePhase::AwaitUser;
                    ExchangeStep::FindUser { user_id }
                },
                Ok(None) => {
                    let user_id = new_id();
                    let now = now_seconds();
                    let avatar = flow.avatar_copy();
                    let u = AuthApplication::new_federated_user(
                        user_id,
                        flow.display_name.as_str(),
                        avatar,
                        flow.admin_user_id,
                        now,
                    );
                    flow.existing = None;
                    flow.new_user_id = user_id;
                    flow.created_at = now;
                    flow.phase = ExchangePhase::AwaitUserCreated;
                    ExchangeStep::CreateUser(u)
                },
            },
            ExchangeEvent::User(r) => match r {
                Err(e) => self.finish_exchange(flow, e),
                Ok(None) => self.finish_exchange(
                    flow,
                    ServiceError::AuthenticationError("User not found".to_owned()),
                ),
                Ok(Some(u)) => {
                    let checked = match &flow.existing {
                        Some(i) => AuthApplication::check_federated_identity(i),
                        None => Ok(()),
                    };
                    match checked {
                        Err(e) => self.finish_exchange(flow, e),
                        Ok(()) => {
                            let user_id = u.user_id;
                            flow.user = Some(u);
                            flow.phase = ExchangePhase::AwaitProfile;
                            ExchangeStep::UpdateProfile {
                                user_id,
                                display_name: flow.display_name.clone(),
                                avatar_url: flow.avatar_copy(),
                            }
                        },
                    }
                },
            },
            ExchangeEvent::ProfileUpdated(r) => match r {
                Err(e) => self.finish_exchange(flow, e),
                Ok(u) => {
                    let identity_id = match &flow.existing {
                        Some(i) => i.identity_id,
                        None => 0,
                    };
                    flow.user = Some(u);
                    flow.phase = ExchangePhase::AwaitIdentityState;
                    ExchangeStep::EnsureIdentityState { identity_id }
                },
            },
            ExchangeEvent::IdentityState(r) => match r {
                Err(e) => self.finish_exchange(flow, e),
                Ok(i) => {
                    flow.identity = Some(i);
                    flow.phase = ExchangePhase::AwaitRoles;
                    ExchangeStep::GetRoles { user_id: flow.user_ref().user_id }
                },
            },
            ExchangeEvent::UserCreated(r) => match r {
                Err(e) => self.finish_exchange(flow, e),
                Ok(u) => {
                    let identity = AuthApplication::new_federated_identity(
                        new_id(),
                        flow.new_user_id,
                        flow.email.clone(),
                        flow.admin_user_id,
                        flow.created_at,
                    );
                    flow.user = Some(u);
                    flow.phase = ExchangePhase::AwaitIdentityCreated;
                    ExchangeStep::CreateIdentity(identity)
                },
            },
            ExchangeEvent::IdentityCreated(r) => match r {
                Err(e) => self.finish_exchange(flow, e),
                Ok(i) => {
                    flow.identity = Some(i);
                    flow.phase = ExchangePhase::AwaitDefaultRole;
                    ExchangeStep::GetDefaultRole
                },
            },
            ExchangeEvent::DefaultRole(r) => match r {
                Err(e) => self.finish_exchange(flow, e),
                Ok(role) => {
                    let assignment = new_user_role(
                        new_id(),
                        flow.new_user_id,
                        role.role_id,
                        flow.admin_user_id,
                        now_seconds(),
                    );
                    flow.phase = ExchangePhase::AwaitRoleAssigned;
                    ExchangeStep::AssignRole(assignment)
                },
            },
            ExchangeEvent::RoleAssigned(r) => match r {
                Err(e) => self.finish_exchange(flow, e),
                Ok(()) => {
                    flow.phase = ExchangePhase::AwaitRoles;
                    ExchangeStep::GetRoles { user_id: flow.user_ref().user_id }
                },
            },
            ExchangeEvent::Roles(r) => match r {
                Err(e) => self.finish_exchange(flow, e),
                Ok(rs) => {
                    flow.roles = rs;
                    let session_id = new_id();
                    flow.session_id = session_id;
                    flow.phase = ExchangePhase::AwaitTokens;
                    ExchangeStep::SignTokens { session_id }
                },
            },
            ExchangeEvent::Tokens(r) => match r {
                Err(e) => self.finish_exchange(flow, e),
                Ok(t) => {
                    let family = new_id();
                    let now = now_seconds();
                    let access = self.access_ttl_secs();
                    let refresh = self.refresh_ttl_secs();
                    let (session, response) = self.issue_session(
                        flow.user_ref(),
                        flow.identity_ref(),
                        flow.session_id,
                        family,
                        t,
                        now,
                        flow.admin_user_id,
                        false,
                    );
                    flow.pending = Some(response);
                    flow.phase = ExchangePhase::AwaitSession;
                    ExchangeStep::CreateSession(session)
                },
            },
            ExchangeEvent::SessionCreated(r) => match r {
                Err(e) => self.finish_exchange(flow, e),
                Ok(()) => {
                    flow.phase = ExchangePhase::AwaitUsage;
                    ExchangeStep::RecordUsage { api_token_id: flow.api_token_id }
                },
            },
            ExchangeEvent::UsageRecorded(r) => match r {
                Err(e) => self.finish_exchange(flow, e),
                Ok(()) => {
                    let mut pending: Option<BasicLoginResponse> = None;
                    std::mem::swap(&mut pending, &mut flow.pending);
                    flow.phase = ExchangePhase::Finished;
                    ExchangeStep::Done(Ok(pending.unwrap()))
                },
            },
        }
    }

    /// End an exchange with `e`.
    fn finish_exchange(&self, flow: &mut ExchangeFlow, e: ServiceError) -> (step: ExchangeStep)
        ensures
            final(flow).phase() == ExchangePhase::Finished,
            final(flow).email() == old(flow).email(),
            final(flow).display_name() == old(flow).display_name(),
            final(flow).avatar_url() == old(flow).avatar_url(),
            final(flow).admin_user_id() == old(flow).admin_user_id(),
            final(flow).api_token_id() == old(flow).api_token_id(),
            final(flow).existing() == old(flow).existing(),
            final(flow).new_user_id() == old(flow).new_user_id(),
            final(flow).created_at() == old(flow).created_at(),
            final(flow).user() == old(flow).user(),
            final(flow).identity() == old(flow).identity(),
            final(flow).roles() == old(flow).roles(),
            final(flow).session_id() == old(flow).session_id(),
            final(flow).pending() == old(flow).pending(),
            exchange_fails_with(step, e@),
    {
        flow.phase = ExchangePhase::Finished;
        ExchangeStep::Done(Err(e))
    }
}

} // verus!
