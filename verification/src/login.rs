//! The password login flow as a plan: each step names the read or write the
//! caller performs next, and each answer advances the plan.
//!
//! Credentials are checked first; then the account is loaded; an account with
//! MFA enrolled is answered with a challenge token and no session is opened;
//! otherwise its roles are read, tokens are signed for a fresh session id, the
//! session row is written, and the tokens are returned.

use vstd::prelude::*;
use crate::auth::{AuthApplication, BasicLoginResponse, LoginOutcome, MfaChallengeResponse};
use crate::domain::{Role, Session, SessionTokens, User, UserIdentity};
use crate::errors::{ErrorKind, ServiceError};
use crate::ids::{new_id, now_seconds, CLOCK_BOUND, UUID_V4_BITS, UUID_VERSION_VARIANT_MASK};

verus! {

/// Where a login stands.
#[derive(Clone, Copy, Debug, PartialEq, Eq, Structural)]
pub enum LoginPhase {
    AwaitCredentials,
    AwaitUser,
    AwaitMfa,
    AwaitChallenge,
    AwaitRoles,
    AwaitTokens,
    AwaitSession,
    Finished,
}

/// What the caller does next for a login.
#[derive(Debug)]
pub enum LoginStep {
    /// Check `password` against the identity of `email`; answer with
    /// [`LoginEvent::Credentials`].
    VerifyCredentials { email: String, password: String },
    /// Load user `user_id`; answer with [`LoginEvent::User`].
    FindUser { user_id: u128 },
    /// Read whether `user_id` has MFA enabled; answer with [`LoginEvent::MfaEnabled`].
    CheckMfa { user_id: u128 },
    /// Sign an MFA challenge token for `user_id`; answer with [`LoginEvent::Challenge`].
    IssueChallenge { user_id: u128 },
    /// Read the roles of the flow's user; answer with [`LoginEvent::Roles`].
    GetRoles,
    /// Sign session tokens for the flow's user, identity and roles under
    /// `session_id`; answer with [`LoginEvent::Tokens`].
    SignTokens { session_id: u128 },
    /// Insert this session row; answer with [`LoginEvent::SessionCreated`].
    CreateSession(Session),
    /// The login's answer.
    Done(Result<LoginOutcome, ServiceError>),
}

/// What the caller learned by performing a [`LoginStep`].
#[derive(Debug)]
pub enum LoginEvent {
    Credentials(Result<UserIdentity, ServiceError>),
    User(Result<Option<User>, ServiceError>),
    MfaEnabled(Result<bool, ServiceError>),
    Challenge(Result<String, ServiceError>),
    Roles(Result<Vec<Role>, ServiceError>),
    Tokens(Result<SessionTokens, ServiceError>),
    SessionCreated(Result<(), ServiceError>),
}

/// Whether `step` ends the flow with an error whose view is `e`.
pub open spec fn fails_with(step: LoginStep, e: (ErrorKind, Seq<char>)) -> bool {
    step matches LoginStep::Done(Err(x)) && x@ == e
}

/// A login in progress.
pub struct LoginFlow {
    phase: LoginPhase,
    identity: Option<UserIdentity>,
    user: Option<User>,
    roles: Vec<Role>,
    mfa_setup_required: bool,
    session_id: u128,
    pending: Option<BasicLoginResponse>,
}

impl LoginFlow {
    pub closed spec fn phase(&self) -> LoginPhase {
        self.phase
    }

    /// The identity whose credentials matched.
    pub closed spec fn identity(&self) -> Option<UserIdentity> {
        self.identity
    }

    /// The account logging in.
    pub closed spec fn user(&self) -> Option<User> {
        self.user
    }

    /// The account's roles.
    pub closed spec fn roles(&self) -> Seq<Role> {
        self.roles@
    }

    /// Whether the answer will ask the client to enroll MFA.
    pub closed spec fn mfa_setup_required(&self) -> bool {
        self.mfa_setup_required
    }

    /// The id of the session being opened.
    pub closed spec fn session_id(&self) -> u128 {
        self.session_id
    }

    /// The answer waiting for the session row to be written.
    pub closed spec fn pending(&self) -> Option<BasicLoginResponse> {
        self.pending
    }

    /// What the flow holds in each phase.
    pub closed spec fn wf(&self) -> bool {
        match self.phase {
            LoginPhase::AwaitCredentials => true,
            LoginPhase::AwaitUser => self.identity is Some,
            LoginPhase::AwaitMfa | LoginPhase::AwaitChallenge | LoginPhase::AwaitRoles
            | LoginPhase::AwaitTokens => self.identity is Some && self.user is Some,
            LoginPhase::AwaitSession => self.identity is Some && self.user is Some
                && self.pending is Some,
            LoginPhase::Finished => true,
        }
    }

    /// Whether `event` answers the flow's last step.
    pub open spec fn accepts(&self, event: LoginEvent) -> bool {
        match self.phase() {
            LoginPhase::AwaitCredentials => event is Credentials,
            LoginPhase::AwaitUser => event is User,
            LoginPhase::AwaitMfa => event is MfaEnabled,
            LoginPhase::AwaitChallenge => event is Challenge,
            LoginPhase::AwaitRoles => event is Roles,
            LoginPhase::AwaitTokens => event is Tokens,
            LoginPhase::AwaitSession => event is SessionCreated,
            LoginPhase::Finished => false,
        }
    }

    /// The account logging in (once loaded).
    pub fn user_ref(&self) -> (u: &User)
        requires
            self.user() is Some,
        ensures
            Some(*u) == self.user(),
    {
        self.user.as_ref().unwrap()
    }

    /// The identity whose credentials matched (once checked).
    pub fn identity_ref(&self) -> (i: &UserIdentity)
        requires
            self.identity() is Some,
        ensures
            Some(*i) == self.identity(),
    {
        self.identity.as_ref().unwrap()
    }

    /// The account's roles (once read).
    pub fn roles_ref(&self) -> (r: &Vec<Role>)
        ensures
            r@ == self.roles(),
    {
        &self.roles
    }
}

impl AuthApplication {
    /// Start a password login of `email` with `password`.
    pub fn begin_login(&self, email: String, password: String) -> (r: (LoginFlow, LoginStep))
        ensures
            r.0.wf(),
            r.0.phase() == LoginPhase::AwaitCredentials,
            r.0.identity() is None,
            r.0.user() is None,
            r.0.roles().len() == 0,
            !r.0.mfa_setup_required(),
            r.0.session_id() == 0,
            r.0.pending() is None,
            r.1 == (LoginStep::VerifyCredentials { email, password }),
    {
        (
            LoginFlow {
                phase: LoginPhase::AwaitCredentials,
                identity: None,
                user: None,
                roles: Vec::new(),
                mfa_setup_required: false,
                session_id: 0,
                pending: None,
            },
            LoginStep::VerifyCredentials { email, password },
        )
    }

    /// Advance a login with the answer to its last step.
    pub fn step_login(&self, flow: &mut LoginFlow, event: LoginEvent) -> (step: LoginStep)
        requires
            old(flow).wf(),
            old(flow).accepts(event),
        ensures
            final(flow).wf(),
            step is Done <==> final(flow).phase() == LoginPhase::Finished,
            // What a step does not set is carried unchanged: the identity, the
            // account, the MFA flag, the roles, the session id and the answer.
            !(event is Credentials) ==> final(flow).identity() == old(flow).identity(),
            !(event is User) ==> final(flow).user() == old(flow).user(),
            !(event is MfaEnabled) ==> final(flow).mfa_setup_required() == old(flow).mfa_setup_required(),
            !(event is Roles) ==> final(flow).roles() == old(flow).roles()
                && final(flow).session_id() == old(flow).session_id(),
            !(event is Tokens) && !(event is SessionCreated) ==> final(flow).pending() == old(flow).pending(),
            // Credentials: a refusal ends the login; a match loads the account.
            event matches LoginEvent::Credentials(Err(e)) ==> fails_with(step, e@),
            event matches LoginEvent::Credentials(Ok(i)) ==> (step == LoginStep::FindUser {
                user_id: i.user_id,
            } && final(flow).identity() == Some(i) && final(flow).phase() == LoginPhase::AwaitUser),
            // The account: a failed read is a database error, a missing account an
            // authentication error; a found one is checked for MFA.
            event matches LoginEvent::User(Err(e)) ==> fails_with(step, (ErrorKind::DatabaseError, e@.1)),
            event matches LoginEvent::User(Ok(None)) ==> fails_with(
                step,
                (ErrorKind::AuthenticationError, "USER_NOT_FOUND"@),
            ),
            event matches LoginEvent::User(Ok(Some(u))) ==> (step == LoginStep::CheckMfa {
                user_id: u.user_id,
            } && final(flow).user() == Some(u) && final(flow).identity() == old(flow).identity()
                && final(flow).phase() == LoginPhase::AwaitMfa),
            // The MFA gate: enrolled accounts get a challenge and no session.
            event matches LoginEvent::MfaEnabled(Err(e)) ==> fails_with(step, e@),
            event matches LoginEvent::MfaEnabled(Ok(true)) ==> (step == LoginStep::IssueChallenge {
                user_id: old(flow).user().unwrap().user_id,
            } && final(flow).phase() == LoginPhase::AwaitChallenge),
            event matches LoginEvent::MfaEnabled(Ok(false)) ==> (step is GetRoles
                && final(flow).phase() == LoginPhase::AwaitRoles && final(flow).mfa_setup_required()
                == old(flow).user().unwrap().mfa_required && final(flow).user() == old(flow).user()
                && final(flow).identity() == old(flow).identity()),
            event matches LoginEvent::Challenge(Err(e)) ==> fails_with(step, e@),
            event matches LoginEvent::Challenge(Ok(t)) ==> step == LoginStep::Done(
                Ok(
                    LoginOutcome::MfaChallenge(
                        MfaChallengeResponse {
                            user_id: old(flow).user().unwrap().user_id,
                            mfa_required: true,
                            mfa_session_token: t,
                        },
                    ),
                ),
            ),
            // Roles, then tokens for a fresh session id.
            event matches LoginEvent::Roles(Err(e)) ==> fails_with(step, e@),
            event matches LoginEvent::Roles(Ok(rs)) ==> (step == LoginStep::SignTokens {
                session_id: final(flow).session_id(),
            } && final(flow).session_id() & UUID_VERSION_VARIANT_MASK == UUID_V4_BITS
                && final(flow).roles() == rs@ && final(flow).phase() == LoginPhase::AwaitTokens
                && final(flow).user() == old(flow).user() && final(flow).identity() == old(flow).identity() && final(flow).mfa_setup_required() == old(flow).mfa_setup_required()),
            event matches LoginEvent::Tokens(Err(e)) ==> fails_with(step, e@),
            // The session row: it belongs to the account and identity, carries the
            // refresh token's hash, and lives as long as the refresh token; the
            // answer waiting for it carries the tokens and the access expiry.
            event matches LoginEvent::Tokens(Ok(t)) ==> (step matches LoginStep::CreateSession(s)
                && s.session_id == old(flow).session_id() && s.user_id == old(flow).user().unwrap().user_id
                && s.identity_id == old(flow).identity().unwrap().identity_id && s.refresh_token_hash
                == t.refresh_token_hash && s.revoked_at is None && s.created_at is Some
                && 0 <= s.created_at.unwrap() < CLOCK_BOUND
                && s.user_agent is None && s.ip_address is None && s.device_type is None
                && s.last_used_at is None && s.updated_at == s.created_at && s.updated_by == s.created_by
                && s.refresh_token_family & UUID_VERSION_VARIANT_MASK == UUID_V4_BITS
                && s.refresh_token_expires_at == s.created_at.unwrap() + self.refresh_ttl()
                && s.created_by == Some(old(flow).user().unwrap().user_id)
                && final(flow).phase() == LoginPhase::AwaitSession && (final(flow).pending()
                matches Some(p) && p.user_id == s.user_id && p.access_token == t.access_token
                && p.refresh_token == t.refresh_token && p.expires_at == s.created_at.unwrap()
                + self.access_ttl() && p.must_change_password == old(flow).identity().unwrap().must_change_password && p.mfa_setup_required == old(flow).mfa_setup_required())),
            event matches LoginEvent::SessionCreated(Err(e)) ==> fails_with(
                step,
                (ErrorKind::DatabaseError, e@.1),
            ),
            event matches LoginEvent::SessionCreated(Ok(())) ==> step == LoginStep::Done(
                Ok(LoginOutcome::Success(old(flow).pending().unwrap())),
            ),
    {
        match event {
            LoginEvent::Credentials(r) => match r {
                Err(e) => self.finish_login(flow, e),
                Ok(i) => {
                    let user_id = i.user_id;
                    flow.identity = Some(i);
                    flow.phase = LoginPhase::AwaitUser;
                    LoginStep::FindUser { user_id }
                },
            },
            LoginEvent::User(r) => match AuthApplication::resolve_user(r, "USER_NOT_FOUND") {
                Err(e) => self.finish_login(flow, e),
                Ok(u) => {
                    let user_id = u.user_id;
                    flow.user = Some(u);
                    flow.phase = LoginPhase::AwaitMfa;
                    LoginStep::CheckMfa { user_id }
                },
            },
            LoginEvent::MfaEnabled(r) => match r {
                Err(e) => self.finish_login(flow, e),
                Ok(enabled) => {
                    let user_id = flow.user_ref().user_id;
                    if enabled {
                        flow.phase = LoginPhase::AwaitChallenge;
                        LoginStep::IssueChallenge { user_id }
                    } else {
                        flow.mfa_setup_required = flow.user_ref().mfa_required;
                        flow.phase = LoginPhase::AwaitRoles;
                        LoginStep::GetRoles
                    }
                },
            },
            LoginEvent::Challenge(r) => match r {
                Err(e) => self.finish_login(flow, e),
                Ok(t) => {
                    let user_id = flow.user_ref().user_id;
                    flow.phase = LoginPhase::Finished;
                    LoginStep::Done(AuthApplication::mfa_challenge_result(user_id, t))
                },
            },
            LoginEvent::Roles(r) => match r {
                Err(e) => self.finish_login(flow, e),
                Ok(rs) => {
                    flow.roles = rs;
                    let session_id = new_id();
                    flow.session_id = session_id;
                    flow.phase = LoginPhase::AwaitTokens;
                    LoginStep::SignTokens { session_id }
                },
            },
            LoginEvent::Tokens(r) => match r {
                Err(e) => self.finish_login(flow, e),
                Ok(t) => {
                    let family = new_id();
                    let now = now_seconds();
                    let access = self.access_ttl_secs();
                    let refresh = self.refresh_ttl_secs();
                    let actor = flow.user_ref().user_id;
                    let setup = flow.mfa_setup_required;
                    let (session, response) = self.issue_session(
                        flow.user_ref(),
                        flow.identity_ref(),
                        flow.session_id,
                        family,
                        t,
                        now,
                        actor,
                        setup,
                    );
                    flow.pending = Some(response);
                    flow.phase = LoginPhase::AwaitSession;
                    LoginStep::CreateSession(session)
                },
            },
            LoginEvent::SessionCreated(r) => match r {
                Err(e) => self.finish_login(flow, AuthApplication::session_creation_failed(e)),
                Ok(()) => {
                    let mut pending: Option<BasicLoginResponse> = None;
                    std::mem::swap(&mut pending, &mut flow.pending);
                    flow.phase = LoginPhase::Finished;
                    LoginStep::Done(Ok(LoginOutcome::Success(pending.unwrap())))
                },
            },
        }
    }

    /// End a login with `e`.
    fn finish_login(&self, flow: &mut LoginFlow, e: ServiceError) -> (step: LoginStep)
        ensures
            final(flow).phase() == LoginPhase::Finished,
            final(flow).identity() == old(flow).identity(),
            final(flow).user() == old(flow).user(),
            final(flow).roles() == old(flow).roles(),
            final(flow).pending() == old(flow).pending(),
            final(flow).session_id() == old(flow).session_id(),
            final(flow).mfa_setup_required() == old(flow).mfa_setup_required(),
            fails_with(step, e@),
    {
        flow.phase = LoginPhase::Finished;
        LoginStep::Done(Err(e))
    }

    /// The challenge answer as a login result.
    fn mfa_challenge_result(user_id: u128, token: String) -> (r: Result<LoginOutcome, ServiceError>)
        ensures
            r == Ok::<LoginOutcome, ServiceError>(
                LoginOutcome::MfaChallenge(
                    MfaChallengeResponse { user_id, mfa_required: true, mfa_session_token: token },
                ),
            ),
    {
        Ok(AuthApplication::mfa_challenge(user_id, token))
    }
}

/// Where the session half of an MFA login stands.
#[derive(Clone, Copy, Debug, PartialEq, Eq, Structural)]
pub enum MfaLoginPhase {
    AwaitCode,
    AwaitUser,
    AwaitIdentity,
    AwaitRoles,
    AwaitTokens,
    AwaitSession,
    Finished,
}

/// What the caller does next to complete an MFA login.
#[derive(Debug)]
pub enum MfaLoginStep {
    /// Verify the submitted TOTP or recovery code of `user_id`; answer with
    /// [`MfaLoginEvent::CodeVerified`].
    VerifyCode { user_id: u128 },
    /// Load user `user_id`; answer with [`MfaLoginEvent::User`].
    FindUser { user_id: u128 },
    /// Load the primary identity of `user_id`; answer with [`MfaLoginEvent::Identity`].
    FindIdentity { user_id: u128 },
    /// Read the roles of the flow's user; answer with [`MfaLoginEvent::Roles`].
    GetRoles,
    /// Sign session tokens under `session_id`; answer with [`MfaLoginEvent::Tokens`].
    SignTokens { session_id: u128 },
    /// Insert this session row; answer with [`MfaLoginEvent::SessionCreated`].
    CreateSession(Session),
    /// The answer.
    Done(Result<BasicLoginResponse, ServiceError>),
}

/// What the caller learned by performing an [`MfaLoginStep`].
#[derive(Debug)]
pub enum MfaLoginEvent {
    CodeVerified(Result<(), ServiceError>),
    User(Result<Option<User>, ServiceError>),
    Identity(Result<Option<UserIdentity>, ServiceError>),
    Roles(Result<Vec<Role>, ServiceError>),
    Tokens(Result<SessionTokens, ServiceError>),
    SessionCreated(Result<(), ServiceError>),
}

/// Whether an MFA `step` ends the flow with an error whose view is `e`.
pub open spec fn mfa_fails_with(step: MfaLoginStep, e: (ErrorKind, Seq<char>)) -> bool {
    step matches MfaLoginStep::Done(Err(x)) && x@ == e
}

/// The session half of an MFA login for a user whose challenge token checked out.
pub struct MfaLoginFlow {
    phase: MfaLoginPhase,
    user_id: u128,
    user: Option<User>,
    identity: Option<UserIdentity>,
    roles: Vec<Role>,
    session_id: u128,
    pending: Option<BasicLoginResponse>,
}

impl MfaLoginFlow {
    pub closed spec fn phase(&self) -> MfaLoginPhase {
        self.phase
    }

    /// The user the challenge token was issued to.
    pub closed spec fn user_id(&self) -> u128 {
        self.user_id
    }

    pub closed spec fn user(&self) -> Option<User> {
        self.user
    }

    pub closed spec fn identity(&self) -> Option<UserIdentity> {
        self.identity
    }

    pub closed spec fn roles(&self) -> Seq<Role> {
        self.roles@
    }

    pub closed spec fn session_id(&self) -> u128 {
        self.session_id
    }

    pub closed spec fn pending(&self) -> Option<BasicLoginResponse> {
        self.pending
    }

    /// What the flow holds in each phase.
    pub closed spec fn wf(&self) -> bool {
        match self.phase {
            MfaLoginPhase::AwaitIdentity => self.user is Some,
            MfaLoginPhase::AwaitRoles | MfaLoginPhase::AwaitTokens => self.user is Some
                && self.identity is Some,
            MfaLoginPhase::AwaitSession => self.user is Some && self.identity is Some
                && self.pending is Some,
            _ => true,
        }
    }

    /// Whether `event` answers the flow's last step.
    pub open spec fn accepts(&self, event: MfaLoginEvent) -> bool {
        match self.phase() {
            MfaLoginPhase::AwaitCode => event is CodeVerified,
            MfaLoginPhase::AwaitUser => event is User,
            MfaLoginPhase::AwaitIdentity => event is Identity,
            MfaLoginPhase::AwaitRoles => event is Roles,
            MfaLoginPhase::AwaitTokens => event is Tokens,
            MfaLoginPhase::AwaitSession => event is SessionCreated,
            MfaLoginPhase::Finished => false,
        }
    }

    /// The account (once loaded).
    pub fn user_ref(&self) -> (u: &User)
        requires
            self.user() is Some,
        ensures
            Some(*u) == self.user(),
    {
        self.user.as_ref().unwrap()
    }

    /// The primary identity (once loaded).
    pub fn identity_ref(&self) -> (i: &UserIdentity)
        requires
            self.identity() is Some,
        ensures
            Some(*i) == self.identity(),
    {
        self.identity.as_ref().unwrap()
    }

    /// The account's roles (once read).
    pub fn roles_ref(&self) -> (r: &Vec<Role>)
        ensures
            r@ == self.roles(),
    {
        &self.roles
    }
}

impl AuthApplication {
    /// Start the session half of an MFA login for `user_id` (the subject of a
    /// valid challenge token, admitted by the attempt limiter).
    pub fn begin_mfa_login(&self, user_id: u128) -> (r: (MfaLoginFlow, MfaLoginStep))
        ensures
            r.0.wf(),
            r.0.phase() == MfaLoginPhase::AwaitCode,
            r.0.user_id() == user_id,
            r.1 == (MfaLoginStep::VerifyCode { user_id }),
    {
        (
            MfaLoginFlow {
                phase: MfaLoginPhase::AwaitCode,
                user_id,
                user: None,
                identity: None,
                roles: Vec::new(),
                session_id: 0,
                pending: None,
            },
            MfaLoginStep::VerifyCode { user_id },
        )
    }

    /// Advance an MFA login with the answer to its last step.
    pub fn step_mfa_login(&self, flow: &mut MfaLoginFlow, event: MfaLoginEvent) -> (step: MfaLoginStep)
        requires
            old(flow).wf(),
            old(flow).accepts(event),
        ensures
            final(flow).wf(),
            final(flow).user_id() == old(flow).user_id(),
            step is Done <==> final(flow).phase() == MfaLoginPhase::Finished,
            // A wrong code ends the login with that very error (the limiter counts it).
            event matches MfaLoginEvent::CodeVerified(Err(e)) ==> mfa_fails_with(step, e@),
            event matches MfaLoginEvent::CodeVerified(Ok(())) ==> (step == MfaLoginStep::FindUser {
                user_id: old(flow).user_id(),
            } && final(flow).phase() == MfaLoginPhase::AwaitUser),
            event matches MfaLoginEvent::User(Err(e)) ==> mfa_fails_with(step, (ErrorKind::DatabaseError, e@.1)),
            event matches MfaLoginEvent::User(Ok(None)) ==> mfa_fails_with(
                step,
                (ErrorKind::AuthenticationError, "User not found"@),
            ),
            event matches MfaLoginEvent::User(Ok(Some(u))) ==> (step == MfaLoginStep::FindIdentity {
                user_id: old(flow).user_id(),
            } && final(flow).user() == Some(u) && final(flow).phase() == MfaLoginPhase::AwaitIdentity),
            event matches MfaLoginEvent::Identity(Err(e)) ==> mfa_fails_with(step, e@),
            event matches MfaLoginEvent::Identity(Ok(None)) ==> mfa_fails_with(
                step,
                (ErrorKind::AuthenticationError, "Identity not found"@),
            ),
            event matches MfaLoginEvent::Identity(Ok(Some(i))) ==> (step is GetRoles && final(flow).identity() == Some(i) && final(flow).user() == old(flow).user() && final(flow).phase()
                == MfaLoginPhase::AwaitRoles),
            event matches MfaLoginEvent::Roles(Err(e)) ==> mfa_fails_with(step, e@),
            event matches MfaLoginEvent::Roles(Ok(rs)) ==> (step == MfaLoginStep::SignTokens {
                session_id: final(flow).session_id(),
            } && final(flow).session_id() & UUID_VERSION_VARIANT_MASK == UUID_V4_BITS
                && final(flow).roles() == rs@ && final(flow).user() == old(flow).user()
                && final(flow).identity() == old(flow).identity() && final(flow).phase()
                == MfaLoginPhase::AwaitTokens),
            event matches MfaLoginEvent::Tokens(Err(e)) ==> mfa_fails_with(step, e@),
            event matches MfaLoginEvent::Tokens(Ok(t)) ==> (step matches MfaLoginStep::CreateSession(s)
                && s.session_id == old(flow).session_id() && s.user_id == old(flow).user().unwrap().user_id
                && s.identity_id == old(flow).identity().unwrap().identity_id && s.refresh_token_hash
                == t.refresh_token_hash && s.revoked_at is None && s.created_at is Some
                && 0 <= s.created_at.unwrap() < CLOCK_BOUND
                && s.user_agent is None && s.ip_address is None && s.device_type is None
                && s.last_used_at is None && s.updated_at == s.created_at && s.updated_by == s.created_by
                && s.refresh_token_family & UUID_VERSION_VARIANT_MASK == UUID_V4_BITS
                && s.created_by == Some(old(flow).user().unwrap().user_id)
                && s.refresh_token_expires_at == s.created_at.unwrap() + self.refresh_ttl()
                && final(flow).phase() == MfaLoginPhase::AwaitSession && (final(flow).pending()
                matches Some(p) && p.user_id == s.user_id && p.access_token == t.access_token
                && p.refresh_token == t.refresh_token && p.expires_at == s.created_at.unwrap()
                + self.access_ttl() && p.must_change_password == old(flow).identity().unwrap().must_change_password && !p.mfa_setup_required)),
            event matches MfaLoginEvent::SessionCreated(Err(e)) ==> mfa_fails_with(
                step,
                (ErrorKind::DatabaseError, e@.1),
            ),
            event matches MfaLoginEvent::SessionCreated(Ok(())) ==> step == MfaLoginStep::Done(
                Ok(old(flow).pending().unwrap()),
            ),
    {
        match event {
            MfaLoginEvent::CodeVerified(r) => match r {
                Err(e) => self.finish_mfa_login(flow, e),
                Ok(()) => {
                    flow.phase = MfaLoginPhase::AwaitUser;
                    MfaLoginStep::FindUser { user_id: flow.user_id }
                },
            },
            MfaLoginEvent::User(r) => match AuthApplication::resolve_user(r, "User not found") {
                Err(e) => self.finish_mfa_login(flow, e),
                Ok(u) => {
                    flow.user = Some(u);
                    flow.phase = MfaLoginPhase::AwaitIdentity;
                    MfaLoginStep::FindIdentity { user_id: flow.user_id }
                },
            },
            MfaLoginEvent::Identity(r) => match r {
                Err(e) => self.finish_mfa_login(flow, e),
                Ok(found) => match AuthApplication::resolve_identity(found) {
                    Err(e) => self.finish_mfa_login(flow, e),
                    Ok(i) => {
                        flow.identity = Some(i);
                        flow.phase = MfaLoginPhase::AwaitRoles;
                        MfaLoginStep::GetRoles
                    },
                },
            },
            MfaLoginEvent::Roles(r) => match r {
                Err(e) => self.finish_mfa_login(flow, e),
                Ok(rs) => {
                    flow.roles = rs;
                    let session_id = new_id();
                    flow.session_id = session_id;
                    flow.phase = MfaLoginPhase::AwaitTokens;
                    MfaLoginStep::SignTokens { session_id }
                },
            },
            MfaLoginEvent::Tokens(r) => match r {
                Err(e) => self.finish_mfa_login(flow, e),
                Ok(t) => {
                    let family = new_id();
                    let now = now_seconds();
                    let access = self.access_ttl_secs();
                    let refresh = self.refresh_ttl_secs();
                    let actor = flow.user_ref().user_id;
                    let (session, response) = self.issue_session(
                        flow.user_ref(),
                        flow.identity_ref(),
                        flow.session_id,
                        family,
                        t,
                        now,
                        actor,
                        false,
                    );
                    flow.pending = Some(response);
                    flow.phase = MfaLoginPhase::AwaitSession;
                    MfaLoginStep::CreateSession(session)
                },
            },
            MfaLoginEvent::SessionCreated(r) => match r {
                Err(e) => self.finish_mfa_login(flow, AuthApplication::session_creation_failed(e)),
                Ok(()) => {
                    let mut pending: Option<BasicLoginResponse> = None;
                    std::mem::swap(&mut pending, &mut flow.pending);
                    flow.phase = MfaLoginPhase::Finished;
                    MfaLoginStep::Done(Ok(pending.unwrap()))
                },
            },
        }
    }

    /// End an MFA login with `e`.
    fn finish_mfa_login(&self, flow: &mut MfaLoginFlow, e: ServiceError) -> (step: MfaLoginStep)
        ensures
            final(flow).phase() == MfaLoginPhase::Finished,
            final(flow).user_id() == old(flow).user_id(),
            final(flow).user() == old(flow).user(),
            final(flow).identity() == old(flow).identity(),
            mfa_fails_with(step, e@),
    {
        flow.phase = MfaLoginPhase::Finished;
        MfaLoginStep::Done(Err(e))
    }
}

/// Where a refresh stands.
#[derive(Clone, Copy, Debug, PartialEq, Eq, Structural)]
pub enum RefreshPhase {
    AwaitSession,
    AwaitUser,
    AwaitIdentity,
    AwaitRoles,
    AwaitTokens,
    AwaitRotation,
    Finished,
}

/// What the caller does next for a refresh.
#[derive(Debug)]
pub enum RefreshStep {
    /// Look the session of `refresh_token` up; answer with [`RefreshEvent::SessionFound`].
    ValidateRefreshToken { refresh_token: String },
    /// Load user `user_id`; answer with [`RefreshEvent::User`].
    FindUser { user_id: u128 },
    /// Load the primary identity of `user_id`; answer with [`RefreshEvent::Identity`].
    FindIdentity { user_id: u128 },
    /// Read the roles of the flow's user; answer with [`RefreshEvent::Roles`].
    GetRoles,
    /// Sign new tokens under the existing `session_id`; answer with [`RefreshEvent::Tokens`].
    SignTokens { session_id: u128 },
    /// Store the new refresh token's hash on `session_id`, resetting its
    /// expiry; answer with [`RefreshEvent::Rotated`].
    RotateSession { session_id: u128, refresh_token_hash: String },
    /// The answer.
    Done(Result<BasicLoginResponse, ServiceError>),
}

/// What the caller learned by performing a [`RefreshStep`].
#[derive(Debug)]
pub enum RefreshEvent {
    SessionFound(Result<Session, ServiceError>),
    User(Result<Option<User>, ServiceError>),
    Identity(Result<Option<UserIdentity>, ServiceError>),
    Roles(Result<Vec<Role>, ServiceError>),
    Tokens(Result<SessionTokens, ServiceError>),
    Rotated(Result<(), ServiceError>),
}

/// Whether a refresh `step` ends the flow with an error whose view is `e`.
pub open spec fn refresh_fails_with(step: RefreshStep, e: (ErrorKind, Seq<char>)) -> bool {
    step matches RefreshStep::Done(Err(x)) && x@ == e
}

/// A refresh in progress.
pub struct RefreshFlow {
    phase: RefreshPhase,
    session_id: u128,
    user_id: u128,
    user: Option<User>,
    identity: Option<UserIdentity>,
    roles: Vec<Role>,
    issued_at: i64,
    pending: Option<BasicLoginResponse>,
}

impl RefreshFlow {
    /// The clock reading at which the new tokens were issued.
    pub closed spec fn issued_at(&self) -> i64 {
        self.issued_at
    }

    pub closed spec fn phase(&self) -> RefreshPhase {
        self.phase
    }

    /// The session the refresh token belongs to.
    pub closed spec fn session_id(&self) -> u128 {
        self.session_id
    }

    /// The owner of that session.
    pub closed spec fn user_id(&self) -> u128 {
        self.user_id
    }

    pub closed spec fn user(&self) -> Option<User> {
        self.user
    }

    pub closed spec fn identity(&self) -> Option<UserIdentity> {
        self.identity
    }

    pub closed spec fn roles(&self) -> Seq<Role> {
        self.roles@
    }

    pub closed spec fn pending(&self) -> Option<BasicLoginResponse> {
        self.pending
    }

    /// What the flow holds in each phase.
    pub closed spec fn wf(&self) -> bool {
        match self.phase {
            RefreshPhase::AwaitIdentity => self.user is Some,
            RefreshPhase::AwaitRoles | RefreshPhase::AwaitTokens => self.user is Some
                && self.identity is Some,
            RefreshPhase::AwaitRotation => self.pending is Some,
            _ => true,
        }
    }

    /// Whether `event` answers the flow's last step.
    pub open spec fn accepts(&self, event: RefreshEvent) -> bool {
        match self.phase() {
            RefreshPhase::AwaitSession => event is SessionFound,
            RefreshPhase::AwaitUser => event is User,
            RefreshPhase::AwaitIdentity => event is Identity,
            RefreshPhase::AwaitRoles => event is Roles,
            RefreshPhase::AwaitTokens => event is Tokens,
            RefreshPhase::AwaitRotation => event is Rotated,
            RefreshPhase::Finished => false,
        }
    }

    /// The account (once loaded).
    pub fn user_ref(&self) -> (u: &User)
        requires
            self.user() is Some,
        ensures
            Some(*u) == self.user(),
    {
        self.user.as_ref().unwrap()
    }

    /// The primary identity (once loaded).
    pub fn identity_ref(&self) -> (i: &UserIdentity)
        requires
            self.identity() is Some,
        ensures
            Some(*i) == self.identity(),
    {
        self.identity.as_ref().unwrap()
    }

    /// The account's roles (once read).
    pub fn roles_ref(&self) -> (r: &Vec<Role>)
        ensures
            r@ == self.roles(),
    {
        &self.roles
    }
}

impl AuthApplication {
    /// Start a refresh with the presented `refresh_token`.
    pub fn begin_refresh(&self, refresh_token: String) -> (r: (RefreshFlow, RefreshStep))
        ensures
            r.0.wf(),
            r.0.phase() == RefreshPhase::AwaitSession,
            r.0.session_id() == 0,
            r.0.user_id() == 0,
            r.0.user() is None,
            r.0.identity() is None,
            r.0.roles().len() == 0,
            r.0.pending() is None,
            r.1 == (RefreshStep::ValidateRefreshToken { refresh_token }),
    {
        (
            RefreshFlow {
                phase: RefreshPhase::AwaitSession,
                session_id: 0,
                user_id: 0,
                user: None,
                identity: None,
                roles: Vec::new(),
                issued_at: 0,
                pending: None,
            },
            RefreshStep::ValidateRefreshToken { refresh_token },
        )
    }

    /// Advance a refresh with the answer to its last step. A refresh never
    /// opens a new session: it signs and rotates the one the token belongs to.
    pub fn step_refresh(&self, flow: &mut RefreshFlow, event: RefreshEvent) -> (step: RefreshStep)
        requires
            old(flow).wf(),
            old(flow).accepts(event),
        ensures
            final(flow).wf(),
            step is Done <==> final(flow).phase() == RefreshPhase::Finished,
            old(flow).phase() != RefreshPhase::AwaitSession ==> final(flow).session_id() == old(flow).session_id()
                && final(flow).user_id() == old(flow).user_id(),
            event matches RefreshEvent::SessionFound(Err(e)) ==> refresh_fails_with(step, e@),
            event matches RefreshEvent::SessionFound(Ok(s)) ==> (step == RefreshStep::FindUser {
                user_id: s.user_id,
            } && final(flow).session_id() == s.session_id && final(flow).user_id() == s.user_id
                && final(flow).phase() == RefreshPhase::AwaitUser),
            event matches RefreshEvent::User(Err(e)) ==> refresh_fails_with(step, (ErrorKind::DatabaseError, e@.1)),
            event matches RefreshEvent::User(Ok(None)) ==> refresh_fails_with(
                step,
                (ErrorKind::AuthenticationError, "User not found"@),
            ),
            event matches RefreshEvent::User(Ok(Some(u))) ==> (step == RefreshStep::FindIdentity {
                user_id: old(flow).user_id(),
            } && final(flow).user() == Some(u) && final(flow).phase() == RefreshPhase::AwaitIdentity),
            event matches RefreshEvent::Identity(Err(e)) ==> refresh_fails_with(step, e@),
            event matches RefreshEvent::Identity(Ok(None)) ==> refresh_fails_with(
                step,
                (ErrorKind::AuthenticationError, "Identity not found"@),
            ),
            event matches RefreshEvent::Identity(Ok(Some(i))) ==> (step is GetRoles && final(flow).identity()
                == Some(i) && final(flow).user() == old(flow).user() && final(flow).phase()
                == RefreshPhase::AwaitRoles),
            event matches RefreshEvent::Roles(Err(e)) ==> refresh_fails_with(step, e@),
            event matches RefreshEvent::Roles(Ok(rs)) ==> (step == RefreshStep::SignTokens {
                session_id: old(flow).session_id(),
            } && final(flow).roles() == rs@ && final(flow).user() == old(flow).user()
                && final(flow).identity() == old(flow).identity() && final(flow).phase()
                == RefreshPhase::AwaitTokens),
            event matches RefreshEvent::Tokens(Err(e)) ==> refresh_fails_with(step, e@),
            event matches RefreshEvent::Tokens(Ok(t)) ==> (step == RefreshStep::RotateSession {
                session_id: old(flow).session_id(),
                refresh_token_hash: t.refresh_token_hash,
            } && final(flow).phase() == RefreshPhase::AwaitRotation && (final(flow).pending()
                matches Some(p) && p.user_id == old(flow).user().unwrap().user_id && p.access_token
                == t.access_token && p.refresh_token == t.refresh_token && p.must_change_password
                == old(flow).identity().unwrap().must_change_password && !p.mfa_setup_required
                && 0 <= final(flow).issued_at() < CLOCK_BOUND
                && p.expires_at == final(flow).issued_at() + self.access_ttl())),
            event matches RefreshEvent::Rotated(Err(e)) ==> refresh_fails_with(step, e@),
            event matches RefreshEvent::Rotated(Ok(())) ==> step == RefreshStep::Done(
                Ok(old(flow).pending().unwrap()),
            ),
    {
        match event {
            RefreshEvent::SessionFound(r) => match r {
                Err(e) => self.finish_refresh(flow, e),
                Ok(s) => {
                    flow.session_id = s.session_id;
                    flow.user_id = s.user_id;
                    flow.phase = RefreshPhase::AwaitUser;
                    RefreshStep::FindUser { user_id: s.user_id }
                },
            },
            RefreshEvent::User(r) => match AuthApplication::resolve_user(r, "User not found") {
                Err(e) => self.finish_refresh(flow, e),
                Ok(u) => {
                    flow.user = Some(u);
                    flow.phase = RefreshPhase::AwaitIdentity;
                    RefreshStep::FindIdentity { user_id: flow.user_id }
                },
            },
            RefreshEvent::Identity(r) => match r {
                Err(e) => self.finish_refresh(flow, e),
                Ok(found) => match AuthApplication::resolve_identity(found) {
                    Err(e) => self.finish_refresh(flow, e),
                    Ok(i) => {
                        flow.identity = Some(i);
                        flow.phase = RefreshPhase::AwaitRoles;
                        RefreshStep::GetRoles
                    },
                },
            },
            RefreshEvent::Roles(r) => match r {
                Err(e) => self.finish_refresh(flow, e),
                Ok(rs) => {
                    flow.roles = rs;
                    flow.phase = RefreshPhase::AwaitTokens;
                    RefreshStep::SignTokens { session_id: flow.session_id }
                },
            },
            RefreshEvent::Tokens(r) => match r {
                Err(e) => self.finish_refresh(flow, e),
                Ok(t) => {
                    let now = now_seconds();
                    let access = self.access_ttl_secs();
                    let hash = t.refresh_token_hash.clone();
                    let user_id = flow.user_ref().user_id;
                    let response = self.refresh_response(user_id, t, flow.identity_ref(), now);
                    flow.issued_at = now;
                    flow.pending = Some(response);
                    flow.phase = RefreshPhase::AwaitRotation;
                    RefreshStep::RotateSession { session_id: flow.session_id, refresh_token_hash: hash }
                },
            },
            RefreshEvent::Rotated(r) => match r {
                Err(e) => self.finish_refresh(flow, e),
                Ok(()) => {
                    let mut pending: Option<BasicLoginResponse> = None;
                    std::mem::swap(&mut pending, &mut flow.pending);
                    flow.phase = RefreshPhase::Finished;
                    RefreshStep::Done(Ok(pending.unwrap()))
                },
            },
        }
    }

    /// End a refresh with `e`.
    fn finish_refresh(&self, flow: &mut RefreshFlow, e: ServiceError) -> (step: RefreshStep)
        ensures
            final(flow).phase() == RefreshPhase::Finished,
            final(flow).session_id() == old(flow).session_id(),
            final(flow).user_id() == old(flow).user_id(),
            final(flow).user() == old(flow).user(),
            final(flow).identity() == old(flow).identity(),
            refresh_fails_with(step, e@),
    {
        flow.phase = RefreshPhase::Finished;
        RefreshStep::Done(Err(e))
    }
}

} // verus!
