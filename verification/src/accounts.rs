//! Opening accounts, as plans: self-registration with e-mail and password,
//! and an administrator creating a user.
//!
//! Both check that the e-mail is free, insert the account and its e-mail and
//! password identity, and give the account the default `user` role. A
//! registration then asks for a verification e-mail; an administrator's
//! creation reads the new account's roles and asks for an invitation e-mail
//! only when told to. Neither fails for want of that e-mail: a failure to
//! create the verification token or to send it is ignored.

use vstd::prelude::*;
use crate::admin::{is_admin_user_response, AdminApplication, AdminUserResponse};
use crate::auth::{first_name_or_empty, new_user_role, AuthApplication, RegisterUserResponse};
use crate::domain::{admin_required, has_role, AuthenticatedUserContext, IdentityProvider, Role, User, UserIdentity, UserRole, UserStatus};
use crate::errors::ServiceError;
use crate::ids::{new_id, now_seconds, CLOCK_BOUND};

verus! {

/// Where an account opening stands.
#[derive(Clone, Copy, Debug, PartialEq, Eq, Structural)]
pub enum AccountPhase {
    AwaitAvailability,
    AwaitUserCreated,
    AwaitIdentityCreated,
    AwaitDefaultRole,
    AwaitRoleAssigned,
    AwaitRoles,
    AwaitVerification,
    AwaitEmailSent,
    Finished,
}

/// What the caller does next to open an account answered with `R`.
#[derive(Debug)]
pub enum AccountStep<R> {
    /// Check that no identity uses `email`; answer with [`AccountEvent::EmailAvailable`].
    CheckEmailAvailable { email: String },
    /// Insert this account; answer with [`AccountEvent::UserCreated`].
    CreateUser(User),
    /// Insert this identity; answer with [`AccountEvent::IdentityCreated`].
    CreateIdentity(UserIdentity),
    /// Read the role of type `user`; answer with [`AccountEvent::DefaultRole`].
    GetDefaultRole,
    /// Insert this role assignment; answer with [`AccountEvent::RoleAssigned`].
    AssignRole(UserRole),
    /// Read the roles of `user_id`; answer with [`AccountEvent::Roles`].
    GetRoles { user_id: u128 },
    /// Create an e-mail verification token for the identity; answer with
    /// [`AccountEvent::VerificationCreated`].
    CreateVerification { identity_id: u128, user_id: u128 },
    /// Send the verification e-mail; answer with [`AccountEvent::EmailSent`].
    SendVerificationEmail { email: String, first_name: String, token: String },
    /// The answer.
    Done(Result<R, ServiceError>),
}

/// What the caller learned by performing an [`AccountStep`].
#[derive(Debug)]
pub enum AccountEvent {
    EmailAvailable(Result<(), ServiceError>),
    UserCreated(Result<User, ServiceError>),
    IdentityCreated(Result<UserIdentity, ServiceError>),
    DefaultRole(Result<Role, ServiceError>),
    RoleAssigned(Result<(), ServiceError>),
    Roles(Result<Vec<Role>, ServiceError>),
    VerificationCreated(Result<String, ServiceError>),
    EmailSent(Result<(), ServiceError>),
}

/// Whether an account `step` ends the plan with an error whose view is `e`.
pub open spec fn account_fails_with<R>(step: AccountStep<R>, e: ServiceError) -> bool {
    step matches AccountStep::Done(Err(x)) && x@ == e@
}

/// Whether `event` answers a plan in `phase`.
pub open spec fn answers(phase: AccountPhase, event: AccountEvent) -> bool {
    match phase {
        AccountPhase::AwaitAvailability => event is EmailAvailable,
        AccountPhase::AwaitUserCreated => event is UserCreated,
        AccountPhase::AwaitIdentityCreated => event is IdentityCreated,
        AccountPhase::AwaitDefaultRole => event is DefaultRole,
        AccountPhase::AwaitRoleAssigned => event is RoleAssigned,
        AccountPhase::AwaitRoles => event is Roles,
        AccountPhase::AwaitVerification => event is VerificationCreated,
        AccountPhase::AwaitEmailSent => event is EmailSent,
        AccountPhase::Finished => false,
    }
}

/// A registration in progress.
pub struct RegisterFlow {
    phase: AccountPhase,
    email: String,
    password: String,
    first_name: String,
    last_name: String,
    avatar_url: Option<String>,
    user_id: u128,
    identity_id: u128,
    created_at: i64,
    response: Option<RegisterUserResponse>,
}

impl RegisterFlow {
    pub closed spec fn phase(&self) -> AccountPhase {
        self.phase
    }

    pub closed spec fn email(&self) -> String {
        self.email
    }

    pub closed spec fn password(&self) -> String {
        self.password
    }

    pub closed spec fn first_name(&self) -> String {
        self.first_name
    }

    pub closed spec fn last_name(&self) -> String {
        self.last_name
    }

    pub closed spec fn avatar_url(&self) -> Option<String> {
        self.avatar_url
    }

    /// The id of the account being opened.
    pub closed spec fn user_id(&self) -> u128 {
        self.user_id
    }

    /// The id of its identity.
    pub closed spec fn identity_id(&self) -> u128 {
        self.identity_id
    }

    /// When the account was made.
    pub closed spec fn created_at(&self) -> i64 {
        self.created_at
    }

    /// The answer, once the account is in place.
    pub closed spec fn response(&self) -> Option<RegisterUserResponse> {
        self.response
    }

    /// What the plan holds in each phase.
    pub closed spec fn wf(&self) -> bool {
        match self.phase {
            AccountPhase::AwaitIdentityCreated | AccountPhase::AwaitDefaultRole
            | AccountPhase::AwaitRoleAssigned => self.response is Some,
            AccountPhase::AwaitVerification | AccountPhase::AwaitEmailSent => self.response is Some,
            AccountPhase::AwaitRoles => false,
            _ => true,
        }
    }

    /// Whether `event` answers the plan's last step. An inserted account comes
    /// back with both names, as it was sent.
    pub open spec fn accepts(&self, event: AccountEvent) -> bool {
        &&& answers(self.phase(), event)
        &&& event matches AccountEvent::UserCreated(Ok(u)) ==> (u.first_name is Some && u.last_name is Some)
    }

    /// A copy of the answer (once known).
    fn response_copy(&self) -> (r: RegisterUserResponse)
        requires
            self.response() is Some,
        ensures
            r == self.response().unwrap(),
    {
        let p = self.response.as_ref().unwrap();
        RegisterUserResponse {
            user_id: p.user_id,
            first_name: p.first_name.clone(),
            last_name: p.last_name.clone(),
            avatar_url: match &p.avatar_url {
                Some(a) => Some(a.clone()),
                None => None,
            },
            status: p.status,
        }
    }
}

impl AuthApplication {
    /// Start registering `email` with `password` for a person named
    /// `first_name` `last_name`.
    pub fn begin_register(
        &self,
        email: String,
        password: String,
        first_name: String,
        last_name: String,
        avatar_url: Option<String>,
    ) -> (r: (RegisterFlow, AccountStep<RegisterUserResponse>))
        ensures
            r.0.wf(),
            r.0.phase() == AccountPhase::AwaitAvailability,
            r.0.email() == email && r.0.password() == password,
            r.0.first_name() == first_name && r.0.last_name() == last_name,
            r.0.avatar_url() == avatar_url,
            r.1 == (AccountStep::<RegisterUserResponse>::CheckEmailAvailable { email }),
    {
        let step = AccountStep::CheckEmailAvailable { email: email.clone() };
        (
            RegisterFlow {
                phase: AccountPhase::AwaitAvailability,
                email,
                password,
                first_name,
                last_name,
                avatar_url,
                user_id: 0,
                identity_id: 0,
                created_at: 0,
                response: None,
            },
            step,
        )
    }

    /// Advance a registration with the answer to its last step. Until the
    /// role is assigned every failure ends it with that very error; after
    /// that the account stands, and the verification e-mail may fail silently.
    pub fn step_register(&self, flow: &mut RegisterFlow, event: AccountEvent) -> (step: AccountStep<RegisterUserResponse>)
        requires
            old(flow).wf(),
            old(flow).accepts(event),
        ensures
            final(flow).wf(),
            step is Done <==> final(flow).phase() == AccountPhase::Finished,
            final(flow).email() == old(flow).email(),
            old(flow).phase() != AccountPhase::AwaitAvailability ==> final(flow).user_id() == old(flow).user_id(),
            old(flow).phase() != AccountPhase::AwaitAvailability && old(flow).phase() != AccountPhase::AwaitUserCreated
                ==> final(flow).identity_id() == old(flow).identity_id(),
            // The prepared answer and the creation time are carried unchanged
            // from the steps that set them to the answer.
            !(event is EmailAvailable) ==> final(flow).created_at() == old(flow).created_at(),
            !(event is UserCreated) ==> final(flow).response() == old(flow).response(),
            event matches AccountEvent::EmailAvailable(Err(e)) ==> account_fails_with(step, e),
            event matches AccountEvent::EmailAvailable(Ok(())) ==> (step matches AccountStep::CreateUser(u)
                && u.user_id == final(flow).user_id() && u.first_name == Some(old(flow).first_name())
                && u.last_name == Some(old(flow).last_name()) && u.avatar_url == old(flow).avatar_url()
                && u.display_name is None && u.status == UserStatus::PendingVerification
                && u.token_version == 0 && !u.mfa_required
                && u.created_by == Some(u.user_id) && u.updated_by == Some(u.user_id)
                && u.created_at == Some(final(flow).created_at()) && u.updated_at == Some(final(flow).created_at())
                && 0 <= final(flow).created_at() < CLOCK_BOUND && final(flow).phase() == AccountPhase::AwaitUserCreated),
            event matches AccountEvent::UserCreated(Err(e)) ==> account_fails_with(step, e),
            event matches AccountEvent::UserCreated(Ok(p)) ==> (step matches AccountStep::CreateIdentity(i)
                && i.identity_id == final(flow).identity_id() && i.user_id == old(flow).user_id()
                && i.provider == IdentityProvider::EmailPassword && i.provider_user_id is None
                && i.email == old(flow).email() && i.password_hash == Some(old(flow).password())
                && i.email_verified == Some(false) && !i.is_primary && !i.must_change_password
                && i.created_by == Some(old(flow).user_id()) && i.updated_by == Some(old(flow).user_id())
                && i.created_at == Some(old(flow).created_at())
                && final(flow).phase() == AccountPhase::AwaitIdentityCreated
                && (final(flow).response() matches Some(r) && r.user_id == p.user_id
                && Some(r.first_name) == p.first_name && Some(r.last_name) == p.last_name
                && r.avatar_url == p.avatar_url && r.status == p.status)),
            event matches AccountEvent::IdentityCreated(Err(e)) ==> account_fails_with(step, e),
            event matches AccountEvent::IdentityCreated(Ok(_)) ==> (step is GetDefaultRole
                && final(flow).phase() == AccountPhase::AwaitDefaultRole),
            event matches AccountEvent::DefaultRole(Err(e)) ==> account_fails_with(step, e),
            event matches AccountEvent::DefaultRole(Ok(role)) ==> (step matches AccountStep::AssignRole(ur)
                && ur.user_id == old(flow).user_id() && ur.role_id == role.role_id
                && ur.created_by == Some(old(flow).user_id())
                && final(flow).phase() == AccountPhase::AwaitRoleAssigned),
            event matches AccountEvent::RoleAssigned(Err(e)) ==> account_fails_with(step, e),
            event matches AccountEvent::RoleAssigned(Ok(())) ==> (step == AccountStep::<RegisterUserResponse>::CreateVerification {
                identity_id: old(flow).identity_id(),
                user_id: old(flow).response().unwrap().user_id,
            } && final(flow).response() == old(flow).response() && final(flow).phase() == AccountPhase::AwaitVerification),
            event matches AccountEvent::VerificationCreated(Err(_)) ==> step == AccountStep::Done(
                Ok::<RegisterUserResponse, ServiceError>(old(flow).response().unwrap()),
            ),
            event matches AccountEvent::VerificationCreated(Ok(token)) ==> (step == AccountStep::<RegisterUserResponse>::SendVerificationEmail {
                email: old(flow).email(),
                first_name: old(flow).response().unwrap().first_name,
                token,
            } && final(flow).response() == old(flow).response() && final(flow).phase() == AccountPhase::AwaitEmailSent),
            event is EmailSent ==> step == AccountStep::Done(
                Ok::<RegisterUserResponse, ServiceError>(old(flow).response().unwrap()),
            ),
    {
        match event {
            AccountEvent::EmailAvailable(r) => match r {
                Err(e) => Self::finish_register(flow, e),
                Ok(()) => {
                    let user_id = new_id();
                    let now = now_seconds();
                    let avatar = match &flow.avatar_url {
                        Some(a) => Some(a.clone()),
                        None => None,
                    };
                    let u = AuthApplication::new_registered_user(
                        user_id,
                        flow.first_name.clone(),
                        flow.last_name.clone(),
                        avatar,
                        now,
                    );
                    flow.user_id = user_id;
                    flow.created_at = now;
                    flow.phase = AccountPhase::AwaitUserCreated;
                    AccountStep::CreateUser(u)
                },
            },
            AccountEvent::UserCreated(r) => match r {
                Err(e) => Self::finish_register(flow, e),
                Ok(p) => {
                    let identity_id = new_id();
                    let i = AuthApplication::new_registered_identity(
                        identity_id,
                        flow.user_id,
                        flow.email.clone(),
                        flow.password.clone(),
                        flow.created_at,
                    );
                    flow.identity_id = identity_id;
                    flow.response = Some(AuthApplication::register_response(p));
                    flow.phase = AccountPhase::AwaitIdentityCreated;
                    AccountStep::CreateIdentity(i)
                },
            },
            AccountEvent::IdentityCreated(r) => match r {
                Err(e) => Self::finish_register(flow, e),
                Ok(_) => {
                    flow.phase = AccountPhase::AwaitDefaultRole;
                    AccountStep::GetDefaultRole
                },
            },
            AccountEvent::DefaultRole(r) => match r {
                Err(e) => Self::finish_register(flow, e),
                Ok(role) => {
                    let assignment = new_user_role(new_id(), flow.user_id, role.role_id, flow.user_id, now_seconds());
                    flow.phase = AccountPhase::AwaitRoleAssigned;
                    AccountStep::AssignRole(assignment)
                },
            },
            AccountEvent::RoleAssigned(r) => match r {
                Err(e) => Self::finish_register(flow, e),
                Ok(()) => {
                    let user_id = flow.response.as_ref().unwrap().user_id;
                    flow.phase = AccountPhase::AwaitVerification;
                    AccountStep::CreateVerification { identity_id: flow.identity_id, user_id }
                },
            },
            AccountEvent::VerificationCreated(r) => match r {
                Err(_) => {
                    let response = flow.response_copy();
                    flow.phase = AccountPhase::Finished;
                    AccountStep::Done(Ok(response))
                },
                Ok(token) => {
                    let first_name = flow.response.as_ref().unwrap().first_name.clone();
                    flow.phase = AccountPhase::AwaitEmailSent;
                    AccountStep::SendVerificationEmail { email: flow.email.clone(), first_name, token }
                },
            },
            AccountEvent::EmailSent(_) => {
                let response = flow.response_copy();
                flow.phase = AccountPhase::Finished;
                AccountStep::Done(Ok(response))
            },
            AccountEvent::Roles(_) => vstd::pervasive::unreached(),
        }
    }

    /// End a registration with `e`.
    fn finish_register(flow: &mut RegisterFlow, e: ServiceError) -> (step: AccountStep<RegisterUserResponse>)
        ensures
            final(flow).phase() == AccountPhase::Finished,
            final(flow).email() == old(flow).email(),
            final(flow).user_id() == old(flow).user_id(),
            final(flow).identity_id() == old(flow).identity_id(),
            final(flow).created_at() == old(flow).created_at(),
            final(flow).response() == old(flow).response(),
            account_fails_with(step, e),
    {
        flow.phase = AccountPhase::Finished;
        AccountStep::Done(Err(e))
    }
}

/// An administrator's user creation in progress.
pub struct CreateUserFlow {
    phase: AccountPhase,
    admin_user_id: u128,
    email: String,
    password: String,
    first_name: String,
    last_name: String,
    send_invite: bool,
    user_id: u128,
    identity_id: u128,
    created_at: i64,
    persisted: Option<User>,
    response: Option<AdminUserResponse>,
}

impl CreateUserFlow {
    pub closed spec fn phase(&self) -> AccountPhase {
        self.phase
    }

    /// The administrator creating the user.
    pub closed spec fn admin_user_id(&self) -> u128 {
        self.admin_user_id
    }

    pub closed spec fn email(&self) -> String {
        self.email
    }

    pub closed spec fn password(&self) -> String {
        self.password
    }

    pub closed spec fn first_name(&self) -> String {
        self.first_name
    }

    pub closed spec fn last_name(&self) -> String {
        self.last_name
    }

    /// Whether an invitation e-mail goes out.
    pub closed spec fn send_invite(&self) -> bool {
        self.send_invite
    }

    /// The id of the account being created.
    pub closed spec fn user_id(&self) -> u128 {
        self.user_id
    }

    /// The id of its identity.
    pub closed spec fn identity_id(&self) -> u128 {
        self.identity_id
    }

    /// When the account was made.
    pub closed spec fn created_at(&self) -> i64 {
        self.created_at
    }

    /// The account as inserted.
    pub closed spec fn persisted(&self) -> Option<User> {
        self.persisted
    }

    /// The answer, once the roles are known.
    pub closed spec fn response(&self) -> Option<AdminUserResponse> {
        self.response
    }

    /// What the plan holds in each phase.
    pub closed spec fn wf(&self) -> bool {
        match self.phase {
            AccountPhase::AwaitIdentityCreated | AccountPhase::AwaitDefaultRole
            | AccountPhase::AwaitRoleAssigned | AccountPhase::AwaitRoles => self.persisted is Some,
            AccountPhase::AwaitVerification | AccountPhase::AwaitEmailSent => self.persisted is Some
                && self.response is Some,
            _ => true,
        }
    }

    /// Whether `event` answers the plan's last step.
    pub open spec fn accepts(&self, event: AccountEvent) -> bool {
        answers(self.phase(), event)
    }

    /// The answer (once known).
    fn take_response(&mut self) -> (r: AdminUserResponse)
        requires
            old(self).response() is Some,
        ensures
            r == old(self).response().unwrap(),
            final(self).phase() == old(self).phase(),
            final(self).response() is None,
            final(self).persisted() == old(self).persisted(),
            final(self).email() == old(self).email(),
            final(self).admin_user_id() == old(self).admin_user_id(),
            final(self).send_invite() == old(self).send_invite(),
            final(self).user_id() == old(self).user_id(),
            final(self).identity_id() == old(self).identity_id(),
            final(self).created_at() == old(self).created_at(),
    {
        let mut taken: Option<AdminUserResponse> = None;
        std::mem::swap(&mut taken, &mut self.response);
        taken.unwrap()
    }
}

impl AdminApplication {
    /// Start creating a user on behalf of `ctx`: refused unless `ctx` is an
    /// administrator. The invitation e-mail goes out only when
    /// `send_invite_email` is `Some(true)`.
    pub fn begin_create_user(
        ctx: &AuthenticatedUserContext,
        email: String,
        password: String,
        first_name: String,
        last_name: String,
        send_invite_email: Option<bool>,
    ) -> (r: (CreateUserFlow, AccountStep<AdminUserResponse>))
        ensures
            r.0.wf(),
            r.0.admin_user_id() == ctx.user_id,
            r.0.email() == email && r.0.password() == password,
            r.0.first_name() == first_name && r.0.last_name() == last_name,
            r.0.send_invite() == (send_invite_email == Some(true)),
            has_role(ctx.roles@, "admin"@) ==> (r.0.phase() == AccountPhase::AwaitAvailability
                && r.1 == (AccountStep::<AdminUserResponse>::CheckEmailAvailable { email })),
            !has_role(ctx.roles@, "admin"@) ==> (r.0.phase() == AccountPhase::Finished
                && (r.1 matches AccountStep::Done(Err(e)) && admin_required(e))),
    {
        let checked = AdminApplication::require_admin(ctx);
        let (phase, step) = match checked {
            Err(e) => (AccountPhase::Finished, AccountStep::Done(Err(e))),
            Ok(()) => (AccountPhase::AwaitAvailability, AccountStep::CheckEmailAvailable { email: email.clone() }),
        };
        (
            CreateUserFlow {
                phase,
                admin_user_id: ctx.user_id,
                email,
                password,
                first_name,
                last_name,
                send_invite: AdminApplication::sends_invite(send_invite_email),
                user_id: 0,
                identity_id: 0,
                created_at: 0,
                persisted: None,
                response: None,
            },
            step,
        )
    }

    /// Advance a user creation with the answer to its last step. Every failed
    /// read or write ends it with that very error, except the invitation
    /// e-mail, whose failure is ignored.
    pub fn step_create_user(flow: &mut CreateUserFlow, event: AccountEvent) -> (step: AccountStep<AdminUserResponse>)
        requires
            old(flow).wf(),
            old(flow).accepts(event),
        ensures
            final(flow).wf(),
            step is Done <==> final(flow).phase() == AccountPhase::Finished,
            final(flow).email() == old(flow).email(),
            final(flow).admin_user_id() == old(flow).admin_user_id(),
            final(flow).send_invite() == old(flow).send_invite(),
            old(flow).phase() != AccountPhase::AwaitAvailability ==> final(flow).user_id() == old(flow).user_id(),
            // The account as inserted, its identity id, the creation time and
            // the prepared answer are carried unchanged to the answer.
            !(event is EmailAvailable) ==> final(flow).created_at() == old(flow).created_at(),
            !(event is EmailAvailable) && !(event is UserCreated) ==> final(flow).identity_id()
                == old(flow).identity_id(),
            !(event is UserCreated) ==> final(flow).persisted() == old(flow).persisted(),
            !(event is Roles) && !(event is VerificationCreated) && !(event is EmailSent) ==> final(flow).response()
                == old(flow).response(),
            event matches AccountEvent::EmailAvailable(Err(e)) ==> account_fails_with(step, e),
            event matches AccountEvent::EmailAvailable(Ok(())) ==> (step matches AccountStep::CreateUser(u)
                && u.user_id == final(flow).user_id() && u.first_name == Some(old(flow).first_name())
                && u.last_name == Some(old(flow).last_name()) && u.avatar_url is None
                && u.display_name is None && u.status == UserStatus::PendingVerification
                && u.token_version == 0 && !u.mfa_required
                && u.created_by == Some(old(flow).admin_user_id()) && u.updated_by == Some(old(flow).admin_user_id())
                && u.created_at == Some(final(flow).created_at()) && u.updated_at == Some(final(flow).created_at())
                && 0 <= final(flow).created_at() < CLOCK_BOUND && final(flow).phase() == AccountPhase::AwaitUserCreated),
            event matches AccountEvent::UserCreated(Err(e)) ==> account_fails_with(step, e),
            event matches AccountEvent::UserCreated(Ok(p)) ==> (step matches AccountStep::CreateIdentity(i)
                && i.identity_id == final(flow).identity_id() && i.user_id == old(flow).user_id()
                && i.provider == IdentityProvider::EmailPassword && i.provider_user_id is None
                && i.email == old(flow).email() && i.password_hash == Some(old(flow).password())
                && i.email_verified == Some(false) && i.is_primary && i.must_change_password
                && i.created_by == Some(old(flow).admin_user_id()) && i.updated_by == Some(old(flow).admin_user_id())
                && i.created_at == Some(old(flow).created_at())
                && final(flow).persisted() == Some(p) && final(flow).phase() == AccountPhase::AwaitIdentityCreated),
            event matches AccountEvent::IdentityCreated(Err(e)) ==> account_fails_with(step, e),
            event matches AccountEvent::IdentityCreated(Ok(_)) ==> (step is GetDefaultRole
                && final(flow).phase() == AccountPhase::AwaitDefaultRole),
            event matches AccountEvent::DefaultRole(Err(e)) ==> account_fails_with(step, e),
            event matches AccountEvent::DefaultRole(Ok(role)) ==> (step matches AccountStep::AssignRole(ur)
                && ur.user_id == old(flow).user_id() && ur.role_id == role.role_id
                && ur.created_by == Some(old(flow).admin_user_id()) && ur.created_at == old(flow).created_at()
                && final(flow).phase() == AccountPhase::AwaitRoleAssigned),
            event matches AccountEvent::RoleAssigned(Err(e)) ==> account_fails_with(step, e),
            event matches AccountEvent::RoleAssigned(Ok(())) ==> (step == AccountStep::<AdminUserResponse>::GetRoles {
                user_id: old(flow).user_id(),
            } && final(flow).phase() == AccountPhase::AwaitRoles),
            event matches AccountEvent::Roles(Err(e)) ==> account_fails_with(step, e),
            // The answer lists the account unverified, without MFA, with the roles read.
            event matches AccountEvent::Roles(Ok(rs)) ==> (if old(flow).send_invite() {
                step == AccountStep::<AdminUserResponse>::CreateVerification {
                    identity_id: old(flow).identity_id(),
                    user_id: old(flow).user_id(),
                } && final(flow).phase() == AccountPhase::AwaitVerification && (final(flow).response() matches Some(r)
                    && is_admin_user_response(r, old(flow).persisted().unwrap(), old(flow).email(), false, rs@, false, false))
            } else {
                step matches AccountStep::Done(Ok(r)) && is_admin_user_response(
                    r,
                    old(flow).persisted().unwrap(),
                    old(flow).email(),
                    false,
                    rs@,
                    false,
                    false,
                )
            }),
            event matches AccountEvent::VerificationCreated(Err(_)) ==> step == AccountStep::Done(
                Ok::<AdminUserResponse, ServiceError>(old(flow).response().unwrap()),
            ),
            event matches AccountEvent::VerificationCreated(Ok(token)) ==> (step matches AccountStep::SendVerificationEmail {
                email,
                first_name,
                token: t,
            } && email == old(flow).email() && first_name@ == first_name_or_empty(old(flow).persisted().unwrap())
                && t == token && final(flow).response() == old(flow).response() && final(flow).phase() == AccountPhase::AwaitEmailSent),
            event is EmailSent ==> step == AccountStep::Done(
                Ok::<AdminUserResponse, ServiceError>(old(flow).response().unwrap()),
            ),
    {
        match event {
            AccountEvent::EmailAvailable(r) => match r {
                Err(e) => Self::finish_create_user(flow, e),
                Ok(()) => {
                    let user_id = new_id();
                    let now = now_seconds();
                    let u = AdminApplication::new_invited_user(
                        flow.admin_user_id,
                        user_id,
                        flow.first_name.clone(),
                        flow.last_name.clone(),
                        now,
                    );
                    flow.user_id = user_id;
                    flow.created_at = now;
                    flow.phase = AccountPhase::AwaitUserCreated;
                    AccountStep::CreateUser(u)
                },
            },
            AccountEvent::UserCreated(r) => match r {
                Err(e) => Self::finish_create_user(flow, e),
                Ok(p) => {
                    let identity_id = new_id();
                    let i = AdminApplication::new_invited_identity(
                        flow.admin_user_id,
                        identity_id,
                        flow.user_id,
                        flow.email.clone(),
                        flow.password.clone(),
                        flow.created_at,
                    );
                    flow.identity_id = identity_id;
                    flow.persisted = Some(p);
                    flow.phase = AccountPhase::AwaitIdentityCreated;
                    AccountStep::CreateIdentity(i)
                },
            },
            AccountEvent::IdentityCreated(r) => match r {
                Err(e) => Self::finish_create_user(flow, e),
                Ok(_) => {
                    flow.phase = AccountPhase::AwaitDefaultRole;
                    AccountStep::GetDefaultRole
                },
            },
            AccountEvent::DefaultRole(r) => match r {
                Err(e) => Self::finish_create_user(flow, e),
                Ok(role) => {
                    let assignment = new_user_role(new_id(), flow.user_id, role.role_id, flow.admin_user_id, flow.created_at);
                    flow.phase = AccountPhase::AwaitRoleAssigned;
                    AccountStep::AssignRole(assignment)
                },
            },
            AccountEvent::RoleAssigned(r) => match r {
                Err(e) => Self::finish_create_user(flow, e),
                Ok(()) => {
                    flow.phase = AccountPhase::AwaitRoles;
                    AccountStep::GetRoles { user_id: flow.user_id }
                },
            },
            AccountEvent::Roles(r) => match r {
                Err(e) => Self::finish_create_user(flow, e),
                Ok(rs) => {
                    let p = flow.persisted.as_ref().unwrap();
                    let response = AdminApplication::user_to_admin_response(
                        Self::user_copy(p),
                        flow.email.clone(),
                        false,
                        rs,
                        false,
                        false,
                    );
                    if flow.send_invite {
                        flow.response = Some(response);
                        flow.phase = AccountPhase::AwaitVerification;
                        AccountStep::CreateVerification { identity_id: flow.identity_id, user_id: flow.user_id }
                    } else {
                        flow.phase = AccountPhase::Finished;
                        AccountStep::Done(Ok(response))
                    }
                },
            },
            AccountEvent::VerificationCreated(r) => match r {
                Err(_) => {
                    let response = flow.take_response();
                    flow.phase = AccountPhase::Finished;
                    AccountStep::Done(Ok(response))
                },
                Ok(token) => {
                    let first_name = AuthApplication::greeting_name(flow.persisted.as_ref().unwrap());
                    flow.phase = AccountPhase::AwaitEmailSent;
                    AccountStep::SendVerificationEmail { email: flow.email.clone(), first_name, token }
                },
            },
            AccountEvent::EmailSent(_) => {
                let response = flow.take_response();
                flow.phase = AccountPhase::Finished;
                AccountStep::Done(Ok(response))
            },
        }
    }

    /// A field-by-field copy of `u`.
    fn user_copy(u: &User) -> (c: User)
        ensures
            c == *u,
    {
        User {
            user_id: u.user_id,
            first_name: match &u.first_name {
                Some(s) => Some(s.clone()),
                None => None,
            },
            last_name: match &u.last_name {
                Some(s) => Some(s.clone()),
                None => None,
            },
            avatar_url: match &u.avatar_url {
                Some(s) => Some(s.clone()),
                None => None,
            },
            display_name: match &u.display_name {
                Some(s) => Some(s.clone()),
                None => None,
            },
            status: u.status,
            token_version: u.token_version,
            mfa_required: u.mfa_required,
            created_by: u.created_by,
            created_at: u.created_at,
            updated_by: u.updated_by,
            updated_at: u.updated_at,
        }
    }

    /// End a user creation with `e`.
    fn finish_create_user(flow: &mut CreateUserFlow, e: ServiceError) -> (step: AccountStep<AdminUserResponse>)
        ensures
            final(flow).phase() == AccountPhase::Finished,
            final(flow).email() == old(flow).email(),
            final(flow).admin_user_id() == old(flow).admin_user_id(),
            final(flow).send_invite() == old(flow).send_invite(),
            final(flow).user_id() == old(flow).user_id(),
            final(flow).identity_id() == old(flow).identity_id(),
            final(flow).created_at() == old(flow).created_at(),
            final(flow).persisted() == old(flow).persisted(),
            final(flow).response() == old(flow).response(),
            account_fails_with(step, e),
    {
        flow.phase = AccountPhase::Finished;
        AccountStep::Done(Err(e))
    }
}

} // verus!
