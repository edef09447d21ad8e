//! E-mail verification and password recovery, as plans.
//!
//! - Confirming an e-mail consumes the verification token, marks the identity
//!   verified, and activates an account still pending verification.
//! - Asking for the verification e-mail again names an e-mail that must be
//!   known; an already verified one is answered silently.
//! - A forgotten password is answered silently whatever the e-mail, so that
//!   nobody learns which e-mails are registered; a known one gets a reset link.
//! - Resetting a password with a reset token, or changing it with the current
//!   one, stores the new password and revokes every session of the account;
//!   the notification e-mail may fail without undoing that.

use vstd::prelude::*;
use crate::auth::{first_name_or_empty, AuthApplication};
use crate::domain::{AuthenticatedUserContext, User, UserIdentity, UserStatus};
use crate::errors::{ErrorKind, ServiceError};
use crate::user::UserPasswordApplication;

verus! {

/// Where a verification or recovery plan stands.
#[derive(Clone, Copy, Debug, PartialEq, Eq, Structural)]
pub enum MailPhase {
    AwaitToken,
    AwaitMarked,
    AwaitIdentity,
    AwaitUser,
    AwaitActivated,
    AwaitTokenCreated,
    AwaitPasswordCheck,
    AwaitPasswordUpdated,
    AwaitRevoked,
    AwaitSent,
    Finished,
}

/// What the caller does next.
#[derive(Debug)]
pub enum MailStep {
    /// Consume the presented e-mail verification token; answer with
    /// [`MailEvent::TokenConsumed`] carrying its identity.
    ConsumeVerificationToken,
    /// Consume the presented password reset token; answer with
    /// [`MailEvent::TokenConsumed`] carrying its identity.
    ConsumeResetToken,
    /// Mark the e-mail of `identity_id` verified; answer with [`MailEvent::Written`].
    MarkEmailVerified { identity_id: u128 },
    /// Load identity `identity_id`; answer with [`MailEvent::IdentityFound`].
    FindIdentityById { identity_id: u128 },
    /// Load the identity with `email`; answer with [`MailEvent::IdentityFound`].
    FindIdentityByEmail { email: String },
    /// Load the primary identity of `user_id`; answer with [`MailEvent::IdentityFound`].
    FindPrimaryIdentity { user_id: u128 },
    /// Load user `user_id`; answer with [`MailEvent::UserFound`].
    FindUser { user_id: u128 },
    /// Set the status of `user_id` to active; answer with [`MailEvent::Written`].
    ActivateUser { user_id: u128 },
    /// Create an e-mail verification token; answer with [`MailEvent::TokenCreated`].
    CreateVerification { identity_id: u128, user_id: u128 },
    /// Create a password reset token; answer with [`MailEvent::TokenCreated`].
    CreateResetToken { identity_id: u128, user_id: u128 },
    /// Check the presented current password of `email`; answer with [`MailEvent::Written`].
    CheckCurrentPassword { email: String },
    /// Store the presented new password on `identity_id`; answer with [`MailEvent::Written`].
    UpdatePassword { identity_id: u128 },
    /// Revoke every session of `user_id`; answer with [`MailEvent::Written`].
    RevokeAllSessions { user_id: u128 },
    /// Send the verification e-mail; answer with [`MailEvent::Sent`].
    SendVerificationEmail { email: String, first_name: String, token: String },
    /// Send the password reset e-mail; answer with [`MailEvent::Sent`].
    SendPasswordResetEmail { email: String, first_name: String, token: String },
    /// Send the password-changed notice; answer with [`MailEvent::Sent`].
    SendPasswordChangedEmail { email: String, first_name: String },
    /// The answer.
    Done(Result<(), ServiceError>),
}

/// What the caller learned by performing a [`MailStep`].
#[derive(Debug)]
pub enum MailEvent {
    TokenConsumed(Result<u128, ServiceError>),
    IdentityFound(Result<Option<UserIdentity>, ServiceError>),
    UserFound(Result<Option<User>, ServiceError>),
    TokenCreated(Result<String, ServiceError>),
    Written(Result<(), ServiceError>),
    Sent(Result<(), ServiceError>),
}

/// Whether `step` ends a plan with an error whose view is `e`.
pub open spec fn mail_fails_with(step: MailStep, e: (ErrorKind, Seq<char>)) -> bool {
    step matches MailStep::Done(Err(x)) && x@ == e
}

/// Whether `step` ends a plan successfully.
pub open spec fn mail_succeeds(step: MailStep) -> bool {
    step matches MailStep::Done(Ok(()))
}

/// Whether `event` answers a plan in `phase`.
pub open spec fn mail_answers(phase: MailPhase, event: MailEvent) -> bool {
    match phase {
        MailPhase::AwaitToken => event is TokenConsumed,
        MailPhase::AwaitIdentity => event is IdentityFound,
        MailPhase::AwaitUser => event is UserFound,
        MailPhase::AwaitTokenCreated => event is TokenCreated,
        MailPhase::AwaitSent => event is Sent,
        MailPhase::Finished => false,
        _ => event is Written,
    }
}

/// A verification or recovery plan in progress.
pub struct MailFlow {
    phase: MailPhase,
    email: String,
    user_id: u128,
    identity_id: u128,
    identity: Option<UserIdentity>,
    first_name: String,
}

impl MailFlow {
    pub closed spec fn phase(&self) -> MailPhase {
        self.phase
    }

    /// The e-mail the request named.
    pub closed spec fn email(&self) -> String {
        self.email
    }

    /// The account concerned, once known.
    pub closed spec fn user_id(&self) -> u128 {
        self.user_id
    }

    /// The identity a consumed token pointed at.
    pub closed spec fn identity_id(&self) -> u128 {
        self.identity_id
    }

    /// The identity concerned, once loaded.
    pub closed spec fn identity(&self) -> Option<UserIdentity> {
        self.identity
    }

    /// The first name the e-mail greets, once the account is loaded.
    pub closed spec fn first_name(&self) -> String {
        self.first_name
    }

    /// What the plan holds in each phase.
    pub closed spec fn wf(&self) -> bool {
        match self.phase {
            MailPhase::AwaitToken | MailPhase::AwaitMarked | MailPhase::AwaitIdentity
            | MailPhase::Finished => true,
            _ => self.identity is Some,
        }
    }

    /// Whether `event` answers the plan's last step.
    pub open spec fn accepts(&self, event: MailEvent) -> bool {
        mail_answers(self.phase(), event)
    }

    fn new(phase: MailPhase, email: String, user_id: u128) -> (f: MailFlow)
        ensures
            f.phase() == phase,
            f.email() == email,
            f.user_id() == user_id,
            f.identity_id() == 0,
            f.identity() is None,
            f.first_name()@.len() == 0,
    {
        MailFlow { phase, email, user_id, identity_id: 0, identity: None, first_name: String::new() }
    }

    /// The identity concerned (once loaded).
    pub fn identity_ref(&self) -> (i: &UserIdentity)
        requires
            self.identity() is Some,
        ensures
            Some(*i) == self.identity(),
    {
        self.identity.as_ref().unwrap()
    }

    /// End the plan with `r`.
    fn finish(&mut self, r: Result<(), ServiceError>) -> (step: MailStep)
        ensures
            final(self).phase() == MailPhase::Finished,
            final(self).email() == old(self).email(),
            final(self).user_id() == old(self).user_id(),
            final(self).identity() == old(self).identity(),
            step == MailStep::Done(r),
    {
        self.phase = MailPhase::Finished;
        MailStep::Done(r)
    }

    /// Move to `phase` and ask for `step`.
    fn ask(&mut self, phase: MailPhase, step: MailStep) -> (s: MailStep)
        ensures
            final(self).phase() == phase,
            final(self).email() == old(self).email(),
            final(self).user_id() == old(self).user_id(),
            final(self).identity_id() == old(self).identity_id(),
            final(self).identity() == old(self).identity(),
            final(self).first_name() == old(self).first_name(),
            s == step,
    {
        self.phase = phase;
        step
    }
}

impl AuthApplication {
    /// Start confirming an e-mail with a verification token.
    pub fn begin_verify_email() -> (r: (MailFlow, MailStep))
        ensures
            r.0.wf(),
            r.0.phase() == MailPhase::AwaitToken,
            r.0.email()@.len() == 0,
            r.0.user_id() == 0,
            r.0.identity_id() == 0,
            r.0.identity() is None,
            r.0.first_name()@.len() == 0,
            r.1 is ConsumeVerificationToken,
    {
        (MailFlow::new(MailPhase::AwaitToken, String::new(), 0), MailStep::ConsumeVerificationToken)
    }

    /// Advance an e-mail confirmation. A missing identity or account after the
    /// e-mail is marked is no error; only a pending account is activated.
    pub fn step_verify_email(flow: &mut MailFlow, event: MailEvent) -> (step: MailStep)
        requires
            old(flow).wf(),
            old(flow).accepts(event),
            old(flow).phase() == MailPhase::AwaitToken || old(flow).phase() == MailPhase::AwaitMarked
                || old(flow).phase() == MailPhase::AwaitIdentity || old(flow).phase() == MailPhase::AwaitUser
                || old(flow).phase() == MailPhase::AwaitActivated,
        ensures
            final(flow).wf(),
            step is Done <==> final(flow).phase() == MailPhase::Finished,
            event matches MailEvent::TokenConsumed(Err(e)) ==> mail_fails_with(step, e@),
            event matches MailEvent::TokenConsumed(Ok(id)) ==> (step == MailStep::MarkEmailVerified {
                identity_id: id,
            } && final(flow).identity_id() == id && final(flow).phase() == MailPhase::AwaitMarked),
            old(flow).phase() == MailPhase::AwaitMarked ==> (event matches MailEvent::Written(Err(e))
                ==> mail_fails_with(step, e@)),
            old(flow).phase() == MailPhase::AwaitMarked ==> (event matches MailEvent::Written(Ok(()))
                ==> (step == MailStep::FindIdentityById { identity_id: old(flow).identity_id() }
                && final(flow).phase() == MailPhase::AwaitIdentity)),
            event matches MailEvent::IdentityFound(Err(e)) ==> mail_fails_with(step, e@),
            event matches MailEvent::IdentityFound(Ok(None)) ==> mail_succeeds(step),
            event matches MailEvent::IdentityFound(Ok(Some(i))) ==> (step == MailStep::FindUser {
                user_id: i.user_id,
            } && final(flow).identity() == Some(i) && final(flow).phase() == MailPhase::AwaitUser),
            event matches MailEvent::UserFound(Err(e)) ==> mail_fails_with(step, e@),
            event matches MailEvent::UserFound(Ok(None)) ==> mail_succeeds(step),
            event matches MailEvent::UserFound(Ok(Some(u))) ==> (if u.status == UserStatus::PendingVerification {
                step == (MailStep::ActivateUser { user_id: old(flow).identity().unwrap().user_id })
                    && final(flow).phase() == MailPhase::AwaitActivated
            } else {
                mail_succeeds(step)
            }),
            old(flow).phase() == MailPhase::AwaitActivated ==> (event matches MailEvent::Written(r)
                ==> step == MailStep::Done(r)),
    {
        match event {
            MailEvent::TokenConsumed(r) => match r {
                Err(e) => flow.finish(Err(e)),
                Ok(id) => {
                    flow.identity_id = id;
                    flow.ask(MailPhase::AwaitMarked, MailStep::MarkEmailVerified { identity_id: id })
                },
            },
            MailEvent::IdentityFound(r) => match r {
                Err(e) => flow.finish(Err(e)),
                Ok(None) => flow.finish(Ok(())),
                Ok(Some(i)) => {
                    let user_id = i.user_id;
                    flow.identity = Some(i);
                    flow.ask(MailPhase::AwaitUser, MailStep::FindUser { user_id })
                },
            },
            MailEvent::UserFound(r) => match r {
                Err(e) => flow.finish(Err(e)),
                Ok(None) => flow.finish(Ok(())),
                Ok(Some(u)) => {
                    if AuthApplication::activates_on_verification(&u) {
                        let user_id = flow.identity_ref().user_id;
                        flow.ask(MailPhase::AwaitActivated, MailStep::ActivateUser { user_id })
                    } else {
                        flow.finish(Ok(()))
                    }
                },
            },
            MailEvent::Written(r) => {
                if flow.phase == MailPhase::AwaitMarked {
                    match r {
                        Err(e) => flow.finish(Err(e)),
                        Ok(()) => {
                            let identity_id = flow.identity_id;
                            flow.ask(MailPhase::AwaitIdentity, MailStep::FindIdentityById { identity_id })
                        },
                    }
                } else {
                    flow.finish(r)
                }
            },
            MailEvent::TokenCreated(_) | MailEvent::Sent(_) => vstd::pervasive::unreached(),
        }
    }

    /// Start sending the verification e-mail of `email` again.
    pub fn begin_resend_verification(email: String) -> (r: (MailFlow, MailStep))
        ensures
            r.0.wf(),
            r.0.phase() == MailPhase::AwaitIdentity,
            r.0.email() == email,
            r.1 == (MailStep::FindIdentityByEmail { email }),
    {
        let step = MailStep::FindIdentityByEmail { email: email.clone() };
        (MailFlow::new(MailPhase::AwaitIdentity, email, 0), step)
    }

    /// Advance a resend. Here the e-mail's failure is the answer.
    pub fn step_resend_verification(flow: &mut MailFlow, event: MailEvent) -> (step: MailStep)
        requires
            old(flow).wf(),
            old(flow).accepts(event),
            old(flow).phase() == MailPhase::AwaitIdentity || old(flow).phase() == MailPhase::AwaitUser
                || old(flow).phase() == MailPhase::AwaitTokenCreated || old(flow).phase() == MailPhase::AwaitSent,
        ensures
            final(flow).wf(),
            step is Done <==> final(flow).phase() == MailPhase::Finished,
            final(flow).email() == old(flow).email(),
            event matches MailEvent::IdentityFound(Err(e)) ==> mail_fails_with(step, e@),
            event matches MailEvent::IdentityFound(Ok(None)) ==> mail_fails_with(
                step,
                (ErrorKind::NotFoundError, "Email not found"@),
            ),
            event matches MailEvent::IdentityFound(Ok(Some(i))) ==> (if i.email_verified == Some(true) {
                mail_succeeds(step)
            } else {
                step == (MailStep::FindUser { user_id: i.user_id }) && final(flow).identity() == Some(i)
                    && final(flow).phase() == MailPhase::AwaitUser
            }),
            event matches MailEvent::UserFound(Err(e)) ==> mail_fails_with(step, e@),
            event matches MailEvent::UserFound(Ok(None)) ==> mail_fails_with(
                step,
                (ErrorKind::InternalError, "User not found"@),
            ),
            event matches MailEvent::UserFound(Ok(Some(u))) ==> (step == MailStep::CreateVerification {
                identity_id: old(flow).identity().unwrap().identity_id,
                user_id: old(flow).identity().unwrap().user_id,
            } && final(flow).user_id() == old(flow).identity().unwrap().user_id && final(flow).identity()
                == old(flow).identity() && final(flow).first_name()@ == first_name_or_empty(u)
                && final(flow).phase() == MailPhase::AwaitTokenCreated),
            event matches MailEvent::TokenCreated(Err(e)) ==> mail_fails_with(step, e@),
            event matches MailEvent::TokenCreated(Ok(t)) ==> (step matches MailStep::SendVerificationEmail {
                email,
                first_name,
                token,
            } && email == old(flow).email() && first_name == old(flow).first_name() && token == t
                && final(flow).phase() == MailPhase::AwaitSent),
            event matches MailEvent::Sent(r) ==> step == MailStep::Done(r),
    {
        match event {
            MailEvent::IdentityFound(r) => match r {
                Err(e) => flow.finish(Err(e)),
                Ok(None) => flow.finish(Err(AuthApplication::email_not_found())),
                Ok(Some(i)) => {
                    if !AuthApplication::needs_verification_email(&i) {
                        flow.finish(Ok(()))
                    } else {
                        let user_id = i.user_id;
                        flow.identity = Some(i);
                        flow.ask(MailPhase::AwaitUser, MailStep::FindUser { user_id })
                    }
                },
            },
            MailEvent::UserFound(r) => match r {
                Err(e) => flow.finish(Err(e)),
                Ok(found) => match AuthApplication::identity_owner(found) {
                    Err(e) => flow.finish(Err(e)),
                    Ok(u) => {
                        let identity_id = flow.identity_ref().identity_id;
                        let user_id = flow.identity_ref().user_id;
                        flow.user_id = user_id;
                        flow.first_name = AuthApplication::greeting_name(&u);
                        flow.ask(MailPhase::AwaitTokenCreated, MailStep::CreateVerification { identity_id, user_id })
                    },
                },
            },
            MailEvent::TokenCreated(r) => match r {
                Err(e) => flow.finish(Err(e)),
                Ok(token) => {
                    let email = flow.email.clone();
                    let first_name = flow.first_name.clone();
                    flow.ask(MailPhase::AwaitSent, MailStep::SendVerificationEmail { email, first_name, token })
                },
            },
            MailEvent::Sent(r) => flow.finish(r),
            MailEvent::TokenConsumed(_) | MailEvent::Written(_) => vstd::pervasive::unreached(),
        }
    }
}

impl AuthApplication {
    /// Start handling a forgotten password for `email`.
    pub fn begin_forgot_password(email: String) -> (r: (MailFlow, MailStep))
        ensures
            r.0.wf(),
            r.0.phase() == MailPhase::AwaitIdentity,
            r.0.email() == email,
            r.1 == (MailStep::FindIdentityByEmail { email }),
    {
        let step = MailStep::FindIdentityByEmail { email: email.clone() };
        (MailFlow::new(MailPhase::AwaitIdentity, email, 0), step)
    }

    /// Advance a forgotten-password request. An unknown e-mail, and a reset
    /// e-mail that fails, are answered with success all the same.
    pub fn step_forgot_password(flow: &mut MailFlow, event: MailEvent) -> (step: MailStep)
        requires
            old(flow).wf(),
            old(flow).accepts(event),
            old(flow).phase() == MailPhase::AwaitIdentity || old(flow).phase() == MailPhase::AwaitUser
                || old(flow).phase() == MailPhase::AwaitTokenCreated || old(flow).phase() == MailPhase::AwaitSent,
        ensures
            final(flow).wf(),
            step is Done <==> final(flow).phase() == MailPhase::Finished,
            event matches MailEvent::IdentityFound(Err(e)) ==> mail_fails_with(step, e@),
            event matches MailEvent::IdentityFound(Ok(None)) ==> mail_succeeds(step),
            event matches MailEvent::IdentityFound(Ok(Some(i))) ==> (step == (MailStep::FindUser {
                user_id: i.user_id,
            }) && final(flow).identity() == Some(i) && final(flow).phase() == MailPhase::AwaitUser),
            event matches MailEvent::UserFound(Err(e)) ==> mail_fails_with(step, e@),
            event matches MailEvent::UserFound(Ok(None)) ==> mail_fails_with(
                step,
                (ErrorKind::InternalError, "User not found"@),
            ),
            event matches MailEvent::UserFound(Ok(Some(u))) ==> (step == MailStep::CreateResetToken {
                identity_id: old(flow).identity().unwrap().identity_id,
                user_id: old(flow).identity().unwrap().user_id,
            } && final(flow).identity() == old(flow).identity() && final(flow).first_name()@
                == first_name_or_empty(u) && final(flow).phase() == MailPhase::AwaitTokenCreated),
            event matches MailEvent::TokenCreated(Err(e)) ==> mail_fails_with(step, e@),
            // The link goes to the identity's own e-mail.
            event matches MailEvent::TokenCreated(Ok(t)) ==> (step == MailStep::SendPasswordResetEmail {
                email: old(flow).identity().unwrap().email,
                first_name: old(flow).first_name(),
                token: t,
            } && final(flow).phase() == MailPhase::AwaitSent),
            event is Sent ==> mail_succeeds(step),
    {
        match event {
            MailEvent::IdentityFound(r) => match r {
                Err(e) => flow.finish(Err(e)),
                Ok(None) => flow.finish(Ok(())),
                Ok(Some(i)) => {
                    let user_id = i.user_id;
                    flow.identity = Some(i);
                    flow.ask(MailPhase::AwaitUser, MailStep::FindUser { user_id })
                },
            },
            MailEvent::UserFound(r) => match r {
                Err(e) => flow.finish(Err(e)),
                Ok(found) => match AuthApplication::identity_owner(found) {
                    Err(e) => flow.finish(Err(e)),
                    Ok(u) => {
                        let identity_id = flow.identity_ref().identity_id;
                        let user_id = flow.identity_ref().user_id;
                        flow.first_name = AuthApplication::greeting_name(&u);
                        flow.ask(MailPhase::AwaitTokenCreated, MailStep::CreateResetToken { identity_id, user_id })
                    },
                },
            },
            MailEvent::TokenCreated(r) => match r {
                Err(e) => flow.finish(Err(e)),
                Ok(token) => {
                    let email = flow.identity_ref().email.clone();
                    let first_name = flow.first_name.clone();
                    flow.ask(MailPhase::AwaitSent, MailStep::SendPasswordResetEmail { email, first_name, token })
                },
            },
            MailEvent::Sent(_) => flow.finish(Ok(())),
            MailEvent::TokenConsumed(_) | MailEvent::Written(_) => vstd::pervasive::unreached(),
        }
    }

    /// Start resetting a password with a reset token.
    pub fn begin_reset_password() -> (r: (MailFlow, MailStep))
        ensures
            r.0.wf(),
            r.0.phase() == MailPhase::AwaitToken,
            r.1 is ConsumeResetToken,
    {
        (MailFlow::new(MailPhase::AwaitToken, String::new(), 0), MailStep::ConsumeResetToken)
    }

    /// Advance a password reset: the password is stored, then every session
    /// of the account revoked, then the account notified (a failed notice is
    /// no error).
    pub fn step_reset_password(flow: &mut MailFlow, event: MailEvent) -> (step: MailStep)
        requires
            old(flow).wf(),
            old(flow).accepts(event),
            old(flow).phase() == MailPhase::AwaitToken || old(flow).phase() == MailPhase::AwaitIdentity
                || old(flow).phase() == MailPhase::AwaitPasswordUpdated || old(flow).phase() == MailPhase::AwaitRevoked
                || old(flow).phase() == MailPhase::AwaitUser || old(flow).phase() == MailPhase::AwaitSent,
        ensures
            final(flow).wf(),
            step is Done <==> final(flow).phase() == MailPhase::Finished,
            event matches MailEvent::TokenConsumed(Err(e)) ==> mail_fails_with(step, e@),
            event matches MailEvent::TokenConsumed(Ok(id)) ==> (step == (MailStep::FindIdentityById {
                identity_id: id,
            }) && final(flow).identity_id() == id && final(flow).phase() == MailPhase::AwaitIdentity),
            event matches MailEvent::IdentityFound(Err(e)) ==> mail_fails_with(step, e@),
            event matches MailEvent::IdentityFound(Ok(None)) ==> mail_fails_with(
                step,
                (ErrorKind::InternalError, "Identity not found after token consume"@),
            ),
            event matches MailEvent::IdentityFound(Ok(Some(i))) ==> (step == (MailStep::UpdatePassword {
                identity_id: old(flow).identity_id(),
            }) && final(flow).identity() == Some(i) && final(flow).phase() == MailPhase::AwaitPasswordUpdated),
            event matches MailEvent::Written(Err(e)) ==> mail_fails_with(step, e@),
            old(flow).phase() == MailPhase::AwaitPasswordUpdated ==> (event matches MailEvent::Written(Ok(()))
                ==> (step == (MailStep::RevokeAllSessions { user_id: old(flow).identity().unwrap().user_id })
                && final(flow).phase() == MailPhase::AwaitRevoked)),
            old(flow).phase() == MailPhase::AwaitRevoked ==> (event matches MailEvent::Written(Ok(()))
                ==> (step == (MailStep::FindUser { user_id: old(flow).identity().unwrap().user_id })
                && final(flow).phase() == MailPhase::AwaitUser)),
            event matches MailEvent::UserFound(Err(e)) ==> mail_fails_with(step, e@),
            event matches MailEvent::UserFound(Ok(None)) ==> mail_fails_with(
                step,
                (ErrorKind::InternalError, "User not found"@),
            ),
            event matches MailEvent::UserFound(Ok(Some(u))) ==> (step matches MailStep::SendPasswordChangedEmail {
                email,
                first_name,
            } && email == old(flow).identity().unwrap().email && first_name@ == first_name_or_empty(u)
                && final(flow).phase() == MailPhase::AwaitSent),
            event is Sent ==> mail_succeeds(step),
    {
        match event {
            MailEvent::TokenConsumed(r) => match r {
                Err(e) => flow.finish(Err(e)),
                Ok(id) => {
                    flow.identity_id = id;
                    flow.ask(MailPhase::AwaitIdentity, MailStep::FindIdentityById { identity_id: id })
                },
            },
            MailEvent::IdentityFound(r) => match r {
                Err(e) => flow.finish(Err(e)),
                Ok(found) => match AuthApplication::reset_identity(found) {
                    Err(e) => flow.finish(Err(e)),
                    Ok(i) => {
                        flow.identity = Some(i);
                        let identity_id = flow.identity_id;
                        flow.ask(MailPhase::AwaitPasswordUpdated, MailStep::UpdatePassword { identity_id })
                    },
                },
            },
            MailEvent::Written(r) => match r {
                Err(e) => flow.finish(Err(e)),
                Ok(()) => {
                    let user_id = flow.identity_ref().user_id;
                    if flow.phase == MailPhase::AwaitPasswordUpdated {
                        flow.ask(MailPhase::AwaitRevoked, MailStep::RevokeAllSessions { user_id })
                    } else {
                        flow.ask(MailPhase::AwaitUser, MailStep::FindUser { user_id })
                    }
                },
            },
            MailEvent::UserFound(r) => match r {
                Err(e) => flow.finish(Err(e)),
                Ok(found) => match AuthApplication::identity_owner(found) {
                    Err(e) => flow.finish(Err(e)),
                    Ok(u) => {
                        let email = flow.identity_ref().email.clone();
                        let first_name = AuthApplication::greeting_name(&u);
                        flow.ask(MailPhase::AwaitSent, MailStep::SendPasswordChangedEmail { email, first_name })
                    },
                },
            },
            MailEvent::Sent(_) => flow.finish(Ok(())),
            MailEvent::TokenCreated(_) => vstd::pervasive::unreached(),
        }
    }
}

impl UserPasswordApplication {
    /// Start changing the password of the caller `ctx`.
    pub fn begin_change_password(ctx: &AuthenticatedUserContext) -> (r: (MailFlow, MailStep))
        ensures
            r.0.wf(),
            r.0.phase() == MailPhase::AwaitIdentity,
            r.0.user_id() == ctx.user_id,
            r.1 == (MailStep::FindPrimaryIdentity { user_id: ctx.user_id }),
    {
        (MailFlow::new(MailPhase::AwaitIdentity, String::new(), ctx.user_id), MailStep::FindPrimaryIdentity {
            user_id: ctx.user_id,
        })
    }

    /// Advance a password change: the current password must check out (any
    /// failure to check it counts as a wrong password); then the new one is
    /// stored, every session of the caller revoked, and the caller notified
    /// (a failed notice is no error).
    pub fn step_change_password(flow: &mut MailFlow, event: MailEvent) -> (step: MailStep)
        requires
            old(flow).wf(),
            old(flow).accepts(event),
            old(flow).phase() == MailPhase::AwaitIdentity || old(flow).phase() == MailPhase::AwaitPasswordCheck
                || old(flow).phase() == MailPhase::AwaitPasswordUpdated || old(flow).phase() == MailPhase::AwaitRevoked
                || old(flow).phase() == MailPhase::AwaitUser || old(flow).phase() == MailPhase::AwaitSent,
        ensures
            final(flow).wf(),
            step is Done <==> final(flow).phase() == MailPhase::Finished,
            final(flow).user_id() == old(flow).user_id(),
            event matches MailEvent::IdentityFound(Err(e)) ==> mail_fails_with(step, e@),
            event matches MailEvent::IdentityFound(Ok(None)) ==> mail_fails_with(
                step,
                (ErrorKind::NotFoundError, "Identity not found"@),
            ),
            event matches MailEvent::IdentityFound(Ok(Some(i))) ==> (step == (MailStep::CheckCurrentPassword {
                email: i.email,
            }) && final(flow).identity() == Some(i) && final(flow).phase() == MailPhase::AwaitPasswordCheck),
            old(flow).phase() == MailPhase::AwaitPasswordCheck ==> (event matches MailEvent::Written(Err(_))
                ==> mail_fails_with(step, (ErrorKind::AuthenticationError, "Current password is incorrect"@))),
            old(flow).phase() == MailPhase::AwaitPasswordCheck ==> (event matches MailEvent::Written(Ok(()))
                ==> (step == (MailStep::UpdatePassword { identity_id: old(flow).identity().unwrap().identity_id })
                && final(flow).phase() == MailPhase::AwaitPasswordUpdated)),
            old(flow).phase() != MailPhase::AwaitPasswordCheck ==> (event matches MailEvent::Written(Err(e))
                ==> mail_fails_with(step, e@)),
            old(flow).phase() == MailPhase::AwaitPasswordUpdated ==> (event matches MailEvent::Written(Ok(()))
                ==> (step == (MailStep::RevokeAllSessions { user_id: old(flow).user_id() })
                && final(flow).phase() == MailPhase::AwaitRevoked)),
            old(flow).phase() == MailPhase::AwaitRevoked ==> (event matches MailEvent::Written(Ok(()))
                ==> (step == (MailStep::FindUser { user_id: old(flow).user_id() })
                && final(flow).phase() == MailPhase::AwaitUser)),
            event matches MailEvent::UserFound(Err(e)) ==> mail_fails_with(step, e@),
            event matches MailEvent::UserFound(Ok(None)) ==> mail_fails_with(
                step,
                (ErrorKind::InternalError, "User not found"@),
            ),
            event matches MailEvent::UserFound(Ok(Some(u))) ==> (step matches MailStep::SendPasswordChangedEmail {
                email,
                first_name,
            } && email == old(flow).identity().unwrap().email && first_name@ == first_name_or_empty(u)
                && final(flow).phase() == MailPhase::AwaitSent),
            event is Sent ==> mail_succeeds(step),
    {
        match event {
            MailEvent::IdentityFound(r) => match r {
                Err(e) => flow.finish(Err(e)),
                Ok(found) => match UserPasswordApplication::existing_identity(found) {
                    Err(e) => flow.finish(Err(e)),
                    Ok(i) => {
                        let email = i.email.clone();
                        flow.identity = Some(i);
                        flow.ask(MailPhase::AwaitPasswordCheck, MailStep::CheckCurrentPassword { email })
                    },
                },
            },
            MailEvent::Written(r) => {
                if flow.phase == MailPhase::AwaitPasswordCheck {
                    match UserPasswordApplication::check_current_password(r) {
                        Err(e) => flow.finish(Err(e)),
                        Ok(()) => {
                            let identity_id = flow.identity_ref().identity_id;
                            flow.ask(MailPhase::AwaitPasswordUpdated, MailStep::UpdatePassword { identity_id })
                        },
                    }
                } else {
                    match r {
                        Err(e) => flow.finish(Err(e)),
                        Ok(()) => {
                            let user_id = flow.user_id;
                            if flow.phase == MailPhase::AwaitPasswordUpdated {
                                flow.ask(MailPhase::AwaitRevoked, MailStep::RevokeAllSessions { user_id })
                            } else {
                                flow.ask(MailPhase::AwaitUser, MailStep::FindUser { user_id })
                            }
                        },
                    }
                }
            },
            MailEvent::UserFound(r) => match r {
                Err(e) => flow.finish(Err(e)),
                Ok(found) => match UserPasswordApplication::existing_user(found) {
                    Err(e) => flow.finish(Err(e)),
                    Ok(u) => {
                        let email = flow.identity_ref().email.clone();
                        let first_name = AuthApplication::greeting_name(&u);
                        flow.ask(MailPhase::AwaitSent, MailStep::SendPasswordChangedEmail { email, first_name })
                    },
                },
            },
            MailEvent::Sent(_) => flow.finish(Ok(())),
            MailEvent::TokenConsumed(_) | MailEvent::TokenCreated(_) => vstd::pervasive::unreached(),
        }
    }
}

} // verus!
