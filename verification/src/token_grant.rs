//! The OIDC token endpoint as a plan: an authorization code (with its PKCE
//! verifier) is redeemed for an ID token and an access token.
//!
//! Only the `authorization_code` grant is served. The client is looked up;
//! a confidential client must present its secret, which is checked. The code
//! is consumed (the caller's store checks redirect URI, PKCE verifier,
//! expiry and single use). The code's user and that user's primary identity
//! must exist. With the active signing key ready, the `amr` claim reports TOTP
//! exactly when the user has MFA enabled; both tokens live an hour.

use vstd::prelude::*;
use crate::domain::{User, UserIdentity};
use crate::errors::{ErrorKind, ServiceError};
use crate::oidc::{OidcApplication, OidcClient, TokenResponse, TOKEN_LIFETIME_SECS};

verus! {

/// What a consumed authorization code grants.
#[derive(Debug)]
pub struct RedeemedCode {
    pub user_id: u128,
    pub scope: String,
    pub nonce: Option<String>,
}

/// Where a token request stands.
#[derive(Clone, Copy, Debug, PartialEq, Eq, Structural)]
pub enum GrantPhase {
    AwaitClient,
    AwaitSecret,
    AwaitCode,
    AwaitUser,
    AwaitIdentity,
    AwaitKey,
    AwaitMfa,
    AwaitIdToken,
    AwaitAccessToken,
    Finished,
}

/// What the caller does next for a token request.
#[derive(Debug)]
pub enum GrantStep {
    /// Look the client up by `client_id`; answer with [`GrantEvent::ClientFound`].
    FindClient { client_id: String },
    /// Check `secret` against the client's stored secret; answer with
    /// [`GrantEvent::SecretChecked`].
    CheckSecret { secret: String },
    /// Consume `code` for client `oidc_client_id`, checking it was issued for
    /// `redirect_uri` and that `code_verifier` answers its PKCE challenge;
    /// answer with [`GrantEvent::CodeConsumed`].
    ConsumeCode { oidc_client_id: u128, code: String, redirect_uri: String, code_verifier: String },
    /// Load user `user_id`; answer with [`GrantEvent::User`].
    FindUser { user_id: u128 },
    /// Load the primary identity of `user_id`; answer with [`GrantEvent::Identity`].
    FindPrimaryIdentity { user_id: u128 },
    /// Fetch and decrypt the active signing key; answer with [`GrantEvent::KeyReady`].
    LoadSigningKey,
    /// Read whether `user_id` has MFA enabled; answer with [`GrantEvent::MfaEnabled`].
    CheckMfa { user_id: u128 },
    /// Sign the ID token for the flow's user and identity; answer with [`GrantEvent::IdToken`].
    SignIdToken { nonce: Option<String>, exp_secs: u64, amr: Vec<String> },
    /// Sign the access token for `user_id` and `scope`; answer with [`GrantEvent::AccessToken`].
    SignAccessToken { user_id: u128, scope: String, exp_secs: u64 },
    /// The answer.
    Done(Result<TokenResponse, ServiceError>),
}

/// What the caller learned by performing a [`GrantStep`].
#[derive(Debug)]
pub enum GrantEvent {
    ClientFound(Result<OidcClient, ServiceError>),
    SecretChecked(Result<(), ServiceError>),
    CodeConsumed(Result<RedeemedCode, ServiceError>),
    User(Result<Option<User>, ServiceError>),
    Identity(Result<Option<UserIdentity>, ServiceError>),
    KeyReady(Result<(), ServiceError>),
    MfaEnabled(Result<bool, ServiceError>),
    IdToken(Result<String, ServiceError>),
    AccessToken(Result<String, ServiceError>),
}

/// Whether a token-request `step` ends the flow with an error whose view is `e`.
pub open spec fn grant_fails_with(step: GrantStep, e: (ErrorKind, Seq<char>)) -> bool {
    step matches GrantStep::Done(Err(x)) && x@ == e
}

/// The `amr` values reported for a user with or without MFA.
pub open spec fn amr_values(mfa_enabled: bool) -> Seq<Seq<char>> {
    if mfa_enabled {
        seq!["pwd"@, "totp"@]
    } else {
        seq!["pwd"@]
    }
}

/// A token request in progress.
pub struct GrantFlow {
    phase: GrantPhase,
    client_secret: Option<String>,
    presented_code: String,
    redirect_uri: String,
    code_verifier: String,
    oidc_client_id: u128,
    code: Option<RedeemedCode>,
    user: Option<User>,
    identity: Option<UserIdentity>,
    id_token: Option<String>,
}

impl GrantFlow {
    pub closed spec fn phase(&self) -> GrantPhase {
        self.phase
    }

    /// The secret the request presented.
    pub closed spec fn client_secret(&self) -> Option<String> {
        self.client_secret
    }

    /// The authorization code the request presented.
    pub closed spec fn presented_code(&self) -> String {
        self.presented_code
    }

    /// The redirect URI the request presented.
    pub closed spec fn redirect_uri(&self) -> String {
        self.redirect_uri
    }

    /// The PKCE verifier the request presented.
    pub closed spec fn code_verifier(&self) -> String {
        self.code_verifier
    }

    /// The consumption of the presented code for client `oidc_client_id`.
    pub open spec fn consume_step(&self, oidc_client_id: u128) -> GrantStep {
        GrantStep::ConsumeCode {
            oidc_client_id,
            code: self.presented_code(),
            redirect_uri: self.redirect_uri(),
            code_verifier: self.code_verifier(),
        }
    }

    /// The consumption of the presented code for client `oidc_client_id`.
    fn consume_code_step(&self, oidc_client_id: u128) -> (s: GrantStep)
        ensures
            s == self.consume_step(oidc_client_id),
    {
        GrantStep::ConsumeCode {
            oidc_client_id,
            code: self.presented_code.clone(),
            redirect_uri: self.redirect_uri.clone(),
            code_verifier: self.code_verifier.clone(),
        }
    }

    /// The client the code must have been issued to.
    pub closed spec fn oidc_client_id(&self) -> u128 {
        self.oidc_client_id
    }

    /// What the consumed code grants.
    pub closed spec fn code(&self) -> Option<RedeemedCode> {
        self.code
    }

    /// The code's user.
    pub closed spec fn user(&self) -> Option<User> {
        self.user
    }

    /// That user's primary identity.
    pub closed spec fn identity(&self) -> Option<UserIdentity> {
        self.identity
    }

    /// The signed ID token.
    pub closed spec fn id_token(&self) -> Option<String> {
        self.id_token
    }

    /// What the flow holds in each phase.
    pub closed spec fn wf(&self) -> bool {
        match self.phase {
            GrantPhase::AwaitUser => self.code is Some,
            GrantPhase::AwaitIdentity => self.code is Some && self.user is Some,
            GrantPhase::AwaitKey | GrantPhase::AwaitMfa | GrantPhase::AwaitIdToken => self.code is Some
                && self.user is Some && self.identity is Some,
            GrantPhase::AwaitAccessToken => self.code is Some && self.user is Some && self.identity is Some
                && self.id_token is Some,
            _ => true,
        }
    }

    /// Whether `event` answers the flow's last step.
    pub open spec fn accepts(&self, event: GrantEvent) -> bool {
        match self.phase() {
            GrantPhase::AwaitClient => event is ClientFound,
            GrantPhase::AwaitSecret => event is SecretChecked,
            GrantPhase::AwaitCode => event is CodeConsumed,
            GrantPhase::AwaitUser => event is User,
            GrantPhase::AwaitIdentity => event is Identity,
            GrantPhase::AwaitKey => event is KeyReady,
            GrantPhase::AwaitMfa => event is MfaEnabled,
            GrantPhase::AwaitIdToken => event is IdToken,
            GrantPhase::AwaitAccessToken => event is AccessToken,
            GrantPhase::Finished => false,
        }
    }

    /// The code's user (once loaded).
    pub fn user_ref(&self) -> (u: &User)
        requires
            self.user() is Some,
        ensures
            Some(*u) == self.user(),
    {
        self.user.as_ref().unwrap()
    }

    /// The primary identity (once loaded).
    pub fn identity_ref(&self) -> (i: &UserIdentity)
        requires
            self.identity() is Some,
        ensures
            Some(*i) == self.identity(),
    {
        self.identity.as_ref().unwrap()
    }
}

impl OidcApplication {
    /// Start a token request with `grant_type`, from client `client_id`
    /// presenting `client_secret`, for `code` issued to `redirect_uri` with the
    /// PKCE `code_verifier`: only the authorization-code grant goes on.
    pub fn begin_token_exchange(
        grant_type: &str,
        client_id: String,
        client_secret: Option<String>,
        code: String,
        redirect_uri: String,
        code_verifier: String,
    ) -> (r: (GrantFlow, GrantStep))
        ensures
            r.0.wf(),
            r.0.client_secret() == client_secret,
            r.0.presented_code() == code,
            r.0.redirect_uri() == redirect_uri,
            r.0.code_verifier() == code_verifier,
            grant_type@ == "authorization_code"@ ==> (r.1 == GrantStep::FindClient { client_id }
                && r.0.phase() == GrantPhase::AwaitClient),
            grant_type@ != "authorization_code"@ ==> (grant_fails_with(
                r.1,
                (ErrorKind::OidcInvalidCode, "Only grant_type=authorization_code is supported"@),
            ) && r.0.phase() == GrantPhase::Finished),
    {
        let (phase, step) = match OidcApplication::check_grant_type(grant_type) {
            Err(e) => (GrantPhase::Finished, GrantStep::Done(Err(e))),
            Ok(()) => (GrantPhase::AwaitClient, GrantStep::FindClient { client_id }),
        };
        (
            GrantFlow {
                phase,
                client_secret,
                presented_code: code,
                redirect_uri,
                code_verifier,
                oidc_client_id: 0,
                code: None,
                user: None,
                identity: None,
                id_token: None,
            },
            step,
        )
    }

    /// Advance a token request with the answer to its last step. Every failed
    /// read, check or signature ends it with that very error.
    pub fn step_token_exchange(flow: &mut GrantFlow, event: GrantEvent) -> (step: GrantStep)
        requires
            old(flow).wf(),
            old(flow).accepts(event),
        ensures
            final(flow).wf(),
            step is Done <==> final(flow).phase() == GrantPhase::Finished,
            // What a step does not set is carried unchanged: the client, the
            // redeemed code (its scope and nonce), the user, the identity and
            // the signed id token.
            final(flow).client_secret() == old(flow).client_secret(),
            final(flow).presented_code() == old(flow).presented_code(),
            final(flow).redirect_uri() == old(flow).redirect_uri(),
            final(flow).code_verifier() == old(flow).code_verifier(),
            !(event is ClientFound) ==> final(flow).oidc_client_id() == old(flow).oidc_client_id(),
            !(event is CodeConsumed) ==> final(flow).code() == old(flow).code(),
            !(event is User) ==> final(flow).user() == old(flow).user(),
            !(event is Identity) ==> final(flow).identity() == old(flow).identity(),
            !(event is IdToken) && !(event is AccessToken) ==> final(flow).id_token() == old(flow).id_token(),
            event matches GrantEvent::ClientFound(Err(e)) ==> grant_fails_with(step, e@),
            // A confidential client must present its secret; a public one skips the check.
            event matches GrantEvent::ClientFound(Ok(c)) ==> (final(flow).oidc_client_id() == c.oidc_client_id && (
            if !c.is_confidential {
                step == old(flow).consume_step(c.oidc_client_id) && final(flow).phase() == GrantPhase::AwaitCode
            } else if old(flow).client_secret() is Some {
                step == (GrantStep::CheckSecret { secret: old(flow).client_secret().unwrap() })
                    && final(flow).phase() == GrantPhase::AwaitSecret
            } else {
                grant_fails_with(
                    step,
                    (ErrorKind::OidcInvalidCode, "client_secret is required for confidential clients"@),
                )
            })),
            event matches GrantEvent::SecretChecked(Err(e)) ==> grant_fails_with(step, e@),
            event matches GrantEvent::SecretChecked(Ok(())) ==> (step == old(flow).consume_step(old(flow).oidc_client_id())
                && final(flow).phase() == GrantPhase::AwaitCode),
            event matches GrantEvent::CodeConsumed(Err(e)) ==> grant_fails_with(step, e@),
            event matches GrantEvent::CodeConsumed(Ok(c)) ==> (step == (GrantStep::FindUser {
                user_id: c.user_id,
            }) && final(flow).code() == Some(c) && final(flow).phase() == GrantPhase::AwaitUser),
            event matches GrantEvent::User(Err(e)) ==> grant_fails_with(step, e@),
            event matches GrantEvent::User(Ok(None)) ==> grant_fails_with(
                step,
                (ErrorKind::NotFoundError, "User not found"@),
            ),
            event matches GrantEvent::User(Ok(Some(u))) ==> (step == (GrantStep::FindPrimaryIdentity {
                user_id: old(flow).code().unwrap().user_id,
            }) && final(flow).user() == Some(u) && final(flow).code() == old(flow).code()
                && final(flow).phase() == GrantPhase::AwaitIdentity),
            event matches GrantEvent::Identity(Err(e)) ==> grant_fails_with(step, e@),
            event matches GrantEvent::Identity(Ok(None)) ==> grant_fails_with(
                step,
                (ErrorKind::NotFoundError, "Identity not found"@),
            ),
            event matches GrantEvent::Identity(Ok(Some(i))) ==> (step is LoadSigningKey
                && final(flow).identity() == Some(i) && final(flow).user() == old(flow).user()
                && final(flow).code() == old(flow).code() && final(flow).phase() == GrantPhase::AwaitKey),
            event matches GrantEvent::KeyReady(Err(e)) ==> grant_fails_with(step, e@),
            event matches GrantEvent::KeyReady(Ok(())) ==> (step == (GrantStep::CheckMfa {
                user_id: old(flow).user().unwrap().user_id,
            }) && final(flow).phase() == GrantPhase::AwaitMfa),
            event matches GrantEvent::MfaEnabled(Err(e)) ==> grant_fails_with(step, e@),
            event matches GrantEvent::MfaEnabled(Ok(m)) ==> (step matches GrantStep::SignIdToken {
                nonce,
                exp_secs,
                amr,
            } && nonce == old(flow).code().unwrap().nonce && exp_secs == TOKEN_LIFETIME_SECS
                && amr@.map_values(|s: String| s@) == amr_values(m)
                && final(flow).user() == old(flow).user() && final(flow).identity() == old(flow).identity()
                && final(flow).phase() == GrantPhase::AwaitIdToken),
            event matches GrantEvent::IdToken(Err(e)) ==> grant_fails_with(step, e@),
            event matches GrantEvent::IdToken(Ok(t)) ==> (step == (GrantStep::SignAccessToken {
                user_id: old(flow).user().unwrap().user_id,
                scope: old(flow).code().unwrap().scope,
                exp_secs: TOKEN_LIFETIME_SECS,
            }) && final(flow).id_token() == Some(t) && final(flow).phase() == GrantPhase::AwaitAccessToken),
            event matches GrantEvent::AccessToken(Err(e)) ==> grant_fails_with(step, e@),
            event matches GrantEvent::AccessToken(Ok(a)) ==> (step matches GrantStep::Done(Ok(r))
                && r.access_token == a && r.token_type@ == "Bearer"@ && r.expires_in == TOKEN_LIFETIME_SECS
                && Some(r.id_token) == old(flow).id_token() && r.scope == old(flow).code().unwrap().scope),
    {
        match event {
            GrantEvent::ClientFound(r) => match r {
                Err(e) => Self::finish_grant(flow, e),
                Ok(c) => {
                    flow.oidc_client_id = c.oidc_client_id;
                    let presented = match &flow.client_secret {
                        Some(s) => Some(s.clone()),
                        None => None,
                    };
                    match OidcApplication::secret_to_check(c.is_confidential, presented) {
                        Err(e) => Self::finish_grant(flow, e),
                        Ok(None) => {
                            flow.phase = GrantPhase::AwaitCode;
                            flow.consume_code_step(c.oidc_client_id)
                        },
                        Ok(Some(secret)) => {
                            flow.phase = GrantPhase::AwaitSecret;
                            GrantStep::CheckSecret { secret }
                        },
                    }
                },
            },
            GrantEvent::SecretChecked(r) => match r {
                Err(e) => Self::finish_grant(flow, e),
                Ok(()) => {
                    flow.phase = GrantPhase::AwaitCode;
                    flow.consume_code_step(flow.oidc_client_id)
                },
            },
            GrantEvent::CodeConsumed(r) => match r {
                Err(e) => Self::finish_grant(flow, e),
                Ok(c) => {
                    let user_id = c.user_id;
                    flow.code = Some(c);
                    flow.phase = GrantPhase::AwaitUser;
                    GrantStep::FindUser { user_id }
                },
            },
            GrantEvent::User(r) => match r {
                Err(e) => Self::finish_grant(flow, e),
                Ok(found) => match OidcApplication::code_user(found) {
                    Err(e) => Self::finish_grant(flow, e),
                    Ok(u) => {
                        let user_id = flow.code.as_ref().unwrap().user_id;
                        flow.user = Some(u);
                        flow.phase = GrantPhase::AwaitIdentity;
                        GrantStep::FindPrimaryIdentity { user_id }
                    },
                },
            },
            GrantEvent::Identity(r) => match r {
                Err(e) => Self::finish_grant(flow, e),
                Ok(found) => match OidcApplication::code_identity(found) {
                    Err(e) => Self::finish_grant(flow, e),
                    Ok(i) => {
                        flow.identity = Some(i);
                        flow.phase = GrantPhase::AwaitKey;
                        GrantStep::LoadSigningKey
                    },
                },
            },
            GrantEvent::KeyReady(r) => match r {
                Err(e) => Self::finish_grant(flow, e),
                Ok(()) => {
                    flow.phase = GrantPhase::AwaitMfa;
                    GrantStep::CheckMfa { user_id: flow.user_ref().user_id }
                },
            },
            GrantEvent::MfaEnabled(r) => match r {
                Err(e) => Self::finish_grant(flow, e),
                Ok(m) => {
                    let nonce = match &flow.code.as_ref().unwrap().nonce {
                        Some(n) => Some(n.clone()),
                        None => None,
                    };
                    flow.phase = GrantPhase::AwaitIdToken;
                    GrantStep::SignIdToken {
                        nonce,
                        exp_secs: TOKEN_LIFETIME_SECS,
                        amr: OidcApplication::amr_claim(m),
                    }
                },
            },
            GrantEvent::IdToken(r) => match r {
                Err(e) => Self::finish_grant(flow, e),
                Ok(t) => {
                    let scope = flow.code.as_ref().unwrap().scope.clone();
                    flow.id_token = Some(t);
                    flow.phase = GrantPhase::AwaitAccessToken;
                    GrantStep::SignAccessToken {
                        user_id: flow.user_ref().user_id,
                        scope,
                        exp_secs: TOKEN_LIFETIME_SECS,
                    }
                },
            },
            GrantEvent::AccessToken(r) => match r {
                Err(e) => Self::finish_grant(flow, e),
                Ok(a) => {
                    let mut id_token: Option<String> = None;
                    std::mem::swap(&mut id_token, &mut flow.id_token);
                    let scope = flow.code.as_ref().unwrap().scope.clone();
                    flow.phase = GrantPhase::Finished;
                    GrantStep::Done(Ok(OidcApplication::token_response(a, id_token.unwrap(), scope)))
                },
            },
        }
    }

    /// End a token request with `e`.
    fn finish_grant(flow: &mut GrantFlow, e: ServiceError) -> (step: GrantStep)
        ensures
            final(flow).phase() == GrantPhase::Finished,
            final(flow).client_secret() == old(flow).client_secret(),
            final(flow).oidc_client_id() == old(flow).oidc_client_id(),
            final(flow).code() == old(flow).code(),
            final(flow).user() == old(flow).user(),
            final(flow).identity() == old(flow).identity(),
            final(flow).id_token() == old(flow).id_token(),
            final(flow).presented_code() == old(flow).presented_code(),
            final(flow).redirect_uri() == old(flow).redirect_uri(),
            final(flow).code_verifier() == old(flow).code_verifier(),
            grant_fails_with(step, e@),
    {
        flow.phase = GrantPhase::Finished;
        GrantStep::Done(Err(e))
    }
}

} // verus!
