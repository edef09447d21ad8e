//! Federation: exchanging a token issued by an external identity provider
//! (Supabase) for a native session.

use vstd::prelude::*;
use crate::errors::{ErrorKind, ServiceError};
use crate::ids::{id_text, uuid_text};
use crate::auth::BasicLoginResponse;
use crate::domain::SessionTokens;

verus! {

/// Settings of the Supabase federation.
#[derive(Debug)]
pub struct SupabaseFederationConfig {
    pub enabled: bool,
    pub jwks_url: String,
    pub jwt_issuer: String,
    pub jwt_audience: String,
}

/// The federation application: its settings, and how long the sessions it
/// opens grant access.
pub struct FederationApplication {
    config: SupabaseFederationConfig,
    access_ttl: i64,
}

impl FederationApplication {
    /// Whether the federation is switched on.
    pub closed spec fn enabled(&self) -> bool {
        self.config.enabled
    }

    /// The issuer federated tokens must come from.
    pub closed spec fn issuer(&self) -> Seq<char> {
        self.config.jwt_issuer@
    }

    /// Where the provider's signing keys are published.
    pub closed spec fn jwks_url(&self) -> Seq<char> {
        self.config.jwks_url@
    }

    /// The audience federated tokens must be issued for.
    pub closed spec fn audience(&self) -> Seq<char> {
        self.config.jwt_audience@
    }

    /// The access-token lifetime of the sessions it opens.
    pub closed spec fn access_ttl(&self) -> i64 {
        self.access_ttl
    }

    /// A federation application with `config`, kept as given, opening
    /// sessions whose access tokens live `access_ttl` seconds.
    pub fn new(config: SupabaseFederationConfig, access_ttl: i64) -> (a: FederationApplication)
        ensures
            a.enabled() == config.enabled,
            a.jwks_url() == config.jwks_url@,
            a.issuer() == config.jwt_issuer@,
            a.audience() == config.jwt_audience@,
            a.access_ttl() == access_ttl,
    {
        FederationApplication { config, access_ttl }
    }

    /// The settings it was made with, from which the token verifier is built
    /// when the federation is enabled.
    pub fn settings(&self) -> (c: &SupabaseFederationConfig)
        ensures
            c.enabled == self.enabled(),
            c.jwks_url@ == self.jwks_url(),
            c.jwt_issuer@ == self.issuer(),
            c.jwt_audience@ == self.audience(),
    {
        &self.config
    }

    /// Whether Supabase federation is enabled.
    pub fn is_supabase_enabled(&self) -> (b: bool)
        ensures
            b == self.enabled(),
    {
        self.config.enabled
    }

    /// The access-token lifetime of the sessions it opens, in seconds.
    pub fn access_ttl_secs(&self) -> (t: i64)
        ensures
            t == self.access_ttl(),
    {
        self.access_ttl
    }

    /// Refuse an exchange while the federation is switched off.
    pub fn require_enabled(&self) -> (r: Result<(), ServiceError>)
        ensures
            r is Ok == self.enabled(),
            r matches Err(e) ==> e@ == (ErrorKind::FederationNotEnabled, "Supabase federation is not enabled"@),
    {
        if !self.config.enabled {
            return Err(
                ServiceError::FederationNotEnabled("Supabase federation is not enabled".to_owned()),
            );
        }
        Ok(())
    }

    /// The error when the token verifier of an enabled federation is missing.
    pub fn verifier_missing() -> (e: ServiceError)
        ensures
            e@ == (ErrorKind::InternalError, "Supabase verifier not initialized"@),
    {
        ServiceError::InternalError("Supabase verifier not initialized".to_owned())
    }

    /// The external identity a verified token maps to: provider `supabase`,
    /// the configured issuer, and the token's user as subject.
    pub fn external_identity_key(&self, verified_user_id: u128) -> (r: (String, String, String))
        ensures
            r.0@ == "supabase"@,
            r.1@ == self.issuer(),
            r.2@ == uuid_text(verified_user_id),
    {
        ("supabase".to_owned(), self.config.jwt_issuer.clone(), id_text(verified_user_id))
    }

    /// The answer to an exchange that opened a session for `user_id` at `now`.
    pub fn exchange_response(&self, user_id: u128, tokens: SessionTokens, now: i64) -> (r: BasicLoginResponse)
        requires
            i64::MIN <= now + self.access_ttl() <= i64::MAX,
        ensures
            r.user_id == user_id,
            r.access_token == tokens.access_token,
            r.refresh_token == tokens.refresh_token,
            r.expires_at == now + self.access_ttl(),
            !r.must_change_password,
            !r.mfa_setup_required,
    {
        BasicLoginResponse {
            user_id,
            access_token: tokens.access_token,
            refresh_token: tokens.refresh_token,
            expires_at: now + self.access_ttl,
            must_change_password: false,
            mfa_setup_required: false,
        }
    }
}

} // verus!
