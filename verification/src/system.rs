//! System configuration: email provider configurations and the discovery of
//! the authentication methods the service offers.

use vstd::prelude::*;
use crate::domain::{admin_required, found_or_not_found, has_role, require_admin_role, AuthenticatedUserContext};
use crate::errors::{ErrorKind, ServiceError};

verus! {

/// A stored email provider configuration: the full configuration encrypted,
/// and a copy with every secret replaced for display.
#[derive(Debug)]
pub struct ProviderConfiguration {
    pub configuration_id: u128,
    pub tenant_id: Option<u128>,
    pub provider: String,
    pub config_encrypted: String,
    pub config_redacted: serde_json::Value,
    pub is_active: bool,
    pub created_by: Option<u128>,
    pub created_at: i64,
    pub updated_by: Option<u128>,
    pub updated_at: i64,
}

/// A provider configuration as listed (secrets redacted).
#[derive(Debug)]
pub struct ProviderConfigResponse {
    pub configuration_id: u128,
    pub tenant_id: Option<u128>,
    pub provider: String,
    pub config_redacted: serde_json::Value,
    pub is_active: bool,
    pub created_at: i64,
    pub updated_at: i64,
}

/// A provider configuration with its secrets revealed.
#[derive(Debug)]
pub struct DecryptedProviderConfigResponse {
    pub configuration_id: u128,
    pub provider: String,
    pub config: serde_json::Value,
    pub is_active: bool,
}

/// The outcome of testing a provider configuration.
#[derive(Debug)]
pub struct TestProviderConfigResponse {
    pub success: bool,
    pub message: String,
}

/// A registered OIDC client as announced to login pages.
#[derive(Debug)]
pub struct OidcClientInfo {
    pub client_id: String,
    pub name: String,
    pub allowed_scopes: Vec<String>,
    pub pkce_required: bool,
}

/// The authentication methods on offer.
#[derive(Debug)]
pub struct AuthMethodsResponse {
    pub password_enabled: bool,
    pub mfa_totp_available: bool,
    pub api_tokens_available: bool,
    pub email_verification_required: bool,
    pub email_provider_active: bool,
    pub oidc_enabled: bool,
    pub oidc_clients: Vec<OidcClientInfo>,
}

/// The system application.
pub struct SystemApplication {}

impl SystemApplication {
    /// The system application (it keeps no state).
    pub fn new() -> (a: SystemApplication) {
        SystemApplication {  }
    }

    /// Succeeds exactly when the caller holds the `admin` role.
    pub fn require_admin(ctx: &AuthenticatedUserContext) -> (r: Result<(), ServiceError>)
        ensures
            r.is_ok() == has_role(ctx.roles@, "admin"@),
            r matches Err(e) ==> admin_required(e),
    {
        require_admin_role(ctx)
    }

    /// The listed form of a configuration.
    pub fn config_to_response(c: ProviderConfiguration) -> (r: ProviderConfigResponse)
        ensures
            r.configuration_id == c.configuration_id,
            r.tenant_id == c.tenant_id,
            r.provider == c.provider,
            r.config_redacted == c.config_redacted,
            r.is_active == c.is_active,
            r.created_at == c.created_at,
            r.updated_at == c.updated_at,
    {
        ProviderConfigResponse {
            configuration_id: c.configuration_id,
            tenant_id: c.tenant_id,
            provider: c.provider,
            config_redacted: c.config_redacted,
            is_active: c.is_active,
            created_at: c.created_at,
            updated_at: c.updated_at,
        }
    }

    /// The methods on offer: passwords, TOTP, API tokens and email
    /// verification always; OIDC exactly when a client is registered.
    pub fn get_auth_methods(email_provider_active: bool, clients: Vec<OidcClientInfo>) -> (r: AuthMethodsResponse)
        ensures
            r.password_enabled && r.mfa_totp_available && r.api_tokens_available
                && r.email_verification_required,
            r.email_provider_active == email_provider_active,
            r.oidc_enabled == (clients@.len() > 0),
            r.oidc_clients@ == clients@,
    {
        let oidc_enabled = clients.len() > 0;
        AuthMethodsResponse {
            password_enabled: true,
            mfa_totp_available: true,
            api_tokens_available: true,
            email_verification_required: true,
            email_provider_active,
            oidc_enabled,
            oidc_clients: clients,
        }
    }

    /// The record of a new configuration, created and last updated by the
    /// caller at `now`; refused unless the caller holds the `admin` role.
    pub fn add_provider_config(
        ctx: &AuthenticatedUserContext,
        configuration_id: u128,
        tenant_id: Option<u128>,
        provider: String,
        config_encrypted: String,
        config_redacted: serde_json::Value,
        is_active: bool,
        now: i64,
    ) -> (r: Result<ProviderConfiguration, ServiceError>)
        ensures
            r.is_ok() == has_role(ctx.roles@, "admin"@),
            r matches Err(e) ==> admin_required(e),
            r matches Ok(c) ==> {
                &&& c.configuration_id == configuration_id
                &&& c.tenant_id == tenant_id
                &&& c.provider == provider
                &&& c.config_encrypted == config_encrypted
                &&& c.config_redacted == config_redacted
                &&& c.is_active == is_active
                &&& c.created_by == Some(ctx.user_id) && c.updated_by == Some(ctx.user_id)
                &&& c.created_at == now && c.updated_at == now
            },
    {
        match require_admin_role(ctx) {
            Err(e) => Err(e),
            Ok(()) => Ok(
                ProviderConfiguration {
                    configuration_id,
                    tenant_id,
                    provider,
                    config_encrypted,
                    config_redacted,
                    is_active,
                    created_by: Some(ctx.user_id),
                    created_at: now,
                    updated_by: Some(ctx.user_id),
                    updated_at: now,
                },
            ),
        }
    }

    /// The configuration an operation names, or "Provider configuration not found".
    pub fn existing_config(found: Option<ProviderConfiguration>) -> (r: Result<ProviderConfiguration, ServiceError>)
        ensures
            found matches Some(c) ==> r == Ok::<ProviderConfiguration, ServiceError>(c),
            found is None ==> (r matches Err(e) && e@ == (ErrorKind::NotFoundError, "Provider configuration not found"@)),
    {
        found_or_not_found(found, "Provider configuration not found")
    }

    /// The answer to a provider test: success with `success_message`; an
    /// internal error is reported as a failed test carrying its message; any
    /// other error is passed on.
    pub fn test_outcome(outcome: Result<(), ServiceError>, success_message: &str) -> (r: Result<TestProviderConfigResponse, ServiceError>)
        ensures
            outcome is Ok ==> (r matches Ok(t) && t.success && t.message@ == success_message@),
            outcome matches Err(e) ==> (e@.0 == ErrorKind::InternalError ==> (r matches Ok(t)
                && !t.success && t.message@ == e@.1)),
            outcome matches Err(e) ==> (e@.0 != ErrorKind::InternalError ==> (r matches Err(e2)
                && e2@ == e@)),
    {
        match outcome {
            Ok(()) => Ok(TestProviderConfigResponse { success: true, message: success_message.to_owned() }),
            Err(e) => {
                if e.kind() == ErrorKind::InternalError {
                    Ok(TestProviderConfigResponse { success: false, message: e.into_message() })
                } else {
                    Err(e)
                }
            },
        }
    }

    /// The answer to a connection test.
    pub fn test_config(outcome: Result<(), ServiceError>) -> (r: Result<TestProviderConfigResponse, ServiceError>)
        ensures
            outcome is Ok ==> (r matches Ok(t) && t.success && t.message@ == "SMTP connection successful"@),
            outcome matches Err(e) ==> (e@.0 == ErrorKind::InternalError ==> (r matches Ok(t)
                && !t.success && t.message@ == e@.1)),
            outcome matches Err(e) ==> (e@.0 != ErrorKind::InternalError ==> (r matches Err(e2)
                && e2@ == e@)),
    {
        Self::test_outcome(outcome, "SMTP connection successful")
    }

    /// The answer to a test email.
    pub fn send_test_email_config(outcome: Result<(), ServiceError>) -> (r: Result<TestProviderConfigResponse, ServiceError>)
        ensures
            outcome is Ok ==> (r matches Ok(t) && t.success && t.message@ == "Test email sent"@),
            outcome matches Err(e) ==> (e@.0 == ErrorKind::InternalError ==> (r matches Ok(t)
                && !t.success && t.message@ == e@.1)),
            outcome matches Err(e) ==> (e@.0 != ErrorKind::InternalError ==> (r matches Err(e2)
                && e2@ == e@)),
    {
        Self::test_outcome(outcome, "Test email sent")
    }

    /// A configuration with its secrets revealed.
    pub fn get_decrypted_config(config: ProviderConfiguration, decrypted: serde_json::Value) -> (r: DecryptedProviderConfigResponse)
        ensures
            r.configuration_id == config.configuration_id,
            r.provider == config.provider,
            r.config == decrypted,
            r.is_active == config.is_active,
    {
        DecryptedProviderConfigResponse {
            configuration_id: config.configuration_id,
            provider: config.provider,
            config: decrypted,
            is_active: config.is_active,
        }
    }
}

} // verus!
