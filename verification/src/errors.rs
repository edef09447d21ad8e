//! The error hierarchy: domain errors, repository errors, the service error used
//! by every application, and the HTTP-facing API error derived from it.

use vstd::prelude::*;

verus! {

/// The category of a [`DomainError`].
#[derive(Clone, Copy, Debug, PartialEq, Eq, Structural)]
pub enum DomainKind {
    Validation,
    BusinessRule,
    NotFound,
    Generic,
}

/// Pure business-rule violations with no I/O dependency.
#[derive(Debug)]
pub enum DomainError {
    /// A field value or invariant check failed.
    Validation(String),
    /// A business rule was violated.
    BusinessRule(String),
    /// A required entity could not be found.
    NotFound(String),
    /// A catch-all for other domain errors.
    Generic(String),
}

impl View for DomainError {
    type V = (DomainKind, Seq<char>);

    open spec fn view(&self) -> (DomainKind, Seq<char>) {
        match self {
            DomainError::Validation(m) => (DomainKind::Validation, m@),
            DomainError::BusinessRule(m) => (DomainKind::BusinessRule, m@),
            DomainError::NotFound(m) => (DomainKind::NotFound, m@),
            DomainError::Generic(m) => (DomainKind::Generic, m@),
        }
    }
}

/// The rendered message of a domain error of kind `k` whose detail is `d`.
pub open spec fn domain_message(k: DomainKind, d: Seq<char>) -> Seq<char> {
    match k {
        DomainKind::Validation => "Validation error: "@ + d,
        DomainKind::BusinessRule => "Business rule violation: "@ + d,
        DomainKind::NotFound => "Entity not found: "@ + d,
        DomainKind::Generic => "Domain error: "@ + d,
    }
}

impl DomainError {
    /// The human-readable message of this error.
    pub fn message(&self) -> (s: String)
        ensures
            s@ == domain_message(self@.0, self@.1),
    {
        match self {
            DomainError::Validation(m) => "Validation error: ".to_owned().concat(m.as_str()),
            DomainError::BusinessRule(m) => "Business rule violation: ".to_owned().concat(m.as_str()),
            DomainError::NotFound(m) => "Entity not found: ".to_owned().concat(m.as_str()),
            DomainError::Generic(m) => "Domain error: ".to_owned().concat(m.as_str()),
        }
    }

    /// A validation error carrying `msg`.
    pub fn validation(msg: &str) -> (e: DomainError)
        ensures
            e@ == (DomainKind::Validation, msg@),
    {
        DomainError::Validation(msg.to_owned())
    }

    /// A business-rule violation carrying `msg`.
    pub fn business_rule(msg: &str) -> (e: DomainError)
        ensures
            e@ == (DomainKind::BusinessRule, msg@),
    {
        DomainError::BusinessRule(msg.to_owned())
    }

    /// A not-found error naming `entity`.
    pub fn not_found(entity: &str) -> (e: DomainError)
        ensures
            e@ == (DomainKind::NotFound, entity@),
    {
        DomainError::NotFound(entity.to_owned())
    }
}

/// The category of a [`RepositoryError`].
#[derive(Clone, Copy, Debug, PartialEq, Eq, Structural)]
pub enum RepositoryKind {
    Database,
    Serialization,
    Validation,
    NotFound,
    Transaction,
}

/// Errors raised by the data-access layer; the database and serialisation
/// variants carry the underlying driver's message.
#[derive(Debug)]
pub enum RepositoryError {
    Database(String),
    Serialization(String),
    Validation(String),
    NotFound,
    Transaction(String),
}

/// The rendered message of a repository error of kind `k` whose detail is `d`.
pub open spec fn repository_message(k: RepositoryKind, d: Seq<char>) -> Seq<char> {
    match k {
        RepositoryKind::Database => "Database error: "@ + d,
        RepositoryKind::Serialization => "Serialization error: "@ + d,
        RepositoryKind::Validation => "Validation error: "@ + d,
        RepositoryKind::NotFound => "Entity not found"@,
        RepositoryKind::Transaction => "Transaction error: "@ + d,
    }
}

impl View for RepositoryError {
    type V = (RepositoryKind, Seq<char>);

    open spec fn view(&self) -> (RepositoryKind, Seq<char>) {
        match self {
            RepositoryError::Database(m) => (RepositoryKind::Database, m@),
            RepositoryError::Serialization(m) => (RepositoryKind::Serialization, m@),
            RepositoryError::Validation(m) => (RepositoryKind::Validation, m@),
            RepositoryError::NotFound => (RepositoryKind::NotFound, Seq::empty()),
            RepositoryError::Transaction(m) => (RepositoryKind::Transaction, m@),
        }
    }
}

impl RepositoryError {
    /// The human-readable message of this error.
    pub fn message(&self) -> (s: String)
        ensures
            s@ == repository_message(self@.0, self@.1),
    {
        match self {
            RepositoryError::Database(m) => "Database error: ".to_owned().concat(m.as_str()),
            RepositoryError::Serialization(m) => "Serialization error: ".to_owned().concat(
                m.as_str(),
            ),
            RepositoryError::Validation(m) => "Validation error: ".to_owned().concat(m.as_str()),
            RepositoryError::NotFound => "Entity not found".to_owned(),
            RepositoryError::Transaction(m) => "Transaction error: ".to_owned().concat(m.as_str()),
        }
    }
}


/// The category of a [`ServiceError`]; one per variant.
#[derive(Clone, Copy, Debug, PartialEq, Eq, Structural)]
pub enum ErrorKind {
    RegisterUserError,
    ValidationError,
    TokenBuildError,
    AuthenticationError,
    AuthorizationError,
    InvalidTokenError,
    ExpiredTokenError,
    MissingTokenError,
    NotFoundError,
    DatabaseError,
    PoolError,
    InternalError,
    OidcClientNotFound,
    OidcInvalidRedirectUri,
    OidcInvalidScope,
    OidcInvalidCode,
    OidcCodeExpired,
    OidcCodeConsumed,
    OidcPkceVerificationFailed,
    OidcNoActiveSigningKey,
    OidcSigningError,
    MfaInvalidCode,
    MfaNotEnrolled,
    MfaAttemptLimitExceeded,
    ApiTokenNotFound,
    EmailNotVerified,
    MustChangePassword,
    FederationNotEnabled,
}

/// The error type of every application: a category and a message.
#[derive(Debug)]
pub enum ServiceError {
    /// Email already exists or another registration-time constraint was violated.
    RegisterUserError(String),
    /// A request field failed validation.
    ValidationError(String),
    /// A session token could not be built.
    TokenBuildError(String),
    /// Credentials were invalid or the user was not found.
    AuthenticationError(String),
    /// The authenticated user lacks permission for the requested resource.
    AuthorizationError(String),
    /// A session token is syntactically invalid or cannot be decrypted.
    InvalidTokenError(String),
    /// A session token's expiry has passed.
    ExpiredTokenError(String),
    /// No bearer token was present.
    MissingTokenError(String),
    /// A requested resource could not be found.
    NotFoundError(String),
    /// A database query failed.
    DatabaseError(String),
    /// The connection pool was exhausted or unavailable.
    PoolError(String),
    /// A catch-all internal error.
    InternalError(String),
    /// The `client_id` of an OIDC request is unknown.
    OidcClientNotFound(String),
    /// The `redirect_uri` is not registered for the client.
    OidcInvalidRedirectUri(String),
    /// A requested scope is not registered for the client.
    OidcInvalidScope(String),
    /// The authorization code or the request shape is invalid.
    OidcInvalidCode(String),
    /// The authorization code has expired.
    OidcCodeExpired(String),
    /// The authorization code was already redeemed.
    OidcCodeConsumed(String),
    /// The PKCE parameters do not verify.
    OidcPkceVerificationFailed(String),
    /// No signing key is active.
    OidcNoActiveSigningKey(String),
    /// Signing with the active key failed.
    OidcSigningError(String),
    /// The submitted TOTP or recovery code was incorrect.
    MfaInvalidCode(String),
    /// The user has not enrolled TOTP.
    MfaNotEnrolled(String),
    /// Too many failed MFA attempts for one challenge token.
    MfaAttemptLimitExceeded(String),
    /// The API token was not found or was revoked.
    ApiTokenNotFound(String),
    /// The user's email is not verified yet.
    EmailNotVerified(String),
    /// The account must change its temporary password first.
    MustChangePassword(String),
    /// The requested token federation is switched off.
    FederationNotEnabled(String),
}

impl View for ServiceError {
    type V = (ErrorKind, Seq<char>);

    open spec fn view(&self) -> (ErrorKind, Seq<char>) {
        match self {
            ServiceError::RegisterUserError(m) => (ErrorKind::RegisterUserError, m@),
            ServiceError::ValidationError(m) => (ErrorKind::ValidationError, m@),
            ServiceError::TokenBuildError(m) => (ErrorKind::TokenBuildError, m@),
            ServiceError::AuthenticationError(m) => (ErrorKind::AuthenticationError, m@),
            ServiceError::AuthorizationError(m) => (ErrorKind::AuthorizationError, m@),
            ServiceError::InvalidTokenError(m) => (ErrorKind::InvalidTokenError, m@),
            ServiceError::ExpiredTokenError(m) => (ErrorKind::ExpiredTokenError, m@),
            ServiceError::MissingTokenError(m) => (ErrorKind::MissingTokenError, m@),
            ServiceError::NotFoundError(m) => (ErrorKind::NotFoundError, m@),
            ServiceError::DatabaseError(m) => (ErrorKind::DatabaseError, m@),
            ServiceError::PoolError(m) => (ErrorKind::PoolError, m@),
            ServiceError::InternalError(m) => (ErrorKind::InternalError, m@),
            ServiceError::OidcClientNotFound(m) => (ErrorKind::OidcClientNotFound, m@),
            ServiceError::OidcInvalidRedirectUri(m) => (ErrorKind::OidcInvalidRedirectUri, m@),
            ServiceError::OidcInvalidScope(m) => (ErrorKind::OidcInvalidScope, m@),
            ServiceError::OidcInvalidCode(m) => (ErrorKind::OidcInvalidCode, m@),
            ServiceError::OidcCodeExpired(m) => (ErrorKind::OidcCodeExpired, m@),
            ServiceError::OidcCodeConsumed(m) => (ErrorKind::OidcCodeConsumed, m@),
            ServiceError::OidcPkceVerificationFailed(m) => (ErrorKind::OidcPkceVerificationFailed, m@),
            ServiceError::OidcNoActiveSigningKey(m) => (ErrorKind::OidcNoActiveSigningKey, m@),
            ServiceError::OidcSigningError(m) => (ErrorKind::OidcSigningError, m@),
            ServiceError::MfaInvalidCode(m) => (ErrorKind::MfaInvalidCode, m@),
            ServiceError::MfaNotEnrolled(m) => (ErrorKind::MfaNotEnrolled, m@),
            ServiceError::MfaAttemptLimitExceeded(m) => (ErrorKind::MfaAttemptLimitExceeded, m@),
            ServiceError::ApiTokenNotFound(m) => (ErrorKind::ApiTokenNotFound, m@),
            ServiceError::EmailNotVerified(m) => (ErrorKind::EmailNotVerified, m@),
            ServiceError::MustChangePassword(m) => (ErrorKind::MustChangePassword, m@),
            ServiceError::FederationNotEnabled(m) => (ErrorKind::FederationNotEnabled, m@),
        }
    }
}

/// The machine-readable code an error of kind `k` is answered with.
pub open spec fn api_code(k: ErrorKind) -> Seq<char> {
    match k {
        ErrorKind::RegisterUserError => "VALIDATION_ERROR"@,
        ErrorKind::ValidationError => "VALIDATION_ERROR"@,
        ErrorKind::TokenBuildError => "INTERNAL_ERROR"@,
        ErrorKind::AuthenticationError => "AUTH_ERROR"@,
        ErrorKind::AuthorizationError => "FORBIDDEN"@,
        ErrorKind::InvalidTokenError => "INVALID_TOKEN"@,
        ErrorKind::ExpiredTokenError => "EXPIRED_TOKEN"@,
        ErrorKind::MissingTokenError => "MISSING_TOKEN"@,
        ErrorKind::NotFoundError => "NOT_FOUND"@,
        ErrorKind::DatabaseError => "INTERNAL_ERROR"@,
        ErrorKind::PoolError => "INTERNAL_ERROR"@,
        ErrorKind::InternalError => "INTERNAL_ERROR"@,
        ErrorKind::OidcClientNotFound => "OIDC_CLIENT_NOT_FOUND"@,
        ErrorKind::OidcInvalidRedirectUri => "OIDC_INVALID_REDIRECT_URI"@,
        ErrorKind::OidcInvalidScope => "OIDC_INVALID_SCOPE"@,
        ErrorKind::OidcInvalidCode => "OIDC_INVALID_GRANT"@,
        ErrorKind::OidcCodeExpired => "OIDC_INVALID_GRANT"@,
        ErrorKind::OidcCodeConsumed => "OIDC_INVALID_GRANT"@,
        ErrorKind::OidcPkceVerificationFailed => "OIDC_INVALID_GRANT"@,
        ErrorKind::OidcNoActiveSigningKey => "INTERNAL_ERROR"@,
        ErrorKind::OidcSigningError => "INTERNAL_ERROR"@,
        ErrorKind::MfaInvalidCode => "INVALID_MFA_CODE"@,
        ErrorKind::MfaNotEnrolled => "MFA_NOT_ENROLLED"@,
        ErrorKind::MfaAttemptLimitExceeded => "MFA_ATTEMPT_LIMIT_EXCEEDED"@,
        ErrorKind::ApiTokenNotFound => "API_TOKEN_NOT_FOUND"@,
        ErrorKind::EmailNotVerified => "EMAIL_NOT_VERIFIED"@,
        ErrorKind::MustChangePassword => "MUST_CHANGE_PASSWORD"@,
        ErrorKind::FederationNotEnabled => "FEDERATION_NOT_ENABLED"@,
    }
}

/// The HTTP status an error of kind `k` is answered with.
pub open spec fn api_status(k: ErrorKind) -> u16 {
    match k {
        ErrorKind::RegisterUserError => 400,
        ErrorKind::ValidationError => 400,
        ErrorKind::TokenBuildError => 500,
        ErrorKind::AuthenticationError => 401,
        ErrorKind::AuthorizationError => 403,
        ErrorKind::InvalidTokenError => 401,
        ErrorKind::ExpiredTokenError => 401,
        ErrorKind::MissingTokenError => 401,
        ErrorKind::NotFoundError => 404,
        ErrorKind::DatabaseError => 500,
        ErrorKind::PoolError => 500,
        ErrorKind::InternalError => 500,
        ErrorKind::OidcClientNotFound => 400,
        ErrorKind::OidcInvalidRedirectUri => 400,
        ErrorKind::OidcInvalidScope => 400,
        ErrorKind::OidcInvalidCode => 400,
        ErrorKind::OidcCodeExpired => 400,
        ErrorKind::OidcCodeConsumed => 400,
        ErrorKind::OidcPkceVerificationFailed => 400,
        ErrorKind::OidcNoActiveSigningKey => 500,
        ErrorKind::OidcSigningError => 500,
        ErrorKind::MfaInvalidCode => 401,
        ErrorKind::MfaNotEnrolled => 400,
        ErrorKind::MfaAttemptLimitExceeded => 429,
        ErrorKind::ApiTokenNotFound => 404,
        ErrorKind::EmailNotVerified => 403,
        ErrorKind::MustChangePassword => 403,
        ErrorKind::FederationNotEnabled => 400,
    }
}

/// Whether an error of kind `k` is internal: its detail is never shown to clients.
pub open spec fn is_internal(k: ErrorKind) -> bool {
    match k {
        ErrorKind::RegisterUserError => false,
        ErrorKind::ValidationError => false,
        ErrorKind::TokenBuildError => true,
        ErrorKind::AuthenticationError => false,
        ErrorKind::AuthorizationError => false,
        ErrorKind::InvalidTokenError => false,
        ErrorKind::ExpiredTokenError => false,
        ErrorKind::MissingTokenError => false,
        ErrorKind::NotFoundError => false,
        ErrorKind::DatabaseError => true,
        ErrorKind::PoolError => true,
        ErrorKind::InternalError => true,
        ErrorKind::OidcClientNotFound => false,
        ErrorKind::OidcInvalidRedirectUri => false,
        ErrorKind::OidcInvalidScope => false,
        ErrorKind::OidcInvalidCode => false,
        ErrorKind::OidcCodeExpired => false,
        ErrorKind::OidcCodeConsumed => false,
        ErrorKind::OidcPkceVerificationFailed => false,
        ErrorKind::OidcNoActiveSigningKey => true,
        ErrorKind::OidcSigningError => true,
        ErrorKind::MfaInvalidCode => false,
        ErrorKind::MfaNotEnrolled => false,
        ErrorKind::MfaAttemptLimitExceeded => false,
        ErrorKind::ApiTokenNotFound => false,
        ErrorKind::EmailNotVerified => false,
        ErrorKind::MustChangePassword => false,
        ErrorKind::FederationNotEnabled => false,
    }
}

/// The message that stands in for the detail of every internal error.
pub const INTERNAL_MESSAGE: &'static str = "An internal server error occurred";

#[verifier::external_type_specification]
#[verifier::external_body]
pub struct ExJsonValue(serde_json::Value);

/// The HTTP-facing error: a status, a machine-readable code and a message.
#[derive(Debug)]
pub struct ApiError {
    pub code: String,
    pub message: String,
    pub details: Option<serde_json::Value>,
    pub status: u16,
}

impl ServiceError {
    /// The kind of this error.
    pub fn kind(&self) -> (k: ErrorKind)
        ensures
            k == self@.0,
    {
        match self {
            ServiceError::RegisterUserError(_) => ErrorKind::RegisterUserError,
            ServiceError::ValidationError(_) => ErrorKind::ValidationError,
            ServiceError::TokenBuildError(_) => ErrorKind::TokenBuildError,
            ServiceError::AuthenticationError(_) => ErrorKind::AuthenticationError,
            ServiceError::AuthorizationError(_) => ErrorKind::AuthorizationError,
            ServiceError::InvalidTokenError(_) => ErrorKind::InvalidTokenError,
            ServiceError::ExpiredTokenError(_) => ErrorKind::ExpiredTokenError,
            ServiceError::MissingTokenError(_) => ErrorKind::MissingTokenError,
            ServiceError::NotFoundError(_) => ErrorKind::NotFoundError,
            ServiceError::DatabaseError(_) => ErrorKind::DatabaseError,
            ServiceError::PoolError(_) => ErrorKind::PoolError,
            ServiceError::InternalError(_) => ErrorKind::InternalError,
            ServiceError::OidcClientNotFound(_) => ErrorKind::OidcClientNotFound,
            ServiceError::OidcInvalidRedirectUri(_) => ErrorKind::OidcInvalidRedirectUri,
            ServiceError::OidcInvalidScope(_) => ErrorKind::OidcInvalidScope,
            ServiceError::OidcInvalidCode(_) => ErrorKind::OidcInvalidCode,
            ServiceError::OidcCodeExpired(_) => ErrorKind::OidcCodeExpired,
            ServiceError::OidcCodeConsumed(_) => ErrorKind::OidcCodeConsumed,
            ServiceError::OidcPkceVerificationFailed(_) => ErrorKind::OidcPkceVerificationFailed,
            ServiceError::OidcNoActiveSigningKey(_) => ErrorKind::OidcNoActiveSigningKey,
            ServiceError::OidcSigningError(_) => ErrorKind::OidcSigningError,
            ServiceError::MfaInvalidCode(_) => ErrorKind::MfaInvalidCode,
            ServiceError::MfaNotEnrolled(_) => ErrorKind::MfaNotEnrolled,
            ServiceError::MfaAttemptLimitExceeded(_) => ErrorKind::MfaAttemptLimitExceeded,
            ServiceError::ApiTokenNotFound(_) => ErrorKind::ApiTokenNotFound,
            ServiceError::EmailNotVerified(_) => ErrorKind::EmailNotVerified,
            ServiceError::MustChangePassword(_) => ErrorKind::MustChangePassword,
            ServiceError::FederationNotEnabled(_) => ErrorKind::FederationNotEnabled,
        }
    }

    /// The message this error displays.
    pub fn message(&self) -> (m: &String)
        ensures
            m@ == self@.1,
    {
        match self {
            ServiceError::RegisterUserError(m) => m,
            ServiceError::ValidationError(m) => m,
            ServiceError::TokenBuildError(m) => m,
            ServiceError::AuthenticationError(m) => m,
            ServiceError::AuthorizationError(m) => m,
            ServiceError::InvalidTokenError(m) => m,
            ServiceError::ExpiredTokenError(m) => m,
            ServiceError::MissingTokenError(m) => m,
            ServiceError::NotFoundError(m) => m,
            ServiceError::DatabaseError(m) => m,
            ServiceError::PoolError(m) => m,
            ServiceError::InternalError(m) => m,
            ServiceError::OidcClientNotFound(m) => m,
            ServiceError::OidcInvalidRedirectUri(m) => m,
            ServiceError::OidcInvalidScope(m) => m,
            ServiceError::OidcInvalidCode(m) => m,
            ServiceError::OidcCodeExpired(m) => m,
            ServiceError::OidcCodeConsumed(m) => m,
            ServiceError::OidcPkceVerificationFailed(m) => m,
            ServiceError::OidcNoActiveSigningKey(m) => m,
            ServiceError::OidcSigningError(m) => m,
            ServiceError::MfaInvalidCode(m) => m,
            ServiceError::MfaNotEnrolled(m) => m,
            ServiceError::MfaAttemptLimitExceeded(m) => m,
            ServiceError::ApiTokenNotFound(m) => m,
            ServiceError::EmailNotVerified(m) => m,
            ServiceError::MustChangePassword(m) => m,
            ServiceError::FederationNotEnabled(m) => m,
        }
    }
}

impl ApiError {
    /// The API error a service error is answered with. Internal errors are
    /// answered with a fixed message so that no detail reaches the client.
    pub fn from_service_error(error: ServiceError) -> (r: ApiError)
        ensures
            r.code@ == api_code(error@.0),
            r.status == api_status(error@.0),
            is_internal(error@.0) ==> r.message@ == INTERNAL_MESSAGE@,
            !is_internal(error@.0) ==> r.message@ == error@.1,
            r.details.is_none(),
    {
        let k = error.kind();
        let code = api_code_str(k);
        let status = api_status_code(k);
        let message = if is_internal_kind(k) {
            INTERNAL_MESSAGE.to_owned()
        } else {
            error.into_message()
        };
        ApiError { code: code.to_owned(), message, details: None, status }
    }
}

/// The code text of kind `k`.
fn api_code_str(k: ErrorKind) -> (s: &'static str)
    ensures
        s@ == api_code(k),
{
    match k {
        ErrorKind::RegisterUserError => "VALIDATION_ERROR",
        ErrorKind::ValidationError => "VALIDATION_ERROR",
        ErrorKind::TokenBuildError => "INTERNAL_ERROR",
        ErrorKind::AuthenticationError => "AUTH_ERROR",
        ErrorKind::AuthorizationError => "FORBIDDEN",
        ErrorKind::InvalidTokenError => "INVALID_TOKEN",
        ErrorKind::ExpiredTokenError => "EXPIRED_TOKEN",
        ErrorKind::MissingTokenError => "MISSING_TOKEN",
        ErrorKind::NotFoundError => "NOT_FOUND",
        ErrorKind::DatabaseError => "INTERNAL_ERROR",
        ErrorKind::PoolError => "INTERNAL_ERROR",
        ErrorKind::InternalError => "INTERNAL_ERROR",
        ErrorKind::OidcClientNotFound => "OIDC_CLIENT_NOT_FOUND",
        ErrorKind::OidcInvalidRedirectUri => "OIDC_INVALID_REDIRECT_URI",
        ErrorKind::OidcInvalidScope => "OIDC_INVALID_SCOPE",
        ErrorKind::OidcInvalidCode => "OIDC_INVALID_GRANT",
        ErrorKind::OidcCodeExpired => "OIDC_INVALID_GRANT",
        ErrorKind::OidcCodeConsumed => "OIDC_INVALID_GRANT",
        ErrorKind::OidcPkceVerificationFailed => "OIDC_INVALID_GRANT",
        ErrorKind::OidcNoActiveSigningKey => "INTERNAL_ERROR",
        ErrorKind::OidcSigningError => "INTERNAL_ERROR",
        ErrorKind::MfaInvalidCode => "INVALID_MFA_CODE",
        ErrorKind::MfaNotEnrolled => "MFA_NOT_ENROLLED",
        ErrorKind::MfaAttemptLimitExceeded => "MFA_ATTEMPT_LIMIT_EXCEEDED",
        ErrorKind::ApiTokenNotFound => "API_TOKEN_NOT_FOUND",
        ErrorKind::EmailNotVerified => "EMAIL_NOT_VERIFIED",
        ErrorKind::MustChangePassword => "MUST_CHANGE_PASSWORD",
        ErrorKind::FederationNotEnabled => "FEDERATION_NOT_ENABLED",
    }
}

/// The status of kind `k`.
fn api_status_code(k: ErrorKind) -> (s: u16)
    ensures
        s == api_status(k),
{
    match k {
        ErrorKind::RegisterUserError => 400,
        ErrorKind::ValidationError => 400,
        ErrorKind::TokenBuildError => 500,
        ErrorKind::AuthenticationError => 401,
        ErrorKind::AuthorizationError => 403,
        ErrorKind::InvalidTokenError => 401,
        ErrorKind::ExpiredTokenError => 401,
        ErrorKind::MissingTokenError => 401,
        ErrorKind::NotFoundError => 404,
        ErrorKind::DatabaseError => 500,
        ErrorKind::PoolError => 500,
        ErrorKind::InternalError => 500,
        ErrorKind::OidcClientNotFound => 400,
        ErrorKind::OidcInvalidRedirectUri => 400,
        ErrorKind::OidcInvalidScope => 400,
        ErrorKind::OidcInvalidCode => 400,
        ErrorKind::OidcCodeExpired => 400,
        ErrorKind::OidcCodeConsumed => 400,
        ErrorKind::OidcPkceVerificationFailed => 400,
        ErrorKind::OidcNoActiveSigningKey => 500,
        ErrorKind::OidcSigningError => 500,
        ErrorKind::MfaInvalidCode => 401,
        ErrorKind::MfaNotEnrolled => 400,
        ErrorKind::MfaAttemptLimitExceeded => 429,
        ErrorKind::ApiTokenNotFound => 404,
        ErrorKind::EmailNotVerified => 403,
        ErrorKind::MustChangePassword => 403,
        ErrorKind::FederationNotEnabled => 400,
    }
}

/// Whether kind `k` is internal.
fn is_internal_kind(k: ErrorKind) -> (b: bool)
    ensures
        b == is_internal(k),
{
    match k {
        ErrorKind::RegisterUserError => false,
        ErrorKind::ValidationError => false,
        ErrorKind::TokenBuildError => true,
        ErrorKind::AuthenticationError => false,
        ErrorKind::AuthorizationError => false,
        ErrorKind::InvalidTokenError => false,
        ErrorKind::ExpiredTokenError => false,
        ErrorKind::MissingTokenError => false,
        ErrorKind::NotFoundError => false,
        ErrorKind::DatabaseError => true,
        ErrorKind::PoolError => true,
        ErrorKind::InternalError => true,
        ErrorKind::OidcClientNotFound => false,
        ErrorKind::OidcInvalidRedirectUri => false,
        ErrorKind::OidcInvalidScope => false,
        ErrorKind::OidcInvalidCode => false,
        ErrorKind::OidcCodeExpired => false,
        ErrorKind::OidcCodeConsumed => false,
        ErrorKind::OidcPkceVerificationFailed => false,
        ErrorKind::OidcNoActiveSigningKey => true,
        ErrorKind::OidcSigningError => true,
        ErrorKind::MfaInvalidCode => false,
        ErrorKind::MfaNotEnrolled => false,
        ErrorKind::MfaAttemptLimitExceeded => false,
        ErrorKind::ApiTokenNotFound => false,
        ErrorKind::EmailNotVerified => false,
        ErrorKind::MustChangePassword => false,
        ErrorKind::FederationNotEnabled => false,
    }
}

impl ServiceError {
    /// Consume this error, keeping its message.
    pub fn into_message(self) -> (m: String)
        ensures
            m@ == self@.1,
    {
        match self {
            ServiceError::RegisterUserError(m) => m,
            ServiceError::ValidationError(m) => m,
            ServiceError::TokenBuildError(m) => m,
            ServiceError::AuthenticationError(m) => m,
            ServiceError::AuthorizationError(m) => m,
            ServiceError::InvalidTokenError(m) => m,
            ServiceError::ExpiredTokenError(m) => m,
            ServiceError::MissingTokenError(m) => m,
            ServiceError::NotFoundError(m) => m,
            ServiceError::DatabaseError(m) => m,
            ServiceError::PoolError(m) => m,
            ServiceError::InternalError(m) => m,
            ServiceError::OidcClientNotFound(m) => m,
            ServiceError::OidcInvalidRedirectUri(m) => m,
            ServiceError::OidcInvalidScope(m) => m,
            ServiceError::OidcInvalidCode(m) => m,
            ServiceError::OidcCodeExpired(m) => m,
            ServiceError::OidcCodeConsumed(m) => m,
            ServiceError::OidcPkceVerificationFailed(m) => m,
            ServiceError::OidcNoActiveSigningKey(m) => m,
            ServiceError::OidcSigningError(m) => m,
            ServiceError::MfaInvalidCode(m) => m,
            ServiceError::MfaNotEnrolled(m) => m,
            ServiceError::MfaAttemptLimitExceeded(m) => m,
            ServiceError::ApiTokenNotFound(m) => m,
            ServiceError::EmailNotVerified(m) => m,
            ServiceError::MustChangePassword(m) => m,
            ServiceError::FederationNotEnabled(m) => m,
        }
    }
}

impl ServiceError {
    /// The service error a repository error becomes: a database error carrying
    /// the repository error's message.
    pub fn from_repository(e: RepositoryError) -> (r: ServiceError)
        ensures
            r@ == (ErrorKind::DatabaseError, repository_message(e@.0, e@.1)),
    {
        ServiceError::DatabaseError(e.message())
    }

    /// The service error a domain error becomes.
    pub fn from_domain(e: DomainError) -> (r: ServiceError)
        ensures
            r == domain_to_service(e),
            r@.1 == e@.1,
            e@.0 == DomainKind::Validation ==> r@.0 == ErrorKind::ValidationError,
            e@.0 == DomainKind::NotFound ==> r@.0 == ErrorKind::DatabaseError,
            e@.0 == DomainKind::BusinessRule ==> r@.0 == ErrorKind::InternalError,
            e@.0 == DomainKind::Generic ==> r@.0 == ErrorKind::InternalError,
    {
        match e {
            DomainError::Validation(m) => ServiceError::ValidationError(m),
            DomainError::NotFound(m) => ServiceError::DatabaseError(m),
            DomainError::BusinessRule(m) => ServiceError::InternalError(m),
            DomainError::Generic(m) => ServiceError::InternalError(m),
        }
    }

    /// The error a connection-pool failure with description `detail` becomes.
    pub fn pool(detail: &str) -> (r: ServiceError)
        ensures
            r@ == (ErrorKind::PoolError, "Database pool error: "@ + detail@),
    {
        ServiceError::PoolError("Database pool error: ".to_owned().concat(detail))
    }

    /// The error a failed query with description `detail` becomes.
    pub fn database(detail: &str) -> (r: ServiceError)
        ensures
            r@ == (ErrorKind::DatabaseError, detail@),
    {
        ServiceError::DatabaseError(detail.to_owned())
    }

    /// The error an unexpected internal failure with description `detail` becomes.
    pub fn internal(detail: &str) -> (r: ServiceError)
        ensures
            r@ == (ErrorKind::InternalError, detail@),
    {
        ServiceError::InternalError(detail.to_owned())
    }

    /// The error a failure to build or sign a session token becomes.
    pub fn token_generation_failed() -> (r: ServiceError)
        ensures
            r@ == (ErrorKind::InternalError, "Token generation failed"@),
    {
        ServiceError::InternalError("Token generation failed".to_owned())
    }

    /// The error a failure to parse a presented session token becomes: an
    /// expired token is reported as such, every other failure as invalid.
    pub fn token_parse_failed(expired: bool) -> (r: ServiceError)
        ensures
            expired ==> r@ == (ErrorKind::ExpiredTokenError, "Token expired"@),
            !expired ==> r@ == (ErrorKind::InvalidTokenError, "Token parsing failed"@),
    {
        if expired {
            ServiceError::ExpiredTokenError("Token expired".to_owned())
        } else {
            ServiceError::InvalidTokenError("Token parsing failed".to_owned())
        }
    }

    /// The error a JSON parsing failure becomes.
    pub fn json_parse_failed() -> (r: ServiceError)
        ensures
            r@ == (ErrorKind::InternalError, "Error while parsing JSON"@),
    {
        ServiceError::InternalError("Error while parsing JSON".to_owned())
    }
}

impl ServiceError {
    /// The error of kind `kind` carrying `message`.
    pub fn of_kind(kind: ErrorKind, message: String) -> (r: ServiceError)
        ensures
            r@ == (kind, message@),
    {
        match kind {
            ErrorKind::RegisterUserError => ServiceError::RegisterUserError(message),
            ErrorKind::ValidationError => ServiceError::ValidationError(message),
            ErrorKind::TokenBuildError => ServiceError::TokenBuildError(message),
            ErrorKind::AuthenticationError => ServiceError::AuthenticationError(message),
            ErrorKind::AuthorizationError => ServiceError::AuthorizationError(message),
            ErrorKind::InvalidTokenError => ServiceError::InvalidTokenError(message),
            ErrorKind::ExpiredTokenError => ServiceError::ExpiredTokenError(message),
            ErrorKind::MissingTokenError => ServiceError::MissingTokenError(message),
            ErrorKind::NotFoundError => ServiceError::NotFoundError(message),
            ErrorKind::DatabaseError => ServiceError::DatabaseError(message),
            ErrorKind::PoolError => ServiceError::PoolError(message),
            ErrorKind::InternalError => ServiceError::InternalError(message),
            ErrorKind::OidcClientNotFound => ServiceError::OidcClientNotFound(message),
            ErrorKind::OidcInvalidRedirectUri => ServiceError::OidcInvalidRedirectUri(message),
            ErrorKind::OidcInvalidScope => ServiceError::OidcInvalidScope(message),
            ErrorKind::OidcInvalidCode => ServiceError::OidcInvalidCode(message),
            ErrorKind::OidcCodeExpired => ServiceError::OidcCodeExpired(message),
            ErrorKind::OidcCodeConsumed => ServiceError::OidcCodeConsumed(message),
            ErrorKind::OidcPkceVerificationFailed => ServiceError::OidcPkceVerificationFailed(message),
            ErrorKind::OidcNoActiveSigningKey => ServiceError::OidcNoActiveSigningKey(message),
            ErrorKind::OidcSigningError => ServiceError::OidcSigningError(message),
            ErrorKind::MfaInvalidCode => ServiceError::MfaInvalidCode(message),
            ErrorKind::MfaNotEnrolled => ServiceError::MfaNotEnrolled(message),
            ErrorKind::MfaAttemptLimitExceeded => ServiceError::MfaAttemptLimitExceeded(message),
            ErrorKind::ApiTokenNotFound => ServiceError::ApiTokenNotFound(message),
            ErrorKind::EmailNotVerified => ServiceError::EmailNotVerified(message),
            ErrorKind::MustChangePassword => ServiceError::MustChangePassword(message),
            ErrorKind::FederationNotEnabled => ServiceError::FederationNotEnabled(message),
        }
    }
}

/// The service error a domain error becomes: validation failures stay
/// validation errors, a missing entity is a database error, and broken
/// business rules and other domain errors are internal errors; the message is
/// kept.
pub open spec fn domain_to_service(e: DomainError) -> ServiceError {
    match e {
        DomainError::Validation(m) => ServiceError::ValidationError(m),
        DomainError::NotFound(m) => ServiceError::DatabaseError(m),
        DomainError::BusinessRule(m) => ServiceError::InternalError(m),
        DomainError::Generic(m) => ServiceError::InternalError(m),
    }
}

impl From<DomainError> for ServiceError {
    fn from(e: DomainError) -> (r: ServiceError) {
        ServiceError::from_domain(e)
    }
}

impl vstd::std_specs::convert::FromSpecImpl<DomainError> for ServiceError {
    open spec fn obeys_from_spec() -> bool {
        true
    }

    open spec fn from_spec(e: DomainError) -> ServiceError {
        domain_to_service(e)
    }
}

} // verus!
