use sentinel_core::errors::{ApiError, DomainError, ErrorKind, RepositoryError, ServiceError};

#[test]
fn internal_errors_hide_their_detail() {
    let api = ApiError::from_service_error(ServiceError::DatabaseError("connection refused".to_string()));
    assert_eq!(api.status, 500);
    assert_eq!(api.code, "INTERNAL_ERROR");
    assert_eq!(api.message, "An internal server error occurred");
    assert!(api.details.is_none());
}

#[test]
fn validation_error_is_a_bad_request() {
    let api = ApiError::from_service_error(ServiceError::ValidationError("bad email".to_string()));
    assert_eq!(api.status, 400);
    assert_eq!(api.code, "VALIDATION_ERROR");
    assert_eq!(api.message, "bad email");
}

#[test]
fn domain_not_found_becomes_database_error() {
    let e = ServiceError::from_domain(DomainError::not_found("user"));
    assert_eq!(e.kind(), ErrorKind::DatabaseError);
    assert_eq!(e.message(), "user");
}

#[test]
fn repository_message_names_the_layer() {
    let e = ServiceError::from_repository(RepositoryError::Database("timeout".to_string()));
    assert_eq!(e.kind(), ErrorKind::DatabaseError);
    assert_eq!(e.message(), "Database error: timeout");
}

#[test]
fn every_error_kind_has_its_status_and_code() {
    let table: Vec<(ErrorKind, u16, &str, bool)> = vec![
        (ErrorKind::RegisterUserError, 400, "VALIDATION_ERROR", false),
        (ErrorKind::ValidationError, 400, "VALIDATION_ERROR", false),
        (ErrorKind::TokenBuildError, 500, "INTERNAL_ERROR", true),
        (ErrorKind::AuthenticationError, 401, "AUTH_ERROR", false),
        (ErrorKind::AuthorizationError, 403, "FORBIDDEN", false),
        (ErrorKind::InvalidTokenError, 401, "INVALID_TOKEN", false),
        (ErrorKind::ExpiredTokenError, 401, "EXPIRED_TOKEN", false),
        (ErrorKind::MissingTokenError, 401, "MISSING_TOKEN", false),
        (ErrorKind::NotFoundError, 404, "NOT_FOUND", false),
        (ErrorKind::DatabaseError, 500, "INTERNAL_ERROR", true),
        (ErrorKind::PoolError, 500, "INTERNAL_ERROR", true),
        (ErrorKind::InternalError, 500, "INTERNAL_ERROR", true),
        (ErrorKind::OidcClientNotFound, 400, "OIDC_CLIENT_NOT_FOUND", false),
        (ErrorKind::OidcInvalidRedirectUri, 400, "OIDC_INVALID_REDIRECT_URI", false),
        (ErrorKind::OidcInvalidScope, 400, "OIDC_INVALID_SCOPE", false),
        (ErrorKind::OidcInvalidCode, 400, "OIDC_INVALID_GRANT", false),
        (ErrorKind::OidcCodeExpired, 400, "OIDC_INVALID_GRANT", false),
        (ErrorKind::OidcCodeConsumed, 400, "OIDC_INVALID_GRANT", false),
        (ErrorKind::OidcPkceVerificationFailed, 400, "OIDC_INVALID_GRANT", false),
        (ErrorKind::OidcNoActiveSigningKey, 500, "INTERNAL_ERROR", true),
        (ErrorKind::OidcSigningError, 500, "INTERNAL_ERROR", true),
        (ErrorKind::MfaInvalidCode, 401, "INVALID_MFA_CODE", false),
        (ErrorKind::MfaNotEnrolled, 400, "MFA_NOT_ENROLLED", false),
        (ErrorKind::MfaAttemptLimitExceeded, 429, "MFA_ATTEMPT_LIMIT_EXCEEDED", false),
        (ErrorKind::ApiTokenNotFound, 404, "API_TOKEN_NOT_FOUND", false),
        (ErrorKind::EmailNotVerified, 403, "EMAIL_NOT_VERIFIED", false),
        (ErrorKind::MustChangePassword, 403, "MUST_CHANGE_PASSWORD", false),
        (ErrorKind::FederationNotEnabled, 400, "FEDERATION_NOT_ENABLED", false),
    ];
    for (kind, status, code, internal) in table {
        let e = ServiceError::of_kind(kind, "detail text".to_string());
        assert_eq!(e.kind(), kind);
        assert_eq!(e.message(), "detail text");
        let api = ApiError::from_service_error(e);
        assert_eq!(api.status, status, "{kind:?}");
        assert_eq!(api.code, code, "{kind:?}");
        let expected = if internal { "An internal server error occurred" } else { "detail text" };
        assert_eq!(api.message, expected, "{kind:?}");
        assert!(api.details.is_none());
    }
}

#[test]
fn domain_errors_map_by_category() {
    let e = ServiceError::from_domain(DomainError::validation("too short"));
    assert_eq!((e.kind(), e.message().as_str()), (ErrorKind::ValidationError, "too short"));
    let e = ServiceError::from_domain(DomainError::business_rule("not allowed"));
    assert_eq!((e.kind(), e.message().as_str()), (ErrorKind::InternalError, "not allowed"));
    let e = ServiceError::from_domain(DomainError::Generic("other".to_string()));
    assert_eq!(e.kind(), ErrorKind::InternalError);
}

#[test]
fn repository_errors_render_their_layer() {
    let cases = vec![
        (RepositoryError::Serialization("bad json".to_string()), "Serialization error: bad json"),
        (RepositoryError::Validation("len".to_string()), "Validation error: len"),
        (RepositoryError::NotFound, "Entity not found"),
        (RepositoryError::Transaction("rollback".to_string()), "Transaction error: rollback"),
    ];
    for (r, text) in cases {
        assert_eq!(r.message(), text);
        let e = ServiceError::from_repository(r);
        assert_eq!(e.kind(), ErrorKind::DatabaseError);
        assert_eq!(e.message(), text);
    }
}

#[test]
fn token_and_plumbing_errors_have_fixed_texts() {
    let e = ServiceError::token_parse_failed(true);
    assert_eq!((e.kind(), e.message().as_str()), (ErrorKind::ExpiredTokenError, "Token expired"));
    let e = ServiceError::token_parse_failed(false);
    assert_eq!((e.kind(), e.message().as_str()), (ErrorKind::InvalidTokenError, "Token parsing failed"));
    assert_eq!(ServiceError::token_generation_failed().message(), "Token generation failed");
    assert_eq!(ServiceError::json_parse_failed().message(), "Error while parsing JSON");
    let e = ServiceError::pool("timed out");
    assert_eq!((e.kind(), e.message().as_str()), (ErrorKind::PoolError, "Database pool error: timed out"));
    assert_eq!(ServiceError::database("x").kind(), ErrorKind::DatabaseError);
    assert_eq!(ServiceError::internal("y").into_message(), "y");
}

#[test]
fn domain_errors_convert_with_from() {
    let e = ServiceError::from(DomainError::validation("too short"));
    assert_eq!((e.kind(), e.message().as_str()), (ErrorKind::ValidationError, "too short"));
    let e: ServiceError = DomainError::not_found("role").into();
    assert_eq!((e.kind(), e.message().as_str()), (ErrorKind::DatabaseError, "role"));
}

#[test]
fn domain_errors_render_their_text() {
    assert_eq!(DomainError::validation("password too short").message(), "Validation error: password too short");
    assert_eq!(
        DomainError::business_rule("email already registered").message(),
        "Business rule violation: email already registered"
    );
    assert_eq!(DomainError::not_found("User").message(), "Entity not found: User");
    assert_eq!(DomainError::Generic("odd".to_string()).message(), "Domain error: odd");
}
