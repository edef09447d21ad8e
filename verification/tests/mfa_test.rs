use sentinel_core::crypto::sha256_hex;
use sentinel_core::domain::{IdentityProvider, UserIdentity};
use sentinel_core::errors::{ApiError, ErrorKind, ServiceError};
use sentinel_core::mfa::{MfaApplication, MfaAttemptLimiter, MAX_MFA_ATTEMPTS, MFA_WINDOW_SECS};

fn invalid_code() -> Result<(), ServiceError> {
    Err(ServiceError::MfaInvalidCode("Invalid MFA code".to_string()))
}

#[test]
fn five_failures_lock_a_token() {
    let mut l = MfaAttemptLimiter::new();
    let t0: u64 = 1_000;
    for i in 0..MAX_MFA_ATTEMPTS as u64 {
        assert!(l.try_attempt("k", t0 + i).is_ok());
        l.record_failure("k".to_string(), t0 + i);
    }
    assert!(l.is_locked("k", t0 + 10));
    let e = l.try_attempt("k", t0 + 10).unwrap_err();
    assert_eq!(e.kind(), ErrorKind::MfaAttemptLimitExceeded);
    assert_eq!(e.message(), "Too many MFA attempts. Try again later.");
    let api = ApiError::from_service_error(e);
    assert_eq!(api.status, 429);
    assert_eq!(api.code, "MFA_ATTEMPT_LIMIT_EXCEEDED");
}

#[test]
fn four_failures_do_not_lock() {
    let mut l = MfaAttemptLimiter::new();
    for i in 0..4u64 {
        l.record_failure("k".to_string(), 50 + i);
    }
    assert!(!l.is_locked("k", 60));
    assert!(l.try_attempt("k", 60).is_ok());
}

#[test]
fn a_lock_ends_with_its_window() {
    let mut l = MfaAttemptLimiter::new();
    for _ in 0..5 {
        l.record_failure("k".to_string(), 100);
    }
    assert!(l.is_locked("k", 100 + MFA_WINDOW_SECS - 1));
    assert!(!l.is_locked("k", 100 + MFA_WINDOW_SECS));
    assert!(l.try_attempt("k", 100 + MFA_WINDOW_SECS).is_ok());
    // The expired record was pruned: one new failure starts a new count.
    l.record_failure("k".to_string(), 100 + MFA_WINDOW_SECS);
    assert!(!l.is_locked("k", 100 + MFA_WINDOW_SECS + 1));
}

#[test]
fn success_clears_a_token() {
    let mut l = MfaAttemptLimiter::new();
    for _ in 0..5 {
        l.record_failure("k".to_string(), 10);
    }
    assert!(l.is_locked("k", 11));
    l.record_outcome("k".to_string(), &Ok::<(), ServiceError>(()), 11);
    assert!(!l.is_locked("k", 11));
}

#[test]
fn only_invalid_codes_count() {
    let mut l = MfaAttemptLimiter::new();
    for _ in 0..10 {
        l.record_outcome(
            "k".to_string(),
            &Err::<(), ServiceError>(ServiceError::DatabaseError("down".to_string())),
            10,
        );
    }
    assert!(!l.is_locked("k", 10));
    for _ in 0..5 {
        l.record_outcome("k".to_string(), &invalid_code(), 10);
    }
    assert!(l.is_locked("k", 10));
}

#[test]
fn failures_are_counted_per_token() {
    let mut l = MfaAttemptLimiter::new();
    for _ in 0..5 {
        l.record_failure("a".to_string(), 10);
    }
    assert!(l.is_locked("a", 10));
    assert!(!l.is_locked("b", 10));
    assert!(l.try_attempt("b", 10).is_ok());
    l.clear("a");
    assert!(!l.is_locked("a", 10));
}

#[test]
fn the_application_tracks_tokens_by_their_hash() {
    let mut app = MfaApplication::new();
    let token = "challenge-token";
    assert_eq!(MfaApplication::token_key(token), sha256_hex(token));
    for i in 0..5u64 {
        let key = app.begin_verification(token, 500 + i).unwrap();
        assert_eq!(key, sha256_hex(token));
        app.finish_verification(key, &invalid_code(), 500 + i);
    }
    let e = app.begin_verification(token, 510).unwrap_err();
    assert_eq!(e.kind(), ErrorKind::MfaAttemptLimitExceeded);
    assert!(app.begin_verification("another-token", 510).is_ok());
}

#[test]
fn enrollment_needs_a_primary_identity() {
    let e = MfaApplication::enrollment_identity(None).unwrap_err();
    assert_eq!(e.kind(), ErrorKind::NotFoundError);
    assert_eq!(e.message(), "Identity not found");
    let i = UserIdentity {
        identity_id: 1,
        user_id: 2,
        provider: IdentityProvider::EmailPassword,
        provider_user_id: None,
        email: "a@example.com".to_string(),
        password_hash: None,
        email_verified: Some(true),
        is_primary: true,
        must_change_password: false,
        created_by: None,
        created_at: None,
        updated_by: None,
        updated_at: None,
    };
    assert_eq!(MfaApplication::enrollment_identity(Some(i)).unwrap().email, "a@example.com");
    let s = MfaApplication::start_enrollment_response("otpauth://totp/x".to_string());
    assert_eq!(s.otpauth_uri, "otpauth://totp/x");
    let c = MfaApplication::confirm_enrollment_response(vec!["a".to_string(), "b".to_string()]);
    assert_eq!(c.recovery_codes, vec!["a".to_string(), "b".to_string()]);
}
