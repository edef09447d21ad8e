use sentinel_core::crypto::sha256_hex;
use sentinel_core::domain::{IdentityProvider, User, UserIdentity, UserStatus};
use sentinel_core::errors::{ApiError, ErrorKind, ServiceError};
use sentinel_core::oidc::{is_valid_pkce_challenge, OidcApplication, OidcClient, TOKEN_LIFETIME_SECS};
use sentinel_core::token_grant::{GrantEvent, GrantStep, RedeemedCode};

fn oidc_client(confidential: bool) -> OidcClient {
    OidcClient {
        oidc_client_id: 500,
        tenant_id: None,
        client_id: "app".to_string(),
        client_secret_hash: None,
        name: "App".to_string(),
        redirect_uris: vec!["https://app/cb".to_string()],
        allowed_scopes: vec!["openid".to_string()],
        pkce_required: true,
        is_confidential: confidential,
        created_at: 0,
    }
}

fn oidc_user() -> User {
    User {
        user_id: 8,
        first_name: None,
        last_name: None,
        avatar_url: None,
        display_name: None,
        status: UserStatus::Active,
        token_version: 0,
        mfa_required: false,
        created_by: None,
        created_at: None,
        updated_by: None,
        updated_at: None,
    }
}

fn oidc_identity() -> UserIdentity {
    UserIdentity {
        identity_id: 9,
        user_id: 8,
        provider: IdentityProvider::EmailPassword,
        provider_user_id: None,
        email: "u@example.com".to_string(),
        password_hash: None,
        email_verified: Some(true),
        is_primary: true,
        must_change_password: false,
        created_by: None,
        created_at: None,
        updated_by: None,
        updated_at: None,
    }
}

#[test]
fn pkce_challenges_are_ascii_and_counted_in_characters() {
    assert!(!is_valid_pkce_challenge(&"é".repeat(43)));
    assert!(!is_valid_pkce_challenge(&"٣".repeat(43)));
    let mut mixed = "a".repeat(42);
    mixed.push('ß');
    assert!(!is_valid_pkce_challenge(&mixed));
}

#[test]
fn pkce_challenges_are_43_to_128_url_safe_characters() {
    let ok43 = "a".repeat(43);
    assert!(is_valid_pkce_challenge(&ok43));
    assert!(is_valid_pkce_challenge(&"Z9-._~".repeat(21)[..126]));
    assert!(is_valid_pkce_challenge(&"b".repeat(128)));
    assert!(!is_valid_pkce_challenge(&"a".repeat(42)));
    assert!(!is_valid_pkce_challenge(&"a".repeat(129)));
    let mut bad = "a".repeat(42);
    bad.push('+');
    assert!(!is_valid_pkce_challenge(&bad));
    assert!(!is_valid_pkce_challenge(&format!("{}=", "a".repeat(50))));
    assert!(!is_valid_pkce_challenge(""));
    assert!(is_valid_pkce_challenge("E9Melhoa2OwvFrEMTJguCHaoeK1t8URWbuGJSstw-cM"));
}

#[test]
fn authorize_requests_are_checked_in_order() {
    let good = "E9Melhoa2OwvFrEMTJguCHaoeK1t8URWbuGJSstw-cM";
    assert!(OidcApplication::validate_authorize_request("code", "S256", good).is_ok());
    let e = OidcApplication::validate_authorize_request("token", "plain", "x").unwrap_err();
    assert_eq!(e.kind(), ErrorKind::OidcInvalidCode);
    assert_eq!(e.message(), "Only response_type=code is supported");
    let e = OidcApplication::validate_authorize_request("code", "plain", good).unwrap_err();
    assert_eq!(e.kind(), ErrorKind::OidcPkceVerificationFailed);
    assert_eq!(e.message(), "Only S256 code_challenge_method is supported");
    let e = OidcApplication::validate_authorize_request("code", "S256", "short").unwrap_err();
    assert_eq!(e.message(), "Invalid code_challenge format");
    assert_eq!(ApiError::from_service_error(e).code, "OIDC_INVALID_GRANT");
}

#[test]
fn the_redirect_carries_code_and_state() {
    assert_eq!(
        OidcApplication::authorize_redirect("https://app/cb", "c0de", "xyz"),
        "https://app/cb?code=c0de&state=xyz"
    );
}

#[test]
fn only_the_authorization_code_grant_is_served() {
    let (_, step) = OidcApplication::begin_token_exchange("client_credentials", "app".to_string(), None, "c0de".to_string(), "https://app/cb".to_string(), "v3rifier".to_string());
    match step {
        GrantStep::Done(Err(e)) => {
            assert_eq!(e.kind(), ErrorKind::OidcInvalidCode);
            assert_eq!(e.message(), "Only grant_type=authorization_code is supported");
        }
        other => panic!("unexpected {other:?}"),
    }
}

#[test]
fn confidential_clients_must_present_a_secret() {
    let (mut flow, step) = OidcApplication::begin_token_exchange("authorization_code", "app".to_string(), None, "c0de".to_string(), "https://app/cb".to_string(), "v3rifier".to_string());
    assert!(matches!(step, GrantStep::FindClient { ref client_id } if client_id == "app"));
    match OidcApplication::step_token_exchange(&mut flow, GrantEvent::ClientFound(Ok(oidc_client(true)))) {
        GrantStep::Done(Err(e)) => {
            assert_eq!(e.kind(), ErrorKind::OidcInvalidCode);
            assert_eq!(e.message(), "client_secret is required for confidential clients");
        }
        other => panic!("unexpected {other:?}"),
    }
    let (mut flow, _) = OidcApplication::begin_token_exchange("authorization_code", "app".to_string(), Some("s".to_string()), "c0de".to_string(), "https://app/cb".to_string(), "v3rifier".to_string());
    let step = OidcApplication::step_token_exchange(&mut flow, GrantEvent::ClientFound(Ok(oidc_client(true))));
    assert!(matches!(step, GrantStep::CheckSecret { ref secret } if secret == "s"));
    let step = OidcApplication::step_token_exchange(&mut flow, GrantEvent::SecretChecked(Ok(())));
    assert!(matches!(step, GrantStep::ConsumeCode { oidc_client_id: 500, ref code, ref redirect_uri, ref code_verifier } if code == "c0de" && redirect_uri == "https://app/cb" && code_verifier == "v3rifier"));
}

#[test]
fn a_redeemed_code_yields_hour_long_tokens() {
    let (mut flow, _) = OidcApplication::begin_token_exchange("authorization_code", "app".to_string(), None, "c0de".to_string(), "https://app/cb".to_string(), "v3rifier".to_string());
    let step = OidcApplication::step_token_exchange(&mut flow, GrantEvent::ClientFound(Ok(oidc_client(false))));
    assert!(matches!(step, GrantStep::ConsumeCode { oidc_client_id: 500, ref code, ref redirect_uri, ref code_verifier } if code == "c0de" && redirect_uri == "https://app/cb" && code_verifier == "v3rifier"));
    let code = RedeemedCode { user_id: 8, scope: "openid email".to_string(), nonce: Some("n1".to_string()) };
    let step = OidcApplication::step_token_exchange(&mut flow, GrantEvent::CodeConsumed(Ok(code)));
    assert!(matches!(step, GrantStep::FindUser { user_id: 8 }));
    let step = OidcApplication::step_token_exchange(&mut flow, GrantEvent::User(Ok(Some(oidc_user()))));
    assert!(matches!(step, GrantStep::FindPrimaryIdentity { user_id: 8 }));
    let step = OidcApplication::step_token_exchange(&mut flow, GrantEvent::Identity(Ok(Some(oidc_identity()))));
    assert!(matches!(step, GrantStep::LoadSigningKey));
    let step = OidcApplication::step_token_exchange(&mut flow, GrantEvent::KeyReady(Ok(())));
    assert!(matches!(step, GrantStep::CheckMfa { user_id: 8 }));
    match OidcApplication::step_token_exchange(&mut flow, GrantEvent::MfaEnabled(Ok(true))) {
        GrantStep::SignIdToken { nonce, exp_secs, amr } => {
            assert_eq!(nonce.as_deref(), Some("n1"));
            assert_eq!(exp_secs, 3600);
            assert_eq!(amr, vec!["pwd".to_string(), "totp".to_string()]);
        }
        other => panic!("unexpected {other:?}"),
    }
    let step = OidcApplication::step_token_exchange(&mut flow, GrantEvent::IdToken(Ok("idt".to_string())));
    assert!(matches!(step, GrantStep::SignAccessToken { user_id: 8, ref scope, exp_secs: 3600 } if scope == "openid email"));
    match OidcApplication::step_token_exchange(&mut flow, GrantEvent::AccessToken(Ok("at".to_string()))) {
        GrantStep::Done(Ok(r)) => {
            assert_eq!(r.access_token, "at");
            assert_eq!(r.id_token, "idt");
            assert_eq!(r.token_type, "Bearer");
            assert_eq!(r.expires_in, TOKEN_LIFETIME_SECS);
            assert_eq!(r.scope, "openid email");
        }
        other => panic!("unexpected {other:?}"),
    }
}

#[test]
fn a_code_of_a_vanished_user_is_not_found() {
    let (mut flow, _) = OidcApplication::begin_token_exchange("authorization_code", "app".to_string(), None, "c0de".to_string(), "https://app/cb".to_string(), "v3rifier".to_string());
    OidcApplication::step_token_exchange(&mut flow, GrantEvent::ClientFound(Ok(oidc_client(false))));
    let code = RedeemedCode { user_id: 8, scope: "openid".to_string(), nonce: None };
    OidcApplication::step_token_exchange(&mut flow, GrantEvent::CodeConsumed(Ok(code)));
    match OidcApplication::step_token_exchange(&mut flow, GrantEvent::User(Ok(None))) {
        GrantStep::Done(Err(e)) => {
            assert_eq!(e.kind(), ErrorKind::NotFoundError);
            assert_eq!(e.message(), "User not found");
        }
        other => panic!("unexpected {other:?}"),
    }
    let (mut flow, _) = OidcApplication::begin_token_exchange("authorization_code", "app".to_string(), None, "c0de".to_string(), "https://app/cb".to_string(), "v3rifier".to_string());
    OidcApplication::step_token_exchange(&mut flow, GrantEvent::ClientFound(Ok(oidc_client(false))));
    let step = OidcApplication::step_token_exchange(
        &mut flow,
        GrantEvent::CodeConsumed(Err(ServiceError::OidcCodeConsumed("Authorization code already used".to_string()))),
    );
    assert!(matches!(step, GrantStep::Done(Err(ServiceError::OidcCodeConsumed(_)))));
}

#[test]
fn amr_reports_totp_only_with_mfa() {
    assert_eq!(OidcApplication::amr_claim(false), vec!["pwd".to_string()]);
    assert_eq!(OidcApplication::amr_claim(true), vec!["pwd".to_string(), "totp".to_string()]);
}

#[test]
fn client_secrets_are_stored_hashed() {
    let c = OidcApplication::new_client(
        1,
        "app".to_string(),
        Some("hunter2".to_string()),
        "App".to_string(),
        vec!["https://app/cb".to_string()],
        vec!["openid".to_string()],
        true,
        true,
        77,
    );
    assert_eq!(c.client_secret_hash.as_deref(), Some(sha256_hex("hunter2").as_str()));
    assert_eq!(
        c.client_secret_hash.as_deref(),
        Some("f52fbd32b2b3b86ff88ef6c490628285f482af15ddcb29541f94bcf526a3f6c7")
    );
    assert_eq!(c.created_at, 77);
    let public = OidcApplication::new_client(2, "p".to_string(), None, "P".to_string(), vec![], vec![], true, false, 0);
    assert!(public.client_secret_hash.is_none());
    let r = OidcApplication::create_client_response(c);
    assert_eq!(r.client_id, "app");
    assert!(r.is_confidential);
}

#[test]
fn the_issuer_is_kept() {
    let app = OidcApplication::new("https://id.example.com".to_string());
    assert_eq!(app.issuer_url(), "https://id.example.com");
}
