use sentinel_core::accounts::{AccountEvent, AccountStep};
use sentinel_core::auth::AuthApplication;
use sentinel_core::crypto::{sha256_hex, sha256_hex_bytes};
use sentinel_core::domain::{IdentityProvider, SessionTokens, User, UserIdentity, UserStatus};
use sentinel_core::federation::{FederationApplication, SupabaseFederationConfig};
use sentinel_core::login::{LoginEvent, LoginStep};
use sentinel_core::policy::{policy_not_found, AuthzAction, AuthzEvent, PolicyApplication};

#[test]
fn sha256_of_abc_is_the_standard_digest() {
    assert_eq!(
        sha256_hex("abc"),
        "ba7816bf8f01cfea414140de5dae2223b00361a396177a9cb410ff61f20015ad"
    );
}

#[test]
fn sha256_of_no_bytes_is_the_empty_digest() {
    assert_eq!(
        sha256_hex_bytes(&[]),
        "e3b0c44298fc1c149afbf4c8996fb92427ae41e4649b934ca495991b7852b855"
    );
}

#[test]
fn sha256_of_text_hashes_its_utf8_bytes() {
    let text = "héllo";
    assert_eq!(sha256_hex(text), sha256_hex_bytes(text.as_bytes()));
    assert_ne!(sha256_hex(text), sha256_hex("hello"));
    assert_eq!(sha256_hex(text).len(), 64);
}

#[test]
fn identifiers_are_written_in_the_hyphenated_lowercase_form() {
    assert_eq!(
        policy_not_found(0x67e5_5044_10b1_426f_9247_bb68_0e5f_e0c8).message(),
        "Policy 67e55044-10b1-426f-9247-bb680e5fe0c8 not found"
    );
    assert_eq!(policy_not_found(0).message(), "Policy 00000000-0000-0000-0000-000000000000 not found");
    let app = FederationApplication::new(
        SupabaseFederationConfig {
            enabled: true,
            jwks_url: String::new(),
            jwt_issuer: "iss".to_string(),
            jwt_audience: String::new(),
        },
        60,
    );
    assert_eq!(app.external_identity_key(u128::MAX).2, "ffffffff-ffff-ffff-ffff-ffffffffffff");
}

#[test]
fn new_accounts_get_distinct_version_four_ids() {
    let app = AuthApplication::new(60, 60);
    let mut ids = Vec::new();
    for _ in 0..2 {
        let (mut flow, _) = app.begin_register("a@b.c".to_string(), "p".to_string(), "A".to_string(), "B".to_string(), None);
        match app.step_register(&mut flow, AccountEvent::EmailAvailable(Ok(()))) {
            AccountStep::CreateUser(u) => ids.push(u.user_id),
            _ => panic!("expected the user insert"),
        }
    }
    assert_ne!(ids[0], ids[1]);
    for id in ids {
        assert_eq!((id >> 76) & 0xf, 4);
        assert_eq!((id >> 62) & 0x3, 2);
    }
}

#[test]
fn sessions_are_stamped_with_the_current_time() {
    let app = AuthApplication::new(60, 60);
    let (mut flow, _) = app.begin_login("ada@example.com".to_string(), "pw".to_string());
    let identity = UserIdentity {
        identity_id: 2,
        user_id: 1,
        provider: IdentityProvider::EmailPassword,
        provider_user_id: None,
        email: "x@y.z".to_string(),
        password_hash: None,
        email_verified: Some(true),
        is_primary: true,
        must_change_password: false,
        created_by: None,
        created_at: None,
        updated_by: None,
        updated_at: None,
    };
    let user = User {
        user_id: 1,
        first_name: None,
        last_name: None,
        avatar_url: None,
        display_name: None,
        status: UserStatus::Active,
        token_version: 0,
        mfa_required: false,
        created_by: None,
        created_at: None,
        updated_by: None,
        updated_at: None,
    };
    app.step_login(&mut flow, LoginEvent::Credentials(Ok(identity)));
    app.step_login(&mut flow, LoginEvent::User(Ok(Some(user))));
    app.step_login(&mut flow, LoginEvent::MfaEnabled(Ok(false)));
    app.step_login(&mut flow, LoginEvent::Roles(Ok(vec![])));
    let tokens = SessionTokens { access_token: "a".to_string(), refresh_token: "r".to_string(), refresh_token_hash: "h".to_string() };
    match app.step_login(&mut flow, LoginEvent::Tokens(Ok(tokens))) {
        LoginStep::CreateSession(s) => assert!(s.created_at.unwrap() > 1_577_836_800),
        _ => panic!("expected the session insert"),
    }
}

#[test]
fn version_numbers_are_written_in_decimal() {
    let app: PolicyApplication<()> = PolicyApplication::new("1".to_string());
    for (v, text) in [(-42i64, "-42"), (0, "0"), (i64::MAX, "9223372036854775807"), (i64::MIN, "-9223372036854775808")] {
        let (mut plan, _) = app.begin_is_allowed(Some(5));
        app.step_is_allowed(&mut plan, AuthzEvent::PolicyFetched(Ok(Some(v))));
        match app.step_is_allowed(&mut plan, AuthzEvent::VersionFetched(Ok(false))) {
            AuthzAction::Done(Err(e)) => assert_eq!(e.message(), &format!("Active policy version {text} not found")),
            _ => panic!("expected the missing-version error"),
        }
    }
}
