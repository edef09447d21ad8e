use sentinel_core::auth::AuthApplication;
use sentinel_core::domain::{AuthenticatedUserContext, IdentityProvider, User, UserIdentity, UserStatus};
use sentinel_core::errors::{ErrorKind, ServiceError};
use sentinel_core::recovery::{MailEvent, MailStep};
use sentinel_core::user::UserPasswordApplication;

fn rec_identity(verified: Option<bool>) -> UserIdentity {
    UserIdentity {
        identity_id: 11,
        user_id: 10,
        provider: IdentityProvider::EmailPassword,
        provider_user_id: None,
        email: "stored@example.com".to_string(),
        password_hash: None,
        email_verified: verified,
        is_primary: true,
        must_change_password: false,
        created_by: None,
        created_at: None,
        updated_by: None,
        updated_at: None,
    }
}

fn rec_user(status: UserStatus, first: Option<&str>) -> User {
    User {
        user_id: 10,
        first_name: first.map(|s| s.to_string()),
        last_name: None,
        avatar_url: None,
        display_name: None,
        status,
        token_version: 0,
        mfa_required: false,
        created_by: None,
        created_at: None,
        updated_by: None,
        updated_at: None,
    }
}

#[test]
fn confirming_an_email_activates_a_pending_account() {
    let (mut flow, step) = AuthApplication::begin_verify_email();
    assert!(matches!(step, MailStep::ConsumeVerificationToken));
    let step = AuthApplication::step_verify_email(&mut flow, MailEvent::TokenConsumed(Ok(11)));
    assert!(matches!(step, MailStep::MarkEmailVerified { identity_id: 11 }));
    let step = AuthApplication::step_verify_email(&mut flow, MailEvent::Written(Ok(())));
    assert!(matches!(step, MailStep::FindIdentityById { identity_id: 11 }));
    let step = AuthApplication::step_verify_email(&mut flow, MailEvent::IdentityFound(Ok(Some(rec_identity(Some(true))))));
    assert!(matches!(step, MailStep::FindUser { user_id: 10 }));
    let step = AuthApplication::step_verify_email(
        &mut flow,
        MailEvent::UserFound(Ok(Some(rec_user(UserStatus::PendingVerification, None)))),
    );
    assert!(matches!(step, MailStep::ActivateUser { user_id: 10 }));
    let step = AuthApplication::step_verify_email(&mut flow, MailEvent::Written(Ok(())));
    assert!(matches!(step, MailStep::Done(Ok(()))));
}

#[test]
fn confirming_leaves_other_statuses_alone() {
    let (mut flow, _) = AuthApplication::begin_verify_email();
    AuthApplication::step_verify_email(&mut flow, MailEvent::TokenConsumed(Ok(11)));
    AuthApplication::step_verify_email(&mut flow, MailEvent::Written(Ok(())));
    AuthApplication::step_verify_email(&mut flow, MailEvent::IdentityFound(Ok(Some(rec_identity(Some(true))))));
    let step = AuthApplication::step_verify_email(
        &mut flow,
        MailEvent::UserFound(Ok(Some(rec_user(UserStatus::Suspended, None)))),
    );
    assert!(matches!(step, MailStep::Done(Ok(()))));
    let (mut flow, _) = AuthApplication::begin_verify_email();
    let step = AuthApplication::step_verify_email(
        &mut flow,
        MailEvent::TokenConsumed(Err(ServiceError::InvalidTokenError("expired".to_string()))),
    );
    assert!(matches!(step, MailStep::Done(Err(ServiceError::InvalidTokenError(_)))));
}

#[test]
fn resending_to_an_unknown_email_is_not_found() {
    let (mut flow, step) = AuthApplication::begin_resend_verification("who@example.com".to_string());
    assert!(matches!(step, MailStep::FindIdentityByEmail { ref email } if email == "who@example.com"));
    match AuthApplication::step_resend_verification(&mut flow, MailEvent::IdentityFound(Ok(None))) {
        MailStep::Done(Err(e)) => {
            assert_eq!(e.kind(), ErrorKind::NotFoundError);
            assert_eq!(e.message(), "Email not found");
        }
        other => panic!("unexpected {other:?}"),
    }
}

#[test]
fn resending_to_a_verified_email_succeeds_silently() {
    let (mut flow, _) = AuthApplication::begin_resend_verification("x@example.com".to_string());
    let step = AuthApplication::step_resend_verification(&mut flow, MailEvent::IdentityFound(Ok(Some(rec_identity(Some(true))))));
    assert!(matches!(step, MailStep::Done(Ok(()))));
}

#[test]
fn resending_sends_a_new_token_and_reports_the_send() {
    let (mut flow, _) = AuthApplication::begin_resend_verification("asked@example.com".to_string());
    let step = AuthApplication::step_resend_verification(&mut flow, MailEvent::IdentityFound(Ok(Some(rec_identity(None)))));
    assert!(matches!(step, MailStep::FindUser { user_id: 10 }));
    let step = AuthApplication::step_resend_verification(
        &mut flow,
        MailEvent::UserFound(Ok(Some(rec_user(UserStatus::PendingVerification, Some("Ada"))))),
    );
    assert!(matches!(step, MailStep::CreateVerification { identity_id: 11, user_id: 10 }));
    let step = AuthApplication::step_resend_verification(&mut flow, MailEvent::TokenCreated(Ok("t1".to_string())));
    assert!(matches!(step, MailStep::SendVerificationEmail { ref email, ref first_name, ref token }
        if email == "asked@example.com" && first_name == "Ada" && token == "t1"));
    let step = AuthApplication::step_resend_verification(
        &mut flow,
        MailEvent::Sent(Err(ServiceError::InternalError("smtp down".to_string()))),
    );
    assert!(matches!(step, MailStep::Done(Err(ServiceError::InternalError(ref m))) if m == "smtp down"));
}

#[test]
fn resending_for_an_orphan_identity_is_internal() {
    let (mut flow, _) = AuthApplication::begin_resend_verification("x@example.com".to_string());
    AuthApplication::step_resend_verification(&mut flow, MailEvent::IdentityFound(Ok(Some(rec_identity(Some(false))))));
    match AuthApplication::step_resend_verification(&mut flow, MailEvent::UserFound(Ok(None))) {
        MailStep::Done(Err(e)) => {
            assert_eq!(e.kind(), ErrorKind::InternalError);
            assert_eq!(e.message(), "User not found");
        }
        other => panic!("unexpected {other:?}"),
    }
}

#[test]
fn forgot_password_never_reveals_an_email() {
    let (mut flow, _) = AuthApplication::begin_forgot_password("nobody@example.com".to_string());
    let step = AuthApplication::step_forgot_password(&mut flow, MailEvent::IdentityFound(Ok(None)));
    assert!(matches!(step, MailStep::Done(Ok(()))));

    let (mut flow, _) = AuthApplication::begin_forgot_password("STORED@example.com".to_string());
    AuthApplication::step_forgot_password(&mut flow, MailEvent::IdentityFound(Ok(Some(rec_identity(Some(true))))));
    let step = AuthApplication::step_forgot_password(&mut flow, MailEvent::UserFound(Ok(Some(rec_user(UserStatus::Active, None)))));
    assert!(matches!(step, MailStep::CreateResetToken { identity_id: 11, user_id: 10 }));
    let step = AuthApplication::step_forgot_password(&mut flow, MailEvent::TokenCreated(Ok("r1".to_string())));
    assert!(matches!(step, MailStep::SendPasswordResetEmail { ref email, ref first_name, ref token }
        if email == "stored@example.com" && first_name.is_empty() && token == "r1"));
    let step = AuthApplication::step_forgot_password(
        &mut flow,
        MailEvent::Sent(Err(ServiceError::InternalError("smtp".to_string()))),
    );
    assert!(matches!(step, MailStep::Done(Ok(()))));
}

#[test]
fn reset_stores_the_password_then_revokes_sessions() {
    let (mut flow, step) = AuthApplication::begin_reset_password();
    assert!(matches!(step, MailStep::ConsumeResetToken));
    let step = AuthApplication::step_reset_password(&mut flow, MailEvent::TokenConsumed(Ok(11)));
    assert!(matches!(step, MailStep::FindIdentityById { identity_id: 11 }));
    let step = AuthApplication::step_reset_password(&mut flow, MailEvent::IdentityFound(Ok(Some(rec_identity(Some(true))))));
    assert!(matches!(step, MailStep::UpdatePassword { identity_id: 11 }));
    let step = AuthApplication::step_reset_password(&mut flow, MailEvent::Written(Ok(())));
    assert!(matches!(step, MailStep::RevokeAllSessions { user_id: 10 }));
    let step = AuthApplication::step_reset_password(&mut flow, MailEvent::Written(Ok(())));
    assert!(matches!(step, MailStep::FindUser { user_id: 10 }));
    let step = AuthApplication::step_reset_password(&mut flow, MailEvent::UserFound(Ok(Some(rec_user(UserStatus::Active, Some("Bo"))))));
    assert!(matches!(step, MailStep::SendPasswordChangedEmail { ref email, ref first_name }
        if email == "stored@example.com" && first_name == "Bo"));
    let step = AuthApplication::step_reset_password(&mut flow, MailEvent::Sent(Err(ServiceError::InternalError("x".to_string()))));
    assert!(matches!(step, MailStep::Done(Ok(()))));
}

#[test]
fn reset_without_the_identity_is_internal() {
    let (mut flow, _) = AuthApplication::begin_reset_password();
    AuthApplication::step_reset_password(&mut flow, MailEvent::TokenConsumed(Ok(11)));
    match AuthApplication::step_reset_password(&mut flow, MailEvent::IdentityFound(Ok(None))) {
        MailStep::Done(Err(e)) => {
            assert_eq!(e.kind(), ErrorKind::InternalError);
            assert_eq!(e.message(), "Identity not found after token consume");
        }
        other => panic!("unexpected {other:?}"),
    }
}

#[test]
fn changing_a_password_checks_the_current_one() {
    let ctx = AuthenticatedUserContext { user_id: 10, session_id: 1, roles: vec![] };
    let (mut flow, step) = UserPasswordApplication::begin_change_password(&ctx);
    assert!(matches!(step, MailStep::FindPrimaryIdentity { user_id: 10 }));
    let step = UserPasswordApplication::step_change_password(&mut flow, MailEvent::IdentityFound(Ok(Some(rec_identity(Some(true))))));
    assert!(matches!(step, MailStep::CheckCurrentPassword { ref email } if email == "stored@example.com"));
    match UserPasswordApplication::step_change_password(
        &mut flow,
        MailEvent::Written(Err(ServiceError::DatabaseError("whatever".to_string()))),
    ) {
        MailStep::Done(Err(e)) => {
            assert_eq!(e.kind(), ErrorKind::AuthenticationError);
            assert_eq!(e.message(), "Current password is incorrect");
        }
        other => panic!("unexpected {other:?}"),
    }
}

#[test]
fn changing_a_password_revokes_every_session() {
    let ctx = AuthenticatedUserContext { user_id: 10, session_id: 1, roles: vec![] };
    let (mut flow, _) = UserPasswordApplication::begin_change_password(&ctx);
    UserPasswordApplication::step_change_password(&mut flow, MailEvent::IdentityFound(Ok(Some(rec_identity(Some(true))))));
    let step = UserPasswordApplication::step_change_password(&mut flow, MailEvent::Written(Ok(())));
    assert!(matches!(step, MailStep::UpdatePassword { identity_id: 11 }));
    let step = UserPasswordApplication::step_change_password(&mut flow, MailEvent::Written(Ok(())));
    assert!(matches!(step, MailStep::RevokeAllSessions { user_id: 10 }));
    let step = UserPasswordApplication::step_change_password(&mut flow, MailEvent::Written(Ok(())));
    assert!(matches!(step, MailStep::FindUser { user_id: 10 }));
    let step = UserPasswordApplication::step_change_password(&mut flow, MailEvent::UserFound(Ok(Some(rec_user(UserStatus::Active, Some("Cy"))))));
    assert!(matches!(step, MailStep::SendPasswordChangedEmail { ref first_name, .. } if first_name == "Cy"));
    let step = UserPasswordApplication::step_change_password(&mut flow, MailEvent::Sent(Ok(())));
    assert!(matches!(step, MailStep::Done(Ok(()))));

    let (mut flow, _) = UserPasswordApplication::begin_change_password(&ctx);
    match UserPasswordApplication::step_change_password(&mut flow, MailEvent::IdentityFound(Ok(None))) {
        MailStep::Done(Err(e)) => {
            assert_eq!(e.kind(), ErrorKind::NotFoundError);
            assert_eq!(e.message(), "Identity not found");
        }
        other => panic!("unexpected {other:?}"),
    }
}
