//! Email templates: administrators create and edit the templates of the
//! verification, password-reset and password-changed emails.

use vstd::prelude::*;
use crate::domain::{admin_required, has_role, require_admin_role, AuthenticatedUserContext};
use crate::errors::ServiceError;

verus! {

/// The emails a template can be for.
#[derive(Clone, Copy, Debug, PartialEq, Eq, Structural)]
pub enum EmailTemplateType {
    EmailVerification,
    PasswordReset,
    PasswordChanged,
}

/// A stored email template.
#[derive(Debug)]
pub struct EmailTemplate {
    pub template_id: u128,
    pub template_type: EmailTemplateType,
    pub subject: String,
    pub body_text: String,
    pub body_html: Option<String>,
    pub is_active: bool,
    pub created_by: Option<u128>,
    pub updated_by: Option<u128>,
}

/// What a template creation asks the template service to store.
#[derive(Debug)]
pub struct CreateEmailTemplateServiceRequest {
    pub template_type: EmailTemplateType,
    pub subject: String,
    pub body_text: String,
    pub body_html: Option<String>,
    pub created_by: Option<u128>,
}

/// What a template update asks the template service to change.
#[derive(Debug)]
pub struct UpdateEmailTemplateServiceRequest {
    pub subject: Option<String>,
    pub body_text: Option<String>,
    pub body_html: Option<String>,
    pub is_active: Option<bool>,
}

/// The email template application (it keeps no state).
pub struct EmailTemplateApplication {}

impl EmailTemplateApplication {
    /// The email template application.
    pub fn new() -> (a: EmailTemplateApplication) {
        EmailTemplateApplication {  }
    }

    /// Succeeds exactly when the caller holds the `admin` role.
    pub fn require_admin(ctx: &AuthenticatedUserContext) -> (r: Result<(), ServiceError>)
        ensures
            r.is_ok() == has_role(ctx.roles@, "admin"@),
            r matches Err(e) ==> admin_required(e),
    {
        require_admin_role(ctx)
    }

    /// The creation an administrator asks for, attributed to the caller.
    pub fn create_template(
        ctx: &AuthenticatedUserContext,
        template_type: EmailTemplateType,
        subject: String,
        body_text: String,
        body_html: Option<String>,
    ) -> (r: Result<CreateEmailTemplateServiceRequest, ServiceError>)
        ensures
            r.is_ok() == has_role(ctx.roles@, "admin"@),
            r matches Err(e) ==> admin_required(e),
            r matches Ok(q) ==> q.template_type == template_type && q.subject == subject
                && q.body_text == body_text && q.body_html == body_html && q.created_by == Some(
                ctx.user_id,
            ),
    {
        Self::require_admin(ctx)?;
        Ok(
            CreateEmailTemplateServiceRequest {
                template_type,
                subject,
                body_text,
                body_html,
                created_by: Some(ctx.user_id),
            },
        )
    }

    /// The update an administrator asks for, and who makes it.
    pub fn update_template(
        ctx: &AuthenticatedUserContext,
        subject: Option<String>,
        body_text: Option<String>,
        body_html: Option<String>,
        is_active: Option<bool>,
    ) -> (r: Result<(UpdateEmailTemplateServiceRequest, Option<u128>), ServiceError>)
        ensures
            r.is_ok() == has_role(ctx.roles@, "admin"@),
            r matches Err(e) ==> admin_required(e),
            r matches Ok(q) ==> q.0.subject == subject && q.0.body_text == body_text
                && q.0.body_html == body_html && q.0.is_active == is_active && q.1 == Some(ctx.user_id),
    {
        Self::require_admin(ctx)?;
        Ok(
            (
                UpdateEmailTemplateServiceRequest { subject, body_text, body_html, is_active },
                Some(ctx.user_id),
            ),
        )
    }
}

} // verus!
