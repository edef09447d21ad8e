//! API tokens: long-lived opaque credentials for programmatic access, managed
//! by administrators. Only a token's SHA-256 hash is stored; the raw value is
//! shown once, at creation.

use vstd::prelude::*;
use crate::domain::{admin_required, has_role, require_admin_role, AuthenticatedUserContext};
use crate::errors::ServiceError;

verus! {

/// A stored API token.
#[derive(Debug)]
pub struct ApiToken {
    pub api_token_id: u128,
    pub user_id: u128,
    pub name: String,
    pub description: Option<String>,
    pub token_hash: String,
    pub expires_at: Option<i64>,
    pub last_used_at: Option<i64>,
    pub revoked_at: Option<i64>,
    pub created_at: i64,
    pub updated_at: Option<i64>,
    pub created_by: Option<u128>,
    pub updated_by: Option<u128>,
}

/// The answer to a token creation: the only time the raw token is shown.
#[derive(Debug)]
pub struct CreateApiTokenResponse {
    pub api_token_id: u128,
    pub token: String,
    pub name: String,
    pub expires_at: Option<i64>,
    pub created_at: i64,
}

/// A token as listed (never with its value).
#[derive(Debug)]
pub struct ApiTokenResponse {
    pub api_token_id: u128,
    pub name: String,
    pub description: Option<String>,
    pub expires_at: Option<i64>,
    pub last_used_at: Option<i64>,
    pub revoked_at: Option<i64>,
    pub created_at: i64,
}

/// Whether `r` lists `t`.
pub open spec fn is_token_response(r: ApiTokenResponse, t: ApiToken) -> bool {
    &&& r.api_token_id == t.api_token_id
    &&& r.name == t.name
    &&& r.description == t.description
    &&& r.expires_at == t.expires_at
    &&& r.last_used_at == t.last_used_at
    &&& r.revoked_at == t.revoked_at
    &&& r.created_at == t.created_at
}

/// The API token application (it keeps no state).
pub struct ApiTokenApplication {}

impl ApiTokenApplication {
    /// The API token application.
    pub fn new() -> (a: ApiTokenApplication) {
        ApiTokenApplication {  }
    }

    /// Succeeds exactly when the caller holds the `admin` role.
    pub fn require_admin(ctx: &AuthenticatedUserContext) -> (r: Result<(), ServiceError>)
        ensures
            r.is_ok() == has_role(ctx.roles@, "admin"@),
            r matches Err(e) ==> admin_required(e),
    {
        require_admin_role(ctx)
    }

    /// The record of a new token owned and created by the caller at `now`,
    /// stored by its hash; never used, never revoked.
    pub fn new_api_token(
        ctx: &AuthenticatedUserContext,
        api_token_id: u128,
        name: String,
        description: Option<String>,
        token_hash: String,
        expires_at: Option<i64>,
        now: i64,
    ) -> (t: ApiToken)
        ensures
            t.api_token_id == api_token_id,
            t.user_id == ctx.user_id,
            t.name == name,
            t.description == description,
            t.token_hash == token_hash,
            t.expires_at == expires_at,
            t.last_used_at is None && t.revoked_at is None,
            t.created_at == now,
            t.updated_at is None,
            t.created_by == Some(ctx.user_id),
            t.updated_by is None,
    {
        ApiToken {
            api_token_id,
            user_id: ctx.user_id,
            name,
            description,
            token_hash,
            expires_at,
            last_used_at: None,
            revoked_at: None,
            created_at: now,
            updated_at: None,
            created_by: Some(ctx.user_id),
            updated_by: None,
        }
    }

    /// The answer to a creation: the stored token with its raw value.
    pub fn create_api_token_response(created: ApiToken, raw_token: String) -> (r: CreateApiTokenResponse)
        ensures
            r.api_token_id == created.api_token_id,
            r.token == raw_token,
            r.name == created.name,
            r.expires_at == created.expires_at,
            r.created_at == created.created_at,
    {
        CreateApiTokenResponse {
            api_token_id: created.api_token_id,
            token: raw_token,
            name: created.name,
            expires_at: created.expires_at,
            created_at: created.created_at,
        }
    }

    /// The caller's tokens as listed.
    pub fn list_api_tokens(tokens: Vec<ApiToken>) -> (r: Vec<ApiTokenResponse>)
        ensures
            r@.len() == tokens@.len(),
            forall|i: int| 0 <= i < tokens@.len() ==> is_token_response(#[trigger] r@[i], tokens@[i]),
    {
        let ghost all = tokens@;
        let mut tokens = tokens;
        let mut rev: Vec<ApiTokenResponse> = Vec::new();
        while tokens.len() > 0
            invariant
                tokens@.len() + rev@.len() == all.len(),
                forall|j: int| 0 <= j < tokens@.len() ==> tokens@[j] == all[j],
                forall|j: int| 0 <= j < rev@.len() ==> is_token_response(#[trigger] rev@[j], all[all.len() - 1 - j]),
            decreases tokens@.len(),
        {
            let t = tokens.pop().unwrap();
            rev.push(
                ApiTokenResponse {
                    api_token_id: t.api_token_id,
                    name: t.name,
                    description: t.description,
                    expires_at: t.expires_at,
                    last_used_at: t.last_used_at,
                    revoked_at: t.revoked_at,
                    created_at: t.created_at,
                },
            );
        }
        let mut out: Vec<ApiTokenResponse> = Vec::new();
        while rev.len() > 0
            invariant
                rev@.len() + out@.len() == all.len(),
                forall|j: int| 0 <= j < rev@.len() ==> is_token_response(#[trigger] rev@[j], all[all.len() - 1 - j]),
                forall|j: int| 0 <= j < out@.len() ==> is_token_response(#[trigger] out@[j], all[j]),
            decreases rev@.len(),
        {
            let r = rev.pop().unwrap();
            out.push(r);
        }
        out
    }
}

} // verus!
