//! Sentinel core: the verified decision logic of the Sentinel authentication
//! and authorization service.
//!
//! The library holds the rules of the service (error mapping, role guards,
//! login and MFA gates, the MFA attempt limiter, the policy engine cache and
//! its evaluation plan, OIDC request validation, dashboard arithmetic and the
//! response builders) as verified functions over plain values. Database access,
//! token signing, e-mail delivery and HTTP stay with the caller, which hands
//! the library the values it read and performs the actions it is told.

pub mod errors;
pub mod crypto;
pub mod ids;
pub mod domain;
pub mod mfa;
pub mod text;
pub mod policy;
pub mod auth;
pub mod admin;
pub mod oidc;
pub mod insights;
pub mod system;
pub mod user;
pub mod tokens;
pub mod templates;
pub mod federation;
pub mod login;
pub mod exchange;
pub mod accounts;
pub mod token_grant;
pub mod policy_write;
pub mod rules_json;
pub mod recovery;
