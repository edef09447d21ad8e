//! OpenID Connect provider: validation of authorization and token requests
//! (Authorization Code with PKCE only), the redirect, the `amr` claim, the
//! token answer and client registration.

use vstd::prelude::*;
use crate::crypto::{hex_lower, sha256, sha256_hex};
use crate::errors::{ErrorKind, ServiceError};

verus! {

/// Whether `c` is an ASCII letter or digit.
pub open spec fn ascii_alphanumeric(c: char) -> bool {
    ('0' <= c && c <= '9') || ('a' <= c && c <= 'z') || ('A' <= c && c <= 'Z')
}

/// Whether `c` is in the unreserved set of RFC 3986 that RFC 7636 allows in a
/// PKCE code challenge: an ASCII letter or digit, or one of `-`, `.`, `_`, `~`.
pub open spec fn pkce_char(c: char) -> bool {
    ascii_alphanumeric(c) || c == '-' || c == '.' || c == '_' || c == '~'
}

/// Whether `s` is a well-formed PKCE code challenge: 43 to 128 characters,
/// each from the unreserved set.
pub open spec fn valid_pkce_challenge(s: Seq<char>) -> bool {
    &&& 43 <= s.len() <= 128
    &&& forall|i: int| 0 <= i < s.len() ==> pkce_char(#[trigger] s[i])
}

/// Whether `c` is in the unreserved set.
fn is_pkce_char(c: char) -> (b: bool)
    ensures
        b == pkce_char(c),
{
    ('0' <= c && c <= '9') || ('a' <= c && c <= 'z') || ('A' <= c && c <= 'Z') || c == '-' || c == '.'
        || c == '_' || c == '~'
}

/// Whether `s` is a well-formed PKCE code challenge (RFC 7636): 43 to 128
/// characters from the unreserved set.
pub fn is_valid_pkce_challenge(s: &str) -> (b: bool)
    ensures
        b == valid_pkce_challenge(s@),
{
    let n = s.unicode_len();
    if n < 43 || n > 128 {
        return false;
    }
    let mut i: usize = 0;
    while i < n
        invariant
            n == s@.len(),
            0 <= i <= n,
            forall|j: int| 0 <= j < i ==> pkce_char(#[trigger] s@[j]),
        decreases n - i,
    {
        let c = s.get_char(i);
        if !is_pkce_char(c) {
            assert(!pkce_char(s@[i as int]));
            return false;
        }
        i = i + 1;
    }
    true
}

/// The lifetime of issued OIDC tokens, in seconds.
pub const TOKEN_LIFETIME_SECS: u64 = 3600;

/// The answer to a token exchange.
#[derive(Debug)]
pub struct TokenResponse {
    pub access_token: String,
    pub token_type: String,
    pub expires_in: u64,
    pub id_token: String,
    pub scope: String,
}

/// A registered relying party.
#[derive(Debug)]
pub struct OidcClient {
    pub oidc_client_id: u128,
    pub tenant_id: Option<u128>,
    pub client_id: String,
    pub client_secret_hash: Option<String>,
    pub name: String,
    pub redirect_uris: Vec<String>,
    pub allowed_scopes: Vec<String>,
    pub pkce_required: bool,
    pub is_confidential: bool,
    pub created_at: i64,
}

/// The answer to a client registration.
#[derive(Debug)]
pub struct CreateOidcClientResponse {
    pub oidc_client_id: u128,
    pub client_id: String,
    pub name: String,
    pub redirect_uris: Vec<String>,
    pub allowed_scopes: Vec<String>,
    pub is_confidential: bool,
    pub pkce_required: bool,
    pub created_at: i64,
}

/// The description of a freshly generated signing key.
#[derive(Debug)]
pub struct GenerateKeyResponse {
    pub kid: String,
    pub alg: String,
    pub status: String,
    pub created_at: i64,
}

/// The error an authorization request is refused with, if any: only
/// `response_type=code`, only the `S256` challenge method, and a well-formed
/// challenge are accepted, checked in that order.
pub open spec fn authorize_refusal(
    response_type: Seq<char>,
    method: Seq<char>,
    challenge: &str,
) -> Option<(ErrorKind, Seq<char>)> {
    if response_type != "code"@ {
        Some((ErrorKind::OidcInvalidCode, "Only response_type=code is supported"@))
    } else if method != "S256"@ {
        Some((ErrorKind::OidcPkceVerificationFailed, "Only S256 code_challenge_method is supported"@))
    } else if !valid_pkce_challenge(challenge@) {
        Some((ErrorKind::OidcPkceVerificationFailed, "Invalid code_challenge format"@))
    } else {
        None
    }
}

/// The OIDC provider application; it knows the issuer it signs tokens as.
pub struct OidcApplication {
    issuer_url: String,
}

impl OidcApplication {
    /// The issuer of the tokens this provider signs.
    pub closed spec fn issuer(&self) -> Seq<char> {
        self.issuer_url@
    }

    /// A provider signing as `issuer_url`.
    pub fn new(issuer_url: String) -> (a: OidcApplication)
        ensures
            a.issuer() == issuer_url@,
    {
        OidcApplication { issuer_url }
    }

    /// The issuer URL.
    pub fn issuer_url(&self) -> (s: String)
        ensures
            s@ == self.issuer(),
    {
        self.issuer_url.clone()
    }

    /// Check the shape of an authorization request before any client lookup.
    pub fn validate_authorize_request(
        response_type: &str,
        code_challenge_method: &str,
        code_challenge: &str,
    ) -> (r: Result<(), ServiceError>)
        ensures
            r is Ok <==> authorize_refusal(response_type@, code_challenge_method@, code_challenge) is None,
            r matches Err(e) ==> Some(e@) == authorize_refusal(
                response_type@,
                code_challenge_method@,
                code_challenge,
            ),
    {
        if response_type.to_owned() != "code".to_owned() {
            return Err(ServiceError::OidcInvalidCode("Only response_type=code is supported".to_owned()));
        }
        if code_challenge_method.to_owned() != "S256".to_owned() {
            return Err(
                ServiceError::OidcPkceVerificationFailed(
                    "Only S256 code_challenge_method is supported".to_owned(),
                ),
            );
        }
        if !is_valid_pkce_challenge(code_challenge) {
            return Err(
                ServiceError::OidcPkceVerificationFailed("Invalid code_challenge format".to_owned()),
            );
        }
        Ok(())
    }

    /// Where the user agent is sent with a new authorization code.
    pub fn authorize_redirect(redirect_uri: &str, code: &str, state: &str) -> (s: String)
        ensures
            s@ == redirect_uri@ + "?code="@ + code@ + "&state="@ + state@,
    {
        redirect_uri.to_owned().concat("?code=").concat(code).concat("&state=").concat(state)
    }

    /// Check the grant type of a token request: only `authorization_code`.
    pub fn check_grant_type(grant_type: &str) -> (r: Result<(), ServiceError>)
        ensures
            r is Ok <==> grant_type@ == "authorization_code"@,
            r matches Err(e) ==> e@ == (ErrorKind::OidcInvalidCode, "Only grant_type=authorization_code is supported"@),
    {
        if grant_type.to_owned() != "authorization_code".to_owned() {
            return Err(
                ServiceError::OidcInvalidCode("Only grant_type=authorization_code is supported".to_owned()),
            );
        }
        Ok(())
    }

    /// The secret a token request must be checked with: none for a public
    /// client; the presented one for a confidential client, which must
    /// present one.
    pub fn secret_to_check(is_confidential: bool, client_secret: Option<String>) -> (r: Result<Option<String>, ServiceError>)
        ensures
            !is_confidential ==> r == Ok::<Option<String>, ServiceError>(None),
            is_confidential && client_secret is Some ==> r == Ok::<Option<String>, ServiceError>(client_secret),
            is_confidential && client_secret is None ==> (r matches Err(e) && e@ == (
                ErrorKind::OidcInvalidCode,
                "client_secret is required for confidential clients"@,
            )),
    {
        if !is_confidential {
            return Ok(None);
        }
        match client_secret {
            Some(s) => Ok(Some(s)),
            None => Err(
                ServiceError::OidcInvalidCode(
                    "client_secret is required for confidential clients".to_owned(),
                ),
            ),
        }
    }

    /// The user a redeemed code belongs to, or "User not found".
    pub fn code_user<T>(found: Option<T>) -> (r: Result<T, ServiceError>)
        ensures
            found matches Some(u) ==> r == Ok::<T, ServiceError>(u),
            found is None ==> (r matches Err(e) && e@ == (ErrorKind::NotFoundError, "User not found"@)),
    {
        crate::domain::found_or_not_found(found, "User not found")
    }

    /// The primary identity of that user, or "Identity not found".
    pub fn code_identity<T>(found: Option<T>) -> (r: Result<T, ServiceError>)
        ensures
            found matches Some(u) ==> r == Ok::<T, ServiceError>(u),
            found is None ==> (r matches Err(e) && e@ == (ErrorKind::NotFoundError, "Identity not found"@)),
    {
        crate::domain::found_or_not_found(found, "Identity not found")
    }

    /// The authentication methods an ID token reports: a password, and TOTP
    /// when the user has MFA enabled.
    pub fn amr_claim(mfa_enabled: bool) -> (amr: Vec<String>)
        ensures
            mfa_enabled ==> amr@.map_values(|s: String| s@) == seq!["pwd"@, "totp"@],
            !mfa_enabled ==> amr@.map_values(|s: String| s@) == seq!["pwd"@],
    {
        let mut amr: Vec<String> = Vec::new();
        amr.push("pwd".to_owned());
        if mfa_enabled {
            amr.push("totp".to_owned());
        }
        assert(mfa_enabled ==> amr@.map_values(|s: String| s@) =~= seq!["pwd"@, "totp"@]);
        assert(!mfa_enabled ==> amr@.map_values(|s: String| s@) =~= seq!["pwd"@]);
        amr
    }

    /// The answer to a token exchange: bearer tokens living an hour.
    pub fn token_response(access_token: String, id_token: String, scope: String) -> (r: TokenResponse)
        ensures
            r.access_token == access_token,
            r.token_type@ == "Bearer"@,
            r.expires_in == TOKEN_LIFETIME_SECS,
            r.id_token == id_token,
            r.scope == scope,
    {
        TokenResponse {
            access_token,
            token_type: "Bearer".to_owned(),
            expires_in: TOKEN_LIFETIME_SECS,
            id_token,
            scope,
        }
    }

    /// The client record of a registration: the secret is kept only as the
    /// lowercase hex SHA-256 of its bytes.
    pub fn new_client(
        oidc_client_id: u128,
        client_id: String,
        client_secret: Option<String>,
        name: String,
        redirect_uris: Vec<String>,
        allowed_scopes: Vec<String>,
        pkce_required: bool,
        is_confidential: bool,
        now: i64,
    ) -> (c: OidcClient)
        ensures
            c.oidc_client_id == oidc_client_id,
            c.tenant_id is None,
            c.client_id == client_id,
            client_secret is None ==> c.client_secret_hash is None,
            client_secret matches Some(s) ==> (c.client_secret_hash matches Some(h) && h@ == hex_lower(sha256(vstd::utf8::encode_utf8(s@)))),
            c.name == name,
            c.redirect_uris@ == redirect_uris@,
            c.allowed_scopes@ == allowed_scopes@,
            c.pkce_required == pkce_required,
            c.is_confidential == is_confidential,
            c.created_at == now,
    {
        let client_secret_hash = match &client_secret {
            Some(s) => Some(sha256_hex(s.as_str())),
            None => None,
        };
        OidcClient {
            oidc_client_id,
            tenant_id: None,
            client_id,
            client_secret_hash,
            name,
            redirect_uris,
            allowed_scopes,
            pkce_required,
            is_confidential,
            created_at: now,
        }
    }

    /// The answer to a registration whose stored record is `stored`.
    pub fn create_client_response(stored: OidcClient) -> (r: CreateOidcClientResponse)
        ensures
            r.oidc_client_id == stored.oidc_client_id,
            r.client_id == stored.client_id,
            r.name == stored.name,
            r.redirect_uris@ == stored.redirect_uris@,
            r.allowed_scopes@ == stored.allowed_scopes@,
            r.is_confidential == stored.is_confidential,
            r.pkce_required == stored.pkce_required,
            r.created_at == stored.created_at,
    {
        CreateOidcClientResponse {
            oidc_client_id: stored.oidc_client_id,
            client_id: stored.client_id,
            name: stored.name,
            redirect_uris: stored.redirect_uris,
            allowed_scopes: stored.allowed_scopes,
            is_confidential: stored.is_confidential,
            pkce_required: stored.pkce_required,
            created_at: stored.created_at,
        }
    }

    /// The answer to a key generation.
    pub fn generate_signing_key(kid: String, alg: String, status: String, created_at: i64) -> (r: GenerateKeyResponse)
        ensures
            r.kid == kid && r.alg == alg && r.status == status && r.created_at == created_at,
    {
        GenerateKeyResponse { kid, alg, status, created_at }
    }
}

} // verus!
