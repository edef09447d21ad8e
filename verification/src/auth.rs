//! Authentication: the decisions of registration, password login (with its MFA
//! gate), session issuance and refresh, API-token exchange, email
//! verification and the password reset flow.
//!
//! Each flow reads and writes through the caller; the functions here decide
//! what a read means, which entity to write, and what the caller is answered.

use vstd::prelude::*;
use crate::domain::{found_or, role_type_name, IdentityProvider, Role, RoleType, Session, SessionTokens, User, UserIdentity, UserRole, UserStatus};
use crate::errors::{ErrorKind, ServiceError};

verus! {

/// Full session tokens handed out after a successful login.
#[derive(Debug)]
pub struct BasicLoginResponse {
    pub user_id: u128,
    pub access_token: String,
    pub refresh_token: String,
    /// When the access token expires.
    pub expires_at: i64,
    pub must_change_password: bool,
    /// The account must enroll MFA (an admin requires it and none is enrolled).
    pub mfa_setup_required: bool,
}

/// The answer to a password login for an account with MFA enrolled.
#[derive(Debug)]
pub struct MfaChallengeResponse {
    pub user_id: u128,
    pub mfa_required: bool,
    pub mfa_session_token: String,
}

/// How a password login ends.
#[derive(Debug)]
pub enum LoginOutcome {
    Success(BasicLoginResponse),
    MfaChallenge(MfaChallengeResponse),
}

/// What a password login does once the account is known.
#[derive(Clone, Copy, Debug, PartialEq, Eq, Structural)]
pub enum LoginGate {
    /// MFA is enrolled: answer with a challenge token, open no session.
    Challenge,
    /// Open a session; `mfa_setup_required` is reported to the client.
    Proceed { mfa_setup_required: bool },
}

/// The caller's identity as established by a token.
#[derive(Debug)]
pub struct AuthContextResponse {
    pub user_id: u128,
    pub session_id: u128,
    pub roles: Vec<String>,
    pub email_verified: bool,
    pub must_change_password: bool,
    pub scope: Option<String>,
    pub policy_test_id: Option<u128>,
}

/// The claims of a validated session token, as the session service reads them.
#[derive(Debug)]
pub struct SessionClaims {
    pub user_id: u128,
    pub session_id: u128,
    /// The entries of the `roles` claim: each one's text when it is a string.
    pub role_values: Vec<Option<String>>,
    pub email_verified: bool,
    pub must_change_password: bool,
    pub scope: Option<String>,
    pub policy_test_id: Option<u128>,
}

/// The answer to a registration.
#[derive(Debug)]
pub struct RegisterUserResponse {
    pub user_id: u128,
    pub first_name: String,
    pub last_name: String,
    pub avatar_url: Option<String>,
    pub status: UserStatus,
}

/// The largest token lifetime accepted either way, in seconds (far beyond any
/// date the clock can show), so that an expiry never leaves the `i64` range.
pub const MAX_TTL_SECS: i64 = 1_000_000_000_000_000;

/// The text before the first space of `s`, or all of `s`.
pub open spec fn first_word(s: Seq<char>) -> Seq<char> {
    match first_space(s) {
        Some(i) => s.subrange(0, i),
        None => s,
    }
}

/// The position of the first space of `s` at or after `i`, if any.
pub open spec fn first_space_from(s: Seq<char>, i: int) -> Option<int>
    decreases s.len() - i,
{
    if i < 0 || i >= s.len() {
        None
    } else if s[i] == ' ' {
        Some(i)
    } else {
        first_space_from(s, i + 1)
    }
}

/// The position of the first space of `s`, if any.
pub open spec fn first_space(s: Seq<char>) -> Option<int> {
    first_space_from(s, 0)
}

/// A found space lies in range and is a space.
pub proof fn lemma_first_space_from(s: Seq<char>, i: int)
    ensures
        first_space_from(s, i) matches Some(k) ==> i <= k < s.len() && s[k] == ' ',
    decreases s.len() - i,
{
    if 0 <= i < s.len() && s[i] != ' ' {
        lemma_first_space_from(s, i + 1);
    }
}

/// The text after the first space of `s`, if it has one.
pub open spec fn after_first_space(s: Seq<char>) -> Option<Seq<char>> {
    match first_space(s) {
        Some(i) => Some(s.subrange(i + 1, s.len() as int)),
        None => None,
    }
}

/// The strings among `values`, in order.
pub open spec fn string_values(values: Seq<Option<String>>) -> Seq<Seq<char>>
    decreases values.len(),
{
    if values.len() == 0 {
        Seq::empty()
    } else {
        let rest = string_values(values.drop_last());
        match values.last() {
            Some(s) => rest.push(s@),
            None => rest,
        }
    }
}

/// Whether `v` is a present value.
pub open spec fn is_present(v: Option<String>) -> bool {
    v is Some
}

/// Every string entry of a roles claim is kept, in order, and nothing else:
/// one more string entry adds exactly its text at the end, one more non-string
/// entry adds nothing, and there are as many roles as string entries.
pub proof fn lemma_claim_roles_keep_every_string(values: Seq<Option<String>>, s: String)
    ensures
        string_values(values.push(Some(s))) == string_values(values).push(s@),
        string_values(values.push(None)) == string_values(values),
        string_values(values).len() == values.filter(|v: Option<String>| is_present(v)).len(),
    decreases values.len(),
{
    assert(values.push(Some(s)).drop_last() =~= values);
    assert(values.push(None::<String>).drop_last() =~= values);
    reveal(Seq::filter);
    if values.len() > 0 {
        lemma_claim_roles_keep_every_string(values.drop_last(), s);
    }
}

/// The stored names of the types of `roles`, in order.
pub open spec fn role_type_names(roles: Seq<Role>) -> Seq<Seq<char>> {
    roles.map_values(|r: Role| role_type_name(r.type_))
}

/// Whether one of `roles` is of the admin type.
pub open spec fn has_admin_role(roles: Seq<Role>) -> bool {
    exists|i: int| 0 <= i < roles.len() && #[trigger] roles[i].type_ == RoleType::Admin
}

/// The first name of `user`, or the empty text.
pub open spec fn first_name_or_empty(user: User) -> Seq<char> {
    match user.first_name {
        Some(n) => n@,
        None => Seq::empty(),
    }
}

/// The authentication application: how long the tokens it issues live.
pub struct AuthApplication {
    access_ttl: i64,
    refresh_ttl: i64,
}

impl AuthApplication {
    /// Token lifetimes are never so long that an expiry would leave the range
    /// of the clock arithmetic.
    #[verifier::type_invariant]
    closed spec fn wf(self) -> bool {
        &&& -MAX_TTL_SECS <= self.access_ttl <= MAX_TTL_SECS
        &&& -MAX_TTL_SECS <= self.refresh_ttl <= MAX_TTL_SECS
    }

    /// Lifetime of access tokens, in seconds.
    pub closed spec fn access_ttl(&self) -> i64 {
        self.access_ttl
    }

    /// Lifetime of refresh tokens (and sessions), in seconds.
    pub closed spec fn refresh_ttl(&self) -> i64 {
        self.refresh_ttl
    }

    /// An application issuing access tokens valid `access_ttl` seconds and
    /// sessions valid `refresh_ttl` seconds.
    pub fn new(access_ttl: i64, refresh_ttl: i64) -> (a: AuthApplication)
        requires
            -MAX_TTL_SECS <= access_ttl <= MAX_TTL_SECS,
            -MAX_TTL_SECS <= refresh_ttl <= MAX_TTL_SECS,
        ensures
            a.access_ttl() == access_ttl,
            a.refresh_ttl() == refresh_ttl,
    {
        AuthApplication { access_ttl, refresh_ttl }
    }

    /// The access-token lifetime.
    pub fn access_ttl_secs(&self) -> (t: i64)
        ensures
            t == self.access_ttl(),
            -MAX_TTL_SECS <= t <= MAX_TTL_SECS,
    {
        proof {
            use_type_invariant(self);
        }
        self.access_ttl
    }

    /// The refresh-token lifetime.
    pub fn refresh_ttl_secs(&self) -> (t: i64)
        ensures
            t == self.refresh_ttl(),
            -MAX_TTL_SECS <= t <= MAX_TTL_SECS,
    {
        proof {
            use_type_invariant(self);
        }
        self.refresh_ttl
    }

    /// When an access token issued at `now` expires.
    pub fn access_expiry(&self, now: i64) -> (t: i64)
        requires
            now + self.access_ttl() <= i64::MAX,
            now + self.access_ttl() >= i64::MIN,
        ensures
            t == now + self.access_ttl(),
    {
        now + self.access_ttl
    }

    /// The user a login or refresh found, or the error it is answered with:
    /// a failed lookup is a database error with the lookup's message, a
    /// missing user an authentication error carrying `missing`.
    pub fn resolve_user(found: Result<Option<User>, ServiceError>, missing: &str) -> (r: Result<User, ServiceError>)
        ensures
            found matches Ok(Some(u)) ==> r == Ok::<User, ServiceError>(u),
            found matches Ok(None) ==> (r matches Err(e) && e@ == (ErrorKind::AuthenticationError, missing@)),
            found matches Err(e0) ==> (r matches Err(e) && e@ == (ErrorKind::DatabaseError, e0@.1)),
    {
        match found {
            Ok(Some(u)) => Ok(u),
            Ok(None) => Err(ServiceError::AuthenticationError(missing.to_owned())),
            Err(e) => Err(ServiceError::DatabaseError(e.into_message())),
        }
    }

    /// What a password login does with an account whose MFA enrollment is
    /// `mfa_enabled`: challenge when enrolled, otherwise open a session and
    /// report whether an admin requires enrollment.
    pub fn login_gate(user: &User, mfa_enabled: bool) -> (g: LoginGate)
        ensures
            mfa_enabled ==> g == LoginGate::Challenge,
            !mfa_enabled ==> g == (LoginGate::Proceed { mfa_setup_required: user.mfa_required }),
    {
        if mfa_enabled {
            LoginGate::Challenge
        } else {
            LoginGate::Proceed { mfa_setup_required: user.mfa_required && !mfa_enabled }
        }
    }

    /// The answer to a login that must pass MFA first.
    pub fn mfa_challenge(user_id: u128, mfa_session_token: String) -> (o: LoginOutcome)
        ensures
            o matches LoginOutcome::MfaChallenge(c) && c.user_id == user_id && c.mfa_required
                && c.mfa_session_token == mfa_session_token,
    {
        LoginOutcome::MfaChallenge(MfaChallengeResponse { user_id, mfa_required: true, mfa_session_token })
    }

    /// The session row and login answer for `user` logging in through
    /// `identity` at `now` with freshly signed `tokens`. The session expires
    /// with its refresh token, the answer's access token earlier or at the
    /// same time as configured.
    pub fn issue_session(
        &self,
        user: &User,
        identity: &UserIdentity,
        session_id: u128,
        refresh_token_family: u128,
        tokens: SessionTokens,
        now: i64,
        actor: u128,
        mfa_setup_required: bool,
    ) -> (r: (Session, BasicLoginResponse))
        requires
            i64::MIN <= now + self.access_ttl() <= i64::MAX,
            i64::MIN <= now + self.refresh_ttl() <= i64::MAX,
        ensures
            r.0.session_id == session_id,
            r.0.user_id == user.user_id,
            r.0.identity_id == identity.identity_id,
            r.0.refresh_token_hash == tokens.refresh_token_hash,
            r.0.refresh_token_family == refresh_token_family,
            r.0.refresh_token_expires_at == now + self.refresh_ttl(),
            r.0.user_agent is None && r.0.ip_address is None && r.0.device_type is None,
            r.0.revoked_at is None && r.0.last_used_at is None,
            r.0.created_at == Some(now) && r.0.updated_at == Some(now),
            r.0.created_by == Some(actor) && r.0.updated_by == Some(actor),
            r.1.user_id == user.user_id,
            r.1.access_token == tokens.access_token,
            r.1.refresh_token == tokens.refresh_token,
            r.1.expires_at == now + self.access_ttl(),
            r.1.must_change_password == identity.must_change_password,
            r.1.mfa_setup_required == mfa_setup_required,
    {
        proof {
            use_type_invariant(self);
        }
        let session = Session {
            session_id,
            user_id: user.user_id,
            identity_id: identity.identity_id,
            refresh_token_hash: tokens.refresh_token_hash,
            refresh_token_family,
            refresh_token_expires_at: now + self.refresh_ttl,
            user_agent: None,
            ip_address: None,
            device_type: None,
            revoked_at: None,
            last_used_at: None,
            created_at: Some(now),
            updated_at: Some(now),
            created_by: Some(actor),
            updated_by: Some(actor),
        };
        let response = BasicLoginResponse {
            user_id: user.user_id,
            access_token: tokens.access_token,
            refresh_token: tokens.refresh_token,
            expires_at: now + self.access_ttl,
            must_change_password: identity.must_change_password,
            mfa_setup_required,
        };
        (session, response)
    }

    /// The error a failed session insert is answered with.
    pub fn session_creation_failed(e: ServiceError) -> (r: ServiceError)
        ensures
            r@ == (ErrorKind::DatabaseError, e@.1),
    {
        ServiceError::DatabaseError(e.into_message())
    }

    /// The identity a refresh or MFA verification found, or an
    /// authentication error.
    pub fn resolve_identity(found: Option<UserIdentity>) -> (r: Result<UserIdentity, ServiceError>)
        ensures
            found matches Some(i) ==> r == Ok::<UserIdentity, ServiceError>(i),
            found is None ==> (r matches Err(e) && e@ == (ErrorKind::AuthenticationError, "Identity not found"@)),
    {
        found_or(found, ErrorKind::AuthenticationError, "Identity not found")
    }

    /// The answer to a refresh: the new token pair for the same session, and
    /// a fresh access-token expiry.
    pub fn refresh_response(
        &self,
        user_id: u128,
        tokens: SessionTokens,
        identity: &UserIdentity,
        now: i64,
    ) -> (r: BasicLoginResponse)
        requires
            i64::MIN <= now + self.access_ttl() <= i64::MAX,
        ensures
            r.user_id == user_id,
            r.access_token == tokens.access_token,
            r.refresh_token == tokens.refresh_token,
            r.expires_at == now + self.access_ttl(),
            r.must_change_password == identity.must_change_password,
            !r.mfa_setup_required,
    {
        proof {
            use_type_invariant(self);
        }
        BasicLoginResponse {
            user_id,
            access_token: tokens.access_token,
            refresh_token: tokens.refresh_token,
            expires_at: now + self.access_ttl,
            must_change_password: identity.must_change_password,
            mfa_setup_required: false,
        }
    }

    /// The caller context of a validated session token. Of the `roles` claim
    /// only the string entries count.
    pub fn authenticate_token(claims: SessionClaims) -> (r: AuthContextResponse)
        ensures
            r.user_id == claims.user_id,
            r.session_id == claims.session_id,
            r.roles@.map_values(|s: String| s@) == string_values(claims.role_values@),
            r.email_verified == claims.email_verified,
            r.must_change_password == claims.must_change_password,
            r.scope == claims.scope,
            r.policy_test_id == claims.policy_test_id,
    {
        let mut roles: Vec<String> = Vec::new();
        let mut values = claims.role_values;
        let ghost all = values@;
        let mut rest: Vec<Option<String>> = Vec::new();
        // Reverse the claim entries, then take them back in order.
        while values.len() > 0
            invariant
                values@.len() + rest@.len() == all.len(),
                forall|j: int| 0 <= j < values@.len() ==> values@[j] == all[j],
                forall|j: int| 0 <= j < rest@.len() ==> rest@[j] == all[all.len() - 1 - j],
            decreases values@.len(),
        {
            let v = values.pop().unwrap();
            rest.push(v);
        }
        let ghost mut taken: int = 0;
        while rest.len() > 0
            invariant
                rest@.len() + taken == all.len(),
                0 <= taken <= all.len(),
                forall|j: int| 0 <= j < rest@.len() ==> rest@[j] == all[all.len() - 1 - j],
                roles@.map_values(|s: String| s@) == string_values(all.subrange(0, taken)),
            decreases rest@.len(),
        {
            let v = rest.pop().unwrap();
            proof {
                assert(v == all[taken]);
                assert(all.subrange(0, taken + 1).drop_last() =~= all.subrange(0, taken));
                assert(all.subrange(0, taken + 1).last() == all[taken]);
            }
            match v {
                Some(s) => {
                    roles.push(s);
                },
                None => {},
            }
            proof {
                taken = taken + 1;
                assert(roles@.map_values(|s: String| s@) =~= string_values(all.subrange(0, taken)));
            }
        }
        proof {
            assert(all.subrange(0, taken) =~= all);
        }
        AuthContextResponse {
            user_id: claims.user_id,
            session_id: claims.session_id,
            roles,
            email_verified: claims.email_verified,
            must_change_password: claims.must_change_password,
            scope: claims.scope,
            policy_test_id: claims.policy_test_id,
        }
    }

    /// The stored names of the types of `roles`.
    pub fn role_type_names(roles: &Vec<Role>) -> (names: Vec<String>)
        ensures
            names@.map_values(|s: String| s@) == role_type_names(roles@),
    {
        let mut names: Vec<String> = Vec::new();
        let mut i: usize = 0;
        while i < roles.len()
            invariant
                0 <= i <= roles@.len(),
                names@.map_values(|s: String| s@) == role_type_names(roles@.subrange(0, i as int)),
            decreases roles.len() - i,
        {
            let ghost before = names@;
            let name = roles[i].type_.as_str().to_owned();
            assert(name@ == role_type_name(roles@[i as int].type_));
            names.push(name);
            proof {
                assert(roles@.subrange(0, i + 1) =~= roles@.subrange(0, i as int).push(roles@[i as int]));
                assert(names@ =~= before.push(name));
                assert(names@.map_values(|s: String| s@) =~= before.map_values(|s: String| s@).push(name@));
                assert(names@.map_values(|s: String| s@) =~= role_type_names(roles@.subrange(0, i + 1)));
            }
            i = i + 1;
        }
        proof {
            assert(roles@.subrange(0, roles@.len() as int) =~= roles@);
        }
        names
    }

    /// The caller context of a valid API token owned by `user_id` with
    /// `roles`. There is no session; API tokens count as verified and never
    /// need a password change.
    pub fn authenticate_api_token(user_id: u128, roles: &Vec<Role>) -> (r: AuthContextResponse)
        ensures
            r.user_id == user_id,
            r.session_id == 0,
            r.roles@.map_values(|s: String| s@) == role_type_names(roles@),
            r.email_verified,
            !r.must_change_password,
            r.scope is None,
            r.policy_test_id is None,
    {
        AuthContextResponse {
            user_id,
            session_id: 0,
            roles: Self::role_type_names(roles),
            email_verified: true,
            must_change_password: false,
            scope: None,
            policy_test_id: None,
        }
    }

    /// The owner of an API token, or an authentication error when that user
    /// is gone; a failed lookup is a database error with its message.
    pub fn api_token_owner(found: Result<Option<User>, ServiceError>) -> (r: Result<User, ServiceError>)
        ensures
            found matches Ok(Some(u)) ==> r == Ok::<User, ServiceError>(u),
            found matches Ok(None) ==> (r matches Err(e) && e@ == (ErrorKind::AuthenticationError, "User not found"@)),
            found matches Err(e0) ==> (r matches Err(e) && e@ == (ErrorKind::DatabaseError, e0@.1)),
    {
        Self::resolve_user(found, "User not found")
    }

    /// A new account registered with email and password: pending
    /// verification, created and updated by itself at `now`.
    pub fn new_registered_user(
        user_id: u128,
        first_name: String,
        last_name: String,
        avatar_url: Option<String>,
        now: i64,
    ) -> (u: User)
        ensures
            u.user_id == user_id,
            u.first_name == Some(first_name),
            u.last_name == Some(last_name),
            u.avatar_url == avatar_url,
            u.display_name is None,
            u.status == UserStatus::PendingVerification,
            u.token_version == 0,
            !u.mfa_required,
            u.created_by == Some(user_id) && u.updated_by == Some(user_id),
            u.created_at == Some(now) && u.updated_at == Some(now),
    {
        User {
            user_id,
            first_name: Some(first_name),
            last_name: Some(last_name),
            avatar_url,
            display_name: None,
            status: UserStatus::PendingVerification,
            token_version: 0,
            mfa_required: false,
            created_by: Some(user_id),
            created_at: Some(now),
            updated_by: Some(user_id),
            updated_at: Some(now),
        }
    }

    /// The email/password identity of a registration: unverified, not
    /// primary, carrying the plaintext password for the database to hash.
    pub fn new_registered_identity(
        identity_id: u128,
        user_id: u128,
        email: String,
        password: String,
        now: i64,
    ) -> (i: UserIdentity)
        ensures
            i.identity_id == identity_id,
            i.user_id == user_id,
            i.provider == IdentityProvider::EmailPassword,
            i.provider_user_id is None,
            i.email == email,
            i.password_hash == Some(password),
            i.email_verified == Some(false),
            !i.is_primary,
            !i.must_change_password,
            i.created_by == Some(user_id) && i.updated_by == Some(user_id),
            i.created_at == Some(now) && i.updated_at == Some(now),
    {
        UserIdentity {
            identity_id,
            user_id,
            provider: IdentityProvider::EmailPassword,
            provider_user_id: None,
            email,
            password_hash: Some(password),
            email_verified: Some(false),
            is_primary: false,
            must_change_password: false,
            created_by: Some(user_id),
            created_at: Some(now),
            updated_by: Some(user_id),
            updated_at: Some(now),
        }
    }

    /// The answer to a registration whose user row came back as `persisted`.
    pub fn register_response(persisted: User) -> (r: RegisterUserResponse)
        requires
            persisted.first_name is Some,
            persisted.last_name is Some,
        ensures
            r.user_id == persisted.user_id,
            Some(r.first_name) == persisted.first_name,
            Some(r.last_name) == persisted.last_name,
            r.avatar_url == persisted.avatar_url,
            r.status == persisted.status,
    {
        RegisterUserResponse {
            user_id: persisted.user_id,
            first_name: persisted.first_name.unwrap(),
            last_name: persisted.last_name.unwrap(),
            avatar_url: persisted.avatar_url,
            status: persisted.status,
        }
    }

    /// Whether confirming the email of `user` also activates the account:
    /// exactly when it is pending verification.
    pub fn activates_on_verification(user: &User) -> (b: bool)
        ensures
            b == (user.status == UserStatus::PendingVerification),
    {
        user.status == UserStatus::PendingVerification
    }

    /// Whether a verification email must be sent again for `identity`: not
    /// when its email is verified already (the request then succeeds silently).
    pub fn needs_verification_email(identity: &UserIdentity) -> (b: bool)
        ensures
            b == !(identity.email_verified == Some(true)),
    {
        match identity.email_verified {
            Some(v) => !v,
            None => true,
        }
    }

    /// The error for a resend request naming an unknown email.
    pub fn email_not_found() -> (e: ServiceError)
        ensures
            e@ == (ErrorKind::NotFoundError, "Email not found"@),
    {
        ServiceError::NotFoundError("Email not found".to_owned())
    }

    /// The owner of an identity that must exist (resend, forgot and reset
    /// flows): its absence is an internal error.
    pub fn identity_owner(found: Option<User>) -> (r: Result<User, ServiceError>)
        ensures
            found matches Some(u) ==> r == Ok::<User, ServiceError>(u),
            found is None ==> (r matches Err(e) && e@ == (ErrorKind::InternalError, "User not found"@)),
    {
        found_or(found, ErrorKind::InternalError, "User not found")
    }

    /// The identity a consumed reset token points at; its absence is an
    /// internal error.
    pub fn reset_identity(found: Option<UserIdentity>) -> (r: Result<UserIdentity, ServiceError>)
        ensures
            found matches Some(i) ==> r == Ok::<UserIdentity, ServiceError>(i),
            found is None ==> (r matches Err(e) && e@ == (ErrorKind::InternalError, "Identity not found after token consume"@)),
    {
        found_or(found, ErrorKind::InternalError, "Identity not found after token consume")
    }

    /// The first name an email greets `user` with (empty when unknown).
    pub fn greeting_name(user: &User) -> (n: String)
        ensures
            n@ == first_name_or_empty(*user),
    {
        match &user.first_name {
            Some(n) => n.clone(),
            None => String::new(),
        }
    }

    /// Whether an API token owned by a user with `roles` may exchange
    /// sessions: only an admin's may.
    pub fn require_token_admin(roles: &Vec<Role>) -> (r: Result<(), ServiceError>)
        ensures
            r.is_ok() == has_admin_role(roles@),
            r matches Err(e) ==> e@ == (ErrorKind::AuthorizationError, "Insufficient permissions"@),
    {
        let mut i: usize = 0;
        while i < roles.len()
            invariant
                0 <= i <= roles@.len(),
                forall|j: int| 0 <= j < i ==> #[trigger] roles@[j].type_ != RoleType::Admin,
            decreases roles.len() - i,
        {
            if roles[i].type_ == RoleType::Admin {
                return Ok(());
            }
            i = i + 1;
        }
        Err(ServiceError::AuthorizationError("Insufficient permissions".to_owned()))
    }

    /// Whether an existing account found by email may be signed in by token
    /// exchange: only one created by token exchange.
    pub fn check_federated_identity(identity: &UserIdentity) -> (r: Result<(), ServiceError>)
        ensures
            r.is_ok() == (identity.provider == IdentityProvider::TokenFederation),
            r matches Err(e) ==> e@ == (ErrorKind::ValidationError, "User exists but was not created via token federation"@),
    {
        if identity.provider != IdentityProvider::TokenFederation {
            return Err(
                ServiceError::ValidationError(
                    "User exists but was not created via token federation".to_owned(),
                ),
            );
        }
        Ok(())
    }

    /// The first and last name taken from a display name: the text before its
    /// first space, and the rest after that space when there is one.
    pub fn split_display_name(display_name: &str) -> (r: (Option<String>, Option<String>))
        ensures
            r.0 matches Some(f) && f@ == first_word(display_name@),
            r.1 is Some <==> first_space(display_name@) is Some,
            r.1 matches Some(l) ==> Some(l@) == after_first_space(display_name@),
    {
        let n = display_name.unicode_len();
        let mut i: usize = 0;
        while i < n && display_name.get_char(i) != ' '
            invariant
                n == display_name@.len(),
                0 <= i <= n,
                first_space(display_name@) == first_space_from(display_name@, i as int),
            decreases n - i,
        {
            i = i + 1;
        }
        if i < n {
            let first = display_name.substring_char(0, i).to_owned();
            let last = display_name.substring_char(i + 1, n).to_owned();
            (Some(first), Some(last))
        } else {
            (Some(display_name.to_owned()), None)
        }
    }

    /// A new account created by token exchange: active, named after the
    /// display name, created and updated by the exchanging admin at `now`.
    pub fn new_federated_user(
        user_id: u128,
        display_name: &str,
        avatar_url: Option<String>,
        admin_user_id: u128,
        now: i64,
    ) -> (u: User)
        ensures
            u.user_id == user_id,
            u.first_name matches Some(f) && f@ == first_word(display_name@),
            u.last_name is Some <==> first_space(display_name@) is Some,
            u.last_name matches Some(l) ==> Some(l@) == after_first_space(display_name@),
            u.avatar_url == avatar_url,
            u.display_name matches Some(d) && d@ == display_name@,
            u.status == UserStatus::Active,
            u.token_version == 0,
            !u.mfa_required,
            u.created_by == Some(admin_user_id) && u.updated_by == Some(admin_user_id),
            u.created_at == Some(now) && u.updated_at == Some(now),
    {
        let (first_name, last_name) = Self::split_display_name(display_name);
        User {
            user_id,
            first_name,
            last_name,
            avatar_url,
            display_name: Some(display_name.to_owned()),
            status: UserStatus::Active,
            token_version: 0,
            mfa_required: false,
            created_by: Some(admin_user_id),
            created_at: Some(now),
            updated_by: Some(admin_user_id),
            updated_at: Some(now),
        }
    }

    /// The identity of an account created by token exchange: no password,
    /// verified, primary, never forced to change a password.
    pub fn new_federated_identity(
        identity_id: u128,
        user_id: u128,
        email: String,
        admin_user_id: u128,
        now: i64,
    ) -> (i: UserIdentity)
        ensures
            i.identity_id == identity_id,
            i.user_id == user_id,
            i.provider == IdentityProvider::TokenFederation,
            i.provider_user_id is None,
            i.email == email,
            i.password_hash is None,
            i.email_verified == Some(true),
            i.is_primary,
            !i.must_change_password,
            i.created_by == Some(admin_user_id) && i.updated_by == Some(admin_user_id),
            i.created_at == Some(now) && i.updated_at == Some(now),
    {
        UserIdentity {
            identity_id,
            user_id,
            provider: IdentityProvider::TokenFederation,
            provider_user_id: None,
            email,
            password_hash: None,
            email_verified: Some(true),
            is_primary: true,
            must_change_password: false,
            created_by: Some(admin_user_id),
            created_at: Some(now),
            updated_by: Some(admin_user_id),
            updated_at: Some(now),
        }
    }
}

/// The assignment of role `role_id` to `user_id`, made by `created_by` at `now`.
pub fn new_user_role(user_role_id: u128, user_id: u128, role_id: u128, created_by: u128, now: i64) -> (r: UserRole)
    ensures
        r.user_role_id == user_role_id,
        r.user_id == user_id,
        r.role_id == role_id,
        r.created_at == now,
        r.created_by == Some(created_by),
{
    UserRole { user_role_id, user_id, role_id, created_at: now, created_by: Some(created_by) }
}

/// A display name with a space splits back into itself: the first name, a
/// space, and the last name.
pub proof fn lemma_display_name_round_trip(s: Seq<char>)
    requires
        first_space(s) is Some,
    ensures
        first_word(s) + seq![' '] + after_first_space(s).unwrap() == s,
{
    lemma_first_space_from(s, 0);
    assert(first_word(s) + seq![' '] + after_first_space(s).unwrap() =~= s);
}

/// A login never both challenges for MFA and opens a session, and reports a
/// required enrollment only for an account without MFA whose admin requires it.
pub proof fn lemma_login_gate(user: User, mfa_enabled: bool, g: LoginGate)
    requires
        mfa_enabled ==> g == LoginGate::Challenge,
        !mfa_enabled ==> g == (LoginGate::Proceed { mfa_setup_required: user.mfa_required }),
    ensures
        (g == LoginGate::Challenge) == mfa_enabled,
        (g matches LoginGate::Proceed { mfa_setup_required: r } && r) == (user.mfa_required && !mfa_enabled),
{
}

} // verus!
