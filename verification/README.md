# sentinel_core

The decision logic of the Sentinel authentication and authorization service,
written in Verus and proved against its contracts.

## Layout

- `src/` — the verified library.
  - `errors.rs`: the error hierarchy and the mapping of service errors to HTTP
    answers (internal errors never show their detail).
  - `domain.rs`: users, identities, roles, sessions; role guards.
  - `login.rs`, `exchange.rs`, `accounts.rs`, `recovery.rs`, `token_grant.rs`,
    `policy_write.rs`: multi-step operations written as plans. A plan names the
    next read or write the caller performs; the caller answers with what it
    got, and the plan moves on. Each step's contract says which step follows
    each kind of answer (each error included), what is handed to that step, and
    which of the plan's fields the step sets and which it carries unchanged.
    What the stores and signers return is theirs: the contracts speak of it
    only as the answer handed back.
  - `mfa.rs`: the per-challenge-token attempt limiter (five failed codes in
    fifteen minutes lock a token) with its laws.
  - `policy.rs`: the per-policy engine cache and the authorization plan (a named
    policy, whose active version is read on every call and whose cached engine
    is used only when it is of that version, or any active policy allowing),
    with its laws.
  - `auth.rs`, `admin.rs`, `oidc.rs`, `insights.rs`, `system.rs`, `user.rs`,
    `tokens.rs`, `templates.rs`, `federation.rs`: the single-step decisions and
    response builders of each application.
  - `crypto.rs`, `ids.rs`: the calls into `sha2`, `hex`, `uuid` and `chrono`,
    behind small trusted wrappers.
  - `text.rs`, `rules_json.rs`: decimal text of integers, and the stored JSON
    text of a policy's rule bundle (whose SHA-256 is recorded).
- `tests/` — tests of the library on concrete values.
- `app/` — the asynchronous service layer: drivers that run the plans against
  store, mailer, signer and HTTP interfaces, and the error types with serde and
  `std::error::Error` derives.
