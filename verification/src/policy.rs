//! Policy application: the per-policy engine cache, the plan that answers an
//! authorization question from the cache and the database, and the write path
//! that turns a new rule set into a stored, activated policy version.
//!
//! Compiled engines come from the policy compiler; the cache holds them as
//! opaque values of type `E` with the version they were compiled from.

use vstd::prelude::*;
use std::collections::HashMap;
use crate::domain::{has_role, require_admin_role, AuthenticatedUserContext, admin_required};
use crate::errors::{ErrorKind, ServiceError};
use crate::ids::{id_text, uuid_text};
use crate::text::{i64_text, int_text};
use crate::crypto::{hex_lower, sha256, sha256_hex, sha256_hex_bytes};
use vstd::string::StringSliceAdditionalSpecFns;

verus! {

broadcast use vstd::std_specs::hash::group_hash_axioms;

/// An engine held in the cache with the policy version it was compiled from.
pub struct CachedEngine<E> {
    pub version: i64,
    pub engine: E,
}

/// The message of an error of kind `k` whose text is `m`, as a view.
pub type ErrorView = (ErrorKind, Seq<char>);

/// What the caller must do next to answer an authorization question.
pub enum AuthzAction {
    /// Evaluate the request with the cached engine of `policy_id` and answer
    /// with [`AuthzEvent::Evaluated`].
    Evaluate { policy_id: u128 },
    /// Read policy `policy_id`; answer with [`AuthzEvent::PolicyFetched`]
    /// carrying its active version, or `None` when it does not exist.
    FetchPolicy { policy_id: u128 },
    /// Read the compiled rules of `version` of policy `policy_id`; answer with
    /// [`AuthzEvent::VersionFetched`] saying whether that version exists.
    FetchVersion { policy_id: u128, version: i64 },
    /// Build an engine from the rules just read and install it with
    /// [`PolicyApplication::swap_engine`]; answer with [`AuthzEvent::EngineInstalled`].
    InstallEngine { policy_id: u128, version: i64 },
    /// List every active policy with its active version; answer with
    /// [`AuthzEvent::PoliciesListed`].
    ListPolicies,
    /// The answer: whether the request is allowed, and the policy version
    /// that decided it.
    Done(Result<(bool, i64), ServiceError>),
}

/// The abstract form of an [`AuthzAction`].
pub enum AuthzActionView {
    Evaluate { policy_id: u128 },
    FetchPolicy { policy_id: u128 },
    FetchVersion { policy_id: u128, version: i64 },
    InstallEngine { policy_id: u128, version: i64 },
    ListPolicies,
    Done(Result<(bool, i64), ErrorView>),
}

impl View for AuthzAction {
    type V = AuthzActionView;

    open spec fn view(&self) -> AuthzActionView {
        match self {
            AuthzAction::Evaluate { policy_id } => AuthzActionView::Evaluate { policy_id: *policy_id },
            AuthzAction::FetchPolicy { policy_id } => AuthzActionView::FetchPolicy {
                policy_id: *policy_id,
            },
            AuthzAction::FetchVersion { policy_id, version } => AuthzActionView::FetchVersion {
                policy_id: *policy_id,
                version: *version,
            },
            AuthzAction::InstallEngine { policy_id, version } => AuthzActionView::InstallEngine {
                policy_id: *policy_id,
                version: *version,
            },
            AuthzAction::ListPolicies => AuthzActionView::ListPolicies,
            AuthzAction::Done(r) => AuthzActionView::Done(
                match r {
                    Ok(v) => Ok(*v),
                    Err(e) => Err(e@),
                },
            ),
        }
    }
}

/// What the caller learned by performing an [`AuthzAction`].
pub enum AuthzEvent {
    Evaluated(bool),
    PolicyFetched(Result<Option<i64>, ServiceError>),
    VersionFetched(Result<bool, ServiceError>),
    EngineInstalled(Result<(), ServiceError>),
    PoliciesListed(Result<Vec<(u128, i64)>, ServiceError>),
}

/// The abstract form of an [`AuthzEvent`].
pub enum AuthzEventView {
    Evaluated(bool),
    PolicyFetched(Result<Option<i64>, ErrorView>),
    VersionFetched(Result<bool, ErrorView>),
    EngineInstalled(Result<(), ErrorView>),
    PoliciesListed(Result<Seq<(u128, i64)>, ErrorView>),
}

impl View for AuthzEvent {
    type V = AuthzEventView;

    open spec fn view(&self) -> AuthzEventView {
        match self {
            AuthzEvent::Evaluated(b) => AuthzEventView::Evaluated(*b),
            AuthzEvent::PolicyFetched(r) => AuthzEventView::PolicyFetched(
                match r {
                    Ok(v) => Ok(*v),
                    Err(e) => Err(e@),
                },
            ),
            AuthzEvent::VersionFetched(r) => AuthzEventView::VersionFetched(
                match r {
                    Ok(v) => Ok(*v),
                    Err(e) => Err(e@),
                },
            ),
            AuthzEvent::EngineInstalled(r) => AuthzEventView::EngineInstalled(
                match r {
                    Ok(v) => Ok(*v),
                    Err(e) => Err(e@),
                },
            ),
            AuthzEvent::PoliciesListed(r) => AuthzEventView::PoliciesListed(
                match r {
                    Ok(v) => Ok(v@),
                    Err(e) => Err(e@),
                },
            ),
        }
    }
}

/// Where an authorization plan stands.
#[derive(Clone, Copy, Debug, PartialEq, Eq, Structural)]
pub enum AuthzPhase {
    /// Not started.
    Start,
    /// The named policy's cached engine is of its active `version`; its
    /// evaluation is awaited.
    FastEval { version: i64 },
    /// The named policy's record (with its active version) is awaited.
    AwaitPolicy,
    /// The named policy's active `version` is being read.
    AwaitVersion { version: i64 },
    /// The engine of the named policy's active `version` is being installed.
    AwaitInstall { version: i64 },
    /// The freshly installed engine is evaluating; `version` is the active one.
    AwaitEval { version: i64 },
    /// The list of active policies is awaited.
    AwaitList,
    /// Policy `index` of the list was cached at its active version and is evaluating.
    ScanCached { index: usize },
    /// The active version of policy `index` is being read.
    ScanVersion { index: usize },
    /// The engine of policy `index` is being installed.
    ScanInstall { index: usize },
    /// Policy `index`, installed at `version`, is evaluating.
    ScanFresh { index: usize, version: i64 },
    /// The answer has been given.
    Finished,
}

/// The error text for a missing active `version`.
pub open spec fn missing_version_text(version: i64) -> Seq<char> {
    "Active policy version "@ + int_text(version as int) + " not found"@
}

/// The step that visits policy `i` of `policies` during a scan: answer "not
/// allowed" past the end; evaluate a policy cached at its active version;
/// otherwise read that version.
pub open spec fn scan_visit(
    policies: Seq<(u128, i64)>,
    i: int,
    cache: Map<u128, i64>,
) -> (AuthzPhase, AuthzActionView) {
    if i >= policies.len() {
        (AuthzPhase::Finished, AuthzActionView::Done(Ok((false, 0))))
    } else {
        let (id, v) = policies[i];
        if cache.contains_key(id) && cache[id] == v {
            (AuthzPhase::ScanCached { index: i as usize }, AuthzActionView::Evaluate { policy_id: id })
        } else {
            (
                AuthzPhase::ScanVersion { index: i as usize },
                AuthzActionView::FetchVersion { policy_id: id, version: v },
            )
        }
    }
}

/// The first step of a plan for the question "may these roles call this
/// endpoint under `policy_id` (or under any active policy)", given the cached
/// versions.
pub open spec fn authz_first(policy_id: Option<u128>, cache: Map<u128, i64>) -> (
    AuthzPhase,
    AuthzActionView,
) {
    match policy_id {
        Some(id) => (AuthzPhase::AwaitPolicy, AuthzActionView::FetchPolicy { policy_id: id }),
        None => (AuthzPhase::AwaitList, AuthzActionView::ListPolicies),
    }
}

/// Whether `event` is the kind of answer `phase` waits for.
pub open spec fn authz_accepts(phase: AuthzPhase, policies_len: int, event: AuthzEventView) -> bool {
    match phase {
        AuthzPhase::FastEval { .. } | AuthzPhase::AwaitEval { .. } => event is Evaluated,
        AuthzPhase::ScanCached { index } | AuthzPhase::ScanFresh { index, .. } => event is Evaluated
            && index < policies_len,
        AuthzPhase::AwaitPolicy => event is PolicyFetched,
        AuthzPhase::AwaitVersion { .. } => event is VersionFetched,
        AuthzPhase::ScanVersion { index } => event is VersionFetched && index < policies_len,
        AuthzPhase::AwaitInstall { .. } => event is EngineInstalled,
        AuthzPhase::ScanInstall { index } => event is EngineInstalled && index < policies_len,
        AuthzPhase::AwaitList => event is PoliciesListed,
        _ => false,
    }
}

/// The next step of a plan in `phase` over `policies` (the listed active
/// policies, for a scan), given the cached versions after the last action and
/// the answer to it. `specific` is the named policy, if any.
pub open spec fn authz_next(
    specific: Option<u128>,
    phase: AuthzPhase,
    policies: Seq<(u128, i64)>,
    cache: Map<u128, i64>,
    event: AuthzEventView,
) -> (AuthzPhase, Seq<(u128, i64)>, AuthzActionView) {
    let id = specific.unwrap();
    match (phase, event) {
        (AuthzPhase::FastEval { version }, AuthzEventView::Evaluated(b)) => (
            AuthzPhase::Finished,
            policies,
            AuthzActionView::Done(Ok((b, version))),
        ),
        (AuthzPhase::AwaitPolicy, AuthzEventView::PolicyFetched(r)) => match r {
            Err(e) => (AuthzPhase::Finished, policies, AuthzActionView::Done(Err(e))),
            Ok(None) => (
                AuthzPhase::Finished,
                policies,
                AuthzActionView::Done(Err((ErrorKind::InternalError, "Policy not found"@))),
            ),
            Ok(Some(v)) => if cache.contains_key(id) && cache[id] == v {
                (AuthzPhase::FastEval { version: v }, policies, AuthzActionView::Evaluate { policy_id: id })
            } else {
                (
                    AuthzPhase::AwaitVersion { version: v },
                    policies,
                    AuthzActionView::FetchVersion { policy_id: id, version: v },
                )
            },
        },
        (AuthzPhase::AwaitVersion { version }, AuthzEventView::VersionFetched(r)) => match r {
            Err(e) => (AuthzPhase::Finished, policies, AuthzActionView::Done(Err(e))),
            Ok(false) => (
                AuthzPhase::Finished,
                policies,
                AuthzActionView::Done(
                    Err((ErrorKind::InternalError, missing_version_text(version))),
                ),
            ),
            Ok(true) => (
                AuthzPhase::AwaitInstall { version },
                policies,
                AuthzActionView::InstallEngine { policy_id: id, version },
            ),
        },
        (AuthzPhase::AwaitInstall { version }, AuthzEventView::EngineInstalled(r)) => match r {
            Err(e) => (AuthzPhase::Finished, policies, AuthzActionView::Done(Err(e))),
            Ok(()) => if cache.contains_key(id) {
                (
                    AuthzPhase::AwaitEval { version },
                    policies,
                    AuthzActionView::Evaluate { policy_id: id },
                )
            } else {
                (
                    AuthzPhase::Finished,
                    policies,
                    AuthzActionView::Done(Err((ErrorKind::InternalError, "Engine failed to load"@))),
                )
            },
        },
        (AuthzPhase::AwaitEval { version }, AuthzEventView::Evaluated(b)) => (
            AuthzPhase::Finished,
            policies,
            AuthzActionView::Done(Ok((b, version))),
        ),
        (AuthzPhase::AwaitList, AuthzEventView::PoliciesListed(r)) => match r {
            Err(e) => (AuthzPhase::Finished, policies, AuthzActionView::Done(Err(e))),
            Ok(list) => if list.len() == 0 {
                (
                    AuthzPhase::Finished,
                    list,
                    AuthzActionView::Done(Err((ErrorKind::InternalError, "No policy found"@))),
                )
            } else {
                let (p, a) = scan_visit(list, 0, cache);
                (p, list, a)
            },
        },
        (AuthzPhase::ScanCached { index }, AuthzEventView::Evaluated(b)) => if b {
            (AuthzPhase::Finished, policies, AuthzActionView::Done(Ok((true, policies[index as int].1))))
        } else {
            let (p, a) = scan_visit(policies, index + 1, cache);
            (p, policies, a)
        },
        (AuthzPhase::ScanVersion { index }, AuthzEventView::VersionFetched(r)) => match r {
            Err(e) => (AuthzPhase::Finished, policies, AuthzActionView::Done(Err(e))),
            Ok(false) => (
                AuthzPhase::Finished,
                policies,
                AuthzActionView::Done(
                    Err((ErrorKind::InternalError, missing_version_text(policies[index as int].1))),
                ),
            ),
            Ok(true) => (
                AuthzPhase::ScanInstall { index },
                policies,
                AuthzActionView::InstallEngine {
                    policy_id: policies[index as int].0,
                    version: policies[index as int].1,
                },
            ),
        },
        (AuthzPhase::ScanInstall { index }, AuthzEventView::EngineInstalled(r)) => match r {
            Err(e) => (AuthzPhase::Finished, policies, AuthzActionView::Done(Err(e))),
            Ok(()) => {
                let pid = policies[index as int].0;
                if cache.contains_key(pid) {
                    (
                        AuthzPhase::ScanFresh { index, version: cache[pid] },
                        policies,
                        AuthzActionView::Evaluate { policy_id: pid },
                    )
                } else {
                    let (p, a) = scan_visit(policies, index + 1, cache);
                    (p, policies, a)
                }
            },
        },
        (AuthzPhase::ScanFresh { index, version }, AuthzEventView::Evaluated(b)) => if b {
            (AuthzPhase::Finished, policies, AuthzActionView::Done(Ok((true, version))))
        } else {
            let (p, a) = scan_visit(policies, index + 1, cache);
            (p, policies, a)
        },
        _ => (AuthzPhase::Finished, policies, AuthzActionView::Done(Ok((false, 0)))),
    }
}

/// A plan answering one authorization question.
pub struct AuthzPlan {
    specific: Option<u128>,
    phase: AuthzPhase,
    policies: Vec<(u128, i64)>,
}

impl AuthzPlan {
    /// The policy the question names, if any.
    pub closed spec fn specific(&self) -> Option<u128> {
        self.specific
    }

    /// Where the plan stands.
    pub closed spec fn phase(&self) -> AuthzPhase {
        self.phase
    }

    /// The active policies listed so far (for a question naming no policy).
    pub closed spec fn policies(&self) -> Seq<(u128, i64)> {
        self.policies@
    }

    /// Whether the plan's next answer may be `event`.
    pub open spec fn accepts(&self, event: AuthzEventView) -> bool {
        authz_accepts(self.phase(), self.policies().len() as int, event)
    }

    /// Whether the plan has answered.
    pub open spec fn is_finished(&self) -> bool {
        self.phase() == AuthzPhase::Finished
    }
}

/// The policy application's state: the cache of compiled engines, and the
/// compiler version recorded with every stored policy version.
pub struct PolicyApplication<E> {
    cache: HashMap<u128, CachedEngine<E>>,
    compiler_version: String,
}

impl<E> PolicyApplication<E> {
    /// The cached versions, by policy.
    pub closed spec fn cached_versions(&self) -> Map<u128, i64> {
        Map::new(|k: u128| self.cache@.contains_key(k), |k: u128| self.cache@[k].version)
    }

    /// The cached engines, by policy.
    pub closed spec fn cached_engines(&self) -> Map<u128, E> {
        Map::new(|k: u128| self.cache@.contains_key(k), |k: u128| self.cache@[k].engine)
    }

    /// The compiler version recorded with stored policy versions.
    pub closed spec fn compiler_version_view(&self) -> Seq<char> {
        self.compiler_version@
    }

    /// An application with an empty cache.
    pub fn new(compiler_version: String) -> (a: PolicyApplication<E>)
        ensures
            a.cached_versions() == Map::<u128, i64>::empty(),
            a.cached_engines() == Map::<u128, E>::empty(),
            a.compiler_version_view() == compiler_version@,
    {
        let a = PolicyApplication { cache: HashMap::new(), compiler_version };
        assert(a.cached_versions() =~= Map::<u128, i64>::empty());
        assert(a.cached_engines() =~= Map::<u128, E>::empty());
        a
    }

    /// Succeeds exactly when the caller holds the `admin` role.
    pub fn require_admin(ctx: &AuthenticatedUserContext) -> (r: Result<(), ServiceError>)
        ensures
            r.is_ok() == has_role(ctx.roles@, "admin"@),
            r matches Err(e) ==> admin_required(e),
    {
        require_admin_role(ctx)
    }

    /// The version cached for `policy_id`, if any.
    pub fn cached_version(&self, policy_id: u128) -> (v: Option<i64>)
        ensures
            v == (if self.cached_versions().contains_key(policy_id) {
                Some(self.cached_versions()[policy_id])
            } else {
                None::<i64>
            }),
    {
        match self.cache.get(&policy_id) {
            Some(c) => Some(c.version),
            None => None,
        }
    }

    /// The engine cached for `policy_id`, if any.
    pub fn cached_engine(&self, policy_id: u128) -> (e: Option<&E>)
        ensures
            e matches Some(x) ==> self.cached_engines().contains_key(policy_id)
                && *x == self.cached_engines()[policy_id],
            e is None ==> !self.cached_engines().contains_key(policy_id),
    {
        match self.cache.get(&policy_id) {
            Some(c) => Some(&c.engine),
            None => None,
        }
    }

    /// Install `engine`, compiled from `version` of `policy_id`, replacing any
    /// engine cached for that policy; other policies keep theirs.
    pub fn swap_engine(&mut self, policy_id: u128, version: i64, engine: E)
        ensures
            final(self).cached_versions() == old(self).cached_versions().insert(policy_id, version),
            final(self).cached_engines() == old(self).cached_engines().insert(policy_id, engine),
            final(self).compiler_version_view() == old(self).compiler_version_view(),
    {
        self.cache.insert(policy_id, CachedEngine { version, engine });
        assert(self.cached_versions() =~= old(self).cached_versions().insert(policy_id, version));
        assert(self.cached_engines() =~= old(self).cached_engines().insert(policy_id, engine));
    }

    /// Drop the engine cached for `policy_id` (after the policy is deleted).
    pub fn remove_cached(&mut self, policy_id: u128)
        ensures
            final(self).cached_versions() == old(self).cached_versions().remove(policy_id),
            final(self).cached_engines() == old(self).cached_engines().remove(policy_id),
            final(self).compiler_version_view() == old(self).compiler_version_view(),
    {
        self.cache.remove(&policy_id);
        assert(self.cached_versions() =~= old(self).cached_versions().remove(policy_id));
        assert(self.cached_engines() =~= old(self).cached_engines().remove(policy_id));
    }

    /// Begin answering whether a request is allowed under `policy_id`, or under
    /// any active policy when none is named. A named policy's record is read
    /// first, so its cached engine is used only when it is of the active version.
    pub fn begin_is_allowed(&self, policy_id: Option<u128>) -> (r: (AuthzPlan, AuthzAction))
        ensures
            r.0.specific() == policy_id,
            r.0.policies() == Seq::<(u128, i64)>::empty(),
            (r.0.phase(), r.1@) == authz_first(policy_id, self.cached_versions()),
    {
        let plan_policies: Vec<(u128, i64)> = Vec::new();
        match policy_id {
            Some(id) => (
                AuthzPlan { specific: policy_id, phase: AuthzPhase::AwaitPolicy, policies: plan_policies },
                AuthzAction::FetchPolicy { policy_id: id },
            ),
            None => (
                AuthzPlan { specific: None, phase: AuthzPhase::AwaitList, policies: plan_policies },
                AuthzAction::ListPolicies,
            ),
        }
    }

    /// The step that visits policy `i` of the plan's list.
    fn visit(&self, plan: &mut AuthzPlan, i: usize) -> (a: AuthzAction)
        ensures
            final(plan).specific() == old(plan).specific(),
            final(plan).policies() == old(plan).policies(),
            (final(plan).phase(), a@) == scan_visit(old(plan).policies(), i as int, self.cached_versions()),
    {
        if i >= plan.policies.len() {
            plan.phase = AuthzPhase::Finished;
            return AuthzAction::Done(Ok((false, 0)));
        }
        let (id, v): (u128, i64) = plan.policies[i];
        match self.cached_version(id) {
            Some(cv) => {
                if cv == v {
                    plan.phase = AuthzPhase::ScanCached { index: i };
                    return AuthzAction::Evaluate { policy_id: id };
                }
            },
            None => {},
        }
        plan.phase = AuthzPhase::ScanVersion { index: i };
        AuthzAction::FetchVersion { policy_id: id, version: v }
    }

    /// Advance `plan` with the answer to its last action. The cache must be the
    /// one the last action left (an installed engine is already in it).
    pub fn step_is_allowed(&self, plan: &mut AuthzPlan, event: AuthzEvent) -> (a: AuthzAction)
        requires
            old(plan).accepts(event@),
            old(plan).phase() is AwaitPolicy || old(plan).phase() is AwaitVersion
                || old(plan).phase() is AwaitInstall || old(plan).phase() is AwaitEval
                || old(plan).phase() is FastEval ==> old(plan).specific() is Some,
        ensures
            final(plan).specific() == old(plan).specific(),
            (final(plan).phase(), final(plan).policies(), a@) == authz_next(
                old(plan).specific(),
                old(plan).phase(),
                old(plan).policies(),
                self.cached_versions(),
                event@,
            ),
    {
        match (plan.phase, event) {
            (AuthzPhase::FastEval { version }, AuthzEvent::Evaluated(b)) => {
                plan.phase = AuthzPhase::Finished;
                AuthzAction::Done(Ok((b, version)))
            },
            (AuthzPhase::AwaitPolicy, AuthzEvent::PolicyFetched(r)) => match r {
                Err(e) => {
                    plan.phase = AuthzPhase::Finished;
                    AuthzAction::Done(Err(e))
                },
                Ok(None) => {
                    plan.phase = AuthzPhase::Finished;
                    AuthzAction::Done(Err(ServiceError::InternalError("Policy not found".to_owned())))
                },
                Ok(Some(v)) => {
                    let id = plan.specific.unwrap();
                    match self.cached_version(id) {
                        Some(cv) => {
                            if cv == v {
                                plan.phase = AuthzPhase::FastEval { version: v };
                                return AuthzAction::Evaluate { policy_id: id };
                            }
                        },
                        None => {},
                    }
                    plan.phase = AuthzPhase::AwaitVersion { version: v };
                    AuthzAction::FetchVersion { policy_id: id, version: v }
                },
            },
            (AuthzPhase::AwaitVersion { version }, AuthzEvent::VersionFetched(r)) => match r {
                Err(e) => {
                    plan.phase = AuthzPhase::Finished;
                    AuthzAction::Done(Err(e))
                },
                Ok(false) => {
                    plan.phase = AuthzPhase::Finished;
                    AuthzAction::Done(Err(missing_version_error(version)))
                },
                Ok(true) => {
                    plan.phase = AuthzPhase::AwaitInstall { version };
                    AuthzAction::InstallEngine { policy_id: plan.specific.unwrap(), version }
                },
            },
            (AuthzPhase::AwaitInstall { version }, AuthzEvent::EngineInstalled(r)) => match r {
                Err(e) => {
                    plan.phase = AuthzPhase::Finished;
                    AuthzAction::Done(Err(e))
                },
                Ok(()) => {
                    let id = plan.specific.unwrap();
                    if self.cached_version(id).is_some() {
                        plan.phase = AuthzPhase::AwaitEval { version };
                        AuthzAction::Evaluate { policy_id: id }
                    } else {
                        plan.phase = AuthzPhase::Finished;
                        AuthzAction::Done(
                            Err(ServiceError::InternalError("Engine failed to load".to_owned())),
                        )
                    }
                },
            },
            (AuthzPhase::AwaitEval { version }, AuthzEvent::Evaluated(b)) => {
                plan.phase = AuthzPhase::Finished;
                AuthzAction::Done(Ok((b, version)))
            },
            (AuthzPhase::AwaitList, AuthzEvent::PoliciesListed(r)) => match r {
                Err(e) => {
                    plan.phase = AuthzPhase::Finished;
                    AuthzAction::Done(Err(e))
                },
                Ok(list) => {
                    plan.policies = list;
                    if plan.policies.len() == 0 {
                        plan.phase = AuthzPhase::Finished;
                        AuthzAction::Done(Err(ServiceError::InternalError("No policy found".to_owned())))
                    } else {
                        self.visit(plan, 0)
                    }
                },
            },
            (AuthzPhase::ScanCached { index }, AuthzEvent::Evaluated(b)) => {
                assert(index < plan.policies.len());
                if b {
                    plan.phase = AuthzPhase::Finished;
                    AuthzAction::Done(Ok((true, plan.policies[index].1)))
                } else {
                    self.visit(plan, index + 1)
                }
            },
            (AuthzPhase::ScanVersion { index }, AuthzEvent::VersionFetched(r)) => match r {
                Err(e) => {
                    plan.phase = AuthzPhase::Finished;
                    AuthzAction::Done(Err(e))
                },
                Ok(false) => {
                    plan.phase = AuthzPhase::Finished;
                    AuthzAction::Done(Err(missing_version_error(plan.policies[index].1)))
                },
                Ok(true) => {
                    plan.phase = AuthzPhase::ScanInstall { index };
                    AuthzAction::InstallEngine {
                        policy_id: plan.policies[index].0,
                        version: plan.policies[index].1,
                    }
                },
            },
            (AuthzPhase::ScanInstall { index }, AuthzEvent::EngineInstalled(r)) => match r {
                Err(e) => {
                    plan.phase = AuthzPhase::Finished;
                    AuthzAction::Done(Err(e))
                },
                Ok(()) => {
                    assert(index < plan.policies.len());
                    let pid: u128 = plan.policies[index].0;
                    match self.cached_version(pid) {
                        Some(cv) => {
                            plan.phase = AuthzPhase::ScanFresh { index, version: cv };
                            AuthzAction::Evaluate { policy_id: pid }
                        },
                        None => self.visit(plan, index + 1),
                    }
                },
            },
            (AuthzPhase::ScanFresh { index, version }, AuthzEvent::Evaluated(b)) => {
                assert(index < plan.policies.len());
                if b {
                    plan.phase = AuthzPhase::Finished;
                    AuthzAction::Done(Ok((true, version)))
                } else {
                    self.visit(plan, index + 1)
                }
            },
            (_, _) => {
                plan.phase = AuthzPhase::Finished;
                AuthzAction::Done(Ok((false, 0)))
            },
        }
    }
}

/// The error for a missing active `version`.
fn missing_version_error(version: i64) -> (e: ServiceError)
    ensures
        e@ == (ErrorKind::InternalError, missing_version_text(version)),
{
    let t = i64_text(version);
    ServiceError::InternalError("Active policy version ".to_owned().concat(t.as_str()).concat(" not found"))
}

/// A database and engine that answer every read of a scan successfully: the
/// active policies are `world`, and the engine of policy `i` decides `allows[i]`.
pub open spec fn world_event(
    phase: AuthzPhase,
    action: AuthzActionView,
    world: Seq<(u128, i64)>,
    allows: Seq<bool>,
) -> AuthzEventView {
    match action {
        AuthzActionView::Evaluate { .. } => match phase {
            AuthzPhase::ScanCached { index } => AuthzEventView::Evaluated(allows[index as int]),
            AuthzPhase::ScanFresh { index, .. } => AuthzEventView::Evaluated(allows[index as int]),
            _ => AuthzEventView::Evaluated(false),
        },
        AuthzActionView::FetchPolicy { .. } => AuthzEventView::PolicyFetched(Ok(None)),
        AuthzActionView::FetchVersion { .. } => AuthzEventView::VersionFetched(Ok(true)),
        AuthzActionView::InstallEngine { .. } => AuthzEventView::EngineInstalled(Ok(())),
        AuthzActionView::ListPolicies => AuthzEventView::PoliciesListed(Ok(world)),
        AuthzActionView::Done(_) => AuthzEventView::Evaluated(false),
    }
}

/// The cached versions after `action` is performed: installing an engine
/// caches its version.
pub open spec fn world_cache(action: AuthzActionView, cache: Map<u128, i64>) -> Map<u128, i64> {
    match action {
        AuthzActionView::InstallEngine { policy_id, version } => cache.insert(policy_id, version),
        _ => cache,
    }
}

/// The answer a plan for a question naming no policy reaches within `fuel`
/// steps against the world above.
pub open spec fn drive(
    phase: AuthzPhase,
    action: AuthzActionView,
    policies: Seq<(u128, i64)>,
    cache: Map<u128, i64>,
    world: Seq<(u128, i64)>,
    allows: Seq<bool>,
    fuel: nat,
) -> Option<Result<(bool, i64), ErrorView>>
    decreases fuel,
{
    match action {
        AuthzActionView::Done(r) => Some(r),
        _ => if fuel == 0 {
            None
        } else {
            let cache2 = world_cache(action, cache);
            let (p2, pol2, a2) = authz_next(
                None,
                phase,
                policies,
                cache2,
                world_event(phase, action, world, allows),
            );
            drive(p2, a2, pol2, cache2, world, allows, (fuel - 1) as nat)
        },
    }
}

/// The index of the first policy from `i` on whose engine allows the request.
pub open spec fn first_allowing(allows: Seq<bool>, i: int) -> Option<int>
    decreases allows.len() - i,
{
    if i >= allows.len() || i < 0 {
        None
    } else if allows[i] {
        Some(i)
    } else {
        first_allowing(allows, i + 1)
    }
}

/// The answer to a question naming no policy: allowed by the version of the
/// first active policy that allows it, or not allowed (version 0).
pub open spec fn any_policy_answer(world: Seq<(u128, i64)>, allows: Seq<bool>) -> Result<(bool, i64), ErrorView> {
    match first_allowing(allows, 0) {
        Some(k) => Ok((true, world[k].1)),
        None => Ok((false, 0)),
    }
}

proof fn lemma_drive_from_visit(
    world: Seq<(u128, i64)>,
    i: int,
    cache: Map<u128, i64>,
    allows: Seq<bool>,
    fuel: nat,
)
    requires
        0 <= i <= world.len(),
        world.len() <= usize::MAX,
        allows.len() == world.len(),
        fuel >= 3 * (world.len() - i) + 1,
    ensures
        ({
            let (p, a) = scan_visit(world, i, cache);
            drive(p, a, world, cache, world, allows, fuel) == Some(
                match first_allowing(allows, i) {
                    Some(k) => Ok::<(bool, i64), ErrorView>((true, world[k].1)),
                    None => Ok::<(bool, i64), ErrorView>((false, 0)),
                },
            )
        }),
    decreases world.len() - i,
{
    reveal_with_fuel(drive, 4);
    let (p, a) = scan_visit(world, i, cache);
    if i >= world.len() {
    } else {
        let (id, v) = world[i];
        if cache.contains_key(id) && cache[id] == v {
            assert(p == AuthzPhase::ScanCached { index: i as usize });
            assert((i as usize) as int == i);
            if !allows[i] {
                lemma_drive_from_visit(world, i + 1, cache, allows, (fuel - 1) as nat);
            }
        } else {
            let c2 = cache.insert(id, v);
            let f1 = (fuel - 1) as nat;
            let f2 = (fuel - 2) as nat;
            let f3 = (fuel - 3) as nat;
            assert((i as usize) as int == i);
            assert(drive(p, a, world, cache, world, allows, fuel) == drive(
                AuthzPhase::ScanInstall { index: i as usize },
                AuthzActionView::InstallEngine { policy_id: id, version: v },
                world,
                cache,
                world,
                allows,
                f1,
            ));
            assert(drive(
                AuthzPhase::ScanInstall { index: i as usize },
                AuthzActionView::InstallEngine { policy_id: id, version: v },
                world,
                cache,
                world,
                allows,
                f1,
            ) == drive(
                AuthzPhase::ScanFresh { index: i as usize, version: v },
                AuthzActionView::Evaluate { policy_id: id },
                world,
                c2,
                world,
                allows,
                f2,
            ));
            if !allows[i] {
                lemma_drive_from_visit(world, i + 1, c2, allows, f3);
            }
        }
    }
}

/// A question naming no policy is answered by OR over every active policy:
/// when all reads succeed, it is allowed exactly when some active policy's
/// engine allows it, with the version of the first one that does, and
/// otherwise not allowed (version 0).
pub proof fn lemma_any_policy_allows(world: Seq<(u128, i64)>, cache: Map<u128, i64>, allows: Seq<bool>)
    requires
        world.len() > 0,
        world.len() <= usize::MAX,
        allows.len() == world.len(),
    ensures
        drive(
            AuthzPhase::AwaitList,
            AuthzActionView::ListPolicies,
            Seq::empty(),
            cache,
            world,
            allows,
            (3 * world.len() + 2) as nat,
        ) == Some(any_policy_answer(world, allows)),
{
    let fuel = (3 * world.len() + 2) as nat;
    assert(authz_first(None, cache) == (AuthzPhase::AwaitList, AuthzActionView::ListPolicies));
    lemma_drive_from_visit(world, 0, cache, allows, (fuel - 1) as nat);
}

/// A question naming no policy fails when no policy is active.
pub proof fn lemma_no_policy_is_an_error(cache: Map<u128, i64>, allows: Seq<bool>)
    ensures
        drive(
            AuthzPhase::AwaitList,
            AuthzActionView::ListPolicies,
            Seq::empty(),
            cache,
            Seq::empty(),
            allows,
            1,
        ) == Some(Err::<(bool, i64), ErrorView>((ErrorKind::InternalError, "No policy found"@))),
{
    let e = world_event(AuthzPhase::AwaitList, AuthzActionView::ListPolicies, Seq::empty(), allows);
    assert(e == AuthzEventView::PoliciesListed(Ok(Seq::<(u128, i64)>::empty())));
    assert(drive(
        AuthzPhase::Finished,
        AuthzActionView::Done(Err((ErrorKind::InternalError, "No policy found"@))),
        Seq::empty(),
        cache,
        Seq::empty(),
        allows,
        0,
    ) == Some(Err::<(bool, i64), ErrorView>((ErrorKind::InternalError, "No policy found"@))));
}

/// The next phase and action of a plan for a question naming `policy_id`, in
/// `phase`, given the cached versions and the answer to its last action.
pub open spec fn named_next(
    policy_id: u128,
    phase: AuthzPhase,
    cache: Map<u128, i64>,
    event: AuthzEventView,
) -> (AuthzPhase, AuthzActionView) {
    let (p, _, a) = authz_next(Some(policy_id), phase, Seq::empty(), cache, event);
    (p, a)
}

/// A question naming a policy first reads that policy's active version `v`.
/// When the cache holds the engine of version `v`, that engine answers, with
/// version `v`, and nothing more is read.
pub proof fn lemma_current_cache_answers(policy_id: u128, cache: Map<u128, i64>, v: i64, allowed: bool)
    requires
        cache.contains_key(policy_id),
        cache[policy_id] == v,
    ensures
        authz_first(Some(policy_id), cache).1 == (AuthzActionView::FetchPolicy { policy_id }),
        named_next(policy_id, AuthzPhase::AwaitPolicy, cache, AuthzEventView::PolicyFetched(Ok(Some(v))))
            == (AuthzPhase::FastEval { version: v }, AuthzActionView::Evaluate { policy_id }),
        named_next(policy_id, AuthzPhase::FastEval { version: v }, cache, AuthzEventView::Evaluated(allowed)).1
            == AuthzActionView::Done(Ok((allowed, v))),
{
}

/// When the database's active version `v` of a named policy differs from the
/// cached one (or nothing is cached), the engine of version `v` is read and
/// installed, the cache then holds version `v` for that policy, and the answer
/// is that engine's verdict with version `v`.
pub proof fn lemma_stale_cache_reloads(policy_id: u128, cache: Map<u128, i64>, v: i64, allowed: bool)
    requires
        !(cache.contains_key(policy_id) && cache[policy_id] == v),
    ensures
        named_next(policy_id, AuthzPhase::AwaitPolicy, cache, AuthzEventView::PolicyFetched(Ok(Some(v))))
            == (AuthzPhase::AwaitVersion { version: v }, AuthzActionView::FetchVersion { policy_id, version: v }),
        named_next(policy_id, AuthzPhase::AwaitVersion { version: v }, cache, AuthzEventView::VersionFetched(Ok(true)))
            == (AuthzPhase::AwaitInstall { version: v }, AuthzActionView::InstallEngine { policy_id, version: v }),
        cache.insert(policy_id, v)[policy_id] == v,
        named_next(policy_id, AuthzPhase::AwaitInstall { version: v }, cache.insert(policy_id, v), AuthzEventView::EngineInstalled(Ok(())))
            == (AuthzPhase::AwaitEval { version: v }, AuthzActionView::Evaluate { policy_id }),
        named_next(policy_id, AuthzPhase::AwaitEval { version: v }, cache.insert(policy_id, v), AuthzEventView::Evaluated(allowed)).1
            == AuthzActionView::Done(Ok((allowed, v))),
{
}

/// A stored policy: a named rule set whose `active_version` is enforced.
#[derive(Debug)]
pub struct Policy {
    pub policy_id: u128,
    pub tenant_id: Option<u128>,
    pub environment: String,
    pub name: String,
    pub description: Option<String>,
    pub active_version: i64,
    pub created_at: i64,
    pub updated_at: i64,
    pub is_active: bool,
}

/// An immutable, compiled snapshot of a policy's rules.
#[derive(Debug)]
pub struct PolicyVersion {
    pub policy_version_id: u128,
    pub policy_id: u128,
    pub version: i64,
    /// The rule bundle as stored (`{"rules": [...]}`).
    pub rules: serde_json::Value,
    /// Lowercase hex SHA-256 of the rule bundle's JSON text.
    pub rules_hash: String,
    /// The compiled engine's serialised form.
    pub compiled_rules: Vec<u8>,
    /// Lowercase hex SHA-256 of `compiled_rules`.
    pub compiled_hash: String,
    pub compiler_version: String,
    pub compiled_at: i64,
    pub created_at: i64,
    pub is_active: bool,
}

/// One authorization rule: the roles that may call `method` on `path`.
#[derive(Debug)]
pub struct PolicyRule {
    pub method: String,
    pub path: String,
    pub roles: Vec<String>,
}

/// The answer to a policy creation.
#[derive(Debug)]
pub struct CreatePolicyResponse {
    pub policy_id: u128,
    pub name: String,
    pub environment: String,
    pub description: Option<String>,
    pub active_version: i64,
    pub is_active: bool,
    pub created_at: i64,
}

/// The answer to a rule update.
#[derive(Debug)]
pub struct UpdatePolicyRulesResponse {
    pub policy_id: u128,
    pub activated_version: i64,
}

/// The active rules of a policy.
#[derive(Debug)]
pub struct GetPolicyRulesResponse {
    pub policy_id: u128,
    pub version: i64,
    pub rules: Vec<PolicyRule>,
}

/// One endpoint of a batch authorization check.
#[derive(Debug)]
pub struct BatchCheck {
    pub method: String,
    pub path: String,
}

/// The verdict for one endpoint of a batch.
#[derive(Debug)]
pub struct BatchCheckResult {
    pub method: String,
    pub path: String,
    pub allowed: bool,
}

/// The verdicts of a batch, with the policy version that decided the last one.
#[derive(Debug)]
pub struct BatchCheckResponse {
    pub policy_id: Option<u128>,
    pub evaluated_version: i64,
    pub results: Vec<BatchCheckResult>,
}

/// What one live probe of a rule's endpoint showed.
#[derive(Debug)]
pub struct ProbeResult {
    pub method: String,
    pub path: String,
    pub allowed: bool,
    pub status_code: Option<u16>,
    pub error: Option<String>,
}

/// The outcome of probing every active rule against a live application.
#[derive(Debug)]
pub struct RunProbeResponse {
    pub policy_id: u128,
    pub evaluated_version: i64,
    pub roles_tested: Vec<String>,
    pub base_url: String,
    pub results: Vec<ProbeResult>,
}

/// The number of the version that follows `latest` (1 for the first).
pub open spec fn following_version(latest: Option<i64>) -> int {
    match latest {
        Some(v) => v + 1,
        None => 1,
    }
}

/// `s` without its trailing `/` characters.
pub open spec fn trim_trailing_slashes(s: Seq<char>) -> Seq<char>
    decreases s.len(),
{
    if s.len() > 0 && s.last() == '/' {
        trim_trailing_slashes(s.drop_last())
    } else {
        s
    }
}

/// The number of the version a new rule set is stored under, given the latest
/// stored version of the policy.
pub fn next_version(latest: Option<i64>) -> (v: i64)
    requires
        latest matches Some(l) ==> l < i64::MAX,
    ensures
        v == following_version(latest),
{
    match latest {
        Some(l) => l + 1,
        None => 1,
    }
}

/// The error for an unknown policy `policy_id`.
pub fn policy_not_found(policy_id: u128) -> (e: ServiceError)
    ensures
        e@ == (ErrorKind::NotFoundError, "Policy "@ + uuid_text(policy_id) + " not found"@),
{
    let t = id_text(policy_id);
    ServiceError::NotFoundError("Policy ".to_owned().concat(t.as_str()).concat(" not found"))
}

/// The error for a stored rule bundle that does not parse; `detail` is the
/// parser's message.
pub fn invalid_rules_format(detail: &str) -> (e: ServiceError)
    ensures
        e@ == (ErrorKind::InternalError, "Invalid rules format: "@ + detail@),
{
    ServiceError::InternalError("Invalid rules format: ".to_owned().concat(detail))
}

/// The error for a rule set the compiler rejects; `detail` is its message.
pub fn compilation_failed(detail: &str) -> (e: ServiceError)
    ensures
        e@ == (ErrorKind::InternalError, "Compile error: "@ + detail@),
{
    ServiceError::InternalError("Compile error: ".to_owned().concat(detail))
}

/// The error for compiled rules that cannot be loaded into an engine.
pub fn engine_load_error(detail: &str) -> (e: ServiceError)
    ensures
        e@ == (ErrorKind::InternalError, "Engine load error: "@ + detail@),
{
    ServiceError::InternalError("Engine load error: ".to_owned().concat(detail))
}

/// The error when the active version of a policy is missing from storage.
pub fn active_version_missing() -> (e: ServiceError)
    ensures
        e@ == (ErrorKind::InternalError, "Active policy version not found"@),
{
    ServiceError::InternalError("Active policy version not found".to_owned())
}

/// A new policy whose first version is active.
pub fn new_policy(
    policy_id: u128,
    tenant_id: Option<u128>,
    environment: String,
    name: String,
    description: Option<String>,
    now: i64,
) -> (p: Policy)
    ensures
        p.policy_id == policy_id,
        p.tenant_id == tenant_id,
        p.environment == environment,
        p.name == name,
        p.description == description,
        p.active_version == 1,
        p.created_at == now,
        p.updated_at == now,
        p.is_active,
{
    Policy {
        policy_id,
        tenant_id,
        environment,
        name,
        description,
        active_version: 1,
        created_at: now,
        updated_at: now,
        is_active: true,
    }
}

/// The answer to the creation of `policy`.
pub fn create_policy_response(policy: Policy) -> (r: CreatePolicyResponse)
    ensures
        r.policy_id == policy.policy_id,
        r.name == policy.name,
        r.environment == policy.environment,
        r.description == policy.description,
        r.active_version == policy.active_version,
        r.is_active == policy.is_active,
        r.created_at == policy.created_at,
{
    CreatePolicyResponse {
        policy_id: policy.policy_id,
        name: policy.name,
        environment: policy.environment,
        description: policy.description,
        active_version: policy.active_version,
        is_active: policy.is_active,
        created_at: policy.created_at,
    }
}

impl<E> PolicyApplication<E> {
    /// The record of `version` of `policy_id` built from a rule bundle
    /// (`rules`, whose JSON text is `rules_text`) and its compiled form. It is
    /// stored inactive; activation flips it.
    pub fn new_policy_version(
        &self,
        policy_version_id: u128,
        policy_id: u128,
        version: i64,
        rules: serde_json::Value,
        rules_text: &str,
        compiled_rules: Vec<u8>,
        now: i64,
    ) -> (pv: PolicyVersion)
        ensures
            pv.policy_version_id == policy_version_id,
            pv.policy_id == policy_id,
            pv.version == version,
            pv.rules == rules,
            pv.rules_hash@ == hex_lower(sha256(rules_text.spec_bytes())),
            pv.compiled_rules@ == compiled_rules@,
            pv.compiled_hash@ == hex_lower(sha256(compiled_rules@)),
            pv.compiler_version@ == self.compiler_version_view(),
            pv.compiled_at == now,
            pv.created_at == now,
            !pv.is_active,
    {
        let rules_hash = sha256_hex(rules_text);
        let compiled_hash = sha256_hex_bytes(compiled_rules.as_slice());
        PolicyVersion {
            policy_version_id,
            policy_id,
            version,
            rules,
            rules_hash,
            compiled_rules,
            compiled_hash,
            compiler_version: self.compiler_version.clone(),
            compiled_at: now,
            created_at: now,
            is_active: false,
        }
    }

    /// The answer to a rule update that activated `version`.
    pub fn update_policy_rules_response(policy_id: u128, version: i64) -> (r: UpdatePolicyRulesResponse)
        ensures
            r.policy_id == policy_id,
            r.activated_version == version,
    {
        UpdatePolicyRulesResponse { policy_id, activated_version: version }
    }

    /// The active rules of `policy_id` at `version`.
    pub fn active_rules_response(policy_id: u128, version: i64, rules: Vec<PolicyRule>) -> (r: GetPolicyRulesResponse)
        ensures
            r.policy_id == policy_id,
            r.version == version,
            r.rules@ == rules@,
    {
        GetPolicyRulesResponse { policy_id, version, rules }
    }

    /// The verdicts of a batch: one per check, in order, each the allowed flag
    /// of the matching outcome; the evaluated version is that of the last
    /// outcome, or 0 for an empty batch.
    pub fn check_authorization_batch(
        policy_id: Option<u128>,
        checks: Vec<BatchCheck>,
        outcomes: Vec<(bool, i64)>,
    ) -> (r: BatchCheckResponse)
        requires
            checks@.len() == outcomes@.len(),
        ensures
            r.policy_id == policy_id,
            r.results@.len() == checks@.len(),
            forall|i: int|
                0 <= i < checks@.len() ==> (#[trigger] r.results@[i]).method == checks@[i].method
                    && r.results@[i].path == checks@[i].path && r.results@[i].allowed
                    == outcomes@[i].0,
            r.evaluated_version == (if outcomes@.len() == 0 {
                0
            } else {
                outcomes@.last().1
            }),
    {
        let mut results: Vec<BatchCheckResult> = Vec::new();
        let mut evaluated_version: i64 = 0;
        let mut checks = checks;
        let ghost all_checks = checks@;
        let n = checks.len();
        let mut i: usize = 0;
        // Checks are taken from the back and the verdicts reversed into place.
        let mut rev: Vec<BatchCheckResult> = Vec::new();
        while checks.len() > 0
            invariant
                checks@.len() + rev@.len() == n,
                n == all_checks.len(),
                n == outcomes@.len(),
                forall|j: int| 0 <= j < checks@.len() ==> checks@[j] == all_checks[j],
                forall|j: int|
                    0 <= j < rev@.len() ==> (#[trigger] rev@[j]).method == all_checks[n - 1 - j].method
                        && rev@[j].path == all_checks[n - 1 - j].path && rev@[j].allowed
                        == outcomes@[n - 1 - j].0,
            decreases checks@.len(),
        {
            let c = checks.pop().unwrap();
            let k = checks.len();
            rev.push(BatchCheckResult { method: c.method, path: c.path, allowed: outcomes[k].0 });
        }
        while rev.len() > 0
            invariant
                rev@.len() + results@.len() == n,
                n == all_checks.len(),
                n == outcomes@.len(),
                forall|j: int|
                    0 <= j < rev@.len() ==> (#[trigger] rev@[j]).method == all_checks[n - 1 - j].method
                        && rev@[j].path == all_checks[n - 1 - j].path && rev@[j].allowed
                        == outcomes@[n - 1 - j].0,
                forall|j: int|
                    0 <= j < results@.len() ==> (#[trigger] results@[j]).method == all_checks[j].method
                        && results@[j].path == all_checks[j].path && results@[j].allowed
                        == outcomes@[j].0,
            decreases rev@.len(),
        {
            let r = rev.pop().unwrap();
            results.push(r);
        }
        if n > 0 {
            evaluated_version = outcomes[n - 1].1;
        }
        BatchCheckResponse { policy_id, evaluated_version, results }
    }

    /// The base URL of a probe: the given one without trailing slashes.
    pub fn probe_base_url(base_url: &str) -> (s: String)
        ensures
            s@ == trim_trailing_slashes(base_url@),
    {
        let mut end: usize = base_url.unicode_len();
        assert(base_url@.subrange(0, end as int) =~= base_url@);
        while end > 0 && base_url.get_char(end - 1) == '/'
            invariant
                end <= base_url@.len(),
                trim_trailing_slashes(base_url@.subrange(0, end as int)) == trim_trailing_slashes(
                    base_url@,
                ),
            decreases end,
        {
            proof {
                let t = base_url@.subrange(0, end as int);
                assert(t.drop_last() =~= base_url@.subrange(0, end - 1));
                assert(t.last() == '/');
            }
            end = end - 1;
        }
        proof {
            let t = base_url@.subrange(0, end as int);
            if end > 0 {
                assert(t.last() != '/');
            }
        }
        base_url.substring_char(0, end).to_owned()
    }

    /// The verdict of probing `method path`: answered with `status`, which
    /// counts as allowed exactly when it is 200.
    pub fn probe_result_from_status(method: String, path: String, status: u16) -> (r: ProbeResult)
        ensures
            r.method == method,
            r.path == path,
            r.allowed == (status == 200),
            r.status_code == Some(status),
            r.error is None,
    {
        ProbeResult { method, path, allowed: status == 200, status_code: Some(status), error: None }
    }

    /// The verdict of a probe that got no answer; `error` says why.
    pub fn probe_result_from_error(method: String, path: String, error: String) -> (r: ProbeResult)
        ensures
            r.method == method,
            r.path == path,
            !r.allowed,
            r.status_code is None,
            r.error == Some(error),
    {
        ProbeResult { method, path, allowed: false, status_code: None, error: Some(error) }
    }

    /// The URL probed for a rule on `path`: the trimmed base URL followed by the path.
    pub fn probe_url(base_url: &str, path: &str) -> (s: String)
        ensures
            s@ == trim_trailing_slashes(base_url@) + path@,
    {
        Self::probe_base_url(base_url).concat(path)
    }
}

} // verus!
