//! The policy write path as plans: creating a policy with its first rule
//! set, replacing a policy's rules, and recompiling a stored rule bundle.
//!
//! Each compiles the rules, stores them as a new, inactive policy version
//! (with the SHA-256 of the bundle's JSON text and of the compiled bytes),
//! activates that version, and loads the compiled engine into the cache. A
//! creation starts at version 1; the other two store the version after the
//! latest one. When creating or updating, the database is the record: a
//! cache load that fails afterwards is ignored. A recompilation reports it.

use vstd::prelude::*;
use crate::crypto::{hex_lower, sha256};
use crate::errors::{ErrorKind, ServiceError};
use crate::ids::{new_id, now_seconds, uuid_text, CLOCK_BOUND, UUID_V4_BITS, UUID_VERSION_VARIANT_MASK};
use crate::rules_json::{bundle_json, bundle_text};
use crate::policy::{
    authz_first, named_next, AuthzActionView, AuthzEventView, AuthzPhase,
    compilation_failed, create_policy_response, engine_load_error, following_version,
    invalid_rules_format, new_policy, next_version, policy_not_found, CreatePolicyResponse,
    Policy, PolicyApplication, PolicyRule, PolicyVersion, UpdatePolicyRulesResponse,
};

verus! {

/// A rule bundle, parsed from its stored text, and its compiled form.
#[derive(Debug)]
pub struct CompiledRules {
    /// The bundle as stored (`{"rules": [...]}`).
    pub rules: serde_json::Value,
    /// The compiled engine's serialised form.
    pub bytes: Vec<u8>,
}

/// Why a rule bundle could not be compiled.
#[derive(Debug)]
pub enum CompileFailure {
    /// The stored bundle does not parse; the parser's message.
    InvalidFormat(String),
    /// The compiler rejected the rules; its message.
    Rejected(String),
}

/// The error a compile failure is reported as.
pub open spec fn compile_failure_view(f: CompileFailure) -> (ErrorKind, Seq<char>) {
    match f {
        CompileFailure::InvalidFormat(m) => (ErrorKind::InternalError, "Invalid rules format: "@ + m@),
        CompileFailure::Rejected(m) => (ErrorKind::InternalError, "Compile error: "@ + m@),
    }
}

/// The error `f` is reported as.
pub fn compile_failure_error(f: CompileFailure) -> (e: ServiceError)
    ensures
        e@ == compile_failure_view(f),
{
    match f {
        CompileFailure::InvalidFormat(m) => invalid_rules_format(m.as_str()),
        CompileFailure::Rejected(m) => compilation_failed(m.as_str()),
    }
}

/// Where a policy write stands.
#[derive(Clone, Copy, Debug, PartialEq, Eq, Structural)]
pub enum WritePhase {
    AwaitPolicy,
    AwaitLatest,
    AwaitCompiled,
    AwaitCreated,
    AwaitStored,
    AwaitActivated,
    AwaitEngine,
    Finished,
}

/// What the caller does next for a policy write answered with `R`.
#[derive(Debug)]
pub enum WriteStep<R> {
    /// Load policy `policy_id`; answer with [`WriteEvent::PolicyFound`].
    FindPolicy { policy_id: u128 },
    /// Read the number of the latest stored version of `policy_id`; answer
    /// with [`WriteEvent::LatestVersion`].
    GetLatestVersion { policy_id: u128 },
    /// Parse `bundle_text` (the rule bundle's stored JSON text) into the
    /// stored value and compile its rules; answer with [`WriteEvent::Compiled`].
    Compile { bundle_text: String },
    /// Insert this policy; answer with [`WriteEvent::PolicyCreated`].
    CreatePolicy(Policy),
    /// Insert this policy version; answer with [`WriteEvent::VersionStored`].
    StoreVersion(PolicyVersion),
    /// Make `version` the active version of `policy_id`; answer with
    /// [`WriteEvent::Activated`].
    ActivateVersion { policy_id: u128, version: i64 },
    /// Load an engine from `compiled` and cache it for `policy_id` at
    /// `version`; answer with [`WriteEvent::EngineLoaded`].
    LoadEngine { policy_id: u128, version: i64, compiled: Vec<u8> },
    /// The answer.
    Done(Result<R, ServiceError>),
}

/// What the caller learned by performing a [`WriteStep`].
#[derive(Debug)]
pub enum WriteEvent {
    PolicyFound(Result<Option<Policy>, ServiceError>),
    LatestVersion(Result<Option<i64>, ServiceError>),
    Compiled(Result<CompiledRules, CompileFailure>),
    PolicyCreated(Result<Policy, ServiceError>),
    VersionStored(Result<(), ServiceError>),
    Activated(Result<(), ServiceError>),
    /// The engine loader's message on failure.
    EngineLoaded(Result<(), String>),
}

/// Whether a write `step` ends the plan with an error whose view is `e`.
pub open spec fn write_fails_with<R>(step: WriteStep<R>, e: (ErrorKind, Seq<char>)) -> bool {
    step matches WriteStep::Done(Err(x)) && x@ == e
}

/// Whether `event` answers a write in `phase`. Version numbers have room
/// for one more.
pub open spec fn write_answers(phase: WritePhase, event: WriteEvent) -> bool {
    &&& match phase {
        WritePhase::AwaitPolicy => event is PolicyFound,
        WritePhase::AwaitLatest => event is LatestVersion,
        WritePhase::AwaitCompiled => event is Compiled,
        WritePhase::AwaitCreated => event is PolicyCreated,
        WritePhase::AwaitStored => event is VersionStored,
        WritePhase::AwaitActivated => event is Activated,
        WritePhase::AwaitEngine => event is EngineLoaded,
        WritePhase::Finished => false,
    }
    &&& event matches WriteEvent::LatestVersion(Ok(Some(l))) ==> l < i64::MAX
}

/// Whether `pv` stores `compiled` as `version` of `policy_id`, inactive,
/// stamped by compiler `compiler_version`, with the hash of `bundle_text`,
/// the bundle's stored JSON text, under a fresh random id, compiled and
/// created at one clock reading.
pub open spec fn is_stored_version(
    pv: PolicyVersion,
    policy_id: u128,
    version: int,
    compiled: CompiledRules,
    bundle_text: Seq<char>,
    compiler_version: Seq<char>,
) -> bool {
    &&& pv.policy_id == policy_id
    &&& pv.version == version
    &&& pv.rules == compiled.rules
    &&& pv.rules_hash@ == hex_lower(sha256(vstd::utf8::encode_utf8(bundle_text)))
    &&& pv.compiled_rules@ == compiled.bytes@
    &&& pv.compiled_hash@ == hex_lower(sha256(compiled.bytes@))
    &&& pv.compiler_version@ == compiler_version
    &&& !pv.is_active
    &&& pv.policy_version_id & UUID_VERSION_VARIANT_MASK == UUID_V4_BITS
    &&& pv.compiled_at == pv.created_at
    &&& 0 <= pv.created_at < CLOCK_BOUND
}

/// A copy of `v`.
fn bytes_copy(v: &Vec<u8>) -> (c: Vec<u8>)
    ensures
        c@ == v@,
{
    let mut c: Vec<u8> = Vec::new();
    let mut i: usize = 0;
    while i < v.len()
        invariant
            0 <= i <= v@.len(),
            c@ == v@.subrange(0, i as int),
        decreases v@.len() - i,
    {
        c.push(v[i]);
        i = i + 1;
    }
    assert(c@ =~= v@);
    c
}

/// A policy creation in progress.
pub struct CreatePolicyFlow {
    phase: WritePhase,
    policy_id: u128,
    tenant_id: Option<u128>,
    environment: String,
    name: String,
    description: Option<String>,
    bundle_text: String,
    compiled: Option<CompiledRules>,
    compiled_bytes: Vec<u8>,
    created: Option<Policy>,
    response: Option<CreatePolicyResponse>,
}

impl CreatePolicyFlow {
    pub closed spec fn phase(&self) -> WritePhase {
        self.phase
    }

    /// The id given to the new policy.
    pub closed spec fn policy_id(&self) -> u128 {
        self.policy_id
    }

    pub closed spec fn tenant_id(&self) -> Option<u128> {
        self.tenant_id
    }

    pub closed spec fn environment(&self) -> String {
        self.environment
    }

    pub closed spec fn name(&self) -> String {
        self.name
    }

    pub closed spec fn description(&self) -> Option<String> {
        self.description
    }

    /// The stored JSON text of the rule bundle.
    pub closed spec fn bundle_text(&self) -> Seq<char> {
        self.bundle_text@
    }

    /// The compiled rules, until they are stored.
    pub closed spec fn compiled(&self) -> Option<CompiledRules> {
        self.compiled
    }

    /// The compiled bytes the engine is loaded from.
    pub closed spec fn compiled_bytes(&self) -> Seq<u8> {
        self.compiled_bytes@
    }

    /// The policy as inserted.
    pub closed spec fn created(&self) -> Option<Policy> {
        self.created
    }

    /// The answer, once the version is active.
    pub closed spec fn response(&self) -> Option<CreatePolicyResponse> {
        self.response
    }

    /// What the plan holds in each phase.
    pub closed spec fn wf(&self) -> bool {
        match self.phase {
            WritePhase::AwaitCreated => self.compiled is Some,
            WritePhase::AwaitStored | WritePhase::AwaitActivated => self.created is Some,
            WritePhase::AwaitEngine => self.response is Some,
            WritePhase::AwaitPolicy | WritePhase::AwaitLatest => false,
            _ => true,
        }
    }

    /// Whether `event` answers the plan's last step.
    pub open spec fn accepts(&self, event: WriteEvent) -> bool {
        write_answers(self.phase(), event)
    }
}

impl<E> PolicyApplication<E> {
    /// Start creating a policy named `name` in `environment` with `rules`:
    /// the rules are compiled first, before anything is written.
    pub fn begin_create_policy(
        &self,
        tenant_id: Option<u128>,
        environment: String,
        name: String,
        description: Option<String>,
        rules: &Vec<PolicyRule>,
    ) -> (r: (CreatePolicyFlow, WriteStep<CreatePolicyResponse>))
        ensures
            r.0.wf(),
            r.0.phase() == WritePhase::AwaitCompiled,
            r.0.tenant_id() == tenant_id && r.0.environment() == environment,
            r.0.name() == name && r.0.description() == description,
            r.0.bundle_text() == bundle_json(rules@),
            r.1 matches WriteStep::Compile { bundle_text } && bundle_text@ == bundle_json(rules@),
    {
        let text = bundle_text(rules);
        let handed = text.clone();
        (
            CreatePolicyFlow {
                phase: WritePhase::AwaitCompiled,
                policy_id: new_id(),
                tenant_id,
                environment,
                name,
                description,
                bundle_text: text,
                compiled: None,
                compiled_bytes: Vec::new(),
                created: None,
                response: None,
            },
            WriteStep::Compile { bundle_text: handed },
        )
    }

    /// Advance a policy creation with the answer to its last step.
    pub fn step_create_policy(&self, flow: &mut CreatePolicyFlow, event: WriteEvent) -> (step: WriteStep<CreatePolicyResponse>)
        requires
            old(flow).wf(),
            old(flow).accepts(event),
        ensures
            final(flow).wf(),
            step is Done <==> final(flow).phase() == WritePhase::Finished,
            final(flow).policy_id() == old(flow).policy_id(),
            final(flow).tenant_id() == old(flow).tenant_id(),
            final(flow).environment() == old(flow).environment(),
            final(flow).name() == old(flow).name(),
            final(flow).description() == old(flow).description(),
            final(flow).bundle_text() == old(flow).bundle_text(),
            // The compiled bytes and the inserted policy are carried unchanged
            // from the steps that set them to the steps that use them.
            !(event is Compiled) ==> final(flow).compiled_bytes() == old(flow).compiled_bytes(),
            !(event is PolicyCreated) && !(event is Activated) ==> final(flow).created() == old(flow).created(),
            !(event is Compiled) && !(event is PolicyCreated) ==> final(flow).compiled() == old(flow).compiled(),
            event matches WriteEvent::Compiled(Err(f)) ==> write_fails_with(step, compile_failure_view(f)),
            // The policy starts active at version 1.
            event matches WriteEvent::Compiled(Ok(c)) ==> (step matches WriteStep::CreatePolicy(p)
                && p.policy_id == old(flow).policy_id() && p.tenant_id == old(flow).tenant_id()
                && p.environment == old(flow).environment() && p.name == old(flow).name()
                && p.description == old(flow).description() && p.active_version == 1 && p.is_active
                && 0 <= p.created_at < CLOCK_BOUND && p.updated_at == p.created_at
                && final(flow).compiled() == Some(c) && final(flow).compiled_bytes() == c.bytes@
                && final(flow).phase() == WritePhase::AwaitCreated),
            event matches WriteEvent::PolicyCreated(Err(e)) ==> write_fails_with(step, e@),
            event matches WriteEvent::PolicyCreated(Ok(p)) ==> (step matches WriteStep::StoreVersion(pv)
                && is_stored_version(pv, p.policy_id, 1, old(flow).compiled().unwrap(), old(flow).bundle_text(), self.compiler_version_view())
                && final(flow).created() == Some(p) && final(flow).phase() == WritePhase::AwaitStored),
            event matches WriteEvent::VersionStored(Err(e)) ==> write_fails_with(step, e@),
            event matches WriteEvent::VersionStored(Ok(())) ==> (step == WriteStep::<CreatePolicyResponse>::ActivateVersion {
                policy_id: old(flow).created().unwrap().policy_id,
                version: 1,
            } && final(flow).phase() == WritePhase::AwaitActivated),
            event matches WriteEvent::Activated(Err(e)) ==> write_fails_with(step, e@),
            // The answer describes the policy as inserted.
            event matches WriteEvent::Activated(Ok(())) ==> (step matches WriteStep::LoadEngine {
                policy_id,
                version,
                compiled,
            } && policy_id == old(flow).policy_id() && version == 1 && compiled@ == old(flow).compiled_bytes()
                && final(flow).phase() == WritePhase::AwaitEngine && (final(flow).response() matches Some(r)
                && r.policy_id == old(flow).created().unwrap().policy_id && r.name == old(flow).created().unwrap().name
                && r.environment == old(flow).created().unwrap().environment
                && r.description == old(flow).created().unwrap().description
                && r.active_version == old(flow).created().unwrap().active_version
                && r.is_active == old(flow).created().unwrap().is_active
                && r.created_at == old(flow).created().unwrap().created_at)),
            // A failed cache load does not undo the creation.
            event is EngineLoaded ==> step == WriteStep::Done(
                Ok::<CreatePolicyResponse, ServiceError>(old(flow).response().unwrap()),
            ),
    {
        match event {
            WriteEvent::Compiled(r) => match r {
                Err(f) => {
                    flow.phase = WritePhase::Finished;
                    WriteStep::Done(Err(compile_failure_error(f)))
                },
                Ok(c) => {
                    let now = now_seconds();
                    let p = new_policy(
                        flow.policy_id,
                        flow.tenant_id,
                        flow.environment.clone(),
                        flow.name.clone(),
                        match &flow.description {
                            Some(d) => Some(d.clone()),
                            None => None,
                        },
                        now,
                    );
                    flow.compiled_bytes = bytes_copy(&c.bytes);
                    flow.compiled = Some(c);
                    flow.phase = WritePhase::AwaitCreated;
                    WriteStep::CreatePolicy(p)
                },
            },
            WriteEvent::PolicyCreated(r) => match r {
                Err(e) => {
                    flow.phase = WritePhase::Finished;
                    WriteStep::Done(Err(e))
                },
                Ok(p) => {
                    let mut taken: Option<CompiledRules> = None;
                    std::mem::swap(&mut taken, &mut flow.compiled);
                    let c = taken.unwrap();
                    let pv = self.new_policy_version(
                        new_id(),
                        p.policy_id,
                        1,
                        c.rules,
                        flow.bundle_text.as_str(),
                        c.bytes,
                        now_seconds(),
                    );
                    flow.created = Some(p);
                    flow.phase = WritePhase::AwaitStored;
                    WriteStep::StoreVersion(pv)
                },
            },
            WriteEvent::VersionStored(r) => match r {
                Err(e) => {
                    flow.phase = WritePhase::Finished;
                    WriteStep::Done(Err(e))
                },
                Ok(()) => {
                    flow.phase = WritePhase::AwaitActivated;
                    WriteStep::ActivateVersion { policy_id: flow.created.as_ref().unwrap().policy_id, version: 1 }
                },
            },
            WriteEvent::Activated(r) => match r {
                Err(e) => {
                    flow.phase = WritePhase::Finished;
                    WriteStep::Done(Err(e))
                },
                Ok(()) => {
                    let mut taken: Option<Policy> = None;
                    std::mem::swap(&mut taken, &mut flow.created);
                    flow.response = Some(create_policy_response(taken.unwrap()));
                    flow.phase = WritePhase::AwaitEngine;
                    WriteStep::LoadEngine {
                        policy_id: flow.policy_id,
                        version: 1,
                        compiled: bytes_copy(&flow.compiled_bytes),
                    }
                },
            },
            WriteEvent::EngineLoaded(_) => {
                let mut taken: Option<CreatePolicyResponse> = None;
                std::mem::swap(&mut taken, &mut flow.response);
                flow.phase = WritePhase::Finished;
                WriteStep::Done(Ok(taken.unwrap()))
            },
            WriteEvent::PolicyFound(_) | WriteEvent::LatestVersion(_) => vstd::pervasive::unreached(),
        }
    }
}

/// A rule replacement or recompilation in progress: both store the version
/// after the latest one of an existing policy.
pub struct VersionFlow {
    phase: WritePhase,
    policy_id: u128,
    version: i64,
    bundle_text: String,
    compiled: Option<CompiledRules>,
    compiled_bytes: Vec<u8>,
}

impl VersionFlow {
    pub closed spec fn phase(&self) -> WritePhase {
        self.phase
    }

    /// The policy whose rules change.
    pub closed spec fn policy_id(&self) -> u128 {
        self.policy_id
    }

    /// The number of the version being stored.
    pub closed spec fn version(&self) -> i64 {
        self.version
    }

    /// The stored JSON text of the rule bundle.
    pub closed spec fn bundle_text(&self) -> Seq<char> {
        self.bundle_text@
    }

    /// The compiled rules, until they are stored.
    pub closed spec fn compiled(&self) -> Option<CompiledRules> {
        self.compiled
    }

    /// The compiled bytes the engine is loaded from.
    pub closed spec fn compiled_bytes(&self) -> Seq<u8> {
        self.compiled_bytes@
    }

    /// Whether `event` answers the plan's last step.
    pub open spec fn accepts(&self, event: WriteEvent) -> bool {
        write_answers(self.phase(), event)
    }
}

/// What a rule replacement holds in each phase: the policy is found, the
/// version number chosen, then the rules compiled.
pub open spec fn update_wf(flow: VersionFlow) -> bool {
    match flow.phase() {
        WritePhase::AwaitStored => flow.compiled() is None,
        WritePhase::AwaitCreated => false,
        _ => true,
    }
}

/// What a recompilation holds in each phase: the rules are compiled, then
/// the version number chosen.
pub open spec fn recompile_wf(flow: VersionFlow) -> bool {
    match flow.phase() {
        WritePhase::AwaitLatest => flow.compiled() is Some,
        WritePhase::AwaitPolicy | WritePhase::AwaitCreated => false,
        _ => true,
    }
}

impl<E> PolicyApplication<E> {
    /// Start replacing the rules of `policy_id`, which must exist, with `rules`.
    pub fn begin_update_policy_rules(&self, policy_id: u128, rules: &Vec<PolicyRule>) -> (r: (VersionFlow, WriteStep<UpdatePolicyRulesResponse>))
        ensures
            update_wf(r.0),
            r.0.phase() == WritePhase::AwaitPolicy,
            r.0.policy_id() == policy_id,
            r.0.bundle_text() == bundle_json(rules@),
            r.1 == (WriteStep::<UpdatePolicyRulesResponse>::FindPolicy { policy_id }),
    {
        (
            VersionFlow {
                phase: WritePhase::AwaitPolicy,
                policy_id,
                version: 0,
                bundle_text: bundle_text(rules),
                compiled: None,
                compiled_bytes: Vec::new(),
            },
            WriteStep::FindPolicy { policy_id },
        )
    }

    /// Advance a rule replacement with the answer to its last step.
    pub fn step_update_policy_rules(&self, flow: &mut VersionFlow, event: WriteEvent) -> (step: WriteStep<UpdatePolicyRulesResponse>)
        requires
            update_wf(*old(flow)),
            old(flow).accepts(event),
        ensures
            update_wf(*final(flow)),
            step is Done <==> final(flow).phase() == WritePhase::Finished,
            final(flow).policy_id() == old(flow).policy_id(),
            // The chosen version number and the compiled bytes are carried
            // unchanged to the steps that store, activate and load them.
            final(flow).bundle_text() == old(flow).bundle_text(),
            !(event is LatestVersion) ==> final(flow).version() == old(flow).version(),
            !(event is Compiled) ==> final(flow).compiled_bytes() == old(flow).compiled_bytes(),
            event matches WriteEvent::PolicyFound(Err(e)) ==> write_fails_with(step, e@),
            event matches WriteEvent::PolicyFound(Ok(None)) ==> write_fails_with(
                step,
                (ErrorKind::NotFoundError, "Policy "@ + uuid_text(old(flow).policy_id()) + " not found"@),
            ),
            event matches WriteEvent::PolicyFound(Ok(Some(_))) ==> (step == WriteStep::<UpdatePolicyRulesResponse>::GetLatestVersion {
                policy_id: old(flow).policy_id(),
            } && final(flow).phase() == WritePhase::AwaitLatest),
            event matches WriteEvent::LatestVersion(Err(e)) ==> write_fails_with(step, e@),
            event matches WriteEvent::LatestVersion(Ok(l)) ==> ((step matches WriteStep::Compile { bundle_text }
                && bundle_text@ == old(flow).bundle_text())
                && final(flow).version() == following_version(l) && final(flow).phase() == WritePhase::AwaitCompiled),
            event matches WriteEvent::Compiled(Err(f)) ==> write_fails_with(step, compile_failure_view(f)),
            event matches WriteEvent::Compiled(Ok(c)) ==> (step matches WriteStep::StoreVersion(pv)
                && is_stored_version(pv, old(flow).policy_id(), old(flow).version() as int, c, old(flow).bundle_text(), self.compiler_version_view())
                && final(flow).version() == old(flow).version() && final(flow).compiled_bytes() == c.bytes@
                && final(flow).phase() == WritePhase::AwaitStored),
            event matches WriteEvent::VersionStored(Err(e)) ==> write_fails_with(step, e@),
            event matches WriteEvent::VersionStored(Ok(())) ==> (step == WriteStep::<UpdatePolicyRulesResponse>::ActivateVersion {
                policy_id: old(flow).policy_id(),
                version: old(flow).version(),
            } && final(flow).version() == old(flow).version() && final(flow).phase() == WritePhase::AwaitActivated),
            event matches WriteEvent::Activated(Err(e)) ==> write_fails_with(step, e@),
            event matches WriteEvent::Activated(Ok(())) ==> (step matches WriteStep::LoadEngine {
                policy_id,
                version,
                compiled,
            } && policy_id == old(flow).policy_id() && version == old(flow).version()
                && compiled@ == old(flow).compiled_bytes() && final(flow).version() == old(flow).version()
                && final(flow).phase() == WritePhase::AwaitEngine),
            // A failed cache load does not undo the activation.
            event is EngineLoaded ==> (step matches WriteStep::Done(Ok(r)) && r.policy_id == old(flow).policy_id()
                && r.activated_version == old(flow).version()),
    {
        match event {
            WriteEvent::PolicyFound(r) => match r {
                Err(e) => Self::finish_version(flow, e),
                Ok(None) => Self::finish_version(flow, policy_not_found(flow.policy_id)),
                Ok(Some(_)) => {
                    flow.phase = WritePhase::AwaitLatest;
                    WriteStep::GetLatestVersion { policy_id: flow.policy_id }
                },
            },
            WriteEvent::LatestVersion(r) => match r {
                Err(e) => Self::finish_version(flow, e),
                Ok(l) => {
                    flow.version = next_version(l);
                    flow.phase = WritePhase::AwaitCompiled;
                    WriteStep::Compile { bundle_text: flow.bundle_text.clone() }
                },
            },
            WriteEvent::Compiled(r) => match r {
                Err(f) => Self::finish_version(flow, compile_failure_error(f)),
                Ok(c) => {
                    flow.compiled_bytes = bytes_copy(&c.bytes);
                    let pv = self.new_policy_version(
                        new_id(),
                        flow.policy_id,
                        flow.version,
                        c.rules,
                        flow.bundle_text.as_str(),
                        c.bytes,
                        now_seconds(),
                    );
                    flow.compiled = None;
                    flow.phase = WritePhase::AwaitStored;
                    WriteStep::StoreVersion(pv)
                },
            },
            WriteEvent::VersionStored(r) => match r {
                Err(e) => Self::finish_version(flow, e),
                Ok(()) => {
                    flow.phase = WritePhase::AwaitActivated;
                    WriteStep::ActivateVersion { policy_id: flow.policy_id, version: flow.version }
                },
            },
            WriteEvent::Activated(r) => match r {
                Err(e) => Self::finish_version(flow, e),
                Ok(()) => {
                    flow.phase = WritePhase::AwaitEngine;
                    WriteStep::LoadEngine {
                        policy_id: flow.policy_id,
                        version: flow.version,
                        compiled: bytes_copy(&flow.compiled_bytes),
                    }
                },
            },
            WriteEvent::EngineLoaded(_) => {
                flow.phase = WritePhase::Finished;
                WriteStep::Done(Ok(Self::update_policy_rules_response(flow.policy_id, flow.version)))
            },
            WriteEvent::PolicyCreated(_) => vstd::pervasive::unreached(),
        }
    }

    /// Start recompiling the stored rule bundle of `policy_id` and activating
    /// the result as a new version; the bundle, whose stored JSON text is
    /// `bundle_text`, is parsed and compiled first.
    pub fn begin_compile_and_activate(&self, policy_id: u128, bundle_text: String) -> (r: (VersionFlow, WriteStep<i64>))
        ensures
            recompile_wf(r.0),
            r.0.phase() == WritePhase::AwaitCompiled,
            r.0.policy_id() == policy_id,
            r.0.bundle_text() == bundle_text@,
            r.1 matches WriteStep::Compile { bundle_text: t } && t@ == bundle_text@,
    {
        let handed = bundle_text.clone();
        (
            VersionFlow {
                phase: WritePhase::AwaitCompiled,
                policy_id,
                version: 0,
                bundle_text,
                compiled: None,
                compiled_bytes: Vec::new(),
            },
            WriteStep::Compile { bundle_text: handed },
        )
    }

    /// Advance a recompilation with the answer to its last step; it answers
    /// with the activated version. Here a failed engine load is an error.
    pub fn step_compile_and_activate(&self, flow: &mut VersionFlow, event: WriteEvent) -> (step: WriteStep<i64>)
        requires
            recompile_wf(*old(flow)),
            old(flow).accepts(event),
        ensures
            recompile_wf(*final(flow)),
            step is Done <==> final(flow).phase() == WritePhase::Finished,
            final(flow).policy_id() == old(flow).policy_id(),
            final(flow).bundle_text() == old(flow).bundle_text(),
            !(event is LatestVersion) ==> final(flow).version() == old(flow).version(),
            !(event is Compiled) ==> final(flow).compiled_bytes() == old(flow).compiled_bytes(),
            event matches WriteEvent::Compiled(Err(f)) ==> write_fails_with(step, compile_failure_view(f)),
            event matches WriteEvent::Compiled(Ok(c)) ==> (step == WriteStep::<i64>::GetLatestVersion {
                policy_id: old(flow).policy_id(),
            } && final(flow).compiled() == Some(c) && final(flow).compiled_bytes() == c.bytes@
                && final(flow).phase() == WritePhase::AwaitLatest),
            event matches WriteEvent::LatestVersion(Err(e)) ==> write_fails_with(step, e@),
            event matches WriteEvent::LatestVersion(Ok(l)) ==> (step matches WriteStep::StoreVersion(pv)
                && is_stored_version(pv, old(flow).policy_id(), following_version(l), old(flow).compiled().unwrap(), old(flow).bundle_text(), self.compiler_version_view())
                && final(flow).version() == following_version(l) && final(flow).compiled_bytes() == old(flow).compiled_bytes()
                && final(flow).phase() == WritePhase::AwaitStored),
            event matches WriteEvent::VersionStored(Err(e)) ==> write_fails_with(step, e@),
            event matches WriteEvent::VersionStored(Ok(())) ==> (step == WriteStep::<i64>::ActivateVersion {
                policy_id: old(flow).policy_id(),
                version: old(flow).version(),
            } && final(flow).version() == old(flow).version() && final(flow).phase() == WritePhase::AwaitActivated),
            event matches WriteEvent::Activated(Err(e)) ==> write_fails_with(step, e@),
            event matches WriteEvent::Activated(Ok(())) ==> (step matches WriteStep::LoadEngine {
                policy_id,
                version,
                compiled,
            } && policy_id == old(flow).policy_id() && version == old(flow).version()
                && compiled@ == old(flow).compiled_bytes() && final(flow).version() == old(flow).version()
                && final(flow).phase() == WritePhase::AwaitEngine),
            event matches WriteEvent::EngineLoaded(Err(m)) ==> write_fails_with(
                step,
                (ErrorKind::InternalError, "Engine load error: "@ + m@),
            ),
            event matches WriteEvent::EngineLoaded(Ok(())) ==> step == WriteStep::Done(Ok::<i64, ServiceError>(old(flow).version())),
    {
        match event {
            WriteEvent::Compiled(r) => match r {
                Err(f) => Self::finish_version(flow, compile_failure_error(f)),
                Ok(c) => {
                    flow.compiled_bytes = bytes_copy(&c.bytes);
                    flow.compiled = Some(c);
                    flow.phase = WritePhase::AwaitLatest;
                    WriteStep::GetLatestVersion { policy_id: flow.policy_id }
                },
            },
            WriteEvent::LatestVersion(r) => match r {
                Err(e) => Self::finish_version(flow, e),
                Ok(l) => {
                    let version = next_version(l);
                    let mut taken: Option<CompiledRules> = None;
                    std::mem::swap(&mut taken, &mut flow.compiled);
                    let c = taken.unwrap();
                    let pv = self.new_policy_version(
                        new_id(),
                        flow.policy_id,
                        version,
                        c.rules,
                        flow.bundle_text.as_str(),
                        c.bytes,
                        now_seconds(),
                    );
                    flow.version = version;
                    flow.phase = WritePhase::AwaitStored;
                    WriteStep::StoreVersion(pv)
                },
            },
            WriteEvent::VersionStored(r) => match r {
                Err(e) => Self::finish_version(flow, e),
                Ok(()) => {
                    flow.phase = WritePhase::AwaitActivated;
                    WriteStep::ActivateVersion { policy_id: flow.policy_id, version: flow.version }
                },
            },
            WriteEvent::Activated(r) => match r {
                Err(e) => Self::finish_version(flow, e),
                Ok(()) => {
                    flow.phase = WritePhase::AwaitEngine;
                    WriteStep::LoadEngine {
                        policy_id: flow.policy_id,
                        version: flow.version,
                        compiled: bytes_copy(&flow.compiled_bytes),
                    }
                },
            },
            WriteEvent::EngineLoaded(r) => match r {
                Err(m) => Self::finish_version(flow, engine_load_error(m.as_str())),
                Ok(()) => {
                    flow.phase = WritePhase::Finished;
                    WriteStep::Done(Ok(flow.version))
                },
            },
            WriteEvent::PolicyFound(_) | WriteEvent::PolicyCreated(_) => vstd::pervasive::unreached(),
        }
    }

    /// End a rule replacement or recompilation with `e`.
    fn finish_version<R>(flow: &mut VersionFlow, e: ServiceError) -> (step: WriteStep<R>)
        ensures
            final(flow).phase() == WritePhase::Finished,
            final(flow).policy_id() == old(flow).policy_id(),
            final(flow).version() == old(flow).version(),
            final(flow).compiled_bytes() == old(flow).compiled_bytes(),
            final(flow).bundle_text() == old(flow).bundle_text(),
            write_fails_with(step, e@),
    {
        flow.phase = WritePhase::Finished;
        WriteStep::Done(Err(e))
    }
}

/// Every write stores a version numbered above the latest one stored; the
/// first is version 1.
pub proof fn lemma_versions_only_grow(latest: Option<i64>)
    ensures
        latest is None ==> following_version(latest) == 1,
        latest matches Some(l) ==> following_version(latest) == l + 1,
{
}

/// Once a write has loaded the engine of the version it activated, questions
/// naming that policy, while that version is the active one, are answered by
/// that version's engine after the policy's record is read, with no rule read.
pub proof fn lemma_activated_version_is_served(
    cache: Map<u128, i64>,
    policy_id: u128,
    version: i64,
    allowed: bool,
)
    ensures
        authz_first(Some(policy_id), cache.insert(policy_id, version)).1
            == (AuthzActionView::FetchPolicy { policy_id }),
        named_next(policy_id, AuthzPhase::AwaitPolicy, cache.insert(policy_id, version), AuthzEventView::PolicyFetched(Ok(Some(version))))
            == (AuthzPhase::FastEval { version }, AuthzActionView::Evaluate { policy_id }),
        named_next(policy_id, AuthzPhase::FastEval { version }, cache.insert(policy_id, version), AuthzEventView::Evaluated(allowed)).1
            == AuthzActionView::Done(Ok((allowed, version))),
{
}

} // verus!
