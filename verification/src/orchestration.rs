//! When an orchestration rule fires: what its worker remembers, whether its
//! condition is evaluated, and what becomes of the evidence.

use std::collections::HashMap;
use vstd::prelude::*;
use crate::error::{self, EnvelopeModel, ErrorCode, ErrorEnvelope};
use crate::json::{self, Json, JsonModel, JsonObject};
use crate::text;

verus! {

#[derive(Clone, Copy, Debug, PartialEq, Eq, Structural)]
pub enum OrchestrationRuleStatus {
    Armed,
    Paused,
    Fired,
    Blocked,
    Degraded,
    Expired,
}

#[derive(Clone, Copy, Debug, PartialEq, Eq, Structural)]
pub enum OrchestrationMode {
    Once,
    Repeat,
}

#[derive(Clone, Copy, Debug, PartialEq, Eq, Structural)]
pub enum TriggerConditionKind {
    TextPresent,
    LocatorPresent,
    UrlMatch,
    Readiness,
    NetworkRequest,
    StorageValue,
}

/// What was seen when a condition held.
#[derive(Debug)]
pub struct TriggerEvidenceInfo {
    pub summary: String,
    pub fingerprint: Option<String>,
}

/// Where a rule looks, or acts.
#[derive(Debug)]
pub struct OrchestrationAddressInfo {
    pub session_id: String,
    pub session_name: String,
    pub tab_index: Option<u32>,
    pub tab_target_id: Option<String>,
    pub frame_id: Option<String>,
}

/// The last outcome of a rule.
#[derive(Debug)]
pub struct OrchestrationResultInfo {
    pub rule_id: u32,
    pub status: OrchestrationRuleStatus,
    pub next_status: OrchestrationRuleStatus,
    pub summary: String,
    pub committed_steps: u32,
    pub total_steps: u32,
    /// What came of each step.
    pub steps: Vec<Json>,
    pub cooldown_until_ms: Option<u64>,
    pub error_code: Option<ErrorCode>,
    pub reason: Option<String>,
    pub error_context: Option<Json>,
}

/// How often a rule fires.
#[derive(Clone, Copy, Debug, PartialEq, Eq, Structural)]
pub struct OrchestrationExecutionPolicyInfo {
    pub cooldown_ms: u64,
    pub max_retries: u32,
    pub cooldown_until_ms: Option<u64>,
}

/// What a rule waits for.
#[derive(Debug)]
pub struct TriggerConditionSpec {
    pub kind: TriggerConditionKind,
    pub locator: Option<Json>,
    pub text: Option<String>,
    pub url_pattern: Option<String>,
    pub readiness_state: Option<String>,
    pub method: Option<String>,
    pub status_code: Option<u16>,
    pub storage_area: Option<String>,
    pub key: Option<String>,
    pub value: Option<String>,
}

#[derive(Clone, Copy, Debug, PartialEq, Eq, Structural)]
pub enum TriggerActionKind {
    BrowserCommand,
    Workflow,
    Provider,
    Script,
    Webhook,
}

/// What a rule does.
#[derive(Debug)]
pub struct TriggerActionSpec {
    pub kind: TriggerActionKind,
    pub command: Option<String>,
    pub payload: Option<Json>,
}

/// A rule.
#[derive(Debug)]
pub struct OrchestrationRuleInfo {
    pub id: u32,
    pub status: OrchestrationRuleStatus,
    pub lifecycle_generation: u64,
    pub source: OrchestrationAddressInfo,
    pub target: OrchestrationAddressInfo,
    pub mode: OrchestrationMode,
    pub execution_policy: OrchestrationExecutionPolicyInfo,
    pub condition: TriggerConditionSpec,
    pub actions: Vec<TriggerActionSpec>,
    pub correlation_key: String,
    pub idempotency_key: String,
    pub unavailable_reason: Option<String>,
    pub last_condition_evidence: Option<TriggerEvidenceInfo>,
    pub last_result: Option<OrchestrationResultInfo>,
}

/// The position in the network log from which a rule's condition counts.
#[derive(Clone, Copy, Debug, PartialEq, Eq, Structural)]
pub struct NetworkRequestBaseline {
    pub cursor: u64,
    pub observed_ingress_drop_count: u64,
    pub primed: bool,
}

/// How far a rule has read the network log.
#[derive(Clone, Copy, Debug, PartialEq, Eq, Structural)]
pub struct OrchestrationNetworkProgress {
    pub next_cursor: u64,
    pub observed_drop_count: u64,
}

/// What a worker remembers of a rule.
#[derive(Debug)]
pub struct OrchestrationWorkerEntry {
    pub last_status: OrchestrationRuleStatus,
    pub network_cursor: u64,
    pub network_cursor_primed: bool,
    pub observatory_drop_count: u64,
    pub latched_evidence_key: Option<String>,
}

/// What a worker remembers of a rule, over texts.
#[verifier::ext_equal]
pub struct WorkerModel {
    pub last_status: OrchestrationRuleStatus,
    pub network_cursor: u64,
    pub network_cursor_primed: bool,
    pub observatory_drop_count: u64,
    pub latched_evidence_key: Option<Seq<char>>,
}

impl View for OrchestrationWorkerEntry {
    type V = WorkerModel;

    open spec fn view(&self) -> WorkerModel {
        WorkerModel {
            last_status: self.last_status,
            network_cursor: self.network_cursor,
            network_cursor_primed: self.network_cursor_primed,
            observatory_drop_count: self.observatory_drop_count,
            latched_evidence_key: text::opt_text(self.latched_evidence_key),
        }
    }
}

/// The key of a piece of evidence: its summary, and its fingerprint where it
/// has one.
pub open spec fn evidence_key(evidence: TriggerEvidenceInfo) -> Seq<char> {
    match text::opt_text(evidence.fingerprint) {
        Some(fingerprint) => if fingerprint.len() > 0 {
            evidence.summary@ + "::"@ + fingerprint
        } else {
            evidence.summary@
        },
        None => evidence.summary@,
    }
}

pub fn orchestration_evidence_key(evidence: &TriggerEvidenceInfo) -> (r: String)
    ensures
        r@ == evidence_key(*evidence),
{
    if let Some(fingerprint) = &evidence.fingerprint {
        if !fingerprint.as_str().is_empty() {
            return text::cat3(evidence.summary.as_str(), "::", fingerprint.as_str());
        }
    }
    evidence.summary.clone()
}

/// The key under which a worker's command runs: that of the evidence, whether
/// or not the condition was checked again after the queue.
pub fn orchestration_worker_command_identity_key(
    requires_revalidation_after_queue: bool,
    evidence_key: &str,
) -> (r: Option<&str>)
    ensures
        json::opt_str_text(r) == Some(evidence_key@),
{
    let _ = requires_revalidation_after_queue;
    Some(evidence_key)
}

/// The evidence of the rule is remembered, so that it fires once for it.
pub open spec fn latches(rule: OrchestrationRuleInfo) -> bool {
    &&& rule.mode == OrchestrationMode::Repeat
    &&& rule.status == OrchestrationRuleStatus::Armed
    &&& rule.condition.kind != TriggerConditionKind::NetworkRequest
}

pub fn should_persist_orchestration_evidence_latch(rule: &OrchestrationRuleInfo) -> (r: bool)
    ensures
        r == latches(*rule),
{
    matches!(rule.mode, OrchestrationMode::Repeat) && matches!(
        rule.status,
        OrchestrationRuleStatus::Armed
    ) && !matches!(rule.condition.kind, TriggerConditionKind::NetworkRequest)
}

/// The result leaves the evidence remembered: the rule fired and is armed
/// again, or it waits out its cooldown.
pub open spec fn retains(rule: OrchestrationRuleInfo, result: OrchestrationResultInfo) -> bool {
    &&& latches(rule)
    &&& result.next_status == OrchestrationRuleStatus::Armed
    &&& result.status == OrchestrationRuleStatus::Fired || (result.status
        == OrchestrationRuleStatus::Blocked && text::opt_text(result.reason) == Some(
        "orchestration_cooldown_active"@,
    ))
}

pub fn should_retain_orchestration_evidence_latch(
    rule: &OrchestrationRuleInfo,
    result: &OrchestrationResultInfo,
) -> (r: bool)
    ensures
        r == retains(*rule, *result),
{
    let cooling = match &result.reason {
        Some(reason) => text::str_eq(reason.as_str(), "orchestration_cooldown_active"),
        None => false,
    };
    should_persist_orchestration_evidence_latch(rule) && matches!(
        result.next_status,
        OrchestrationRuleStatus::Armed
    ) && (matches!(result.status, OrchestrationRuleStatus::Fired) || (matches!(
        result.status,
        OrchestrationRuleStatus::Blocked
    ) && cooling))
}

/// The key that the recorded outcome of a rule leaves remembered.
pub open spec fn persisted_key(rule: OrchestrationRuleInfo) -> Option<Seq<char>> {
    match (rule.last_result, rule.last_condition_evidence) {
        (Some(result), Some(evidence)) => if retains(rule, result) {
            Some(evidence_key(evidence))
        } else {
            None
        },
        _ => None,
    }
}

pub fn persisted_latched_orchestration_evidence_key(rule: &OrchestrationRuleInfo) -> (r: Option<
    String,
>)
    ensures
        text::opt_text(r) == persisted_key(*rule),
{
    match &rule.last_result {
        Some(result) => if should_retain_orchestration_evidence_latch(rule, result) {
            match &rule.last_condition_evidence {
                Some(evidence) => Some(orchestration_evidence_key(evidence)),
                None => None,
            }
        } else {
            None
        },
        None => None,
    }
}

/// The rule reads the network log, and must know from where.
pub open spec fn baseline_required(rule: OrchestrationRuleInfo) -> bool {
    rule.condition.kind == TriggerConditionKind::NetworkRequest && rule.status
        == OrchestrationRuleStatus::Armed
}

/// What a worker remembers of a rule that it has not seen before.
pub open spec fn first_entry(
    rule: OrchestrationRuleInfo,
    baseline: Option<NetworkRequestBaseline>,
) -> WorkerModel {
    WorkerModel {
        last_status: rule.status,
        network_cursor: match baseline {
            Some(b) => b.cursor,
            None => 0,
        },
        network_cursor_primed: match baseline {
            Some(b) => b.primed,
            None => !baseline_required(rule),
        },
        observatory_drop_count: match baseline {
            Some(b) => b.observed_ingress_drop_count,
            None => 0,
        },
        latched_evidence_key: persisted_key(rule),
    }
}

/// What a worker remembers of a rule that has just been armed (again): it
/// starts from the committed baseline, and forgets evidence that the rule's
/// outcome does not keep.
pub open spec fn rearmed(
    entry: WorkerModel,
    rule: OrchestrationRuleInfo,
    baseline: Option<NetworkRequestBaseline>,
) -> WorkerModel {
    let key = persisted_key(rule);
    match baseline {
        Some(b) => WorkerModel {
            network_cursor: b.cursor,
            network_cursor_primed: b.primed,
            observatory_drop_count: b.observed_ingress_drop_count,
            latched_evidence_key: key,
            ..entry
        },
        None => if baseline_required(rule) {
            WorkerModel {
                network_cursor: 0,
                network_cursor_primed: false,
                observatory_drop_count: 0,
                latched_evidence_key: key,
                ..entry
            }
        } else {
            WorkerModel { network_cursor_primed: true, latched_evidence_key: key, ..entry }
        },
    }
}

/// What a worker remembers of a rule after seeing it in its present state.
pub open spec fn reconciled_entry(
    prior: Option<WorkerModel>,
    rule: OrchestrationRuleInfo,
    baseline: Option<NetworkRequestBaseline>,
) -> WorkerModel {
    let entry = match prior {
        Some(entry) => entry,
        None => first_entry(rule, baseline),
    };
    let entry = if entry.last_status != OrchestrationRuleStatus::Armed && rule.status
        == OrchestrationRuleStatus::Armed {
        rearmed(entry, rule, baseline)
    } else {
        entry
    };
    WorkerModel {
        last_status: rule.status,
        network_cursor_primed: entry.network_cursor_primed && !(baseline_required(rule)
            && baseline is None),
        latched_evidence_key: match entry.latched_evidence_key {
            Some(key) => Some(key),
            None => persisted_key(rule),
        },
        ..entry
    }
}

/// What a worker remembers, by the rules' numbers.
pub open spec fn worker_models(m: Map<u32, OrchestrationWorkerEntry>) -> Map<u32, WorkerModel> {
    m.map_values(|e: OrchestrationWorkerEntry| e@)
}

/// What a worker remembers after seeing all rules: one entry for each number
/// that a rule has, and no other.
pub open spec fn reconciled(
    before: Map<u32, WorkerModel>,
    rules: Seq<OrchestrationRuleInfo>,
    baselines: Map<u32, NetworkRequestBaseline>,
) -> Map<u32, WorkerModel>
    decreases rules.len(),
{
    if rules.len() == 0 {
        Map::empty()
    } else {
        let done = reconciled(before, rules.drop_last(), baselines);
        let rule = rules.last();
        let prior = match done.get(rule.id) {
            Some(entry) => Some(entry),
            None => before.get(rule.id),
        };
        done.insert(rule.id, reconciled_entry(prior, rule, baselines.get(rule.id)))
    }
}

fn reconcile_entry(
    prior: Option<OrchestrationWorkerEntry>,
    rule: &OrchestrationRuleInfo,
    committed_baseline: Option<NetworkRequestBaseline>,
) -> (r: OrchestrationWorkerEntry)
    ensures
        r@ == reconciled_entry(
            match prior {
                Some(e) => Some(e@),
                None => None,
            },
            *rule,
            committed_baseline,
        ),
{
    let baseline_required = matches!(rule.condition.kind, TriggerConditionKind::NetworkRequest)
        && matches!(rule.status, OrchestrationRuleStatus::Armed);
    let mut entry = match prior {
        Some(entry) => entry,
        None => OrchestrationWorkerEntry {
            last_status: rule.status,
            network_cursor: match committed_baseline {
                Some(b) => b.cursor,
                None => 0,
            },
            network_cursor_primed: match committed_baseline {
                Some(b) => b.primed,
                None => !baseline_required,
            },
            observatory_drop_count: match committed_baseline {
                Some(b) => b.observed_ingress_drop_count,
                None => 0,
            },
            latched_evidence_key: persisted_latched_orchestration_evidence_key(rule),
        },
    };
    if !matches!(entry.last_status, OrchestrationRuleStatus::Armed) && matches!(
        rule.status,
        OrchestrationRuleStatus::Armed
    ) {
        match committed_baseline {
            Some(b) => {
                entry.network_cursor = b.cursor;
                entry.network_cursor_primed = b.primed;
                entry.observatory_drop_count = b.observed_ingress_drop_count;
            },
            None => if baseline_required {
                entry.network_cursor = 0;
                entry.network_cursor_primed = false;
                entry.observatory_drop_count = 0;
            } else {
                entry.network_cursor_primed = true;
            },
        }
        entry.latched_evidence_key = persisted_latched_orchestration_evidence_key(rule);
    }
    if baseline_required && committed_baseline.is_none() {
        entry.network_cursor_primed = false;
    }
    entry.last_status = rule.status;
    if entry.latched_evidence_key.is_none() {
        entry.latched_evidence_key = persisted_latched_orchestration_evidence_key(rule);
    }
    entry
}

/// Brings what a worker remembers in line with the live rules. Rules that are
/// gone are forgotten.
pub fn reconcile_worker_state(
    worker_state: &mut HashMap<u32, OrchestrationWorkerEntry>,
    rules: &[OrchestrationRuleInfo],
    committed_baselines: &HashMap<u32, NetworkRequestBaseline>,
)
    ensures
        worker_models(final(worker_state)@) == reconciled(
            worker_models(old(worker_state)@),
            rules@,
            committed_baselines@,
        ),
{
    broadcast use vstd::std_specs::hash::group_hash_axioms;

    let mut live: HashMap<u32, OrchestrationWorkerEntry> = HashMap::new();
    let ghost before = worker_models(worker_state@);
    let mut i: usize = 0;
    assert(worker_models(live@) =~= Map::empty());
    while i < rules.len()
        invariant
            i <= rules@.len(),
            before == worker_models(old(worker_state)@),
            worker_models(live@) == reconciled(
                before,
                rules@.take(i as int),
                committed_baselines@,
            ),
            forall|id: u32|
                !live@.dom().contains(id) ==> worker_models(worker_state@).get(id)
                    == #[trigger] before.get(id),
        decreases rules@.len() - i,
    {
        broadcast use vstd::std_specs::hash::group_hash_axioms;

        let rule = &rules[i];
        let ghost done = live@;
        let prior = if live.contains_key(&rule.id) {
            live.remove(&rule.id)
        } else {
            worker_state.remove(&rule.id)
        };
        let committed_baseline = match committed_baselines.get(&rule.id) {
            Some(baseline) => Some(*baseline),
            None => None,
        };
        let entry = reconcile_entry(prior, rule, committed_baseline);
        live.insert(rule.id, entry);
        proof {
            assert(rules@.take(i + 1).drop_last() =~= rules@.take(i as int));
            assert(worker_models(live@) =~= worker_models(done).insert(rule.id, entry@));
            if !done.dom().contains(rule.id) {
                assert(before.get(rule.id) == match prior {
                    Some(e) => Some(e@),
                    None => None,
                });
            }
        }
        i += 1;
    }
    assert(rules@.take(i as int) =~= rules@);
    *worker_state = live;
}

/// What a worker remembers once a rule's reading of the network log is
/// committed.
pub open spec fn progressed(
    entry: WorkerModel,
    progress: Option<OrchestrationNetworkProgress>,
) -> WorkerModel {
    match progress {
        Some(p) => WorkerModel {
            network_cursor: p.next_cursor,
            network_cursor_primed: true,
            observatory_drop_count: p.observed_drop_count,
            ..entry
        },
        None => entry,
    }
}

pub fn commit_orchestration_network_progress(
    worker: &mut OrchestrationWorkerEntry,
    progress: Option<OrchestrationNetworkProgress>,
)
    ensures
        final(worker)@ == progressed(old(worker)@, progress),
{
    if let Some(progress) = progress {
        worker.network_cursor = progress.next_cursor;
        worker.network_cursor_primed = true;
        worker.observatory_drop_count = progress.observed_drop_count;
    }
}

/// Whether the evidence is the one that the rule has fired for already. The
/// network log counts as read all the same.
pub fn skip_latched_orchestration_evidence(
    worker: &mut OrchestrationWorkerEntry,
    evidence_key: &str,
    network_progress: Option<OrchestrationNetworkProgress>,
) -> (r: bool)
    ensures
        r == (old(worker)@.latched_evidence_key == Some(evidence_key@)),
        final(worker)@ == (if r {
            progressed(old(worker)@, network_progress)
        } else {
            old(worker)@
        }),
{
    let latched = match &worker.latched_evidence_key {
        Some(latched) => text::str_eq(latched.as_str(), evidence_key),
        None => false,
    };
    if latched {
        commit_orchestration_network_progress(worker, network_progress);
    }
    latched
}

/// `std::time::SystemTime::elapsed` since the Unix epoch, in milliseconds, or
/// nothing where the clock stands before it. What the clock says is not
/// stated.
#[verifier::external_body]
fn epoch_elapsed_millis() -> (r: Option<u128>)
{
    match std::time::UNIX_EPOCH.elapsed() {
        Ok(duration) => Some(duration.as_millis()),
        Err(_) => None,
    }
}

/// The clock's reading in 64 bits; a clock before the epoch reads zero.
pub open spec fn reading(elapsed_millis: Option<u128>) -> u64 {
    match elapsed_millis {
        Some(millis) => millis as u64,
        None => 0,
    }
}

/// The clock's reading in 64 bits; a clock before the epoch reads zero.
pub fn clock_reading(elapsed_millis: Option<u128>) -> (r: u64)
    ensures
        r == reading(elapsed_millis),
{
    match elapsed_millis {
        Some(millis) => #[verifier::truncate] (millis as u64),
        None => 0,
    }
}

/// The time of day, in milliseconds since the Unix epoch. Which time it is, is
/// not stated: `clock_reading` says how the clock is read.
pub fn current_time_ms() -> (r: u64) {
    let elapsed = epoch_elapsed_millis();
    clock_reading(elapsed)
}

/// The rule is still cooling down at the given time.
pub open spec fn cooling(rule: OrchestrationRuleInfo, now_ms: u64) -> bool {
    rule.execution_policy.cooldown_until_ms matches Some(deadline) && now_ms < deadline
}

/// Whether the rule is still cooling down at the given time.
pub fn rule_in_cooldown_at(rule: &OrchestrationRuleInfo, now_ms: u64) -> (r: bool)
    ensures
        r == cooling(*rule, now_ms),
{
    match rule.execution_policy.cooldown_until_ms {
        Some(deadline) => now_ms < deadline,
        None => false,
    }
}

/// Whether the rule is still cooling down. `rule_in_cooldown_at` says what is
/// answered at each time; a rule without a deadline never cools down.
pub fn orchestration_rule_in_cooldown(rule: &OrchestrationRuleInfo) -> (r: bool)
    ensures
        rule.execution_policy.cooldown_until_ms is None ==> !r,
        rule.execution_policy.cooldown_until_ms == Some(0u64) ==> !r,
{
    let now_ms: u64 = current_time_ms();
    rule_in_cooldown_at(rule, now_ms)
}

/// Why a condition could not be evaluated.
pub open spec fn failure(
    code: ErrorCode,
    message: Seq<char>,
    context: Map<Seq<char>, JsonModel>,
) -> EnvelopeModel {
    EnvelopeModel {
        code,
        message,
        suggestion: Seq::empty(),
        context: Some(JsonModel::Object(context)),
    }
}

fn failure_envelope(code: ErrorCode, message: String, context: JsonObject) -> (r: ErrorEnvelope)
    ensures
        r@ == failure(code, message@, context@),
{
    ErrorEnvelope {
        code,
        message,
        suggestion: String::new(),
        context: Some(Json::Object(context)),
    }
}

/// A session that a rule may look into.
#[derive(Debug)]
pub struct OrchestrationSessionInfo {
    pub session_id: String,
    pub session_name: String,
    /// Why the session cannot be addressed, where it cannot.
    pub unaddressable_reason: Option<String>,
}

/// Where a condition is evaluated.
#[derive(Clone, Copy, Debug, PartialEq, Eq, Structural)]
pub enum ProbeSource {
    /// In this daemon's own session.
    Local,
    /// In the known session at the given position.
    Remote(usize),
}

/// How a condition is evaluated.
#[derive(Debug)]
pub struct ProbePlan {
    pub source: ProbeSource,
    pub tab_target_id: String,
    pub frame_id: Option<String>,
    pub network_cursor: u64,
    pub observatory_drop_count: u64,
}

pub open spec fn baseline_missing(worker: WorkerModel) -> EnvelopeModel {
    failure(
        ErrorCode::SessionBusy,
        "orchestration network_request evaluation is not authoritative because its committed observatory baseline is missing"@,
        Map::<Seq<char>, JsonModel>::empty().insert(
            "reason"@,
            JsonModel::Text("orchestration_network_request_baseline_missing"@),
        ).insert("next_network_cursor"@, json::number(worker.network_cursor as int)).insert(
            "dropped_event_count"@,
            json::number(worker.observatory_drop_count as int),
        ),
    )
}

pub open spec fn source_context(reason: Seq<char>, source: OrchestrationAddressInfo) -> Map<
    Seq<char>,
    JsonModel,
> {
    Map::<Seq<char>, JsonModel>::empty().insert("reason"@, JsonModel::Text(reason)).insert(
        "source_session_id"@,
        JsonModel::Text(source.session_id@),
    ).insert("source_session_name"@, JsonModel::Text(source.session_name@))
}

fn source_context_object(reason: &str, source: &OrchestrationAddressInfo) -> (r: JsonObject)
    ensures
        r@ == source_context(reason@, *source),
{
    JsonObject::new().with("reason", json::text_value(reason)).with(
        "source_session_id",
        json::text_value(source.session_id.as_str()),
    ).with("source_session_name", json::text_value(source.session_name.as_str()))
}

pub open spec fn tab_missing(source: OrchestrationAddressInfo) -> EnvelopeModel {
    failure(
        ErrorCode::InvalidInput,
        "orchestration source address is missing source.tab_target_id"@,
        source_context("orchestration_source_tab_target_missing"@, source),
    )
}

pub open spec fn session_missing(source: OrchestrationAddressInfo) -> EnvelopeModel {
    failure(
        ErrorCode::DaemonNotRunning,
        "Source session '"@ + source.session_name@
            + "' is not available for orchestration condition evaluation"@,
        source_context("orchestration_source_session_missing"@, source),
    )
}

pub open spec fn session_unaddressable(source: OrchestrationAddressInfo) -> EnvelopeModel {
    failure(
        ErrorCode::SessionBusy,
        "Source session '"@ + source.session_name@
            + "' is still present but not addressable for orchestration condition evaluation"@,
        source_context("orchestration_source_session_not_addressable"@, source),
    )
}

/// The session at position `i` is the first with the given identifier.
pub open spec fn session_at(
    sessions: Seq<OrchestrationSessionInfo>,
    session_id: Seq<char>,
    i: int,
) -> bool {
    &&& 0 <= i < sessions.len()
    &&& sessions[i].session_id@ == session_id
    &&& forall|j: int| 0 <= j < i ==> (#[trigger] sessions[j]).session_id@ != session_id
}

pub open spec fn session_absent(
    sessions: Seq<OrchestrationSessionInfo>,
    session_id: Seq<char>,
) -> bool {
    forall|j: int| 0 <= j < sessions.len() ==> (#[trigger] sessions[j]).session_id@ != session_id
}

/// The evaluation reads the network log without knowing from where.
pub open spec fn unprimed(rule: OrchestrationRuleInfo, worker: WorkerModel) -> bool {
    rule.condition.kind == TriggerConditionKind::NetworkRequest && !worker.network_cursor_primed
}

/// The plan carries the rule's address and the worker's position.
pub open spec fn plan_for(
    plan: ProbePlan,
    rule: OrchestrationRuleInfo,
    worker: WorkerModel,
) -> bool {
    &&& text::opt_text(rule.source.tab_target_id) == Some(plan.tab_target_id@)
    &&& text::opt_text(plan.frame_id) == text::opt_text(rule.source.frame_id)
    &&& plan.network_cursor == worker.network_cursor
    &&& plan.observatory_drop_count == worker.observatory_drop_count
}

fn find_session(sessions: &Vec<OrchestrationSessionInfo>, session_id: &str) -> (r: Option<usize>)
    ensures
        match r {
            Some(i) => session_at(sessions@, session_id@, i as int),
            None => session_absent(sessions@, session_id@),
        },
{
    let mut i: usize = 0;
    while i < sessions.len()
        invariant
            i <= sessions@.len(),
            forall|j: int| 0 <= j < i ==> (#[trigger] sessions@[j]).session_id@ != session_id@,
        decreases sessions@.len() - i,
    {
        if text::str_eq(sessions[i].session_id.as_str(), session_id) {
            return Some(i);
        }
        i += 1;
    }
    None
}

/// What planning an evaluation gives: an error for a network rule without its
/// baseline, for a rule without a source tab, and for a source session that is
/// gone or cannot be addressed; else where to evaluate.
pub open spec fn plan_outcome(
    rule: OrchestrationRuleInfo,
    worker: WorkerModel,
    session_id: Seq<char>,
    known: Seq<OrchestrationSessionInfo>,
    r: Result<ProbePlan, ErrorEnvelope>,
) -> bool {
    let source_id = rule.source.session_id@;
    if unprimed(rule, worker) {
        r matches Err(e) && e@ == baseline_missing(worker)
    } else if rule.source.tab_target_id is None {
        r matches Err(e) && e@ == tab_missing(rule.source)
    } else if source_id == session_id {
        r matches Ok(plan) && plan.source == ProbeSource::Local && plan_for(plan, rule, worker)
    } else {
        ||| session_absent(known, source_id) && (r matches Err(e) && e@ == session_missing(
            rule.source,
        ))
        ||| exists|i: int| #[trigger]
            session_at(known, source_id, i) && (if known[i].unaddressable_reason is Some {
                r matches Err(e) && e@ == session_unaddressable(rule.source)
            } else {
                r matches Ok(plan) && plan.source == ProbeSource::Remote(i as usize)
                    && plan_for(plan, rule, worker)
            })
    }
}

/// Decides how the condition of a rule is evaluated.
pub fn plan_condition_probe(
    rule: &OrchestrationRuleInfo,
    worker: &OrchestrationWorkerEntry,
    session_id: &str,
    known_sessions: &Vec<OrchestrationSessionInfo>,
) -> (r: Result<ProbePlan, ErrorEnvelope>)
    ensures
        plan_outcome(*rule, worker@, session_id@, known_sessions@, r),
{
    if matches!(rule.condition.kind, TriggerConditionKind::NetworkRequest)
        && !worker.network_cursor_primed {
        let context = JsonObject::new().with(
            "reason",
            json::text_value("orchestration_network_request_baseline_missing"),
        ).with("next_network_cursor", json::uint_value(worker.network_cursor)).with(
            "dropped_event_count",
            json::uint_value(worker.observatory_drop_count),
        );
        return Err(
            failure_envelope(
                ErrorCode::SessionBusy,
                "orchestration network_request evaluation is not authoritative because its committed observatory baseline is missing".to_owned(),
                context,
            ),
        );
    }
    let tab_target_id = match &rule.source.tab_target_id {
        Some(id) => id,
        None => {
            return Err(
                failure_envelope(
                    ErrorCode::InvalidInput,
                    "orchestration source address is missing source.tab_target_id".to_owned(),
                    source_context_object("orchestration_source_tab_target_missing", &rule.source),
                ),
            );
        },
    };
    let source = if text::str_eq(rule.source.session_id.as_str(), session_id) {
        ProbeSource::Local
    } else {
        let at: usize = match find_session(known_sessions, rule.source.session_id.as_str()) {
            Some(i) => i,
            None => {
                return Err(
                    failure_envelope(
                        ErrorCode::DaemonNotRunning,
                        text::cat3(
                            "Source session '",
                            rule.source.session_name.as_str(),
                            "' is not available for orchestration condition evaluation",
                        ),
                        source_context_object(
                            "orchestration_source_session_missing",
                            &rule.source,
                        ),
                    ),
                );
            },
        };
        if known_sessions[at].unaddressable_reason.is_some() {
            return Err(
                failure_envelope(
                    ErrorCode::SessionBusy,
                    text::cat3(
                        "Source session '",
                        rule.source.session_name.as_str(),
                        "' is still present but not addressable for orchestration condition evaluation",
                    ),
                    source_context_object(
                        "orchestration_source_session_not_addressable",
                        &rule.source,
                    ),
                ),
            );
        }
        ProbeSource::Remote(at)
    };
    Ok(
        ProbePlan {
            source,
            tab_target_id: tab_target_id.clone(),
            frame_id: text::clone_opt(&rule.source.frame_id),
            network_cursor: worker.network_cursor,
            observatory_drop_count: worker.observatory_drop_count,
        },
    )
}

/// What a condition's evaluation brought back.
#[derive(Debug)]
pub struct OrchestrationProbeResult {
    pub matched: bool,
    pub evidence: Option<TriggerEvidenceInfo>,
    pub next_network_cursor: u64,
    pub observed_drop_count: u64,
    pub degraded_reason: Option<String>,
}

/// Whether a rule is triggered, and how far it has read the network log.
#[derive(Debug)]
pub enum OrchestrationConditionState {
    Triggered {
        evidence: TriggerEvidenceInfo,
        evidence_key: String,
        network_progress: OrchestrationNetworkProgress,
    },
    NotTriggered { network_progress: OrchestrationNetworkProgress },
}

pub open spec fn progress_of(result: OrchestrationProbeResult) -> OrchestrationNetworkProgress {
    OrchestrationNetworkProgress {
        next_cursor: result.next_network_cursor,
        observed_drop_count: result.observed_drop_count,
    }
}

pub open spec fn not_authoritative(
    reason: Seq<char>,
    progress: OrchestrationNetworkProgress,
) -> EnvelopeModel {
    failure(
        ErrorCode::SessionBusy,
        "orchestration network_request evaluation is not authoritative because observatory evidence was dropped"@,
        Map::<Seq<char>, JsonModel>::empty().insert("reason"@, JsonModel::Text(reason)).insert(
            "next_network_cursor"@,
            json::number(progress.next_cursor as int),
        ).insert("dropped_event_count"@, json::number(progress.observed_drop_count as int)),
    )
}

/// What becomes of a worker when a probe comes back, and what is made of the probe.
pub open spec fn accepted_probe(
    before: WorkerModel,
    after: WorkerModel,
    result: OrchestrationProbeResult,
    r: Result<OrchestrationConditionState, ErrorEnvelope>,
) -> bool {
    match (text::opt_text(result.degraded_reason), r) {
        (Some(reason), Err(e)) => {
            &&& after == progressed(before, Some(progress_of(result)))
            &&& e@ == not_authoritative(reason, progress_of(result))
        },
        (None, Ok(state)) => {
            &&& after == before
            &&& match state {
                OrchestrationConditionState::Triggered {
                    evidence,
                    evidence_key: key,
                    network_progress,
                } => {
                    &&& result.matched && result.evidence == Some(evidence)
                    &&& key@ == evidence_key(evidence)
                    &&& network_progress == progress_of(result)
                },
                OrchestrationConditionState::NotTriggered { network_progress } => {
                    &&& !(result.matched && result.evidence is Some)
                    &&& network_progress == progress_of(result)
                },
            }
        },
        _ => false,
    }
}

/// Takes in what an evaluation brought back. Where network events were lost the
/// evidence is refused, and the worker goes on after the loss; otherwise the
/// worker is left as it is until the outcome is committed.
pub fn accept_probe_result(
    worker: &mut OrchestrationWorkerEntry,
    result: OrchestrationProbeResult,
) -> (r: Result<OrchestrationConditionState, ErrorEnvelope>)
    ensures
        accepted_probe(old(worker)@, final(worker)@, result, r),
{
    let network_progress = OrchestrationNetworkProgress {
        next_cursor: result.next_network_cursor,
        observed_drop_count: result.observed_drop_count,
    };
    if let Some(reason) = &result.degraded_reason {
        commit_orchestration_network_progress(worker, Some(network_progress));
        let context = JsonObject::new().with("reason", json::text_value(reason.as_str())).with(
            "next_network_cursor",
            json::uint_value(network_progress.next_cursor),
        ).with("dropped_event_count", json::uint_value(network_progress.observed_drop_count));
        return Err(
            failure_envelope(
                ErrorCode::SessionBusy,
                "orchestration network_request evaluation is not authoritative because observatory evidence was dropped".to_owned(),
                context,
            ),
        );
    }
    if result.matched {
        if let Some(evidence) = result.evidence {
            let evidence_key = orchestration_evidence_key(&evidence);
            return Ok(
                OrchestrationConditionState::Triggered { evidence, evidence_key, network_progress },
            );
        }
    }
    Ok(OrchestrationConditionState::NotTriggered { network_progress })
}

/// The reason that an error gives, where it gives one.
pub open spec fn reason_of(context: Option<JsonModel>) -> Option<Seq<char>> {
    match context {
        Some(context) => json::text_member(context, "reason"@),
        None => None,
    }
}

/// The recorded outcome of a rule whose condition could not be evaluated: the
/// rule stays as it was, nothing was done, and the error is kept.
pub fn orchestration_failure_result(
    rule: &OrchestrationRuleInfo,
    result_status: OrchestrationRuleStatus,
    envelope: &ErrorEnvelope,
) -> (r: OrchestrationResultInfo)
    ensures
        r.rule_id == rule.id,
        r.status == result_status,
        r.next_status == rule.status,
        r.summary@ == "orchestration condition evaluation failed: "@ + error::code_name(
            envelope.code,
        ) + ": "@ + envelope.message@,
        r.committed_steps == 0,
        r.total_steps == rule.actions@.len() as u32,
        r.steps@.len() == 0,
        r.cooldown_until_ms is None,
        r.error_code == Some(envelope.code),
        text::opt_text(r.reason) == reason_of(envelope@.context),
        error::opt_context(r.error_context) == envelope@.context,
{
    let reason = match &envelope.context {
        Some(context) => match context.get_str("reason") {
            Some(reason) => Some(reason.to_owned()),
            None => None,
        },
        None => None,
    };
    let error_context = match &envelope.context {
        Some(context) => Some(context.clone()),
        None => None,
    };
    let head = text::cat3(
        "orchestration condition evaluation failed: ",
        envelope.code.as_str(),
        ": ",
    );
    OrchestrationResultInfo {
        rule_id: rule.id,
        status: result_status,
        next_status: rule.status,
        summary: text::cat2(head.as_str(), envelope.message.as_str()),
        committed_steps: 0,
        total_steps: #[verifier::truncate] (rule.actions.len() as u32),
        steps: Vec::new(),
        cooldown_until_ms: None,
        error_code: Some(envelope.code),
        reason,
        error_context,
    }
}

/// The numbers of the rules are all different.
pub open spec fn distinct_ids(rules: Seq<OrchestrationRuleInfo>) -> bool {
    forall|i: int, j: int| 0 <= i < j < rules.len() ==> #[trigger] rules[i].id != #[trigger] rules[j].id
}

/// With rules of different numbers, a worker remembers of each rule what
/// follows from its own past and present alone, and remembers nothing else.
pub proof fn reconciliation_is_per_rule(
    before: Map<u32, WorkerModel>,
    rules: Seq<OrchestrationRuleInfo>,
    baselines: Map<u32, NetworkRequestBaseline>,
)
    requires
        distinct_ids(rules),
    ensures
        forall|i: int|
            0 <= i < rules.len() ==> reconciled(before, rules, baselines).get(
                (#[trigger] rules[i]).id,
            ) == Some(
                reconciled_entry(before.get(rules[i].id), rules[i], baselines.get(rules[i].id)),
            ),
        forall|id: u32| #[trigger]
            reconciled(before, rules, baselines).dom().contains(id) <==> exists|i: int|
                0 <= i < rules.len() && (#[trigger] rules[i]).id == id,
    decreases rules.len(),
{
    if rules.len() > 0 {
        let front = rules.drop_last();
        assert(distinct_ids(front)) by {
            assert forall|i: int, j: int| 0 <= i < j < front.len() implies #[trigger] front[i].id
                != #[trigger] front[j].id by {
                assert(front[i] == rules[i] && front[j] == rules[j]);
            }
        }
        reconciliation_is_per_rule(before, front, baselines);
        let done = reconciled(before, front, baselines);
        let last = rules.last();
        assert(!done.dom().contains(last.id)) by {
            if done.dom().contains(last.id) {
                let i = choose|i: int| 0 <= i < front.len() && (#[trigger] front[i]).id == last.id;
                assert(rules[i].id != rules[rules.len() - 1].id);
            }
        }
        assert forall|i: int| 0 <= i < rules.len() implies reconciled(before, rules, baselines).get(
            (#[trigger] rules[i]).id,
        ) == Some(
            reconciled_entry(before.get(rules[i].id), rules[i], baselines.get(rules[i].id)),
        ) by {
            if i < front.len() {
                assert(front[i] == rules[i]);
                assert(rules[i].id != rules[rules.len() - 1].id);
            }
        }
        assert forall|id: u32| #[trigger]
            reconciled(before, rules, baselines).dom().contains(id) <==> exists|i: int|
                0 <= i < rules.len() && (#[trigger] rules[i]).id == id by {
            if done.dom().contains(id) {
                let i = choose|i: int| 0 <= i < front.len() && (#[trigger] front[i]).id == id;
                assert(rules[i].id == id);
            } else if id == last.id {
                assert(rules[rules.len() - 1].id == id);
            }
            if exists|i: int| 0 <= i < rules.len() && (#[trigger] rules[i]).id == id {
                let i = choose|i: int| 0 <= i < rules.len() && (#[trigger] rules[i]).id == id;
                if i < front.len() {
                    assert(front[i].id == id);
                }
            }
        }
    }
}

/// Seeing a rule again in the same state changes nothing.
pub proof fn reconciliation_is_idempotent(
    prior: Option<WorkerModel>,
    rule: OrchestrationRuleInfo,
    baseline: Option<NetworkRequestBaseline>,
)
    ensures
        reconciled_entry(Some(reconciled_entry(prior, rule, baseline)), rule, baseline)
            == reconciled_entry(prior, rule, baseline),
{
}

/// A network rule without a committed baseline is never evaluated: after
/// reconciliation its evaluation is refused.
pub proof fn network_rules_wait_for_their_baseline(
    prior: Option<WorkerModel>,
    rule: OrchestrationRuleInfo,
)
    requires
        baseline_required(rule),
    ensures
        unprimed(rule, reconciled_entry(prior, rule, None)),
{
}

/// Evidence with one summary goes by different keys for different fingerprints; an empty
/// fingerprint is as good as none.
pub proof fn fingerprints_tell_evidence_apart(a: TriggerEvidenceInfo, b: TriggerEvidenceInfo)
    requires
        a.summary@ == b.summary@,
    ensures
        ({
            let print = |e: TriggerEvidenceInfo|
                match text::opt_text(e.fingerprint) {
                    Some(s) => s,
                    None => Seq::<char>::empty(),
                };
            &&& evidence_key(a) == evidence_key(b) <==> print(a) == print(b)
            &&& print(a).len() == 0 <==> evidence_key(a) == a.summary@
            &&& print(a).len() > 0 ==> evidence_key(a) == a.summary@ + "::"@ + print(a)
        }),
{
    let print = |e: TriggerEvidenceInfo|
        match text::opt_text(e.fingerprint) {
            Some(s) => s,
            None => Seq::<char>::empty(),
        };
    let x = evidence_key(a);
    let y = evidence_key(b);
    let n = a.summary@.len() as int;
    reveal_strlit("::");
    if print(a).len() > 0 {
        assert(x.skip(n + 2) =~= print(a));
        assert(x.len() > n);
    } else {
        assert(print(a) =~= Seq::empty());
    }
    if print(b).len() > 0 {
        assert(y.skip(n + 2) =~= print(b));
        assert(y.len() > n);
    } else {
        assert(print(b) =~= Seq::empty());
    }
}

/// Evidence is remembered exactly for a repeating rule that is armed and does not read the
/// network log, and stays so only where the rule is armed again after it fired or while it
/// cools down.
pub proof fn evidence_is_remembered_for_armed_repeating_rules(
    rule: OrchestrationRuleInfo,
    result: OrchestrationResultInfo,
)
    ensures
        latches(rule) <==> rule.mode == OrchestrationMode::Repeat && rule.status
            == OrchestrationRuleStatus::Armed && rule.condition.kind
            != TriggerConditionKind::NetworkRequest,
        retains(rule, result) ==> latches(rule) && result.next_status
            == OrchestrationRuleStatus::Armed,
        latches(rule) && result.next_status == OrchestrationRuleStatus::Armed ==> {
            &&& result.status == OrchestrationRuleStatus::Fired ==> retains(rule, result)
            &&& result.status == OrchestrationRuleStatus::Blocked ==> (retains(rule, result)
                <==> text::opt_text(result.reason) == Some("orchestration_cooldown_active"@))
            &&& result.status != OrchestrationRuleStatus::Fired && result.status
                != OrchestrationRuleStatus::Blocked ==> !retains(rule, result)
        },
        persisted_key(rule) is Some <==> rule.last_condition_evidence is Some && (rule.last_result
            matches Some(last) && retains(rule, last)),
        rule.last_condition_evidence matches Some(evidence) ==> (persisted_key(rule) is Some
            ==> persisted_key(rule) == Some(evidence_key(evidence))),
{
}

/// What a worker remembers of a rule goes with the rule's present status. A rule that was
/// armed before, or is not armed now, keeps its place in the network log and the evidence
/// that is remembered; one that is armed anew starts from its baseline and forgets evidence
/// that its outcome does not keep.
pub proof fn arming_anew_starts_from_the_baseline(
    entry: WorkerModel,
    rule: OrchestrationRuleInfo,
    baseline: Option<NetworkRequestBaseline>,
)
    ensures
        ({
            let after = reconciled_entry(Some(entry), rule, baseline);
            let network = rule.condition.kind == TriggerConditionKind::NetworkRequest;
            let armed = rule.status == OrchestrationRuleStatus::Armed;
            let anew = armed && entry.last_status != OrchestrationRuleStatus::Armed;
            &&& after.last_status == rule.status
            &&& !anew ==> {
                &&& after.network_cursor == entry.network_cursor
                &&& after.observatory_drop_count == entry.observatory_drop_count
                &&& entry.latched_evidence_key is Some ==> after.latched_evidence_key
                    == entry.latched_evidence_key
                &&& after.network_cursor_primed <==> entry.network_cursor_primed && !(network
                    && armed && baseline is None)
            }
            &&& anew ==> {
                &&& after.latched_evidence_key == persisted_key(rule)
                &&& baseline matches Some(b) ==> after.network_cursor == b.cursor
                    && after.observatory_drop_count == b.observed_ingress_drop_count
                    && after.network_cursor_primed == b.primed
                &&& baseline is None && network ==> after.network_cursor == 0
                    && after.observatory_drop_count == 0 && !after.network_cursor_primed
                &&& baseline is None && !network ==> after.network_cursor == entry.network_cursor
                    && after.observatory_drop_count == entry.observatory_drop_count
                    && after.network_cursor_primed
            }
        }),
{
}

/// A rule that was not seen before starts from its baseline, and without one at the head of
/// the network log, which it may only read where it needs no baseline.
pub proof fn new_rules_start_from_the_baseline(
    rule: OrchestrationRuleInfo,
    baseline: Option<NetworkRequestBaseline>,
)
    ensures
        ({
            let after = reconciled_entry(None, rule, baseline);
            let network = rule.condition.kind == TriggerConditionKind::NetworkRequest;
            let armed = rule.status == OrchestrationRuleStatus::Armed;
            &&& after.last_status == rule.status
            &&& after.latched_evidence_key == persisted_key(rule)
            &&& baseline matches Some(b) ==> after.network_cursor == b.cursor
                && after.observatory_drop_count == b.observed_ingress_drop_count
                && after.network_cursor_primed == b.primed
            &&& baseline is None ==> after.network_cursor == 0 && after.observatory_drop_count == 0
                && (after.network_cursor_primed <==> !(network && armed))
        }),
{
}

/// Progress moves the place in the network log to where the reading ended, and changes
/// neither the status nor the evidence that is remembered; no progress changes nothing.
pub proof fn progress_moves_the_cursor_alone(
    entry: WorkerModel,
    progress: OrchestrationNetworkProgress,
)
    ensures
        progressed(entry, None) == entry,
        ({
            let after = progressed(entry, Some(progress));
            &&& after.network_cursor == progress.next_cursor
            &&& after.observatory_drop_count == progress.observed_drop_count
            &&& after.network_cursor_primed
            &&& after.last_status == entry.last_status
            &&& after.latched_evidence_key == entry.latched_evidence_key
        }),
{
}

/// A rule cools down until its deadline and not at it, and once it has cooled down it stays
/// so; a rule without a deadline never cools down.
pub proof fn cooling_ends_at_the_deadline(rule: OrchestrationRuleInfo, now_ms: u64, later_ms: u64)
    requires
        now_ms <= later_ms,
    ensures
        cooling(rule, later_ms) ==> cooling(rule, now_ms),
        rule.execution_policy.cooldown_until_ms is None ==> !cooling(rule, now_ms),
        rule.execution_policy.cooldown_until_ms matches Some(deadline) ==> !cooling(rule, deadline),
        rule.execution_policy.cooldown_until_ms matches Some(deadline) ==> (deadline > 0 ==> cooling(
            rule,
            (deadline - 1) as u64,
        )),
{
}

/// A condition is evaluated exactly where its place in the network log is known or not
/// needed, its tab is named, and its session is this one or a known one that can be
/// addressed; a session of one's own is never looked for among the others.
pub proof fn conditions_are_evaluated_where_they_can_be(
    rule: OrchestrationRuleInfo,
    worker: WorkerModel,
    session_id: Seq<char>,
    known: Seq<OrchestrationSessionInfo>,
    r: Result<ProbePlan, ErrorEnvelope>,
)
    requires
        plan_outcome(rule, worker, session_id, known, r),
    ensures
        ({
            let own = rule.source.session_id@ == session_id;
            let ready = rule.condition.kind != TriggerConditionKind::NetworkRequest
                || worker.network_cursor_primed;
            let tab = rule.source.tab_target_id is Some;
            &&& r is Ok ==> ready && tab
            &&& ready && tab && own ==> (r matches Ok(plan) && plan.source == ProbeSource::Local)
            &&& r matches Ok(plan) ==> {
                &&& plan.tab_target_id@ == rule.source.tab_target_id->0@
                &&& text::opt_text(plan.frame_id) == text::opt_text(rule.source.frame_id)
                &&& plan.network_cursor == worker.network_cursor
                &&& plan.observatory_drop_count == worker.observatory_drop_count
                &&& plan.source == ProbeSource::Local <==> own
            }
            &&& !own && session_absent(known, rule.source.session_id@) ==> r is Err
            &&& !ready ==> (r matches Err(e) && e.code == ErrorCode::SessionBusy)
            &&& ready && !tab ==> (r matches Err(e) && e.code == ErrorCode::InvalidInput)
            &&& ready && tab && !own && session_absent(known, rule.source.session_id@) ==> (
            r matches Err(e) && e.code == ErrorCode::DaemonNotRunning)
        }),
{
    if rule.source.session_id@ != session_id && session_absent(known, rule.source.session_id@) {
        assert forall|i: int| !session_at(known, rule.source.session_id@, i) by {
            if session_at(known, rule.source.session_id@, i) {
                assert(known[i].session_id@ == rule.source.session_id@);
            }
        }
    }
}

/// A worker that sees a rule for the first time starts from the baseline that was committed;
/// without one it starts from the beginning, and waits where the rule needs a baseline.
pub proof fn workers_start_from_what_was_committed(
    rule: OrchestrationRuleInfo,
    baseline: Option<NetworkRequestBaseline>,
)
    ensures
        first_entry(rule, baseline).last_status == rule.status,
        baseline matches Some(b) ==> first_entry(rule, baseline).network_cursor == b.cursor
            && first_entry(rule, baseline).network_cursor_primed == b.primed && first_entry(
            rule,
            baseline,
        ).observatory_drop_count == b.observed_ingress_drop_count,
        baseline is None ==> first_entry(rule, baseline).network_cursor == 0 && first_entry(
            rule,
            baseline,
        ).observatory_drop_count == 0 && (first_entry(rule, baseline).network_cursor_primed
            <==> !baseline_required(rule)),
{
}

/// The clock reads what has elapsed since the epoch, and nothing before it.
pub proof fn clocks_read_what_has_elapsed(millis: u128)
    ensures
        millis <= u64::MAX ==> reading(Some(millis)) == millis,
        reading(None) == 0,
{
}

/// A condition that cannot be evaluated says why, and for which session.
pub proof fn evaluations_fail_with_their_reason(
    worker: WorkerModel,
    source: OrchestrationAddressInfo,
    reason: Seq<char>,
    progress: OrchestrationNetworkProgress,
)
    ensures
        baseline_missing(worker).code == ErrorCode::SessionBusy,
        tab_missing(source).code == ErrorCode::InvalidInput,
        session_missing(source).code == ErrorCode::DaemonNotRunning,
        session_unaddressable(source).code == ErrorCode::SessionBusy,
        not_authoritative(reason, progress).code == ErrorCode::SessionBusy,
        reason_of(baseline_missing(worker).context) == Some(
            "orchestration_network_request_baseline_missing"@,
        ),
        reason_of(tab_missing(source).context) == Some("orchestration_source_tab_target_missing"@),
        reason_of(session_missing(source).context) == Some("orchestration_source_session_missing"@),
        reason_of(session_unaddressable(source).context) == Some(
            "orchestration_source_session_not_addressable"@,
        ),
        reason_of(not_authoritative(reason, progress).context) == Some(reason),
        session_missing(source).context matches Some(c) && json::member(c, "source_session_id"@)
            == Some(JsonModel::Text(source.session_id@)) && json::member(c, "source_session_name"@)
            == Some(JsonModel::Text(source.session_name@)),
        not_authoritative(reason, progress).context matches Some(c) && json::member(
            c,
            "next_network_cursor"@,
        ) == Some(json::number(progress.next_cursor as int)) && json::member(
            c,
            "dropped_event_count"@,
        ) == Some(json::number(progress.observed_drop_count as int)),
{
    reveal_strlit("reason");
    reveal_strlit("next_network_cursor");
    reveal_strlit("dropped_event_count");
    reveal_strlit("source_session_id");
    reveal_strlit("source_session_name");
    assert("reason"@.len() != "next_network_cursor"@.len());
    assert("reason"@.len() != "dropped_event_count"@.len());
    assert("reason"@.len() != "source_session_id"@.len());
    assert("reason"@.len() != "source_session_name"@.len());
    assert("next_network_cursor"@[0] != "dropped_event_count"@[0]);
    assert("next_network_cursor"@.len() != "source_session_id"@.len());
    assert("next_network_cursor"@[0] != "source_session_name"@[0]);
    assert("dropped_event_count"@.len() != "source_session_id"@.len());
    assert("dropped_event_count"@[0] != "source_session_name"@[0]);
    assert("source_session_id"@.len() != "source_session_name"@.len());
}

/// There is one first session with an identifier, and none where no session has it.
pub proof fn the_first_session_is_one(
    sessions: Seq<OrchestrationSessionInfo>,
    session_id: Seq<char>,
    i: int,
    j: int,
)
    ensures
        session_at(sessions, session_id, i) && session_at(sessions, session_id, j) ==> i == j,
        session_at(sessions, session_id, i) ==> 0 <= i < sessions.len() && sessions[i].session_id@
            == session_id,
{
}

/// What a probe saw is taken over as it is.
pub proof fn probes_move_the_cursor_to_what_they_saw(result: OrchestrationProbeResult)
    ensures
        progress_of(result).next_cursor == result.next_network_cursor,
        progress_of(result).observed_drop_count == result.observed_drop_count,
{
}

/// A probe that is not authoritative fails and moves the worker on; one that is triggers its
/// rule exactly where it matched with evidence, and leaves the worker where it was.
pub proof fn probes_trigger_where_they_matched(
    before: WorkerModel,
    after: WorkerModel,
    result: OrchestrationProbeResult,
    r: Result<OrchestrationConditionState, ErrorEnvelope>,
)
    requires
        accepted_probe(before, after, result, r),
    ensures
        r is Err <==> result.degraded_reason is Some,
        r is Ok ==> after == before,
        r is Err ==> after.network_cursor == result.next_network_cursor
            && after.observatory_drop_count == result.observed_drop_count
            && after.latched_evidence_key == before.latched_evidence_key,
        r matches Ok(state) ==> (state is Triggered <==> result.matched && result.evidence is Some),
        r matches Ok(OrchestrationConditionState::Triggered { evidence, evidence_key: key, .. })
            ==> result.evidence == Some(evidence) && key@ == evidence_key(evidence),
        r matches Ok(OrchestrationConditionState::NotTriggered { network_progress }) ==> {
            &&& network_progress.next_cursor == result.next_network_cursor
            &&& network_progress.observed_drop_count == result.observed_drop_count
        },
        r matches Err(e) ==> e@.code == ErrorCode::SessionBusy,
{
}

} // verus!
