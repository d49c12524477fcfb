use rub_daemon::error::{ErrorCode, ErrorEnvelope, RubError};
use rub_daemon::json::{Json, JsonObject};
use rub_daemon::orchestration::{
    accept_probe_result, clock_reading, commit_orchestration_network_progress, current_time_ms,
    orchestration_evidence_key, orchestration_failure_result,
    orchestration_worker_command_identity_key, persisted_latched_orchestration_evidence_key,
    plan_condition_probe, reconcile_worker_state, rule_in_cooldown_at,
    should_persist_orchestration_evidence_latch, should_retain_orchestration_evidence_latch,
    skip_latched_orchestration_evidence, NetworkRequestBaseline, OrchestrationAddressInfo,
    OrchestrationConditionState, OrchestrationExecutionPolicyInfo, OrchestrationMode,
    OrchestrationNetworkProgress, OrchestrationProbeResult, OrchestrationResultInfo,
    OrchestrationRuleInfo, OrchestrationRuleStatus, OrchestrationSessionInfo,
    OrchestrationWorkerEntry, ProbeSource, TriggerActionKind, TriggerActionSpec,
    TriggerConditionKind, TriggerConditionSpec, TriggerEvidenceInfo,
};
use std::collections::HashMap;

fn rule(id: u32, status: OrchestrationRuleStatus) -> OrchestrationRuleInfo {
    OrchestrationRuleInfo {
        id,
        status,
        lifecycle_generation: 1,
        source: OrchestrationAddressInfo {
            session_id: "source-session".to_string(),
            session_name: "source".to_string(),
            tab_index: Some(0),
            tab_target_id: Some("source-tab".to_string()),
            frame_id: None,
        },
        target: OrchestrationAddressInfo {
            session_id: "target-session".to_string(),
            session_name: "target".to_string(),
            tab_index: Some(0),
            tab_target_id: Some("target-tab".to_string()),
            frame_id: None,
        },
        mode: OrchestrationMode::Repeat,
        execution_policy: OrchestrationExecutionPolicyInfo {
            cooldown_ms: 1000,
            max_retries: 0,
            cooldown_until_ms: None,
        },
        condition: TriggerConditionSpec {
            kind: TriggerConditionKind::TextPresent,
            locator: None,
            text: Some("Ready".to_string()),
            url_pattern: None,
            readiness_state: None,
            method: None,
            status_code: None,
            storage_area: None,
            key: None,
            value: None,
        },
        actions: vec![TriggerActionSpec {
            kind: TriggerActionKind::BrowserCommand,
            command: Some("click".to_string()),
            payload: Some(Json::Object(
                JsonObject::new().with("selector", Json::Text("#apply".to_string())),
            )),
        }],
        correlation_key: "corr".to_string(),
        idempotency_key: format!("idem-{id}"),
        unavailable_reason: None,
        last_condition_evidence: None,
        last_result: None,
    }
}

fn result(
    rule_id: u32,
    status: OrchestrationRuleStatus,
    committed_steps: u32,
    reason: Option<&str>,
) -> OrchestrationResultInfo {
    OrchestrationResultInfo {
        rule_id,
        status,
        next_status: OrchestrationRuleStatus::Armed,
        summary: "summary".to_string(),
        committed_steps,
        total_steps: 1,
        steps: Vec::new(),
        cooldown_until_ms: Some(1234),
        error_code: None,
        reason: reason.map(|r| r.to_string()),
        error_context: None,
    }
}

fn worker() -> OrchestrationWorkerEntry {
    OrchestrationWorkerEntry {
        last_status: OrchestrationRuleStatus::Armed,
        network_cursor: 0,
        network_cursor_primed: false,
        observatory_drop_count: 0,
        latched_evidence_key: None,
    }
}

fn reason_of(envelope: &ErrorEnvelope) -> Option<&str> {
    envelope.context.as_ref().and_then(|context| context.get_str("reason"))
}

#[test]
fn orchestration_evidence_key_prefers_fingerprint_when_present() {
    let evidence = TriggerEvidenceInfo {
        summary: "source_tab_text_present:Ready".to_string(),
        fingerprint: Some("doc-1".to_string()),
    };
    assert_eq!(
        orchestration_evidence_key(&evidence),
        "source_tab_text_present:Ready::doc-1"
    );
}

#[test]
fn evidence_without_a_fingerprint_is_known_by_its_summary() {
    let evidence = TriggerEvidenceInfo {
        summary: "source_tab_text_present:Ready".to_string(),
        fingerprint: None,
    };
    assert_eq!(
        orchestration_evidence_key(&evidence),
        "source_tab_text_present:Ready"
    );
}

#[test]
fn worker_command_identity_uses_revalidated_evidence_key_for_revalidated_conditions() {
    assert_eq!(
        orchestration_worker_command_identity_key(true, "source_tab_text_present:Ready::Ready"),
        Some("source_tab_text_present:Ready::Ready")
    );
}

#[test]
fn worker_command_identity_uses_evidence_key_for_preserved_network_conditions() {
    assert_eq!(
        orchestration_worker_command_identity_key(false, "network_request:/api/save::42"),
        Some("network_request:/api/save::42")
    );
}

#[test]
fn reconcile_worker_state_clears_latched_evidence_when_rule_rearms() {
    let mut worker_state = HashMap::from([(
        7,
        OrchestrationWorkerEntry {
            last_status: OrchestrationRuleStatus::Blocked,
            network_cursor: 4,
            network_cursor_primed: true,
            observatory_drop_count: 0,
            latched_evidence_key: Some("source_tab_text_present:Ready".to_string()),
        },
    )]);
    reconcile_worker_state(
        &mut worker_state,
        &[rule(7, OrchestrationRuleStatus::Armed)],
        &HashMap::new(),
    );
    let entry = worker_state.get(&7).expect("entry should exist");
    assert_eq!(entry.network_cursor, 4);
    assert!(entry.network_cursor_primed);
    assert_eq!(entry.latched_evidence_key, None);
}

#[test]
fn reconcile_worker_state_seeds_remote_network_rules_from_committed_baseline() {
    let mut worker_state = HashMap::new();
    let mut remote_rule = rule(8, OrchestrationRuleStatus::Armed);
    remote_rule.condition.kind = TriggerConditionKind::NetworkRequest;
    let committed_baselines = HashMap::from([(
        8_u32,
        NetworkRequestBaseline {
            cursor: 17,
            observed_ingress_drop_count: 3,
            primed: true,
        },
    )]);

    reconcile_worker_state(&mut worker_state, &[remote_rule], &committed_baselines);

    let entry = worker_state.get(&8).expect("entry should exist");
    assert_eq!(entry.network_cursor, 17);
    assert_eq!(entry.observatory_drop_count, 3);
    assert!(entry.network_cursor_primed);
}

#[test]
fn reconcile_worker_state_leaves_network_request_rules_unprimed_without_committed_baseline() {
    let mut worker_state = HashMap::new();
    let mut local_rule = rule(11, OrchestrationRuleStatus::Armed);
    local_rule.source.session_id = "current-session".to_string();
    local_rule.condition.kind = TriggerConditionKind::NetworkRequest;

    reconcile_worker_state(&mut worker_state, &[local_rule], &HashMap::new());

    let entry = worker_state.get(&11).expect("entry should exist");
    assert_eq!(entry.network_cursor, 0);
    assert_eq!(entry.observatory_drop_count, 0);
    assert!(!entry.network_cursor_primed);
}

#[test]
fn reconcile_worker_state_clears_orchestration_network_request_priming_when_baseline_disappears() {
    let mut local_rule = rule(12, OrchestrationRuleStatus::Armed);
    local_rule.source.session_id = "current-session".to_string();
    local_rule.condition.kind = TriggerConditionKind::NetworkRequest;
    let mut worker_state = HashMap::from([(
        12_u32,
        OrchestrationWorkerEntry {
            last_status: OrchestrationRuleStatus::Armed,
            network_cursor: 17,
            network_cursor_primed: true,
            observatory_drop_count: 5,
            latched_evidence_key: None,
        },
    )]);

    reconcile_worker_state(&mut worker_state, &[local_rule], &HashMap::new());

    let entry = worker_state.get(&12).expect("entry should exist");
    assert_eq!(entry.network_cursor, 17);
    assert_eq!(entry.observatory_drop_count, 5);
    assert!(!entry.network_cursor_primed);
}

#[test]
fn reconciling_forgets_rules_that_are_gone() {
    let mut worker_state = HashMap::from([(3_u32, worker()), (4_u32, worker())]);
    reconcile_worker_state(
        &mut worker_state,
        &[rule(4, OrchestrationRuleStatus::Armed)],
        &HashMap::new(),
    );
    assert!(!worker_state.contains_key(&3));
    assert!(worker_state.contains_key(&4));
    assert_eq!(worker_state.len(), 1);
}

#[test]
fn latched_evidence_still_commits_network_progress() {
    let mut worker = OrchestrationWorkerEntry {
        last_status: OrchestrationRuleStatus::Armed,
        network_cursor: 4,
        network_cursor_primed: true,
        observatory_drop_count: 1,
        latched_evidence_key: Some("same-evidence".to_string()),
    };

    assert!(skip_latched_orchestration_evidence(
        &mut worker,
        "same-evidence",
        Some(OrchestrationNetworkProgress {
            next_cursor: 9,
            observed_drop_count: 3,
        })
    ));
    assert_eq!(worker.network_cursor, 9);
    assert_eq!(worker.observatory_drop_count, 3);
    assert!(worker.network_cursor_primed);
}

#[test]
fn other_evidence_is_not_skipped_and_commits_nothing() {
    let mut worker = worker();
    worker.latched_evidence_key = Some("same-evidence".to_string());
    assert!(!skip_latched_orchestration_evidence(
        &mut worker,
        "other-evidence",
        Some(OrchestrationNetworkProgress {
            next_cursor: 9,
            observed_drop_count: 3,
        })
    ));
    assert_eq!(worker.network_cursor, 0);
    assert_eq!(worker.observatory_drop_count, 0);
    commit_orchestration_network_progress(&mut worker, None);
    assert_eq!(worker.network_cursor, 0);
}

#[test]
fn persisted_repeat_evidence_latch_survives_manual_cooldown_projection() {
    let mut repeat_rule = rule(9, OrchestrationRuleStatus::Armed);
    repeat_rule.last_condition_evidence = Some(TriggerEvidenceInfo {
        summary: "source_tab_text_present:Ready".to_string(),
        fingerprint: Some("Ready".to_string()),
    });
    repeat_rule.last_result = Some(OrchestrationResultInfo {
        rule_id: 9,
        status: OrchestrationRuleStatus::Blocked,
        next_status: OrchestrationRuleStatus::Armed,
        summary: "orchestration cooldown active".to_string(),
        committed_steps: 0,
        total_steps: 1,
        steps: Vec::new(),
        cooldown_until_ms: Some(1234),
        error_code: None,
        reason: Some("orchestration_cooldown_active".to_string()),
        error_context: None,
    });

    assert_eq!(
        persisted_latched_orchestration_evidence_key(&repeat_rule),
        Some("source_tab_text_present:Ready::Ready".to_string())
    );
}

#[test]
fn reconcile_worker_state_seeds_latch_from_persisted_repeat_evidence() {
    let mut worker_state = HashMap::new();
    let mut repeat_rule = rule(10, OrchestrationRuleStatus::Armed);
    repeat_rule.last_condition_evidence = Some(TriggerEvidenceInfo {
        summary: "source_tab_text_present:Ready".to_string(),
        fingerprint: Some("Ready".to_string()),
    });
    repeat_rule.last_result = Some(OrchestrationResultInfo {
        rule_id: 10,
        status: OrchestrationRuleStatus::Fired,
        next_status: OrchestrationRuleStatus::Armed,
        summary: "repeat orchestration rule 10 committed 1/1 action(s)".to_string(),
        committed_steps: 1,
        total_steps: 1,
        steps: Vec::new(),
        cooldown_until_ms: Some(1234),
        error_code: None,
        reason: None,
        error_context: None,
    });

    reconcile_worker_state(&mut worker_state, &[repeat_rule], &HashMap::new());

    let entry = worker_state.get(&10).expect("entry should exist");
    assert_eq!(
        entry.latched_evidence_key.as_deref(),
        Some("source_tab_text_present:Ready::Ready")
    );
}

#[test]
fn a_failure_before_the_first_step_does_not_hold_the_latch() {
    let repeat = rule(1, OrchestrationRuleStatus::Armed);
    assert!(should_persist_orchestration_evidence_latch(&repeat));
    let mut once = rule(1, OrchestrationRuleStatus::Armed);
    once.mode = OrchestrationMode::Once;
    assert!(!should_persist_orchestration_evidence_latch(&once));

    let fired = result(1, OrchestrationRuleStatus::Fired, 1, None);
    assert!(should_retain_orchestration_evidence_latch(&repeat, &fired));
    let failed = result(1, OrchestrationRuleStatus::Degraded, 0, None);
    assert!(!should_retain_orchestration_evidence_latch(&repeat, &failed));
}

#[test]
fn load_orchestration_condition_state_fails_closed_when_committed_baseline_is_missing() {
    let mut network_rule = rule(12, OrchestrationRuleStatus::Armed);
    network_rule.source.session_id = "source-session".to_string();
    network_rule.condition.kind = TriggerConditionKind::NetworkRequest;
    let error = plan_condition_probe(&network_rule, &worker(), "source-session", &Vec::new())
        .expect_err("missing committed baseline must fail orchestration evidence closed");
    assert_eq!(error.code, ErrorCode::SessionBusy);
    assert_eq!(
        reason_of(&error),
        Some("orchestration_network_request_baseline_missing")
    );
}

#[test]
fn probes_run_where_the_source_is() {
    let watched = rule(5, OrchestrationRuleStatus::Armed);
    let local = plan_condition_probe(&watched, &worker(), "source-session", &Vec::new())
        .expect("the source is this session");
    assert!(matches!(local.source, ProbeSource::Local));
    assert_eq!(local.tab_target_id, "source-tab");

    let sessions = vec![
        OrchestrationSessionInfo {
            session_id: "other".to_string(),
            session_name: "other".to_string(),
            unaddressable_reason: None,
        },
        OrchestrationSessionInfo {
            session_id: "source-session".to_string(),
            session_name: "source".to_string(),
            unaddressable_reason: None,
        },
    ];
    let remote = plan_condition_probe(&watched, &worker(), "here", &sessions)
        .expect("the source is a known session");
    assert!(matches!(remote.source, ProbeSource::Remote(1)));
}

#[test]
fn probes_of_unknown_sources_are_refused() {
    let watched = rule(5, OrchestrationRuleStatus::Armed);
    let missing = plan_condition_probe(&watched, &worker(), "here", &Vec::new()).unwrap_err();
    let sessions = vec![OrchestrationSessionInfo {
        session_id: "source-session".to_string(),
        session_name: "source".to_string(),
        unaddressable_reason: Some("daemon_not_reachable".to_string()),
    }];
    let unreachable = plan_condition_probe(&watched, &worker(), "here", &sessions).unwrap_err();
    assert!(reason_of(&missing).is_some());
    assert!(reason_of(&unreachable).is_some());
    assert_ne!(reason_of(&missing), reason_of(&unreachable));

    let mut tabless = rule(6, OrchestrationRuleStatus::Armed);
    tabless.source.tab_target_id = None;
    assert!(plan_condition_probe(&tabless, &worker(), "source-session", &Vec::new()).is_err());
}

#[test]
fn probe_results_advance_or_fire() {
    let mut entry = worker();
    let quiet = accept_probe_result(
        &mut entry,
        OrchestrationProbeResult {
            matched: false,
            evidence: None,
            next_network_cursor: 12,
            observed_drop_count: 2,
            degraded_reason: None,
        },
    )
    .expect("an authoritative probe");
    match quiet {
        OrchestrationConditionState::NotTriggered { network_progress } => {
            assert_eq!(network_progress.next_cursor, 12);
            assert_eq!(network_progress.observed_drop_count, 2);
        }
        _ => panic!("nothing matched"),
    }

    let fired = accept_probe_result(
        &mut entry,
        OrchestrationProbeResult {
            matched: true,
            evidence: Some(TriggerEvidenceInfo {
                summary: "network_request:/api".to_string(),
                fingerprint: Some("42".to_string()),
            }),
            next_network_cursor: 13,
            observed_drop_count: 2,
            degraded_reason: None,
        },
    )
    .expect("an authoritative probe");
    match fired {
        OrchestrationConditionState::Triggered { evidence_key, .. } => {
            assert_eq!(evidence_key, "network_request:/api::42");
        }
        _ => panic!("the condition matched"),
    }

    let degraded = accept_probe_result(
        &mut entry,
        OrchestrationProbeResult {
            matched: true,
            evidence: None,
            next_network_cursor: 14,
            observed_drop_count: 9,
            degraded_reason: Some("ingress_overflow".to_string()),
        },
    );
    assert!(degraded.is_err());
}

#[test]
fn failures_name_what_went_wrong() {
    let envelope = RubError::domain_with_context(
        ErrorCode::SessionBusy,
        "no baseline",
        Json::Object(JsonObject::new().with("reason", Json::Text("baseline".to_string()))),
    )
    .into_envelope();
    let failed = orchestration_failure_result(
        &rule(21, OrchestrationRuleStatus::Armed),
        OrchestrationRuleStatus::Blocked,
        &envelope,
    );
    assert_eq!(failed.rule_id, 21);
    assert!(matches!(failed.status, OrchestrationRuleStatus::Blocked));
    assert!(matches!(failed.next_status, OrchestrationRuleStatus::Armed));
    assert_eq!(failed.total_steps, 1);
    assert_eq!(failed.committed_steps, 0);
    assert!(failed.steps.is_empty());
    assert_eq!(failed.reason.as_deref(), Some("baseline"));
    assert_eq!(failed.error_code, Some(ErrorCode::SessionBusy));
    assert_eq!(
        failed.summary,
        format!(
            "orchestration condition evaluation failed: {}: no baseline",
            ErrorCode::SessionBusy.as_str()
        )
    );
}

#[test]
fn cooldowns_end_at_their_deadline() {
    let mut cooling = rule(2, OrchestrationRuleStatus::Armed);
    assert!(!rule_in_cooldown_at(&cooling, 0));
    cooling.execution_policy.cooldown_until_ms = Some(500);
    assert!(rule_in_cooldown_at(&cooling, 499));
    assert!(!rule_in_cooldown_at(&cooling, 500));
}

#[test]
fn clocks_that_do_not_fit_read_as_their_bounds() {
    assert_eq!(clock_reading(None), 0);
    assert_eq!(clock_reading(Some(1_700_000_000_123)), 1_700_000_000_123);
    assert!(current_time_ms() > 1_600_000_000_000);
}

#[test]
fn reconciling_twice_changes_nothing_more() {
    let mut worker_state = HashMap::new();
    let mut network_rule = rule(30, OrchestrationRuleStatus::Armed);
    network_rule.condition.kind = TriggerConditionKind::NetworkRequest;
    let baselines = HashMap::from([(
        30_u32,
        NetworkRequestBaseline {
            cursor: 5,
            observed_ingress_drop_count: 1,
            primed: true,
        },
    )]);
    let rules = [network_rule];
    reconcile_worker_state(&mut worker_state, &rules, &baselines);
    let once = format!("{:?}", worker_state);
    reconcile_worker_state(&mut worker_state, &rules, &baselines);
    assert_eq!(once, format!("{:?}", worker_state));
}
