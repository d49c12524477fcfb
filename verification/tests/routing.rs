use rub_daemon::artifacts::{
    annotate_file_artifact_state, annotate_operator_path_reference_state,
    annotate_path_reference_state, output_artifact_durability, FileCommitOutcome,
    INPUT_ARTIFACT_DURABILITY,
};
use rub_daemon::automation_fence::ensure_committed_automation_result;
use rub_daemon::dialogs::{
    browser_handled_dialog_error, dialog_status_payload, ensure_pending_dialog,
    intercept_armed_payload, observe_closing_dialog, parse_dialog_command, refused_dialog_error,
    resolve_intercept_target_tab_id, DialogCommand, DialogKind, DialogResolutionInfo,
    DialogRuntimeInfo, DialogRuntimeStatus, DialogWait, PendingDialogInfo, TabInfo,
    DIALOG_CLOSE_TIMEOUT_MS,
};
use rub_daemon::dispatch::{
    after_committed_dispatch, after_failed_dispatch, command_metadata, command_supports_post_wait,
    dispatch_named_command, is_in_process_only_command, is_internal_command,
    post_wait_after_commit_error, same_epoch_viewport_error_requires_cache_fence,
    same_epoch_viewport_side_effect_error, CommandName,
};
use rub_daemon::error::{ErrorCode, ErrorEnvelope, RubError};
use rub_daemon::frame_scope::{
    effective_interaction_frame_id, effective_request_frame_id, ensure_tab_frame_available,
    FrameInventoryEntry,
};
use rub_daemon::frames::{
    frame_inventory_payload, frame_selection_payload, frame_selection_subject,
    resolve_selected_frame_id, FrameSelectionArgs,
};
use rub_daemon::inspect::{route_inspect, InspectHandler};
use rub_daemon::interference::{
    interference_mode_result, interference_payload, interference_recovery_result,
    interference_subject, mode_str, parse_interference_command, InterferenceCommand,
};
use rub_daemon::json::{Json, JsonNumber, JsonObject};
use rub_daemon::model::{
    FrameContextInfo, InterferenceMode, OverlayState, ReadinessInfo, ReadinessStatus,
    RouteStability,
};
use rub_daemon::readiness::ReadinessState;
use serde_json::Value;

/// A JSON value as the library holds it.
fn own(value: &Value) -> Json {
    match value {
        Value::Null => Json::Null,
        Value::Bool(b) => Json::Bool(*b),
        Value::Number(n) => match (n.as_u64(), n.as_i64()) {
            (Some(u), _) => Json::Number(JsonNumber::PosInt(u)),
            (None, Some(i)) => Json::Number(JsonNumber::NegInt(i)),
            (None, None) => Json::Number(JsonNumber::Float(n.to_string())),
        },
        Value::String(s) => Json::Text(s.clone()),
        Value::Array(items) => Json::Array(items.iter().map(own).collect()),
        Value::Object(members) => {
            let mut object = JsonObject::new();
            for (key, member) in members {
                object.insert(key, own(member));
            }
            Json::Object(object)
        }
    }
}

/// A JSON value as serde_json holds it.
fn plain(value: &Json) -> Value {
    match value {
        Json::Null => Value::Null,
        Json::Bool(b) => Value::Bool(*b),
        Json::Number(JsonNumber::PosInt(u)) => Value::from(*u),
        Json::Number(JsonNumber::NegInt(i)) => Value::from(*i),
        Json::Number(JsonNumber::Float(s)) => serde_json::from_str(s).unwrap(),
        Json::Text(s) => Value::from(s.as_str()),
        Json::Array(items) => Value::Array(items.iter().map(plain).collect()),
        Json::Object(object) => Value::Object(
            object
                .entries
                .iter()
                .map(|(key, member)| (key.clone(), plain(member)))
                .collect(),
        ),
    }
}

fn json(text: &str) -> Json {
    own(&value(text))
}

fn value(text: &str) -> Value {
    serde_json::from_str(text).unwrap()
}

fn context(envelope: &ErrorEnvelope) -> Value {
    plain(envelope.context.as_ref().expect("context"))
}

#[test]
fn readiness_state_tracks_projection_and_readiness() {
    let mut state = ReadinessState::default();
    assert!(!state.is_ready());

    state.replace(ReadinessInfo {
        status: ReadinessStatus::Active,
        route_stability: RouteStability::Transitioning,
        loading_present: true,
        skeleton_present: true,
        overlay_state: OverlayState::Development,
        document_ready_state: Some("interactive".to_string()),
        blocking_signals: vec![
            "document_ready_state:interactive".to_string(),
            "loading_present".to_string(),
            "skeleton_present".to_string(),
            "overlay:development".to_string(),
            "route_transitioning".to_string(),
        ],
        degraded_reason: None,
    });

    let projection = state.projection();
    assert!(state.is_ready());
    assert_eq!(projection.route_stability, RouteStability::Transitioning);
    assert!(projection.loading_present);
    assert!(projection.skeleton_present);
    assert_eq!(projection.overlay_state, OverlayState::Development);
    assert_eq!(
        projection.document_ready_state.as_deref(),
        Some("interactive")
    );
    assert_eq!(
        projection.blocking_signals,
        vec![
            "document_ready_state:interactive",
            "loading_present",
            "skeleton_present",
            "overlay:development",
            "route_transitioning",
        ]
    );
    assert_eq!(projection.degraded_reason, None);
}

#[test]
fn readiness_state_can_mark_degraded() {
    let mut state = ReadinessState::default();
    state.mark_degraded("live_probe_failed:no_page".to_string());

    let projection = state.projection();
    assert!(state.is_ready());
    assert_eq!(projection.status, ReadinessStatus::Degraded);
    assert_eq!(
        projection.degraded_reason.as_deref(),
        Some("live_probe_failed:no_page")
    );
    assert_eq!(projection.document_ready_state, None);
    assert!(projection.blocking_signals.is_empty());
}

#[test]
fn annotate_file_artifact_state_marks_command_artifact_boundary() {
    let mut artifact = json(
        r#"{"kind": "storage_snapshot", "path": "/tmp/storage.json", "direction": "output"}"#,
    );

    annotate_file_artifact_state(
        &mut artifact,
        "router.storage_export_artifact",
        "storage_snapshot_result",
        "durable",
    );

    let artifact = plain(&artifact);
    assert_eq!(
        artifact["artifact_state"]["truth_level"],
        "command_artifact"
    );
    assert_eq!(
        artifact["artifact_state"]["artifact_authority"],
        "router.storage_export_artifact"
    );
    assert_eq!(
        artifact["artifact_state"]["upstream_truth"],
        "storage_snapshot_result"
    );
    assert_eq!(artifact["artifact_state"]["control_role"], "display_only");
    assert_eq!(artifact["artifact_state"]["durability"], "durable");
    assert_eq!(artifact["kind"], "storage_snapshot");
}

#[test]
fn output_artifact_durability_matches_commit_outcome() {
    assert_eq!(
        output_artifact_durability(FileCommitOutcome::Durable),
        "durable"
    );
    assert_eq!(
        output_artifact_durability(FileCommitOutcome::Published),
        "published"
    );
    assert_eq!(INPUT_ARTIFACT_DURABILITY, "external_input_reference");
}

#[test]
fn annotate_path_reference_state_marks_external_input_reference() {
    let mut payload = json(r#"{"path": "/tmp/upload.txt"}"#);

    annotate_path_reference_state(
        &mut payload,
        "router.upload.input_path",
        "upload_command_request",
        "external_input_file",
    );

    let payload = plain(&payload);
    assert_eq!(payload["path_state"]["truth_level"], "input_path_reference");
    assert_eq!(
        payload["path_state"]["path_authority"],
        "router.upload.input_path"
    );
    assert_eq!(
        payload["path_state"]["upstream_truth"],
        "upload_command_request"
    );
    assert_eq!(payload["path_state"]["path_kind"], "external_input_file");
    assert_eq!(payload["path_state"]["control_role"], "display_only");
}

#[test]
fn annotate_operator_path_reference_state_marks_operator_projection_reference() {
    let mut payload = json(r#"{"rub_home": "/tmp/rub-home"}"#);

    annotate_operator_path_reference_state(
        &mut payload,
        "rub_home_state",
        "router.doctor.rub_home",
        "doctor_disk_report",
        "daemon_home_directory",
    );

    let payload = plain(&payload);
    assert_eq!(
        payload["rub_home_state"]["truth_level"],
        "operator_path_reference"
    );
    assert_eq!(
        payload["rub_home_state"]["path_authority"],
        "router.doctor.rub_home"
    );
    assert_eq!(
        payload["rub_home_state"]["upstream_truth"],
        "doctor_disk_report"
    );
    assert_eq!(
        payload["rub_home_state"]["path_kind"],
        "daemon_home_directory"
    );
    assert_eq!(payload["rub_home_state"]["control_role"], "display_only");
}

#[test]
fn values_that_are_no_objects_are_not_annotated() {
    let mut payload = json("[1, 2]");
    annotate_path_reference_state(&mut payload, "a", "b", "c");
    assert_eq!(plain(&payload), value("[1, 2]"));
}

#[test]
fn confirmed_interaction_is_automation_committed() {
    ensure_committed_automation_result(
        "click",
        Some(&json(
            r#"{"interaction": {"confirmation_status": "confirmed", "confirmation_kind": "page_mutation"}}"#,
        )),
    )
    .expect("confirmed automation interaction should pass");
}

#[test]
fn degraded_interaction_fails_automation_commit_fence() {
    let error = ensure_committed_automation_result(
        "click",
        Some(&json(
            r#"{"interaction": {"confirmation_status": "degraded", "confirmation_kind": "value_applied"}}"#,
        )),
    )
    .expect_err("degraded interaction should fail closed in automation");
    assert_eq!(error.code, ErrorCode::WaitTimeout);
}

#[test]
fn matched_wait_after_is_explicit_fallback_automation_authority() {
    ensure_committed_automation_result(
        "click",
        Some(&json(
            r#"{
                "interaction": {"confirmation_status": "degraded", "confirmation_kind": "page_mutation"},
                "wait_after": {"matched": true, "kind": "text", "value": "Saved"}
            }"#,
        )),
    )
    .expect("matched wait_after should satisfy automation commit fence");
}

#[test]
fn results_without_an_interaction_pass_the_automation_fence() {
    assert!(ensure_committed_automation_result("state", None).is_ok());
    assert!(ensure_committed_automation_result("state", Some(&json("{}"))).is_ok());
}

fn closed_dialog() -> DialogRuntimeInfo {
    DialogRuntimeInfo {
        status: DialogRuntimeStatus::Active,
        pending_dialog: None,
        last_dialog: Some(pending("Hello")),
        last_result: Some(DialogResolutionInfo {
            accepted: true,
            user_input: None,
            closed_at: "2026-01-01T00:00:01Z".to_string(),
        }),
        degraded_reason: None,
    }
}

fn pending(message: &str) -> PendingDialogInfo {
    PendingDialogInfo {
        kind: DialogKind::Alert,
        message: message.to_string(),
        url: "https://example.com".to_string(),
        tab_target_id: Some("target-1".to_string()),
        frame_id: None,
        default_prompt: None,
        has_browser_handler: true,
        opened_at: "2026-01-01T00:00:00Z".to_string(),
    }
}

#[test]
fn browser_handled_dialog_error_is_explainable() {
    let runtime = closed_dialog();

    let envelope = browser_handled_dialog_error(&runtime, true).into_envelope();
    assert_eq!(envelope.code, ErrorCode::InvalidInput);
    assert!(envelope.message.contains("already closed"));
    assert_eq!(context(&envelope)["requested_action"], "accept");
}

fn active_tab(target_id: &str) -> TabInfo {
    TabInfo {
        index: 0,
        target_id: target_id.to_string(),
        url: "https://example.com".to_string(),
        title: "Test".to_string(),
        active: true,
    }
}

fn inactive_tab(target_id: &str) -> TabInfo {
    TabInfo {
        index: 1,
        target_id: target_id.to_string(),
        url: "https://other.com".to_string(),
        title: "Other".to_string(),
        active: false,
    }
}

#[test]
fn intercept_arm_fails_when_list_tabs_returns_error() {
    let err = RubError::domain(ErrorCode::InvalidInput, "browser not running");
    let result = resolve_intercept_target_tab_id(Err(err));
    assert!(result.is_err());
    assert!(result
        .unwrap_err()
        .into_envelope()
        .message
        .contains("no active tab"));
}

#[test]
fn intercept_arm_fails_when_no_active_tab() {
    let tabs = vec![inactive_tab("tab-background")];
    let result = resolve_intercept_target_tab_id(Ok(tabs));
    assert!(result.is_err());
}

#[test]
fn intercept_arm_succeeds_with_active_tab() {
    let tabs = vec![inactive_tab("tab-bg"), active_tab("tab-fg")];
    let result = resolve_intercept_target_tab_id(Ok(tabs));
    assert_eq!(result.unwrap(), "tab-fg");
}

#[test]
fn dialog_commands_are_read_from_their_arguments() {
    assert!(matches!(
        parse_dialog_command(&json(r#"{"sub": "status"}"#)),
        Ok(DialogCommand::Status)
    ));
    match parse_dialog_command(&json(r#"{"sub": "accept", "prompt_text": "yes"}"#)) {
        Ok(DialogCommand::Handle { accept, prompt_text }) => {
            assert!(accept);
            assert_eq!(prompt_text.as_deref(), Some("yes"));
        }
        other => panic!("unexpected {:?}", other),
    }
    assert!(parse_dialog_command(&json(r#"{"sub": "juggle"}"#)).is_err());
}

#[test]
fn dialogs_are_pending_closed_or_late() {
    let mut open = closed_dialog();
    open.pending_dialog = Some(pending("Sure?"));
    assert!(ensure_pending_dialog(&open).is_ok());
    assert!(matches!(
        observe_closing_dialog(&open, true, 0),
        DialogWait::Poll
    ));
    assert!(matches!(
        observe_closing_dialog(&open, true, DIALOG_CLOSE_TIMEOUT_MS),
        DialogWait::TimedOut(_)
    ));
    match observe_closing_dialog(&closed_dialog(), true, 10) {
        DialogWait::Closed(payload) => {
            assert_eq!(plain(&payload)["subject"]["kind"], "dialog_action");
        }
        other => panic!("unexpected {:?}", other),
    }
    let quiet = DialogRuntimeInfo {
        status: DialogRuntimeStatus::Inactive,
        pending_dialog: None,
        last_dialog: None,
        last_result: None,
        degraded_reason: None,
    };
    assert!(ensure_pending_dialog(&quiet).is_err());
    let status = plain(&dialog_status_payload(&open));
    assert_eq!(status["runtime"]["pending_dialog"]["message"], "Sure?");
    let armed = plain(&intercept_armed_payload(false, &None, "tab-1"));
    assert!(armed.to_string().contains("tab-1"));
    let refused = refused_dialog_error(
        RubError::domain(ErrorCode::InvalidInput, "No dialog is showing"),
        &closed_dialog(),
        false,
    );
    assert_eq!(refused.into_envelope().code, ErrorCode::InvalidInput);
}

#[test]
fn same_epoch_mutations_clear_cached_snapshots() {
    for command in ["scroll", "fill"] {
        assert!(
            after_committed_dispatch(command, &json("{}")).clear_snapshots,
            "same-epoch {command} must clear cached snapshot authority"
        );
    }
}

#[test]
fn read_only_command_preserves_cached_snapshots() {
    assert!(!after_committed_dispatch("state", &json("{}")).clear_snapshots);
}

#[test]
fn ordinary_extract_preserves_cached_snapshots_but_scan_clears_them() {
    assert!(
        !after_committed_dispatch("extract", &json(r#"{"spec": {"title": "h1"}}"#)).clear_snapshots
    );
    assert!(after_committed_dispatch("extract", &json(r#"{"scan": {"limit": 3}}"#)).clear_snapshots);
}

#[test]
fn same_epoch_viewport_error_fence_excludes_invalid_input() {
    assert!(!same_epoch_viewport_error_requires_cache_fence(
        "scroll",
        &json("{}"),
        &RubError::domain(ErrorCode::InvalidInput, "bad scroll args"),
    ));
    assert!(same_epoch_viewport_error_requires_cache_fence(
        "scroll",
        &json("{}"),
        &RubError::domain(ErrorCode::WaitTimeout, "scroll timed out"),
    ));
    assert!(same_epoch_viewport_error_requires_cache_fence(
        "extract",
        &json(r#"{"scan": {"limit": 2}}"#),
        &RubError::domain(ErrorCode::ElementNotFound, "scan exhausted"),
    ));
    assert!(same_epoch_viewport_error_requires_cache_fence(
        "find",
        &json(r#"{"topmost": true}"#),
        &RubError::Internal("hit-test failed".to_string()),
    ));
}

#[test]
fn same_epoch_viewport_error_projects_possible_commit_contract() {
    let envelope = same_epoch_viewport_side_effect_error(
        RubError::domain_with_context(
            ErrorCode::WaitTimeout,
            "scroll timed out",
            json(r#"{"source": "browser"}"#),
        ),
        "scroll",
    )
    .into_envelope();

    assert_eq!(envelope.code, ErrorCode::WaitTimeout);
    let context = context(&envelope);
    assert_eq!(context["source"], "browser");
    assert_eq!(
        context["same_epoch_viewport_side_effect"]["cache_fence"],
        "snapshot_cache_cleared"
    );
    assert_eq!(
        context["same_epoch_viewport_side_effect"]["recovery_contract"]["kind"],
        "viewport_side_effect_possible_commit"
    );
    assert_eq!(
        context["same_epoch_viewport_side_effect"]["recovery_contract"]["fresh_command_retry_safe"],
        false
    );
}

#[test]
fn post_wait_failure_preserves_committed_projection_truth() {
    let committed_projection = r#"{"interaction": {"semantic_class": "click"}, "dom_epoch": 7}"#;
    let envelope = post_wait_after_commit_error(
        RubError::domain(ErrorCode::WaitTimeout, "wait_after timed out"),
        "click",
        json(committed_projection),
        Some(7),
    )
    .into_envelope();

    assert_eq!(envelope.code, ErrorCode::WaitTimeout);
    let context = context(&envelope);
    assert_eq!(context["reason"], "post_wait_failed_after_partial_commit");
    assert_eq!(
        context["partial_commit"]["recovery_contract"]["kind"],
        "partial_commit"
    );
    assert_eq!(
        context["committed_response_projection"],
        value(committed_projection)
    );
}

#[test]
fn failed_scrolls_clear_snapshots_and_say_so() {
    let failed = after_failed_dispatch(
        "scroll",
        &json("{}"),
        RubError::domain(ErrorCode::WaitTimeout, "scroll timed out"),
    );
    assert!(failed.clear_snapshots);
    let envelope = failed.error.into_envelope();
    assert_eq!(envelope.message, "scroll timed out");
    assert_eq!(
        context(&envelope)["same_epoch_viewport_side_effect"]["cache_fence"],
        "snapshot_cache_cleared"
    );
    let refused = after_failed_dispatch(
        "scroll",
        &json("{}"),
        RubError::domain(ErrorCode::InvalidInput, "bad scroll args"),
    );
    assert!(!refused.clear_snapshots);
    assert!(refused.error.into_envelope().context.is_none());
}

#[test]
fn command_metadata_single_sources_internal_and_post_wait_flags() {
    let handshake = command_metadata("_handshake");
    assert!(handshake.internal);
    assert!(!handshake.supports_post_wait);
    assert!(!handshake.in_process_only);
    assert!(is_internal_command("_handshake"));
    assert!(!is_in_process_only_command("_handshake"));

    let open = command_metadata("open");
    assert!(!open.internal);
    assert!(open.supports_post_wait);
    assert!(!open.in_process_only);
    assert!(command_supports_post_wait("open"));

    let history = command_metadata("history");
    assert!(!history.internal);
    assert!(!history.supports_post_wait);
    assert!(!history.in_process_only);

    let trigger_fill = command_metadata("_trigger_fill");
    assert!(trigger_fill.internal);
    assert!(trigger_fill.supports_post_wait);
    assert!(trigger_fill.in_process_only);
    assert!(is_internal_command("_trigger_fill"));
    assert!(is_in_process_only_command("_trigger_fill"));
}

#[test]
fn commands_are_routed_by_name() {
    let click = dispatch_named_command("click").expect("a command");
    assert!(matches!(click.command, CommandName::Click));
    let unknown = dispatch_named_command("juggle").unwrap_err().into_envelope();
    assert_eq!(unknown.code, ErrorCode::InvalidInput);
    assert!(unknown.message.contains("juggle"));
}

#[test]
fn frame_selection_subject_prefers_typed_selector() {
    let selector = FrameSelectionArgs {
        top: false,
        index: Some(2),
        name: Some("ignored".to_string()),
    };
    assert_eq!(plain(&frame_selection_subject(&selector))["kind"], "index");
    assert_eq!(plain(&frame_selection_subject(&selector))["index"], 2);
}

fn frame_inventory(frame_id: &str) -> FrameInventoryEntry {
    FrameInventoryEntry {
        index: 0,
        frame: FrameContextInfo {
            frame_id: frame_id.to_string(),
            name: Some(frame_id.to_string()),
            parent_frame_id: None,
            target_id: Some("target-1".to_string()),
            url: Some(format!("https://example.test/{frame_id}")),
            depth: 0,
            same_origin_accessible: Some(true),
        },
        is_primary: frame_id == "root",
        is_current: frame_id == "root",
    }
}

fn frame_inventory_with_hit_test_authority(
    frame_id: &str,
    same_origin_accessible: Option<bool>,
) -> FrameInventoryEntry {
    let mut entry = frame_inventory(frame_id);
    entry.frame.same_origin_accessible = same_origin_accessible;
    entry.is_primary = false;
    entry.is_current = false;
    entry
}

#[test]
fn effective_request_frame_id_uses_selected_frame_authority() {
    let frames = Ok(vec![frame_inventory("root"), frame_inventory("child")]);
    let frame_id = effective_request_frame_id(&json("{}"), &Some("child".to_string()), &frames)
        .expect("selected frame should remain authoritative");
    assert_eq!(frame_id.as_deref(), Some("child"));
}

#[test]
fn effective_request_frame_id_accepts_selected_frame_without_hit_test_authority() {
    let frames = Ok(vec![
        frame_inventory("root"),
        frame_inventory_with_hit_test_authority("child", Some(false)),
    ]);
    let frame_id = effective_request_frame_id(&json("{}"), &Some("child".to_string()), &frames)
        .expect("read/storage/execution paths only need selected-frame continuity");
    assert_eq!(frame_id.as_deref(), Some("child"));
}

#[test]
fn effective_interaction_frame_id_rejects_selected_frame_without_hit_test_authority() {
    let frames = Ok(vec![
        frame_inventory("root"),
        frame_inventory_with_hit_test_authority("child", Some(false)),
    ]);
    let envelope =
        effective_interaction_frame_id(&json("{}"), &Some("child".to_string()), &frames)
            .expect_err("interaction paths need top-level hit-test authority")
            .into_envelope();
    assert_eq!(envelope.code, ErrorCode::InvalidInput);
    assert!(envelope.message.contains("top-level hit-test authority"));
    assert_eq!(
        context(&envelope)["reason"],
        "continuity_frame_unavailable"
    );
}

#[test]
fn effective_request_frame_id_reports_selected_frame_drift_as_invalid_input() {
    let frames = Ok(vec![frame_inventory("root")]);
    let envelope = effective_request_frame_id(&json("{}"), &Some("child".to_string()), &frames)
        .expect_err("missing selected frame must fail closed")
        .into_envelope();
    assert_eq!(envelope.code, ErrorCode::InvalidInput);
    assert_eq!(
        context(&envelope)["reason"],
        "continuity_frame_unavailable"
    );
}

#[test]
fn effective_request_frame_id_reports_inventory_probe_failure_as_frame_continuity_loss() {
    let frames = Err("list frames failed".to_string());
    let envelope = effective_request_frame_id(&json("{}"), &Some("child".to_string()), &frames)
        .expect_err("inventory probe failure must fail closed")
        .into_envelope();
    assert_eq!(envelope.code, ErrorCode::InvalidInput);
    assert_eq!(
        context(&envelope)["reason"],
        "continuity_frame_inventory_unavailable"
    );
    assert!(envelope.message.contains("selected-frame authority"));
}

#[test]
fn ensure_tab_frame_available_reports_inventory_probe_failure_as_degraded_authority() {
    let frames = Err("list tab frames failed".to_string());
    let envelope = ensure_tab_frame_available(&frames, "target-1", "child", "source")
        .expect_err("tab inventory probe failure must fail closed")
        .into_envelope();
    assert_eq!(envelope.code, ErrorCode::SessionBusy);
    assert_eq!(
        context(&envelope)["reason"],
        "trigger_source_frame_inventory_unavailable"
    );
    assert!(envelope.message.contains("frame inventory"));
}

#[test]
fn requests_override_the_selected_frame() {
    let frames = Ok(vec![frame_inventory("root"), frame_inventory("child")]);
    let frame_id = effective_request_frame_id(
        &json(r#"{"_orchestration": {"frame_id": " root "}}"#),
        &Some("child".to_string()),
        &frames,
    )
    .expect("the requested frame is there");
    assert_eq!(frame_id.as_deref(), Some("root"));
    let none = effective_request_frame_id(&json("{}"), &None, &frames).expect("no frame asked for");
    assert_eq!(none, None);
}

#[test]
fn frames_are_selected_by_index_name_or_top() {
    let mut first = frame_inventory("a");
    first.index = 1;
    let mut second = frame_inventory("b");
    second.index = 2;
    let frames = vec![first, second];
    let by_name = FrameSelectionArgs {
        top: false,
        index: None,
        name: Some("b".to_string()),
    };
    assert_eq!(
        resolve_selected_frame_id(&by_name, &frames).unwrap().as_deref(),
        Some("b")
    );
    let by_index = FrameSelectionArgs {
        top: false,
        index: Some(1),
        name: None,
    };
    assert_eq!(
        resolve_selected_frame_id(&by_index, &frames).unwrap().as_deref(),
        Some("a")
    );
    let top = FrameSelectionArgs {
        top: true,
        index: None,
        name: None,
    };
    assert_eq!(resolve_selected_frame_id(&top, &frames).unwrap(), None);
    let absent = FrameSelectionArgs {
        top: false,
        index: Some(9),
        name: None,
    };
    assert!(resolve_selected_frame_id(&absent, &frames).is_err());
    let unknown = FrameSelectionArgs {
        top: false,
        index: None,
        name: Some("zzz".to_string()),
    };
    assert!(resolve_selected_frame_id(&unknown, &frames).is_err());
    let twins = vec![frame_inventory("x"), frame_inventory("x")];
    let ambiguous = FrameSelectionArgs {
        top: false,
        index: None,
        name: Some("x".to_string()),
    };
    assert!(resolve_selected_frame_id(&ambiguous, &twins).is_err());
}

#[test]
fn interference_commands_are_read_and_answered() {
    assert!(matches!(
        parse_interference_command(&json(r#"{"sub": "mode", "mode": "strict"}"#)),
        Ok(InterferenceCommand::Mode(InterferenceMode::Strict))
    ));
    assert!(matches!(
        parse_interference_command(&json(r#"{"sub": "recover"}"#)),
        Ok(InterferenceCommand::Recover)
    ));
    assert!(parse_interference_command(&json(r#"{"sub": "mode", "mode": "loud"}"#)).is_err());
    assert_eq!(mode_str(InterferenceMode::PublicWebStable), "public_web_stable");
    let result = plain(&interference_mode_result(
        InterferenceMode::Strict,
        &vec!["a".to_string()],
    ));
    assert_eq!(result["mode"], "strict");
    assert_eq!(result["active_policies"][0], "a");
    assert!(plain(&interference_subject(InterferenceCommand::Recover)).is_object());
}

#[test]
fn inspections_are_routed_without_their_routing_key() {
    let route = route_inspect(&json(r#"{"sub": "list", "spec": "{}"}"#)).expect("a handler");
    assert!(matches!(route.handler, InspectHandler::List));
    assert_eq!(route.sub, "list");
    assert_eq!(plain(&route.args), value(r#"{"spec": "{}"}"#));
    assert!(route_inspect(&json(r#"{"sub": "juggle"}"#)).is_err());
}

#[test]
fn same_epoch_fence_runs_before_post_wait_failure() {
    let committed = after_committed_dispatch("scroll", &json("{}"));
    assert!(
        committed.clear_snapshots,
        "same-epoch mutation must clear cached snapshots before post-wait can fail"
    );

    let error = post_wait_after_commit_error(
        RubError::domain(ErrorCode::WaitTimeout, "synthetic wait_after failure"),
        "scroll",
        json("{}"),
        None,
    );
    assert_eq!(error.into_envelope().code, ErrorCode::WaitTimeout);
}

#[test]
fn read_only_post_wait_failure_preserves_cached_snapshots() {
    let committed = after_committed_dispatch("state", &json("{}"));
    assert!(
        !committed.clear_snapshots,
        "read-only commands must not clear cached snapshots when post-wait fails"
    );

    let error = post_wait_after_commit_error(
        RubError::domain(ErrorCode::WaitTimeout, "synthetic wait_after failure"),
        "state",
        json("{}"),
        None,
    );
    assert_eq!(error.into_envelope().code, ErrorCode::WaitTimeout);
}

#[test]
fn frame_answers_name_the_current_frame_and_the_items() {
    let current = json(r#"{"frame_id":"root"}"#);
    let items = json(r#"[{"index":0}]"#);
    let runtime = json(r#"{"status":"top"}"#);
    assert_eq!(
        plain(&frame_inventory_payload(current.clone(), items.clone(), runtime.clone())),
        value(
            r#"{
                "subject": {"kind": "frame_inventory"},
                "result": {"current_frame": {"frame_id": "root"}, "items": [{"index": 0}]},
                "runtime": {"status": "top"}
            }"#
        )
    );
    let args = FrameSelectionArgs {
        top: false,
        index: Some(0),
        name: None,
    };
    assert_eq!(
        plain(&frame_selection_payload(&args, current, items, runtime)),
        value(
            r#"{
                "subject": {
                    "kind": "frame_selection",
                    "selector": {"kind": "index", "index": 0}
                },
                "result": {"current_frame": {"frame_id": "root"}, "items": [{"index": 0}]},
                "runtime": {"status": "top"}
            }"#
        )
    );
}

#[test]
fn interference_recoveries_report_the_handoff() {
    let result = interference_recovery_result(
        json(r#"{"attempted":true}"#),
        json(r#"{"active":false}"#),
    );
    let answer = interference_payload(
        interference_subject(InterferenceCommand::Recover),
        result,
        json("{}"),
    );
    assert_eq!(
        plain(&answer),
        value(
            r#"{
                "subject": {"kind": "interference_recovery", "action": "recover"},
                "result": {"recovery": {"attempted": true}, "handoff": {"active": false}},
                "runtime": {}
            }"#
        )
    );
}
