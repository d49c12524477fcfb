use rub_daemon::history::export::{
    build_export_projection, export_pipe_history, export_script_history, push_script_line,
    render_export_script, WorkflowCaptureClass, WorkflowCaptureDeliveryState, WorkflowCaptureEntry,
    WorkflowCaptureProjection, WorkflowExportProjection,
};
use rub_daemon::history::projection::{
    workflow_export_projection_state_json, CommandHistoryProjection,
};
use rub_daemon::history::{cmd_history, parse_history_request, HistoryFormat};
use rub_daemon::json::{Json, JsonNumber, JsonObject};
use serde_json::Value;

/// A JSON value as the library holds it.
fn own(value: &Value) -> Json {
    match value {
        Value::Null => Json::Null,
        Value::Bool(b) => Json::Bool(*b),
        Value::Number(n) => match (n.as_u64(), n.as_i64()) {
            (Some(u), _) => Json::Number(JsonNumber::PosInt(u)),
            (None, Some(i)) => Json::Number(JsonNumber::NegInt(i)),
            (None, None) => Json::Number(JsonNumber::Float(n.to_string())),
        },
        Value::String(s) => Json::Text(s.clone()),
        Value::Array(items) => Json::Array(items.iter().map(own).collect()),
        Value::Object(members) => {
            let mut object = JsonObject::new();
            for (key, member) in members {
                object.insert(key, own(member));
            }
            Json::Object(object)
        }
    }
}

/// A JSON value as serde_json holds it.
fn plain(value: &Json) -> Value {
    match value {
        Json::Null => Value::Null,
        Json::Bool(b) => Value::Bool(*b),
        Json::Number(JsonNumber::PosInt(u)) => Value::from(*u),
        Json::Number(JsonNumber::NegInt(i)) => Value::from(*i),
        Json::Number(JsonNumber::Float(s)) => serde_json::from_str(s).unwrap(),
        Json::Text(s) => Value::from(s.as_str()),
        Json::Array(items) => Value::Array(items.iter().map(plain).collect()),
        Json::Object(object) => Value::Object(
            object
                .entries
                .iter()
                .map(|(key, member)| (key.clone(), plain(member)))
                .collect(),
        ),
    }
}

fn json(text: &str) -> Json {
    own(&value(text))
}

fn value(text: &str) -> Value {
    serde_json::from_str(text).unwrap()
}

fn history(args: &str, projection: CommandHistoryProjection) -> Value {
    let request = parse_history_request(&json(args)).expect("a history request");
    plain(&cmd_history(&request, projection))
}

fn retained(sequences: std::ops::RangeInclusive<u64>, lost: u64) -> CommandHistoryProjection {
    let entries: Vec<Json> = sequences
        .clone()
        .map(|n| json(&format!(r#"{{"sequence": {n}, "command": "open"}}"#)))
        .collect();
    CommandHistoryProjection {
        entries,
        oldest_retained_sequence: Some(*sequences.start()),
        newest_retained_sequence: Some(*sequences.end()),
        dropped_before_retention: 0,
        dropped_before_projection: lost,
    }
}

#[test]
fn command_history_marks_surface_as_bounded_post_commit_projection() {
    let exported = history(r#"{ "last": 10 }"#, retained(1..=1, 0));
    let state = &exported["result"]["projection_state"];
    assert_eq!(state["surface"], "command_history");
    assert_eq!(state["projection_kind"], "bounded_post_commit_projection");
    assert_eq!(state["truth_level"], "operator_projection");
    assert_eq!(state["projection_authority"], "session.history");
    assert_eq!(state["upstream_commit_truth"], "daemon_response_committed");
    assert_eq!(state["control_role"], "display_only");
    assert_eq!(state["durability"], "best_effort");
    assert_eq!(state["lossy"], false);
    assert_eq!(
        exported["result"]["retention_window"]["oldest_retained_sequence"],
        1
    );
}

#[test]
fn command_history_non_export_mode_honors_from_to_range() {
    let request = parse_history_request(&json(r#"{ "from": 2, "to": 3 }"#)).expect("a range");
    assert!(request.wants_range());
    assert_eq!(request.from, Some(2));
    assert_eq!(request.to, Some(3));
    let history = history(r#"{ "from": 2, "to": 3 }"#, retained(2..=3, 0));
    let items = history["result"]["items"].as_array().expect("items");
    assert_eq!(items.len(), 2);
    assert_eq!(items[0]["sequence"], 2);
    assert_eq!(items[1]["sequence"], 3);
}

#[test]
fn command_history_projection_state_ignores_global_projection_loss_when_last_window_is_complete() {
    let history = history(r#"{ "last": 5 }"#, retained(252..=256, 44));
    assert!(history["result"]["dropped_before_projection"].as_u64().expect("a count") > 0);
    assert_eq!(history["result"]["projection_state"]["lossy"], false);
    assert_eq!(
        history["result"]["projection_state"]["lossy_reasons"],
        value("[]")
    );
}

#[test]
fn command_history_projection_state_ignores_global_projection_loss_when_range_window_is_complete() {
    let history = history(r#"{ "from": 252, "to": 256 }"#, retained(252..=256, 44));
    assert!(history["result"]["dropped_before_projection"].as_u64().expect("a count") > 0);
    assert_eq!(history["result"]["projection_state"]["lossy"], false);
    assert_eq!(
        history["result"]["projection_state"]["lossy_reasons"],
        value("[]")
    );
}

#[test]
fn command_history_tells_retention_loss_whatever_is_selected() {
    for args in [r#"{ "last": 2 }"#, r#"{ "from": 5, "to": 6 }"#, r#"{ "from": 1 }"#] {
        let mut projection = retained(5..=6, 0);
        projection.dropped_before_retention = 4;
        let state = &history(args, projection)["result"]["projection_state"];
        assert_eq!(state["lossy"], true);
        assert_eq!(state["lossy_reasons"], value(r#"["dropped_before_retention"]"#));
    }
    let mut both = retained(5..=6, 3);
    both.dropped_before_retention = 4;
    assert_eq!(
        history(r#"{ "last": 10 }"#, both)["result"]["projection_state"]["lossy_reasons"],
        value(r#"["dropped_before_projection", "dropped_before_retention"]"#)
    );
}

#[test]
fn history_requests_are_read_from_their_arguments() {
    let plain_request = parse_history_request(&json("{}")).expect("the default");
    assert!(matches!(plain_request.format, HistoryFormat::List));
    assert!(!plain_request.wants_range());
    let pipe = parse_history_request(&json(r#"{"export_pipe": true}"#)).expect("a pipe");
    assert!(matches!(pipe.format, HistoryFormat::Pipe));
    let script = parse_history_request(&json(r#"{"export_script": true}"#)).expect("a script");
    assert!(matches!(script.format, HistoryFormat::Script));
    assert!(parse_history_request(&json(r#"{"from": 4, "to": 3}"#)).is_err());
}

fn captured(
    sequence: u64,
    command: &str,
    args: &str,
    capture_class: WorkflowCaptureClass,
) -> WorkflowCaptureEntry {
    WorkflowCaptureEntry {
        sequence,
        request_id: format!("req-{sequence}"),
        command_id: None,
        command: command.to_string(),
        args: json(args),
        capture_class,
        delivery_state: WorkflowCaptureDeliveryState::Delivered,
        workflow_allowed: true,
    }
}

fn capture(entries: Vec<WorkflowCaptureEntry>) -> WorkflowCaptureProjection {
    let oldest = entries.first().map(|e| e.sequence);
    let newest = entries.last().map(|e| e.sequence);
    WorkflowCaptureProjection {
        entries,
        oldest_retained_sequence: oldest,
        newest_retained_sequence: newest,
        dropped_before_retention: 0,
        dropped_before_projection: 0,
    }
}

#[test]
fn export_pipe_history_filters_admin_and_observation_by_default() {
    let exported = plain(&export_pipe_history(
        &capture(vec![
            captured(
                1,
                "open",
                r#"{ "url": "https://example.com" }"#,
                WorkflowCaptureClass::Workflow,
            ),
            captured(2, "observe", r#"{ "limit": 5 }"#, WorkflowCaptureClass::Observation),
            captured(3, "close", "{}", WorkflowCaptureClass::Administrative),
        ]),
        10,
        None,
        None,
        false,
    ));
    let state = &exported["result"]["projection_state"];
    assert_eq!(state["surface"], "workflow_capture_export");
    assert_eq!(state["projection_authority"], "session.workflow_capture");
    assert_eq!(state["truth_level"], "operator_projection");
    assert_eq!(state["upstream_commit_truth"], "daemon_response_committed");
    assert_eq!(state["control_role"], "display_only");
    assert_eq!(state["durability"], "best_effort");
    assert_eq!(exported["result"]["entries"].as_array().map(Vec::len), Some(1));
    assert_eq!(exported["result"]["entries"][0]["command"], "open");
    assert_eq!(exported["result"]["steps"].as_array().map(Vec::len), Some(1));
    assert_eq!(exported["result"]["steps"][0]["command"], "open");
    assert!(exported["result"]["steps"][0].get("source").is_none());
    assert_eq!(exported["result"]["skipped"]["observation"], 1);
    assert_eq!(exported["result"]["skipped"]["administrative"], 1);
}

#[test]
fn export_script_history_wraps_replayable_pipe_file() {
    let exported = plain(&export_script_history(
        &capture(vec![captured(
            1,
            "extract",
            r#"{
                "spec": "{}",
                "spec_source": {
                    "kind": "file",
                    "path": "/tmp/extract.json",
                    "path_state": {
                        "truth_level": "input_path_reference",
                        "path_authority": "cli.extract.spec_source.path",
                        "upstream_truth": "cli_extract_file_option",
                        "path_kind": "json_spec_file",
                        "control_role": "display_only"
                    }
                }
            }"#,
            WorkflowCaptureClass::Workflow,
        )]),
        10,
        None,
        None,
        false,
    ));
    let script = exported["result"]["export"]["content"]
        .as_str()
        .expect("script string");

    assert_eq!(exported["result"]["format"], "script");
    assert!(script.contains("rub workflow - exported from history"));
    assert!(script.contains("\"$RUB\" pipe --file \"$RUB_WORKFLOW_FILE\""));
    assert!(script.contains("\"command\": \"extract\""));
    assert!(script.contains("\"path_authority\": \"cli.extract.spec_source.path\""));
    assert!(script.contains("mktemp \"${TMPDIR:-/tmp}/rub-workflow.XXXXXX\""));
    assert!(!script.contains("XXXXXX.json"));
}

#[test]
fn export_pipe_history_supports_sequence_range_filters() {
    let exported = plain(&export_pipe_history(
        &capture(vec![
            captured(1, "open", "{}", WorkflowCaptureClass::Workflow),
            captured(2, "type", "{}", WorkflowCaptureClass::Workflow),
            captured(3, "click", "{}", WorkflowCaptureClass::Workflow),
        ]),
        10,
        Some(2),
        Some(3),
        false,
    ));
    assert_eq!(exported["subject"]["selection"]["from"], 2);
    assert_eq!(exported["subject"]["selection"]["to"], 3);
    assert_eq!(exported["result"]["entries"].as_array().map(Vec::len), Some(2));
    assert_eq!(exported["result"]["entries"][0]["command"], "type");
    assert_eq!(exported["result"]["entries"][1]["command"], "click");
}

#[test]
fn export_pipe_history_surfaces_delivery_failed_after_commit_source_metadata() {
    let mut entry = captured(
        1,
        "open",
        r#"{ "url": "https://example.com" }"#,
        WorkflowCaptureClass::Workflow,
    );
    entry.command_id = Some("cmd-1".to_string());
    entry.delivery_state = WorkflowCaptureDeliveryState::DeliveryFailedAfterCommit;
    let exported = plain(&export_pipe_history(&capture(vec![entry]), 10, None, None, false));
    assert_eq!(
        exported["result"]["entries"][0]["source"]["delivery_state"],
        "delivery_failed_after_commit"
    );
}

#[test]
fn export_history_reports_truncation_when_requested_range_exceeds_retained_capture() {
    let mut retained = capture(
        (3..=130)
            .map(|n| captured(n, "click", "{}", WorkflowCaptureClass::Workflow))
            .collect(),
    );
    retained.dropped_before_retention = 2;
    let exported = plain(&export_pipe_history(&retained, 200, None, None, false));
    assert_eq!(exported["result"]["projection_state"]["lossy"], true);
    assert_eq!(
        exported["result"]["projection_state"]["lossy_reasons"],
        value(r#"["retention_truncated"]"#)
    );
    assert_eq!(exported["result"]["complete"], false);
    let window = &exported["result"]["capture_window"];
    assert_eq!(window["oldest_retained_sequence"], 3);
    assert_eq!(window["dropped_before_retention"], 2);
    assert_eq!(window["truncated"], true);
}

#[test]
fn export_history_marks_projection_loss_as_incomplete() {
    let mut retained = capture(
        (252..=256)
            .map(|n| captured(n, "open", "{}", WorkflowCaptureClass::Workflow))
            .collect(),
    );
    retained.dropped_before_projection = 44;
    let exported = plain(&export_pipe_history(&retained, 5, None, None, false));
    assert_eq!(exported["result"]["complete"], true);
    let window = &exported["result"]["capture_window"];
    assert!(window["dropped_before_projection"].as_u64().expect("a count") > 0);
    assert_eq!(window["truncated"], false);
    assert_eq!(
        exported["result"]["projection_state"]["lossy_reasons"],
        value("[]")
    );
}

fn empty_export() -> WorkflowExportProjection {
    WorkflowExportProjection {
        steps: Vec::new(),
        source_count: 0,
        included_observation: false,
        skipped_administrative: 0,
        skipped_observation: 0,
        skipped_ineligible: 0,
        complete: false,
        selection_dropped_before_projection: false,
        capture_oldest_retained_sequence: Some(42),
        capture_newest_retained_sequence: Some(99),
        capture_dropped_before_retention: 0,
        capture_dropped_before_projection: 3,
        selection_truncated_by_retention: false,
    }
}

#[test]
fn workflow_export_projection_state_distinguishes_projection_loss_from_retention_truncation() {
    let projection = empty_export();
    let state = plain(&workflow_export_projection_state_json(&projection));
    assert_eq!(state["lossy_reasons"], value("[]"));
    assert_eq!(state["global_projection_drop_count"], 3);
}

#[test]
fn workflow_export_projection_state_marks_retention_truncation_only_when_retained_window_is_short() {
    let mut projection = empty_export();
    projection.capture_oldest_retained_sequence = Some(6);
    projection.capture_newest_retained_sequence = Some(12);
    projection.capture_dropped_before_retention = 5;
    projection.capture_dropped_before_projection = 0;
    projection.selection_truncated_by_retention = true;
    assert_eq!(
        plain(&workflow_export_projection_state_json(&projection))["lossy_reasons"],
        value(r#"["retention_truncated"]"#)
    );
}

#[test]
fn workflow_export_projection_state_ignores_global_retention_loss_when_selection_is_complete() {
    let mut projection = empty_export();
    projection.complete = true;
    projection.capture_oldest_retained_sequence = Some(6);
    projection.capture_newest_retained_sequence = Some(12);
    projection.capture_dropped_before_retention = 5;
    projection.capture_dropped_before_projection = 0;
    assert_eq!(
        plain(&workflow_export_projection_state_json(&projection))["lossy_reasons"],
        value("[]")
    );
}

#[test]
fn workflow_export_projection_state_marks_selection_relative_projection_loss_only_when_selected_window_is_short()
{
    let mut projection = empty_export();
    projection.selection_dropped_before_projection = true;
    let state = plain(&workflow_export_projection_state_json(&projection));
    assert_eq!(
        state["lossy_reasons"],
        value(r#"["dropped_before_projection"]"#)
    );
    assert_eq!(state["global_projection_drop_count"], 3);
}

#[test]
fn exports_account_for_every_command() {
    let mut refused = captured(4, "doctor", "{}", WorkflowCaptureClass::Workflow);
    refused.workflow_allowed = false;
    let all = capture(vec![
        captured(1, "open", "{}", WorkflowCaptureClass::Workflow),
        captured(2, "observe", "{}", WorkflowCaptureClass::Observation),
        captured(3, "close", "{}", WorkflowCaptureClass::Administrative),
        refused,
    ]);
    let projection = build_export_projection(&all, 10, None, None, false);
    assert_eq!(projection.source_count, 4);
    assert_eq!(
        projection.steps.len()
            + projection.skipped_administrative
            + projection.skipped_observation
            + projection.skipped_ineligible,
        4
    );
    let observing = build_export_projection(&all, 10, None, None, true);
    assert_eq!(observing.skipped_observation, 0);
    assert_eq!(observing.steps.len(), 2);
    let script = render_export_script(&observing);
    assert!(script.starts_with("#!/usr/bin/env bash\n"));
    assert!(script.contains("# Source commands: 4 (2 exported, 2 skipped)"));
}

#[test]
fn script_lines_end_with_a_line_break() {
    let mut script = String::from("a");
    push_script_line(&mut script, "b");
    assert_eq!(script, "ab\n");
}
