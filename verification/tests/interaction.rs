use rub_daemon::diagnostics::{
    agent_capabilities, detection_risks, IdentityProbeStatus, IdentitySelfProbe, LaunchPolicyInfo,
    StealthCoverage,
};
use rub_daemon::error::{ErrorCode, ErrorEnvelope, RubError};
use rub_daemon::interaction::args::{
    click_command_name, click_gesture_name, requested_click_gesture, ClickArgs, ClickGesture,
    KeysArgs, TextEntryArgs, UploadArgs,
};
use rub_daemon::interaction::explain::hints::interactability_wait_command;
use rub_daemon::interaction::explain::probe::interactability_probe_payload;
use rub_daemon::interaction::explain::target::interactability_target_summary;
use rub_daemon::interaction::explain::{
    enrich_interactability_error_envelope, interactability_assessment,
    interaction_error_needs_probe,
};
use rub_daemon::interaction::plan::{
    click_result, next_observation_fence, plan_click, plan_text_entry,
    should_promote_primary_context, text_entry_result, ClickPlan, InteractionConfirmation,
    InteractionConfirmationKind, InteractionConfirmationStatus, TextEntryPlan,
};
use rub_daemon::interaction::recovery::interaction_possible_commit_recovery_contract;
use rub_daemon::interaction::replay::{semantic_replay_args, InteractionRequest};
use rub_daemon::json::{Json, JsonNumber, JsonObject};
use rub_daemon::locator::LocatorRequestArgs;
use rub_daemon::model::{
    Attributes, BoundingBox, Element, ElementTag, InterferenceKind, InterferenceObservation,
    InterferenceRuntimeInfo, InterferenceRuntimeStatus, OverlayState, ReadinessInfo,
    ReadinessStatus, RouteStability,
};
use serde_json::Value;

/// A JSON value as the library holds it.
fn own(value: &Value) -> Json {
    match value {
        Value::Null => Json::Null,
        Value::Bool(b) => Json::Bool(*b),
        Value::Number(n) => match (n.as_u64(), n.as_i64()) {
            (Some(u), _) => Json::Number(JsonNumber::PosInt(u)),
            (None, Some(i)) => Json::Number(JsonNumber::NegInt(i)),
            (None, None) => Json::Number(JsonNumber::Float(n.to_string())),
        },
        Value::String(s) => Json::Text(s.clone()),
        Value::Array(items) => Json::Array(items.iter().map(own).collect()),
        Value::Object(members) => {
            let mut object = JsonObject::new();
            for (key, member) in members {
                object.insert(key, own(member));
            }
            Json::Object(object)
        }
    }
}

/// A JSON value as serde_json holds it.
fn plain(value: &Json) -> Value {
    match value {
        Json::Null => Value::Null,
        Json::Bool(b) => Value::Bool(*b),
        Json::Number(JsonNumber::PosInt(u)) => Value::from(*u),
        Json::Number(JsonNumber::NegInt(i)) => Value::from(*i),
        Json::Number(JsonNumber::Float(s)) => serde_json::from_str(s).unwrap(),
        Json::Text(s) => Value::from(s.as_str()),
        Json::Array(items) => Value::Array(items.iter().map(plain).collect()),
        Json::Object(object) => Value::Object(
            object
                .entries
                .iter()
                .map(|(key, member)| (key.clone(), plain(member)))
                .collect(),
        ),
    }
}

fn json(text: &str) -> Json {
    own(&value(text))
}

fn value(text: &str) -> Value {
    serde_json::from_str(text).unwrap()
}

fn context(envelope: &ErrorEnvelope) -> Value {
    plain(envelope.context.as_ref().expect("context"))
}

fn target(index: u32, text: &str, disabled: bool, element_ref: &str) -> Element {
    Element {
        index,
        tag: ElementTag::Button,
        text: text.to_string(),
        attributes: if disabled {
            Attributes::new().with("disabled", "")
        } else {
            Attributes::new()
        },
        element_ref: Some(element_ref.to_string()),
        target_id: None,
        bounding_box: Some(BoundingBox {
            x: "10.0".to_string(),
            y: "20.0".to_string(),
            width: "90.0".to_string(),
            height: "24.0".to_string(),
        }),
        ax_info: None,
        listeners: None,
        depth: Some(0),
    }
}

fn overlaid(route_stability: RouteStability) -> ReadinessInfo {
    ReadinessInfo {
        status: ReadinessStatus::Active,
        route_stability,
        loading_present: false,
        skeleton_present: false,
        overlay_state: OverlayState::UserBlocking,
        document_ready_state: Some("complete".to_string()),
        blocking_signals: vec!["overlay:user_blocking".to_string()],
        degraded_reason: None,
    }
}

fn overlay_interference() -> InterferenceRuntimeInfo {
    InterferenceRuntimeInfo {
        status: InterferenceRuntimeStatus::Active,
        current_interference: Some(InterferenceObservation {
            kind: InterferenceKind::OverlayInterference,
            summary: "overlay".to_string(),
            current_url: None,
            primary_url: None,
        }),
        ..InterferenceRuntimeInfo::default()
    }
}

fn any(list: &Value, wanted: impl Fn(&Value) -> bool) -> bool {
    list.as_array().expect("a list").iter().any(wanted)
}

#[test]
fn interactability_assessment_flags_disabled_and_overlay_blockers() {
    let assessment = interactability_assessment(
        &target(3, "Consent", true, "main:33"),
        &overlaid(RouteStability::Stable),
        &overlay_interference(),
    );
    let assessment = plain(&Json::Object(assessment.to_object()));
    assert_eq!(assessment["likely_interactable"], false);
    assert!(any(&assessment["blockers"], |value| value == "disabled_element"));
    assert!(any(&assessment["blockers"], |value| value == "overlay_present"));
    assert!(any(&assessment["blocker_details"], |value| {
        value["code"] == "disabled_element"
    }));
    assert!(any(&assessment["blocker_details"], |value| {
        value["recommended_command"] == "rub runtime readiness"
    }));
}

#[test]
fn interactability_assessment_reports_ready_targets_as_likely_interactable() {
    let assessment = interactability_assessment(
        &target(1, "Continue", false, "main:11"),
        &ReadinessInfo::default(),
        &InterferenceRuntimeInfo::default(),
    );
    let assessment = plain(&Json::Object(assessment.to_object()));
    assert_eq!(assessment["likely_interactable"], true);
    assert_eq!(assessment["blockers"].as_array().map(Vec::len), Some(0));
}

fn transitioning() -> ReadinessInfo {
    let mut readiness = overlaid(RouteStability::Transitioning);
    readiness.blocking_signals = vec![
        "overlay:user_blocking".to_string(),
        "route_transitioning".to_string(),
    ];
    readiness
}

#[test]
fn interactability_probe_suggests_direct_click_for_overlay_recovery_target() {
    let payload = plain(&interactability_probe_payload(
        &target(3, "Consent", false, "main:33"),
        "snap-1",
        &json(r#"{ "label": "Consent", "first": true }"#),
        &transitioning(),
        &InterferenceRuntimeInfo::default(),
    ));
    assert_eq!(
        payload["result"]["assessment"]["next_command_hints"][0]["command"],
        "rub click --label \"Consent\" --first"
    );
}

#[test]
fn interactability_probe_avoids_direct_click_for_disabled_targets() {
    let payload = plain(&interactability_probe_payload(
        &target(3, "Consent", true, "main:33"),
        "snap-1",
        &json(r#"{ "label": "Consent", "first": true }"#),
        &transitioning(),
        &InterferenceRuntimeInfo::default(),
    ));
    assert_eq!(
        payload["result"]["assessment"]["next_command_hints"][0]["command"],
        "rub wait --label \"Consent\" --first --state interactable"
    );
}

#[test]
fn enriched_interactability_error_adds_assessment_and_guidance() {
    let mut element = target(5, "Consent", true, "main:55");
    element.bounding_box = Some(BoundingBox {
        x: "1.0".to_string(),
        y: "2.0".to_string(),
        width: "50.0".to_string(),
        height: "20.0".to_string(),
    });
    let mut readiness = overlaid(RouteStability::Transitioning);
    readiness.document_ready_state = Some("interactive".to_string());

    let error = enrich_interactability_error_envelope(
        RubError::domain(ErrorCode::ElementNotInteractable, "Element is disabled").into_envelope(),
        "click",
        &element,
        "snap-1",
        &json(r#"{ "label": "Consent", "first": true }"#),
        &readiness,
        &overlay_interference(),
    );

    let envelope = error.into_envelope();
    assert_eq!(envelope.code, ErrorCode::ElementNotInteractable);
    assert!(envelope
        .suggestion
        .contains("rub wait --label \"Consent\" --first --state interactable"));
    assert!(envelope.suggestion.contains("rub explain blockers"));
    let context = context(&envelope);
    assert_eq!(context["surface"], "router.interaction.error_projection");
    assert_eq!(context["command"], "click");
    assert_eq!(context["snapshot_id"], "snap-1");
    assert_eq!(context["target"]["index"], 5);
    assert!(any(&context["interactability"]["blocker_details"], |value| {
        value["code"] == "disabled_element"
    }));
    assert!(any(&context["interactability"]["blocker_details"], |value| {
        value["recommended_command"] == "rub runtime readiness"
    }));
}

#[test]
fn non_interactability_error_enrichment_is_noop() {
    let mut element = target(1, "Continue", false, "main:11");
    element.bounding_box = None;
    let original = RubError::domain(ErrorCode::ElementNotFound, "missing element");
    assert!(!interaction_error_needs_probe(&original));
    let error = enrich_interactability_error_envelope(
        original.into_envelope(),
        "click",
        &element,
        "snap-1",
        &json(r#"{ "label": "Continue" }"#),
        &ReadinessInfo::default(),
        &InterferenceRuntimeInfo::default(),
    );

    let envelope = error.into_envelope();
    assert_eq!(envelope.code, ErrorCode::ElementNotFound);
    assert_eq!(envelope.message, "missing element");
    assert!(envelope.context.is_none());
}

#[test]
fn target_summaries_say_what_and_where() {
    let summary = plain(&interactability_target_summary(&target(
        3, "Consent", false, "main:33",
    )));
    assert_eq!(summary["index"], 3);
    assert_eq!(summary["bbox"]["width"], value("90.0"));
    assert_eq!(
        interactability_wait_command(&json(r#"{ "selector": "a[href=\"x\"]", "nth": 2 }"#))
            .as_deref(),
        Some("rub wait --selector \"a[href=\\\"x\\\"]\" --nth 2 --state interactable")
    );
}

#[test]
fn interaction_possible_commit_timeout_contract_redacts_raw_secret_bearing_args() {
    let contract = plain(&interaction_possible_commit_recovery_contract(
        "type",
        &json(
            r#"{
                "selector": "input.password",
                "text": "typed-secret",
                "keys": "Meta+K",
                "value": "secret-option",
                "path": "/tmp/private/upload.txt",
                "label": "sensitive label",
                "target_text": "sensitive text",
                "wait_after": {"text": "done"}
            }"#,
        ),
    ));
    let serialized = contract.to_string();

    assert_eq!(contract["kind"], "interaction_possible_commit");
    assert_eq!(contract["command"], "type");
    assert_eq!(contract["request"]["locator"]["selector"], "input.password");
    assert_eq!(contract["request"]["arguments_redacted"], true);
    assert!(
        !serialized.contains("typed-secret")
            && !serialized.contains("Meta+K")
            && !serialized.contains("secret-option")
            && !serialized.contains("/tmp/private")
            && !serialized.contains("sensitive label")
            && !serialized.contains("sensitive text"),
        "timeout recovery contract must not expose raw interaction args: {serialized}"
    );
}

fn at(selector: &str) -> LocatorRequestArgs {
    LocatorRequestArgs {
        selector: Some(selector.to_string()),
        ..LocatorRequestArgs::default()
    }
}

#[test]
fn clicks_are_planned_by_gesture_and_place() {
    assert_eq!(requested_click_gesture(None).unwrap(), ClickGesture::Single);
    assert_eq!(
        requested_click_gesture(Some("double")).unwrap(),
        ClickGesture::Double
    );
    assert!(requested_click_gesture(Some("triple")).is_err());
    assert_eq!(click_command_name(ClickGesture::Single), "click");
    assert_eq!(click_gesture_name(ClickGesture::Right), "right");
    let point = ClickArgs {
        gesture: None,
        xy: Some(("1.0".to_string(), "2.0".to_string())),
        locator: LocatorRequestArgs::default(),
    };
    assert!(matches!(plan_click(&point), Ok(ClickPlan::Point { .. })));
    let element = ClickArgs {
        gesture: Some("right".to_string()),
        xy: None,
        locator: at("#go"),
    };
    assert!(matches!(
        plan_click(&element),
        Ok(ClickPlan::Element {
            gesture: ClickGesture::Right
        })
    ));
    assert_eq!(plain(&click_result(ClickGesture::Right))["gesture"], "right");
}

#[test]
fn texts_are_typed_into_a_target_or_the_focus() {
    let into_target = TextEntryArgs {
        text: "Ada".to_string(),
        clear: true,
        locator: at("#name"),
    };
    assert!(matches!(plan_text_entry(&into_target), Ok(TextEntryPlan::Element)));
    assert!(plain(&text_entry_result(&into_target)).is_object());
    let into_focus = TextEntryArgs {
        text: "Ada".to_string(),
        clear: false,
        locator: LocatorRequestArgs::default(),
    };
    assert!(matches!(plan_text_entry(&into_focus), Ok(TextEntryPlan::Focus)));
    let clearing_nothing = TextEntryArgs {
        text: "Ada".to_string(),
        clear: true,
        locator: LocatorRequestArgs::default(),
    };
    assert!(plan_text_entry(&clearing_nothing).is_err());
}

#[test]
fn replays_keep_what_matters() {
    let upload = semantic_replay_args(
        &InteractionRequest::Upload(UploadArgs {
            path: "/tmp/upload.txt".to_string(),
            locator: at("input[type=file]"),
        }),
        &json("{}"),
    )
    .expect("uploads are replayed");
    let upload = plain(&Json::Object(upload));
    assert_eq!(upload["path"], "/tmp/upload.txt");
    assert_eq!(upload["selector"], "input[type=file]");
    let keys = semantic_replay_args(
        &InteractionRequest::Keys(KeysArgs {
            keys: "Enter".to_string(),
        }),
        &json("{}"),
    )
    .expect("keys are replayed");
    assert_eq!(plain(&Json::Object(keys))["keys"], "Enter");
}

#[test]
fn confirmed_context_changes_are_adopted() {
    let confirmed = InteractionConfirmation {
        status: InteractionConfirmationStatus::Confirmed,
        kind: Some(InteractionConfirmationKind::ContextChange),
    };
    assert!(should_promote_primary_context(
        Some(confirmed),
        InterferenceRuntimeStatus::Inactive
    ));
    assert!(!should_promote_primary_context(
        None,
        InterferenceRuntimeStatus::Inactive
    ));
    assert_eq!(next_observation_fence(5, 5), None);
    assert_eq!(next_observation_fence(5, 6), Some(5));
}

fn launch(coverage: Option<StealthCoverage>) -> LaunchPolicyInfo {
    LaunchPolicyInfo {
        headless: true,
        stealth_default_enabled: Some(true),
        user_data_dir: Some("/tmp/profile".to_string()),
        stealth_coverage: coverage,
    }
}

#[test]
fn detection_risks_name_failed_probes() {
    let quiet = detection_risks(&launch(None)).len();
    let probe = IdentitySelfProbe {
        page_main_world: Some(IdentityProbeStatus::Failed),
        iframe_context: Some(IdentityProbeStatus::Passed),
        worker_context: None,
        ua_consistency: None,
        webgl_surface: None,
        canvas_surface: None,
        audio_surface: None,
        permissions_surface: None,
        viewport_surface: None,
        touch_surface: None,
        window_metrics_surface: None,
        unsupported_surfaces: Vec::new(),
    };
    let noisy = detection_risks(&launch(Some(StealthCoverage {
        page_hook_failures: Some(2),
        worker_targets_detected: None,
        service_worker_targets_detected: None,
        user_agent_metadata_override: Some(true),
        self_probe: Some(probe),
    })));
    assert!(noisy.len() > quiet);
    assert!(noisy.iter().all(|risk| !risk.mitigation.is_empty()));
    assert!(!agent_capabilities().is_empty());
}
