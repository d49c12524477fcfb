use rub_daemon::addressing::memo::{
    locator_supports_memo, memo_rehydrate_metrics_snapshot, memo_targets, record_memoized_elements,
    rehydrate_memoized_elements, reset_memo_rehydrate_metrics, restore_memoized_elements,
    snapshot_supports_locator_memo, LocatorMemoTarget, MemoRehydrateMetrics,
};
use rub_daemon::addressing::projection::{
    ambiguous_locator_error, project_locator_disambiguation_hints,
};
use rub_daemon::addressing::semantic::{
    element_matches_text, normalize_locator_text, resolve_elements_by_label,
    resolve_elements_by_role, resolve_elements_by_testid, resolve_elements_by_text,
};
use rub_daemon::addressing::snapshot::{
    ensure_cached_snapshot_authority, load_cached_snapshot, FrameContextStatus,
    SnapshotAuthorityState,
};
use rub_daemon::addressing::{
    apply_disambiguation, apply_pre_hit_test_ranking, continue_with_matches, found_elements,
    parse_locator, resolve_element, resolve_elements, resolve_elements_against_snapshot,
    ResolutionStep, ResolvedElements,
};
use rub_daemon::element_semantics::{
    accessible_label, editor_safe_text_target_kind, has_snapshot_visible_bbox, is_content_editable,
    is_disabled_in_snapshot, is_prefer_enabled_blocked_in_snapshot, is_readonly_in_snapshot,
    semantic_role, test_id,
};
use rub_daemon::error::{ErrorCode, ErrorEnvelope};
use rub_daemon::find::{
    cmd_find, cmd_find_content, find_subject, plan_find, ContentFindMatch, FindPlan,
};
use rub_daemon::json::{Json, JsonNumber, JsonObject};
use rub_daemon::locator::{
    canonical_locator_json, locator_json, parse_canonical_locator, CanonicalLocator,
    LocatorRequestArgs, LocatorSelection,
};
use rub_daemon::model::{
    AXInfo, Attributes, BoundingBox, Element, ElementTag, FrameContextInfo, ScrollPosition,
    Snapshot, SnapshotProjection,
};
use serde_json::Value;

/// A JSON value as the library holds it.
fn own(value: &Value) -> Json {
    match value {
        Value::Null => Json::Null,
        Value::Bool(b) => Json::Bool(*b),
        Value::Number(n) => match (n.as_u64(), n.as_i64()) {
            (Some(u), _) => Json::Number(JsonNumber::PosInt(u)),
            (None, Some(i)) => Json::Number(JsonNumber::NegInt(i)),
            (None, None) => Json::Number(JsonNumber::Float(n.to_string())),
        },
        Value::String(s) => Json::Text(s.clone()),
        Value::Array(items) => Json::Array(items.iter().map(own).collect()),
        Value::Object(members) => {
            let mut object = JsonObject::new();
            for (key, member) in members {
                object.insert(key, own(member));
            }
            Json::Object(object)
        }
    }
}

/// A JSON value as serde_json holds it.
fn plain(value: &Json) -> Value {
    match value {
        Json::Null => Value::Null,
        Json::Bool(b) => Value::Bool(*b),
        Json::Number(JsonNumber::PosInt(u)) => Value::from(*u),
        Json::Number(JsonNumber::NegInt(i)) => Value::from(*i),
        Json::Number(JsonNumber::Float(s)) => serde_json::from_str(s).unwrap(),
        Json::Text(s) => Value::from(s.as_str()),
        Json::Array(items) => Value::Array(items.iter().map(plain).collect()),
        Json::Object(object) => Value::Object(
            object
                .entries
                .iter()
                .map(|(key, member)| (key.clone(), plain(member)))
                .collect(),
        ),
    }
}

fn json(text: &str) -> Json {
    own(&value(text))
}

fn value(text: &str) -> Value {
    serde_json::from_str(text).unwrap()
}

fn context(envelope: &ErrorEnvelope) -> Value {
    plain(envelope.context.as_ref().expect("context"))
}

fn bbox(x: &str, y: &str, width: &str, height: &str) -> Option<BoundingBox> {
    Some(BoundingBox {
        x: x.to_string(),
        y: y.to_string(),
        width: width.to_string(),
        height: height.to_string(),
    })
}

fn set(element: &mut Element, name: &str, value: &str) {
    element
        .attributes
        .entries
        .push((name.to_string(), value.to_string()));
}

fn snapshot(elements: Vec<Element>) -> Snapshot {
    Snapshot {
        snapshot_id: "snap-1".to_string(),
        dom_epoch: 7,
        frame_context: FrameContextInfo {
            frame_id: "main".to_string(),
            name: Some("main".to_string()),
            parent_frame_id: None,
            target_id: Some("target-1".to_string()),
            url: Some("https://example.test".to_string()),
            depth: 0,
            same_origin_accessible: Some(true),
        },
        frame_lineage: vec!["main".to_string()],
        url: "https://example.test".to_string(),
        title: "Example".to_string(),
        elements,
        total_count: 2,
        truncated: false,
        scroll: ScrollPosition {
            x: "0.0".to_string(),
            y: "0.0".to_string(),
            at_bottom: false,
        },
        timestamp: "2026-03-30T00:00:00Z".to_string(),
        projection: SnapshotProjection {
            verified: true,
            js_traversal_count: 2,
            backend_traversal_count: 2,
            resolved_ref_count: 2,
            warning: None,
        },
        viewport_filtered: None,
        viewport_count: None,
    }
}

fn element(index: u32, text: &str, aria_label: Option<&str>, element_ref: Option<&str>) -> Element {
    let mut attributes = Attributes::new();
    if let Some(label) = aria_label {
        attributes = attributes.with("aria-label", label);
    }
    Element {
        index,
        tag: ElementTag::Button,
        text: text.to_string(),
        attributes,
        element_ref: element_ref.map(ToOwned::to_owned),
        target_id: None,
        bounding_box: None,
        ax_info: None,
        listeners: None,
        depth: Some(0),
    }
}

fn element_with_role(
    index: u32,
    text: &str,
    role: &str,
    accessible_name: Option<&str>,
    element_ref: Option<&str>,
) -> Element {
    let mut element = element(index, text, None, element_ref);
    element.ax_info = Some(AXInfo {
        role: Some(role.to_string()),
        accessible_name: accessible_name.map(ToOwned::to_owned),
        accessible_description: None,
    });
    element
}

fn element_with_testid(index: u32, text: &str, testid: &str) -> Element {
    let mut element = element(index, text, None, Some("main:100"));
    set(&mut element, "data-testid", testid);
    element
}

#[test]
fn normalize_locator_text_collapses_whitespace_and_case() {
    assert_eq!(normalize_locator_text("  Hello   World "), "hello world");
}

#[test]
fn normalized_locator_texts_stay_as_they_are() {
    let once = normalize_locator_text(" Straße\t ÄPFEL \u{3000} x");
    assert_eq!(once, "straße äpfel x");
    assert_eq!(normalize_locator_text(&once), once);
}

#[test]
fn ambiguous_locator_error_uses_locator_specific_suggestion() {
    let err = ambiguous_locator_error(
        "click",
        &json(r#"{ "selector": ".cta" }"#),
        &vec![
            element(1, "Primary", None, Some("main:1")),
            element(2, "Secondary", None, Some("main:2")),
        ],
    );
    let envelope = err.into_envelope();
    assert_eq!(envelope.code, ErrorCode::InvalidInput);
    assert!(envelope.suggestion.contains("--first"));
    assert!(envelope.suggestion.contains("--nth"));
    let context = context(&envelope);
    assert_eq!(context["ordering_policy"], "snapshot_index");
    assert_eq!(context["candidates"][0]["label"], "Primary");
    assert_eq!(
        context["candidates"][0]["ranking_hints"]["unique_anchors"]["label"],
        "Primary"
    );
}

#[test]
fn ambiguous_locator_error_reports_topmost_ordering_policy() {
    let err = ambiguous_locator_error(
        "click",
        &json(r#"{ "label": "Consent", "topmost": true }"#),
        &vec![
            element(1, "Consent", Some("Consent"), Some("main:1")),
            element(2, "Consent", Some("Consent"), Some("main:2")),
        ],
    );
    let envelope = err.into_envelope();
    assert_eq!(
        context(&envelope)["ordering_policy"],
        "topmost_hit_test_then_snapshot_index"
    );
}

#[test]
fn ambiguous_locator_error_suggests_visible_when_one_candidate_is_visible() {
    let mut visible = element(1, "Username", Some("Username"), Some("main:1"));
    visible.bounding_box = bbox("10.0", "10.0", "80.0", "24.0");
    let hidden = element(2, "username", Some("username"), Some("main:2"));

    let err = ambiguous_locator_error(
        "type",
        &json(r#"{ "label": "Username" }"#),
        &vec![visible, hidden],
    );
    let envelope = err.into_envelope();
    assert!(
        envelope.suggestion.contains("--visible"),
        "{}",
        envelope.suggestion
    );
}

#[test]
fn hints_name_what_only_one_candidate_has() {
    let hints = plain(&project_locator_disambiguation_hints(&vec![
        element(1, "Save", None, Some("main:1")),
        element(2, "Save", None, Some("main:2")),
        element(3, "Cancel", None, Some("main:3")),
    ]));
    assert!(hints.to_string().contains("Cancel"));
    assert!(!hints.to_string().contains("\"Save\""));
}

#[test]
fn element_matches_text_uses_text_and_accessible_attributes() {
    let element = element(3, "", Some("Save draft"), None);

    assert!(element_matches_text(&element, "save draft", true));
    assert!(element_matches_text(&element, "draft", false));
}

#[test]
fn rehydrate_memoized_text_targets_accepts_matching_elements() {
    let snapshot = snapshot(vec![
        element(0, "Cancel", None, Some("frame:10")),
        element(1, "Continue", None, Some("frame:11")),
    ]);

    let elements = rehydrate_memoized_elements(
        &snapshot,
        &CanonicalLocator::TargetText {
            text: "continue".to_string(),
            selection: None,
        },
        &vec![LocatorMemoTarget::ElementRef("frame:11".to_string())],
        &mut MemoRehydrateMetrics::default(),
    )
    .expect("memoized element should rehydrate");

    assert_eq!(elements.len(), 1);
    assert_eq!(elements[0].index, 1);
}

#[test]
fn rehydrate_memoized_text_targets_rejects_drifted_elements() {
    let snapshot = snapshot(vec![
        element(0, "Cancel", None, Some("frame:10")),
        element(1, "Proceed", None, Some("frame:11")),
    ]);

    assert!(rehydrate_memoized_elements(
        &snapshot,
        &CanonicalLocator::TargetText {
            text: "continue".to_string(),
            selection: None,
        },
        &vec![LocatorMemoTarget::ElementRef("frame:11".to_string())],
        &mut MemoRehydrateMetrics::default(),
    )
    .is_none());
}

#[test]
fn rehydrate_memoized_element_ref_requires_exact_match() {
    let snapshot = snapshot(vec![
        element(0, "Cancel", None, Some("frame:10")),
        element(1, "Continue", None, Some("frame:11")),
    ]);

    let elements = rehydrate_memoized_elements(
        &snapshot,
        &CanonicalLocator::Ref {
            element_ref: "frame:11".to_string(),
        },
        &vec![LocatorMemoTarget::ElementRef("frame:11".to_string())],
        &mut MemoRehydrateMetrics::default(),
    )
    .expect("memoized element ref should rehydrate");

    assert_eq!(elements.len(), 1);
    assert_eq!(elements[0].index, 1);
}

#[test]
fn rehydrate_element_ref_metrics_capture_scan_baseline() {
    let mut metrics = MemoRehydrateMetrics::default();
    reset_memo_rehydrate_metrics(&mut metrics);
    let snapshot = snapshot(vec![
        element(0, "Cancel", None, Some("frame:node-1")),
        element(1, "Save", None, Some("frame:node-2")),
        element(2, "Save", None, Some("frame:node-3")),
    ]);
    let elements = rehydrate_memoized_elements(
        &snapshot,
        &CanonicalLocator::TargetText {
            text: "Save".to_string(),
            selection: None,
        },
        &vec![
            LocatorMemoTarget::ElementRef("frame:node-3".to_string()),
            LocatorMemoTarget::ElementRef("frame:node-2".to_string()),
        ],
        &mut metrics,
    )
    .expect("rehydrate should succeed");

    assert_eq!(elements.len(), 2);
    assert_eq!(elements[0].index, 1);
    assert_eq!(elements[1].index, 2);
    let counted = memo_rehydrate_metrics_snapshot(&metrics);
    assert_eq!(counted.element_ref_lookups, 2);
    assert_eq!(counted.element_ref_index_build_steps, 3);
}

#[test]
fn selector_locators_do_not_participate_in_locator_memo() {
    let locator =
        parse_locator(&json(r#"{ "selector": ".cta" }"#)).expect("selector locator should parse");
    assert!(!locator_supports_memo(&locator.locator));
    assert!(locator
        .memo_key(&snapshot(vec![element(0, "Save", None, Some("frame:10"))]))
        .is_none());
}

#[test]
fn topmost_target_text_locators_do_not_participate_in_locator_memo() {
    let locator = parse_locator(&json(r#"{ "target_text": "save draft", "topmost": true }"#))
        .expect("topmost target_text locator should parse");
    assert!(locator
        .memo_key(&snapshot(vec![element(
            0,
            "Save draft",
            None,
            Some("frame:10")
        )]))
        .is_none());
}

#[test]
fn snapshot_locator_memo_requires_verified_non_truncated_projection() {
    let mut unverified = snapshot(vec![element(0, "Save", None, Some("frame:10"))]);
    unverified.projection.verified = false;
    assert!(!snapshot_supports_locator_memo(&unverified));

    let mut truncated = snapshot(vec![element(0, "Save", None, Some("frame:10"))]);
    truncated.truncated = true;
    assert!(!snapshot_supports_locator_memo(&truncated));

    assert!(snapshot_supports_locator_memo(&snapshot(Vec::new())));
}

#[test]
fn target_text_memo_key_changes_when_frame_context_changes() {
    let locator = parse_locator(&json(r#"{ "target_text": "save draft" }"#))
        .expect("target_text locator should parse");
    let root_snapshot = snapshot(vec![element(0, "Save draft", None, Some("main:10"))]);
    let mut child_snapshot = snapshot(vec![element(0, "Save draft", None, Some("main:10"))]);
    child_snapshot.frame_context.frame_id = "child".to_string();
    child_snapshot.frame_lineage = vec!["main".to_string(), "child".to_string()];

    let root_key = locator
        .memo_key(&root_snapshot)
        .expect("root snapshot should support memo");
    let child_key = locator
        .memo_key(&child_snapshot)
        .expect("child snapshot should support memo");

    assert_ne!(
        root_key, child_key,
        "memo keys must change when frame continuity changes"
    );
}

#[test]
fn target_text_memo_key_changes_when_projection_fence_changes() {
    let locator = parse_locator(&json(r#"{ "target_text": "save draft" }"#))
        .expect("target_text locator should parse");
    let baseline = snapshot(vec![element(0, "Save draft", None, Some("main:10"))]);
    let mut changed = snapshot(vec![element(0, "Save draft", None, Some("main:10"))]);
    changed.projection.backend_traversal_count = 99;

    let baseline_key = locator
        .memo_key(&baseline)
        .expect("baseline snapshot should support memo");
    let changed_key = locator
        .memo_key(&changed)
        .expect("changed snapshot should support memo");

    assert_ne!(
        baseline_key, changed_key,
        "memo keys must track projection fence changes that can invalidate reuse"
    );
}

#[test]
fn target_text_memo_key_changes_when_scroll_position_changes() {
    let locator = parse_locator(&json(r#"{ "target_text": "save draft" }"#))
        .expect("target_text locator should parse");
    let baseline = snapshot(vec![element(0, "Save draft", None, Some("main:10"))]);
    let mut changed = snapshot(vec![element(0, "Save draft", None, Some("main:10"))]);
    changed.scroll.y = "600.0".to_string();
    changed.scroll.at_bottom = true;

    let baseline_key = locator
        .memo_key(&baseline)
        .expect("baseline snapshot should support memo");
    let changed_key = locator
        .memo_key(&changed)
        .expect("changed snapshot should support memo");

    assert_ne!(
        baseline_key, changed_key,
        "memo keys must change when scroll-driven drift changes candidate authority"
    );
}

#[test]
fn memo_keys_are_json_texts() {
    let locator = parse_locator(&json(r#"{ "target_text": "save draft" }"#)).unwrap();
    let key = locator.memo_key(&snapshot(Vec::new())).unwrap();
    let parsed = value(&key);
    assert!(parsed.is_object());
    assert!(key.contains("save draft"));
    assert!(key.contains("snap-1") || key.contains("\"main\""));
}

#[test]
fn what_is_remembered_is_restored() {
    let locator = parse_locator(&json(r#"{ "target_text": "save" }"#)).unwrap();
    let page = snapshot(vec![
        element(0, "Cancel", None, Some("main:1")),
        element(1, "Save", None, Some("main:2")),
    ]);
    let found = resolve_elements_by_text(&page, "save").unwrap();
    let (key, targets) =
        record_memoized_elements(&page, &locator, &found).expect("texts are remembered");
    assert_eq!(Some(key), locator.memo_key(&page));
    assert_eq!(targets.len(), memo_targets(&found).len());
    let restored = restore_memoized_elements(
        &page,
        &locator,
        Some(&targets),
        &mut MemoRehydrateMetrics::default(),
    )
    .expect("nothing changed");
    assert_eq!(restored.len(), 1);
    assert_eq!(restored[0].index, 1);
}

#[test]
fn parse_locator_accepts_ref_alias() {
    let locator = parse_locator(&json(r#"{ "ref": "child:42" }"#)).expect("ref locator should parse");
    match locator.locator {
        CanonicalLocator::Ref { element_ref } => assert_eq!(element_ref, "child:42"),
        other => panic!("expected element-ref locator, got {other:?}"),
    }
}

#[test]
fn parse_locator_accepts_role_locator_with_nth_selection() {
    let locator = parse_locator(&json(r#"{ "role": "button", "nth": 1 }"#))
        .expect("role locator should parse");
    match locator.locator {
        CanonicalLocator::Role { role, selection } => {
            assert_eq!(role, "button");
            assert_eq!(selection, Some(LocatorSelection::Nth(1)));
        }
        other => panic!("expected role locator, got {other:?}"),
    }
}

#[test]
fn locators_that_say_nothing_or_too_much_are_refused() {
    assert!(parse_locator(&json("{}")).is_err());
    assert!(matches!(parse_canonical_locator(&json("{}")), Ok(None)));
    assert!(parse_canonical_locator(&json(r#"{ "role": "button", "label": "x" }"#)).is_err());
    assert!(parse_canonical_locator(&json(r#"{ "role": "button", "first": true, "last": true }"#))
        .is_err());
}

#[test]
fn locators_are_written_under_the_names_they_are_read_by() {
    let args = LocatorRequestArgs {
        role: Some("button".to_string()),
        nth: Some(2),
        ..LocatorRequestArgs::default()
    };
    assert!(args.is_requested());
    let written = Json::Object(locator_json(&args));
    assert_eq!(plain(&written), value(r#"{"role": "button", "nth": 2}"#));
    let read = parse_canonical_locator(&written).unwrap().expect("a locator");
    assert_eq!(read.selection(), Some(LocatorSelection::Nth(2)));
    assert_eq!(plain(&canonical_locator_json(&read))["role"], "button");
}

#[test]
fn resolve_elements_by_role_uses_fallback_and_a11y_role() {
    let snapshot = snapshot(vec![
        element(0, "Primary", None, Some("main:10")),
        element_with_role(1, "Launch", "button", Some("Launch CTA"), Some("main:11")),
    ]);
    let matched = resolve_elements_by_role(&snapshot, "button").expect("role should match");
    assert_eq!(matched.len(), 2);
}

#[test]
fn resolve_elements_by_testid_matches_testing_attribute() {
    let snapshot = snapshot(vec![element_with_testid(0, "Save", "save-primary")]);
    let matched =
        resolve_elements_by_testid(&snapshot, "save-primary").expect("testid should match");
    assert_eq!(matched.len(), 1);
    assert_eq!(matched[0].index, 0);
}

#[test]
fn exact_matches_come_before_partial_ones() {
    let page = snapshot(vec![
        element(0, "Save draft", None, None),
        element(1, "Save", None, None),
    ]);
    let exact = resolve_elements_by_text(&page, "save").unwrap();
    assert_eq!(exact.len(), 1);
    assert_eq!(exact[0].index, 1);
    let partial = resolve_elements_by_text(&page, "draft").unwrap();
    assert_eq!(partial[0].index, 0);
    let none = resolve_elements_by_text(&page, "zebra").unwrap_err().into_envelope();
    assert_eq!(none.code, ErrorCode::ElementNotFound);
    assert!(resolve_elements_by_label(&page, "save").is_ok());
}

#[test]
fn visible_ranking_filters_out_candidates_without_visible_bbox() {
    let args = r#"{ "label": "Continue", "visible": true, "first": true }"#;
    let locator = parse_locator(&json(args)).expect("visible locator should parse");
    let mut hidden = element(0, "Continue", Some("Continue"), Some("main:10"));
    hidden.bounding_box = None;
    let mut visible = element(1, "Continue", Some("Continue"), Some("main:11"));
    visible.bounding_box = bbox("10.0", "20.0", "80.0", "24.0");

    let selected = apply_disambiguation(vec![hidden, visible.clone()], &locator, &json(args))
        .expect("visible disambiguation should succeed");

    assert_eq!(selected.len(), 1);
    assert_eq!(selected[0].index, visible.index);
}

#[test]
fn prefer_enabled_ranking_moves_disabled_candidates_after_enabled_ones() {
    let args = r#"{ "label": "Consent", "prefer_enabled": true, "first": true }"#;
    let locator = parse_locator(&json(args)).expect("prefer-enabled locator should parse");
    let mut disabled = element(0, "Consent", Some("Consent"), Some("main:10"));
    set(&mut disabled, "disabled", "");
    let enabled = element(1, "Consent", Some("Consent"), Some("main:11"));

    let selected = apply_disambiguation(vec![disabled, enabled.clone()], &locator, &json(args))
        .expect("prefer-enabled disambiguation should succeed");

    assert_eq!(selected.len(), 1);
    assert_eq!(selected[0].index, enabled.index);
}

#[test]
fn prefer_enabled_ranking_moves_readonly_text_targets_after_writable_ones() {
    let args = r#"{ "label": "Email", "prefer_enabled": true, "first": true }"#;
    let locator = parse_locator(&json(args)).expect("prefer-enabled locator should parse");
    let mut readonly = element(0, "", Some("Email"), Some("main:10"));
    readonly.tag = ElementTag::Input;
    set(&mut readonly, "readonly", "");
    let mut writable = element(1, "", Some("Email"), Some("main:11"));
    writable.tag = ElementTag::Input;

    let selected = apply_disambiguation(vec![readonly, writable.clone()], &locator, &json(args))
        .expect("prefer-enabled disambiguation should succeed");

    assert_eq!(selected.len(), 1);
    assert_eq!(selected[0].index, writable.index);
}

#[test]
fn memoized_candidates_still_flow_through_prefer_enabled_disambiguation() {
    let args = r#"{ "target_text": "Email", "prefer_enabled": true, "first": true }"#;
    let locator =
        parse_locator(&json(args)).expect("prefer-enabled target_text locator should parse");
    let mut readonly = element(0, "", Some("Email"), Some("main:10"));
    readonly.tag = ElementTag::Input;
    set(&mut readonly, "readonly", "");
    let mut writable = element(1, "", Some("Email"), Some("main:11"));
    writable.tag = ElementTag::Input;
    let snapshot = snapshot(vec![readonly, writable.clone()]);

    let rehydrated = rehydrate_memoized_elements(
        &snapshot,
        &locator.locator,
        &vec![
            LocatorMemoTarget::ElementRef("main:10".to_string()),
            LocatorMemoTarget::ElementRef("main:11".to_string()),
        ],
        &mut MemoRehydrateMetrics::default(),
    )
    .expect("memoized candidates should rehydrate");

    let selected = apply_disambiguation(rehydrated, &locator, &json(args))
        .expect("disambiguation should still run after memo rehydration");

    assert_eq!(selected.len(), 1);
    assert_eq!(selected[0].index, writable.index);
}

#[test]
fn selections_out_of_range_are_refused() {
    let args = r#"{ "label": "Go", "nth": 5 }"#;
    let locator = parse_locator(&json(args)).unwrap();
    let refused = apply_disambiguation(
        vec![element(0, "Go", None, None), element(1, "Go", None, None)],
        &locator,
        &json(args),
    );
    assert!(refused.is_err());
}

fn done(step: ResolutionStep) -> ResolvedElements {
    match step {
        ResolutionStep::Done(resolved) => resolved,
        other => panic!("not settled: {other:?}"),
    }
}

#[test]
fn index_locator_resolves_by_element_index_not_scoped_vector_position() {
    let scoped = snapshot(vec![
        element(3, "Third", None, Some("main:3")),
        element(9, "Ninth", None, Some("main:9")),
    ]);
    let resolved = done(
        resolve_elements_against_snapshot(&scoped, &json(r#"{ "index": 9 }"#), "inspect text")
            .expect("index lookup should honor element.index"),
    );

    assert_eq!(resolved.elements.len(), 1);
    assert_eq!(resolved.elements[0].index, 9);
    assert_eq!(resolved.elements[0].text, "Ninth");
}

#[test]
fn ref_locator_fails_closed_when_snapshot_ref_authority_is_unverified() {
    let mut scoped = snapshot(vec![element(9, "Ninth", None, None)]);
    scoped.projection.verified = false;
    scoped.projection.warning = Some("projection mismatch".to_string());

    let envelope = resolve_elements_against_snapshot(
        &scoped,
        &json(r#"{ "element_ref": "main:9" }"#),
        "inspect text",
    )
    .expect_err("ref lookup should fail closed when snapshot ref authority is unavailable")
    .into_envelope();

    assert_eq!(envelope.code, ErrorCode::StaleSnapshot);
    assert_eq!(
        context(&envelope)["reason"],
        "snapshot_ref_authority_unavailable"
    );
}

#[test]
fn visible_ranking_applies_before_live_hit_test() {
    let locator = parse_locator(&json(
        r#"{ "label": "Continue", "visible": true, "topmost": true }"#,
    ))
    .expect("visible+topmost locator should parse");
    let hidden = element(0, "Continue", Some("Continue"), Some("main:10"));
    let mut visible = element(1, "Continue", Some("Continue"), Some("main:11"));
    visible.bounding_box = bbox("10.0", "20.0", "80.0", "24.0");

    let ranked = apply_pre_hit_test_ranking(&locator, vec![hidden, visible.clone()]);
    assert_eq!(ranked.len(), 1);
    assert_eq!(ranked[0].index, visible.index);
}

#[test]
fn selectors_are_probed_and_topmost_candidates_hit_tested() {
    let page = snapshot(vec![element(0, "Go", None, Some("main:1"))]);
    let args = json(r#"{ "selector": ".go" }"#);
    match resolve_elements_against_snapshot(&page, &args, "click").unwrap() {
        ResolutionStep::Probe(css) => assert_eq!(css, ".go"),
        other => panic!("unexpected {other:?}"),
    }
    let locator = parse_locator(&args).unwrap();
    let resolved = done(
        continue_with_matches(
            vec![element(0, "Go", None, Some("main:1"))],
            &locator,
            &args,
            "snap-1",
            "click",
        )
        .unwrap(),
    );
    assert_eq!(resolved.snapshot_id, "snap-1");
    let one = resolve_element(resolved, &args, "click").unwrap();
    assert_eq!(one.element.index, 0);

    let topmost = json(r#"{ "target_text": "go", "topmost": true }"#);
    assert!(matches!(
        resolve_elements_against_snapshot(&page, &topmost, "click").unwrap(),
        ResolutionStep::HitTest(_)
    ));
}

#[test]
fn several_matches_for_one_element_are_refused() {
    let page = snapshot(vec![
        element(0, "Go", None, Some("main:1")),
        element(1, "Go", None, Some("main:2")),
    ]);
    let args = json(r#"{ "target_text": "go" }"#);
    let resolved = done(resolve_elements_against_snapshot(&page, &args, "click").unwrap());
    assert_eq!(resolved.elements.len(), 2);
    let refused = resolve_element(resolved, &args, "click").unwrap_err().into_envelope();
    assert_eq!(refused.code, ErrorCode::InvalidInput);
}

fn authority(epoch: u64, pending: bool, frame: Option<&str>) -> SnapshotAuthorityState {
    SnapshotAuthorityState {
        current_epoch: epoch,
        pending_external_dom_change: pending,
        frame_status: FrameContextStatus::Top,
        current_frame_id: frame.map(ToOwned::to_owned),
    }
}

fn cached_snapshot(snapshot_id: &str, dom_epoch: u64, frame_id: &str) -> Snapshot {
    let mut cached = snapshot(Vec::new());
    cached.snapshot_id = snapshot_id.to_string();
    cached.dom_epoch = dom_epoch;
    cached.frame_context.frame_id = frame_id.to_string();
    cached.frame_lineage = vec![frame_id.to_string()];
    cached
}

#[test]
fn cached_snapshot_authority_rejects_epoch_drift() {
    let snapshot = cached_snapshot("snap-1", 0, "frame-main");
    let envelope = ensure_cached_snapshot_authority(
        &authority(1, false, Some("frame-main")),
        "snap-1",
        &snapshot,
        None,
    )
    .expect_err("epoch drift must fail closed")
    .into_envelope();
    assert_eq!(envelope.code, ErrorCode::StaleSnapshot);
    assert_eq!(context(&envelope)["snapshot_epoch"], 0);
    assert_eq!(context(&envelope)["current_epoch"], 1);
}

#[test]
fn cached_snapshot_authority_rejects_frame_context_drift() {
    let snapshot = cached_snapshot("snap-1", 0, "frame-main");
    let envelope = ensure_cached_snapshot_authority(
        &authority(0, false, Some("frame-child")),
        "snap-1",
        &snapshot,
        None,
    )
    .expect_err("frame drift must fail closed")
    .into_envelope();
    assert_eq!(envelope.code, ErrorCode::StaleSnapshot);
    assert_eq!(
        context(&envelope)["authority_state"],
        "selected_frame_context_drifted"
    );
    assert!(context(&envelope).get("frame_runtime").is_none());
}

#[test]
fn cached_snapshot_authority_rejects_pending_dom_drift_for_same_target() {
    let snapshot = cached_snapshot("snap-2", 1, "frame-main");
    let envelope = ensure_cached_snapshot_authority(
        &authority(1, true, Some("frame-main")),
        "snap-2",
        &snapshot,
        None,
    )
    .expect_err("pending same-target drift must fail closed")
    .into_envelope();
    assert_eq!(envelope.code, ErrorCode::StaleSnapshot);
    assert_eq!(
        context(&envelope)["authority_state"],
        "pending_external_dom_change"
    );
}

#[test]
fn cached_snapshot_authority_allows_unrelated_target_pending_dom_drift() {
    let snapshot = cached_snapshot("snap-1", 0, "frame-main");
    ensure_cached_snapshot_authority(
        &authority(0, false, Some("frame-main")),
        "snap-1",
        &snapshot,
        None,
    )
    .expect("unrelated target drift must not globally invalidate snapshot authority");
}

#[test]
fn cached_snapshot_authority_accepts_matching_explicit_frame_override() {
    let snapshot = cached_snapshot("snap-1", 0, "frame-child");
    ensure_cached_snapshot_authority(
        &authority(0, false, Some("frame-main")),
        "snap-1",
        &snapshot,
        Some("frame-child"),
    )
    .expect("matching explicit frame override should remain authoritative");
}

#[test]
fn cached_snapshot_authority_rejects_mismatching_explicit_frame_override() {
    let snapshot = cached_snapshot("snap-1", 0, "frame-child");
    let envelope = ensure_cached_snapshot_authority(
        &authority(0, false, Some("frame-child")),
        "snap-1",
        &snapshot,
        Some("frame-main"),
    )
    .expect_err("explicit frame mismatch must fail closed")
    .into_envelope();
    assert_eq!(envelope.code, ErrorCode::StaleSnapshot);
    assert_eq!(
        context(&envelope)["authority_state"],
        "explicit_frame_scope_mismatch"
    );
    assert!(context(&envelope).get("requested_frame_id").is_none());
}

#[test]
fn cached_snapshot_authority_rejects_stale_selected_frame_without_runtime_leak() {
    let snapshot = cached_snapshot("snap-1", 0, "frame-main");
    let state = SnapshotAuthorityState {
        current_epoch: 0,
        pending_external_dom_change: false,
        frame_status: FrameContextStatus::Stale,
        current_frame_id: None,
    };
    let envelope = ensure_cached_snapshot_authority(&state, "snap-1", &snapshot, None)
        .expect_err("stale selected frame context must fail closed")
        .into_envelope();
    assert_eq!(envelope.code, ErrorCode::StaleSnapshot);
    assert_eq!(
        context(&envelope)["authority_state"],
        "selected_frame_context_stale"
    );
    assert!(context(&envelope).get("frame_runtime").is_none());
}

#[test]
fn snapshots_that_are_not_cached_are_stale() {
    let state = authority(3, false, Some("frame-main"));
    let missing = load_cached_snapshot(&state, None, "snap-9", None)
        .map(|s| s.snapshot_id.clone())
        .unwrap_err()
        .into_envelope();
    assert_eq!(missing.code, ErrorCode::StaleSnapshot);
    let cached = cached_snapshot("snap-1", 3, "frame-main");
    let found = load_cached_snapshot(&state, Some(&cached), "snap-1", None).unwrap();
    assert_eq!(found.snapshot_id, "snap-1");
}

fn sample_element() -> Element {
    element(0, "", None, None)
}

#[test]
fn accessible_label_prefers_a11y_then_textish_fallbacks() {
    let mut element = sample_element();
    element.text = "Visible Text".to_string();
    set(&mut element, "aria-label", "Aria Label");
    element.ax_info = Some(AXInfo {
        role: Some("button".to_string()),
        accessible_name: Some("Accessible Name".to_string()),
        accessible_description: None,
    });
    assert_eq!(accessible_label(&element), "Accessible Name");
}

#[test]
fn semantic_role_prefers_explicit_role() {
    let mut element = sample_element();
    set(&mut element, "role", "tab");
    assert_eq!(semantic_role(&element), "tab");
}

#[test]
fn test_id_reads_common_testing_attributes() {
    let mut element = sample_element();
    set(&mut element, "data-testid", "hero-cta");
    assert_eq!(test_id(&element), Some("hero-cta"));
}

#[test]
fn contenteditable_other_falls_back_to_textbox_role() {
    let mut element = sample_element();
    element.tag = ElementTag::Other;
    set(&mut element, "contenteditable", "true");
    assert!(is_content_editable(&element));
    assert_eq!(semantic_role(&element), "textbox");
    assert_eq!(
        editor_safe_text_target_kind(&element),
        Some("contenteditable")
    );
}

#[test]
fn semantic_textbox_is_distinguished_for_editor_safe_writes() {
    let mut element = sample_element();
    element.tag = ElementTag::Other;
    set(&mut element, "contenteditable", "plaintext-only");
    set(&mut element, "role", "textbox");
    assert_eq!(semantic_role(&element), "textbox");
    assert_eq!(
        editor_safe_text_target_kind(&element),
        Some("semantic_textbox")
    );
}

#[test]
fn visible_bbox_requires_non_zero_area() {
    let mut element = sample_element();
    element.bounding_box = bbox("10.0", "20.0", "0.0", "15.0");
    assert!(!has_snapshot_visible_bbox(&element));
    element.bounding_box = bbox("10.0", "20.0", "40.0", "15.0");
    assert!(has_snapshot_visible_bbox(&element));
    element.bounding_box = bbox("10.0", "20.0", "-40.0", "15.0");
    assert!(!has_snapshot_visible_bbox(&element));
    element.bounding_box = bbox("0.0", "0.0", "0.5", "1e-7");
    assert!(has_snapshot_visible_bbox(&element));
}

#[test]
fn disabled_state_honors_disabled_and_aria_disabled() {
    let mut element = sample_element();
    assert!(!is_disabled_in_snapshot(&element));
    set(&mut element, "aria-disabled", "true");
    assert!(is_disabled_in_snapshot(&element));
}

#[test]
fn readonly_state_only_applies_to_writable_targets() {
    let mut input = sample_element();
    input.tag = ElementTag::Input;
    assert!(!is_readonly_in_snapshot(&input));
    set(&mut input, "readonly", "");
    assert!(is_readonly_in_snapshot(&input));
    assert!(is_prefer_enabled_blocked_in_snapshot(&input));

    let mut editor = sample_element();
    editor.tag = ElementTag::Other;
    set(&mut editor, "contenteditable", "true");
    set(&mut editor, "aria-readonly", "true");
    assert!(is_readonly_in_snapshot(&editor));
    assert!(is_prefer_enabled_blocked_in_snapshot(&editor));

    let mut button = sample_element();
    set(&mut button, "aria-readonly", "true");
    assert!(!is_readonly_in_snapshot(&button));
    assert!(!is_prefer_enabled_blocked_in_snapshot(&button));
}

#[test]
fn find_subject_projects_surface_and_locator() {
    let locator = CanonicalLocator::Role {
        role: "button".to_string(),
        selection: None,
    };
    let subject = plain(&find_subject("interactive_snapshot", Some(&locator), None));
    assert_eq!(subject["kind"], "find_query");
    assert_eq!(subject["surface"], "interactive_snapshot");
    assert_eq!(subject["locator"]["role"], "button");
}

#[test]
fn finds_are_planned_and_cut_to_their_limit() {
    match plan_find(&json(r#"{ "role": "button", "limit": 1 }"#)).unwrap() {
        FindPlan::Snapshot { limit, .. } => assert_eq!(limit, Some(1)),
        other => panic!("unexpected {other:?}"),
    }
    let resolved = ResolvedElements {
        elements: vec![element(0, "A", None, None), element(1, "B", None, None)],
        snapshot_id: "snap-1".to_string(),
    };
    let answer = plain(&cmd_find(None, Some(1), &resolved));
    assert_eq!(answer["result"]["match_count"], 2);
    assert_eq!(answer["result"]["returned_count"], 1);
    assert_eq!(answer["result"]["truncated"], true);
    assert_eq!(answer["result"]["matches"][0]["index"], 0);
}

#[test]
fn content_is_found_or_reported_missing() {
    let locator = CanonicalLocator::TargetText {
        text: "hello".to_string(),
        selection: None,
    };
    let none = cmd_find_content(&locator, None, None, &Vec::new())
        .unwrap_err()
        .into_envelope();
    assert_eq!(none.code, ErrorCode::ElementNotFound);
    let found = plain(
        &cmd_find_content(
            &locator,
            None,
            Some("main"),
            &vec![ContentFindMatch {
                tag_name: "p".to_string(),
                text: "hello".to_string(),
                role: "paragraph".to_string(),
                label: "hello".to_string(),
                testid: None,
            }],
        )
        .unwrap(),
    );
    assert_eq!(found["result"]["match_count"], 1);
    assert_eq!(found["subject"]["frame_id"], "main");
}

#[test]
fn remembered_matches_give_the_same_answer() {
    let args = json(r#"{ "target_text": "save" }"#);
    let locator = parse_locator(&args).unwrap();
    let page = snapshot(vec![
        element(0, "Cancel", None, Some("main:1")),
        element(1, "Save", None, Some("main:2")),
    ]);
    let mut metrics = MemoRehydrateMetrics::default();

    let first = resolve_elements(&page, &locator, None, &args, "click", &mut metrics);
    let (key, targets) = first.record.expect("what is found is remembered");
    assert_eq!(Some(key), locator.memo_key(&page));
    assert_eq!(metrics.element_ref_lookups, 0);

    let second = resolve_elements(&page, &locator, Some(&targets), &args, "click", &mut metrics);
    assert!(second.record.is_none(), "what is remembered is not recorded again");
    assert_eq!(metrics.element_ref_lookups, 1);

    for step in [first.step, second.step] {
        match step {
            Ok(ResolutionStep::Done(resolved)) => {
                assert_eq!(resolved.elements.len(), 1);
                assert_eq!(resolved.elements[0].index, 1);
                assert_eq!(resolved.snapshot_id, page.snapshot_id);
            }
            other => panic!("expected elements, got {other:?}"),
        }
    }
}

#[test]
fn selectors_are_probed_on_the_page_and_not_remembered() {
    let args = json(r##"{ "selector": "#save" }"##);
    let locator = parse_locator(&args).unwrap();
    let page = snapshot(vec![element(0, "Save", None, Some("main:1"))]);
    let mut metrics = MemoRehydrateMetrics::default();

    let start = resolve_elements(&page, &locator, None, &args, "click", &mut metrics);
    assert!(start.record.is_none());
    assert!(matches!(start.step, Ok(ResolutionStep::Probe(css)) if css == "#save"));

    let none = found_elements(Vec::new(), &locator, &page, &args, "click");
    assert!(none.record.is_none());
    let envelope = none.step.expect_err("nothing was found").into_envelope();
    assert_eq!(envelope.code, ErrorCode::ElementNotFound);
}

#[test]
fn case_and_blanks_do_not_matter_to_locator_texts() {
    let normal = normalize_locator_text("Save all Drafts");
    assert_eq!(normal, "save all drafts");
    assert_eq!(normalize_locator_text(&normal), normal);
    assert_eq!(normalize_locator_text("SAVE ALL dRAFTS"), normal);
    assert_eq!(normalize_locator_text("\tsave \r\n all\u{b}drafts  "), normal);
    assert_ne!(normalize_locator_text("saveall drafts"), normal);
}
