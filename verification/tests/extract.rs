use rub_daemon::error::{ErrorCode, ErrorEnvelope, RubError};
use rub_daemon::extract::collection::projection::{
    nested_collection_result, project_collection_field,
};
use rub_daemon::extract::collection::schema::{
    build_collection_entry_schema, build_collection_root_schema, validate_row_scoped_locator,
    RowScopedLocatorValidation,
};
use rub_daemon::extract::collection::{
    extract_collection, plan_collection, CollectionEntryPayload, CollectionExtractPayload,
    ExtractCollectionSpec, ExtractEntries, ExtractEntrySpec, PayloadRow,
};
use rub_daemon::extract::explain::{
    entry_summaries, explain_extract_spec_contract, extract_collection_locator_keys_present,
    extract_locator_keys_present, render_extract_field_spec,
};
use rub_daemon::extract::field::{
    build_content_extract_script, builder_locator_expression, extract_builder_field_examples,
    extract_content_field_value, extract_field, extract_multi_match_message,
    extract_multi_match_suggestion, extract_single_snapshot_value, field_locator_args,
    finish_live_read, finish_query_field, payload_text, snapshot_bbox_unavailable_error,
    snapshot_extract_content_fallback_error, snapshot_extract_live_only_kind_error,
    wrap_payload_script, ExtractAuthorityMode, ExtractMatchSurface, FieldStep, LiveRead,
};
use rub_daemon::extract::scan::{
    collection_row_matches_wait_probe, collection_wait_timeout_error, normalize_wait_text,
    poll_collection_match, row_fingerprint, ExtractScanConfig, ListScan, ListWaitStep, ScanStep,
    ScanStop,
};
use rub_daemon::extract::spec::{
    normalize_extract_spec_shorthands_in_place, normalize_extract_sub, settle_field_kind,
    ContentExtractPayload, ExtractCommand, ExtractFieldSpec, ExtractKind, ExtractListWaitConfig,
    ExtractScanArgs, ExtractTypeHint, ExtractWaitArgs,
};
use rub_daemon::extract::{
    list_payload, plan_extract, query_payload, resolve_single_collection, scan_payload,
    wait_payload, ExtractPlan,
};
use rub_daemon::extract_postprocess::{
    apply_postprocess, resolve_missing_field, ExtractTransform, ExtractValueType, FloatReading,
    FloatReadings, Interrupt,
};
use rub_daemon::json::{lookup_json_path, Json, JsonNumber, JsonObject};
use rub_daemon::model::{Attributes, BoundingBox, Element, ElementTag};
use serde_json::Value;

/// A JSON value as the library holds it.
fn own(value: &Value) -> Json {
    match value {
        Value::Null => Json::Null,
        Value::Bool(b) => Json::Bool(*b),
        Value::Number(n) => match (n.as_u64(), n.as_i64()) {
            (Some(u), _) => Json::Number(JsonNumber::PosInt(u)),
            (None, Some(i)) => Json::Number(JsonNumber::NegInt(i)),
            (None, None) => Json::Number(JsonNumber::Float(n.to_string())),
        },
        Value::String(s) => Json::Text(s.clone()),
        Value::Array(items) => Json::Array(items.iter().map(own).collect()),
        Value::Object(members) => {
            let mut object = JsonObject::new();
            for (key, member) in members {
                object.insert(key, own(member));
            }
            Json::Object(object)
        }
    }
}

/// A JSON value as serde_json holds it.
fn plain(value: &Json) -> Value {
    match value {
        Json::Null => Value::Null,
        Json::Bool(b) => Value::Bool(*b),
        Json::Number(JsonNumber::PosInt(u)) => Value::from(*u),
        Json::Number(JsonNumber::NegInt(i)) => Value::from(*i),
        Json::Number(JsonNumber::Float(s)) => serde_json::from_str(s).unwrap(),
        Json::Text(s) => Value::from(s.as_str()),
        Json::Array(items) => Value::Array(items.iter().map(plain).collect()),
        Json::Object(object) => Value::Object(
            object
                .entries
                .iter()
                .map(|(key, member)| (key.clone(), plain(member)))
                .collect(),
        ),
    }
}

fn json(text: &str) -> Json {
    own(&value(text))
}

fn value(text: &str) -> Value {
    serde_json::from_str(text).unwrap()
}

fn context(envelope: &ErrorEnvelope) -> Value {
    plain(envelope.context.as_ref().expect("context"))
}

fn failed(interrupt: Interrupt) -> ErrorEnvelope {
    match interrupt {
        Interrupt::Failed(error) => error.into_envelope(),
        Interrupt::ReadFloat(text) => panic!("asked for the number {text}"),
    }
}

/// Gives the numbers that are asked for until an answer comes.
fn with_floats(
    run: impl Fn(&FloatReadings) -> Result<Json, Interrupt>,
) -> Result<Json, RubError> {
    let mut floats = FloatReadings::new();
    loop {
        match run(&floats) {
            Ok(value) => return Ok(value),
            Err(Interrupt::Failed(error)) => return Err(error),
            Err(Interrupt::ReadFloat(text)) => {
                let reading = match text.parse::<f64>() {
                    Ok(number) if number.is_finite() => {
                        FloatReading::Finite(Value::from(number).to_string())
                    }
                    Ok(_) => FloatReading::NonFinite,
                    Err(error) => FloatReading::Invalid(error.to_string()),
                };
                floats.note(&text, reading);
            }
        }
    }
}

fn field(kind: ExtractKind) -> ExtractFieldSpec {
    ExtractFieldSpec {
        index: None,
        element_ref: None,
        selector: None,
        target_text: None,
        role: None,
        label: None,
        testid: None,
        first: false,
        last: false,
        nth: None,
        kind,
        attribute: None,
        many: false,
        value_type: None,
        required: true,
        default: None,
        map: JsonObject::new(),
        transform: None,
    }
}

fn field_at(kind: ExtractKind, selector: &str) -> ExtractFieldSpec {
    let mut field = field(kind);
    field.selector = Some(selector.to_string());
    field
}

fn collection(selector: &str, fields: Vec<(&str, ExtractEntrySpec)>) -> ExtractCollectionSpec {
    let mut entries = ExtractEntries::new();
    for (name, entry) in fields {
        entries.insert(name.to_string(), entry);
    }
    ExtractCollectionSpec {
        collection: Some(selector.to_string()),
        selector: None,
        target_text: None,
        role: None,
        label: None,
        testid: None,
        row_scope_selector: None,
        first: false,
        last: false,
        nth: None,
        fields: entries,
    }
}

fn snapshot_element() -> Element {
    Element {
        index: 7,
        tag: ElementTag::Input,
        text: "Hello snapshot".to_string(),
        attributes: Attributes::new().with("value", "42").with("data-kind", "answer"),
        element_ref: Some("main:7".to_string()),
        target_id: None,
        bounding_box: Some(BoundingBox {
            x: "10.0".to_string(),
            y: "20.0".to_string(),
            width: "30.0".to_string(),
            height: "40.0".to_string(),
        }),
        ax_info: None,
        listeners: None,
        depth: Some(1),
    }
}

#[test]
fn extract_extract_field_supports_type_shorthand_for_kind() {
    let hint = ExtractTypeHint::parse("text").expect("extract field shorthand should be known");
    let (kind, value_type) =
        settle_field_kind(None, Some(hint), false).expect("shorthand should settle the kind");

    assert!(matches!(kind, ExtractKind::Text));
    assert!(value_type.is_none());
}

#[test]
fn extract_extract_field_preserves_value_type_when_kind_is_explicit() {
    let hint = ExtractTypeHint::parse("number").expect("output type should be known");
    let (kind, value_type) = settle_field_kind(Some(ExtractKind::Text), Some(hint), false)
        .expect("extract field with output type should settle");

    assert!(matches!(kind, ExtractKind::Text));
    assert!(matches!(value_type, Some(ExtractValueType::Number)));
}

#[test]
fn extract_builder_examples_support_semantic_locators() {
    let mut field = field(ExtractKind::Attribute);
    field.attribute = Some("src".to_string());
    field.role = Some("img".to_string());

    assert_eq!(
        builder_locator_expression(&field).as_deref(),
        Some("role:img")
    );
    assert_eq!(
        extract_builder_field_examples("hero", &field).map(|examples| plain(&examples)),
        Some(value(
            r#"{
                "pick_first": "hero=attribute:src:role:img@first",
                "pick_last": "hero=attribute:src:role:img@last",
                "pick_nth": "hero=attribute:src:role:img@nth(0)",
                "collect_all": "hero=attribute:src:role:img@many"
            }"#
        ))
    );
}

#[test]
fn extract_extract_command_defaults_to_query_mode() {
    let args = normalize_extract_sub(
        &json(
            r#"{
                "spec": "{\"title\":{\"kind\":\"text\",\"selector\":\"h1\"}}",
                "snapshot_id": "snap-1"
            }"#,
        ),
        None,
    );
    assert_eq!(plain(&args)["sub"], "extract");
    let parsed = ExtractCommand::Query {
        snapshot_id: args.get_str("snapshot_id").map(str::to_string),
    };
    assert_eq!(parsed.snapshot_id(), Some("snap-1"));
}

#[test]
fn extract_extract_command_parses_list_scan_payload() {
    let parsed = ExtractCommand::List {
        snapshot_id: None,
        scan: ExtractScanArgs {
            scan_until: Some(25),
            scan_key: Some("id".to_string()),
            max_scrolls: Some(4),
            scroll_amount: Some(900),
            settle_ms: Some(300),
            stall_limit: Some(2),
        },
        wait: no_wait(),
    };

    let scan = parsed
        .scan_config()
        .expect("scan config should validate")
        .expect("scan config should be present");
    assert_eq!(scan.until_count, 25);
    assert_eq!(scan.dedupe_key.as_deref(), Some("id"));
    assert_eq!(scan.max_scrolls, 4);
    assert_eq!(scan.scroll_amount, 900);
    assert_eq!(scan.settle_ms, 300);
    assert_eq!(scan.stall_limit, 2);
}

#[test]
fn extract_normalize_shorthand_converts_string_values_to_selector_objects() {
    let mut spec =
        json(r#"{"title":"h1","price":".price","link":{"selector":"a","attr":"href"}}"#);
    normalize_extract_spec_shorthands_in_place(&mut spec)
        .expect("top-level shorthand normalization should succeed");
    let value = plain(&spec);

    assert_eq!(value["title"]["selector"], "h1");
    assert_eq!(value["title"]["kind"], "text");
    assert_eq!(value["price"]["selector"], ".price");
    assert_eq!(value["price"]["kind"], "text");

    assert_eq!(value["link"]["selector"], "a");
    assert_eq!(value["link"]["attr"], "href");
}

#[test]
fn extract_extract_field_defaults_to_text_kind_when_omitted() {
    let (kind, _) = settle_field_kind(None, None, false)
        .expect("extract field without kind should default to text");
    assert!(matches!(kind, ExtractKind::Text));
}

#[test]
fn extract_extract_field_infers_attribute_kind_when_attr_present() {
    let (kind, _) = settle_field_kind(None, None, true)
        .expect("extract field with attr alias should infer attribute kind");
    assert!(matches!(kind, ExtractKind::Attribute));
}

#[test]
fn extract_extract_field_accepts_attr_as_alias_for_attribute() {
    let (kind, _) = settle_field_kind(Some(ExtractKind::Attribute), None, true)
        .expect("attr alias should be accepted");
    assert!(matches!(kind, ExtractKind::Attribute));
}

#[test]
fn extract_explain_extract_spec_contract_returns_normalized_spec_and_summaries() {
    let mut price = field_at(ExtractKind::Text, ".price");
    price.transform = Some(ExtractTransform::ParseFloat);
    price.value_type = Some(ExtractValueType::Number);
    let mut fields = ExtractEntries::new();
    fields.insert(
        "title".to_string(),
        ExtractEntrySpec::Field(field_at(ExtractKind::Text, "h1")),
    );
    fields.insert(
        "items".to_string(),
        ExtractEntrySpec::Collection(collection(
            "li.item",
            vec![("price", ExtractEntrySpec::Field(price))],
        )),
    );
    let result = plain(
        &explain_extract_spec_contract(Ok(fields)).expect("explain contract should succeed"),
    );

    assert_eq!(result["subject"]["kind"], "extract_explain");
    assert_eq!(result["result"]["normalized_spec"]["title"]["kind"], "text");
    assert_eq!(
        result["result"]["normalized_spec"]["items"]["fields"]["price"]["transform"],
        "parse_float"
    );
    assert_eq!(
        result["result"]["entry_summaries"][1]["path"],
        "items.price"
    );
    assert_eq!(
        result["result"]["guidance"]["schema_command"],
        "rub extract --schema"
    );
}

#[test]
fn extract_explain_extract_spec_contract_enriches_parse_errors_with_guidance() {
    let error = explain_extract_spec_contract(Err(RubError::domain(
        ErrorCode::InvalidInput,
        "unknown field `unknown_key`",
    )))
    .expect_err("invalid extract spec should fail");
    let envelope = error.into_envelope();
    let context = context(&envelope);
    assert_eq!(context["schema_command"], "rub extract --schema");
    assert_eq!(context["examples_command"], "rub extract --examples");
}

#[test]
fn tests_extract_field_supports_type_shorthand_for_kind() {
    let hint = ExtractTypeHint::parse("text").expect("extract field shorthand should be known");
    let (kind, value_type) =
        settle_field_kind(None, Some(hint), false).expect("shorthand should settle the kind");

    assert!(matches!(kind, ExtractKind::Text));
    assert!(value_type.is_none());
}

#[test]
fn tests_extract_field_preserves_value_type_when_kind_is_explicit() {
    let hint = ExtractTypeHint::parse("number").expect("output type should be known");
    let (kind, value_type) = settle_field_kind(Some(ExtractKind::Text), Some(hint), false)
        .expect("extract field with output type should settle");

    assert!(matches!(kind, ExtractKind::Text));
    assert!(matches!(value_type, Some(ExtractValueType::Number)));
}

#[test]
fn tests_builder_examples_support_semantic_locators() {
    let mut field = field(ExtractKind::Attribute);
    field.attribute = Some("src".to_string());
    field.role = Some("img".to_string());

    assert_eq!(
        builder_locator_expression(&field).as_deref(),
        Some("role:img")
    );
    assert_eq!(
        extract_builder_field_examples("hero", &field).map(|examples| plain(&examples)),
        Some(value(
            r#"{
                "pick_first": "hero=attribute:src:role:img@first",
                "pick_last": "hero=attribute:src:role:img@last",
                "pick_nth": "hero=attribute:src:role:img@nth(0)",
                "collect_all": "hero=attribute:src:role:img@many"
            }"#
        ))
    );
}

#[test]
fn tests_extract_command_defaults_to_query_mode() {
    let args = normalize_extract_sub(
        &json(
            r#"{
                "spec": "{\"title\":{\"kind\":\"text\",\"selector\":\"h1\"}}",
                "snapshot_id": "snap-1"
            }"#,
        ),
        None,
    );
    assert_eq!(plain(&args)["sub"], "extract");
    let parsed = ExtractCommand::Query {
        snapshot_id: args.get_str("snapshot_id").map(str::to_string),
    };
    assert_eq!(parsed.snapshot_id(), Some("snap-1"));
}

#[test]
fn tests_extract_command_parses_list_scan_payload() {
    let parsed = ExtractCommand::List {
        snapshot_id: None,
        scan: ExtractScanArgs {
            scan_until: Some(25),
            scan_key: Some("id".to_string()),
            max_scrolls: Some(4),
            scroll_amount: Some(900),
            settle_ms: Some(300),
            stall_limit: Some(2),
        },
        wait: no_wait(),
    };

    let scan = parsed
        .scan_config()
        .expect("scan config should validate")
        .expect("scan config should be present");
    assert_eq!(scan.until_count, 25);
    assert_eq!(scan.dedupe_key.as_deref(), Some("id"));
    assert_eq!(scan.max_scrolls, 4);
    assert_eq!(scan.scroll_amount, 900);
    assert_eq!(scan.settle_ms, 300);
    assert_eq!(scan.stall_limit, 2);
}

#[test]
fn tests_normalize_shorthand_converts_string_values_to_selector_objects() {
    let mut spec =
        json(r#"{"title":"h1","price":".price","link":{"selector":"a","attr":"href"}}"#);
    normalize_extract_spec_shorthands_in_place(&mut spec)
        .expect("top-level shorthand normalization should succeed");
    let value = plain(&spec);

    assert_eq!(value["title"]["selector"], "h1");
    assert_eq!(value["title"]["kind"], "text");
    assert_eq!(value["price"]["selector"], ".price");
    assert_eq!(value["price"]["kind"], "text");

    assert_eq!(value["link"]["selector"], "a");
    assert_eq!(value["link"]["attr"], "href");
}

#[test]
fn tests_extract_field_defaults_to_text_kind_when_omitted() {
    let (kind, _) = settle_field_kind(None, None, false)
        .expect("extract field without kind should default to text");
    assert!(matches!(kind, ExtractKind::Text));
}

#[test]
fn tests_extract_field_infers_attribute_kind_when_attr_present() {
    let (kind, _) = settle_field_kind(None, None, true)
        .expect("extract field with attr alias should infer attribute kind");
    assert!(matches!(kind, ExtractKind::Attribute));
}

#[test]
fn tests_extract_field_accepts_attr_as_alias_for_attribute() {
    let (kind, _) = settle_field_kind(Some(ExtractKind::Attribute), None, true)
        .expect("attr alias should be accepted");
    assert!(matches!(kind, ExtractKind::Attribute));
}

#[test]
fn tests_explain_extract_spec_contract_returns_normalized_spec_and_summaries() {
    let mut price = field_at(ExtractKind::Text, ".price");
    price.transform = Some(ExtractTransform::ParseFloat);
    price.value_type = Some(ExtractValueType::Number);
    let mut fields = ExtractEntries::new();
    fields.insert(
        "title".to_string(),
        ExtractEntrySpec::Field(field_at(ExtractKind::Text, "h1")),
    );
    fields.insert(
        "items".to_string(),
        ExtractEntrySpec::Collection(collection(
            "li.item",
            vec![("price", ExtractEntrySpec::Field(price))],
        )),
    );
    let result = plain(
        &explain_extract_spec_contract(Ok(fields)).expect("explain contract should succeed"),
    );

    assert_eq!(result["subject"]["kind"], "extract_explain");
    assert_eq!(result["result"]["normalized_spec"]["title"]["kind"], "text");
    assert_eq!(
        result["result"]["normalized_spec"]["items"]["fields"]["price"]["transform"],
        "parse_float"
    );
    assert_eq!(
        result["result"]["entry_summaries"][1]["path"],
        "items.price"
    );
    assert_eq!(
        result["result"]["guidance"]["schema_command"],
        "rub extract --schema"
    );
}

#[test]
fn tests_explain_extract_spec_contract_enriches_parse_errors_with_guidance() {
    let error = explain_extract_spec_contract(Err(RubError::domain(
        ErrorCode::InvalidInput,
        "unknown field `unknown_key`",
    )))
    .expect_err("invalid extract spec should fail");
    let envelope = error.into_envelope();
    let context = context(&envelope);
    assert_eq!(context["schema_command"], "rub extract --schema");
    assert_eq!(context["examples_command"], "rub extract --examples");
}

#[test]
fn snapshot_value_extract_uses_snapshot_projection() {
    let value = extract_single_snapshot_value(&snapshot_element(), &field(ExtractKind::Value))
        .expect("snapshot value read should use cached attributes");
    assert_eq!(plain(&value), "42");
}

#[test]
fn snapshot_attributes_extract_uses_snapshot_projection() {
    let value = extract_single_snapshot_value(&snapshot_element(), &field(ExtractKind::Attributes))
        .expect("snapshot attributes read should use cached attributes");
    assert_eq!(plain(&value)["data-kind"], "answer");
}

#[test]
fn snapshot_bbox_extract_requires_snapshot_bbox_projection() {
    let mut element = snapshot_element();
    let shown = extract_single_snapshot_value(&element, &field(ExtractKind::Bbox)).expect("a box");
    assert_eq!(plain(&shown)["height"], value("40.0"));
    element.bounding_box = None;
    let envelope = extract_single_snapshot_value(&element, &field(ExtractKind::Bbox))
        .expect_err("snapshot bbox read must fail closed when bbox projection is absent")
        .into_envelope();
    assert_eq!(envelope.code, ErrorCode::InvalidInput);
    assert_eq!(
        context(&envelope)["authority_state"],
        "snapshot_extract_bbox_unavailable"
    );
}

#[test]
fn snapshot_html_extract_fails_closed() {
    let error = snapshot_extract_live_only_kind_error(ExtractKind::Html, 9).into_envelope();
    assert_eq!(error.code, ErrorCode::InvalidInput);
    assert_eq!(
        context(&error)["authority_state"],
        "snapshot_extract_live_only_field_kind"
    );
}

#[test]
fn snapshot_content_fallback_error_explains_live_authority_crossing() {
    let field = field_at(ExtractKind::Text, ".headline");
    let envelope =
        snapshot_extract_content_fallback_error("title", ".headline", &field).into_envelope();
    assert_eq!(envelope.code, ErrorCode::ElementNotFound);
    assert_eq!(
        context(&envelope)["authority_state"],
        "snapshot_extract_live_content_fallback_required"
    );
}

#[test]
fn snapshot_bbox_error_projects_context() {
    let envelope = snapshot_bbox_unavailable_error(3).into_envelope();
    assert_eq!(envelope.code, ErrorCode::InvalidInput);
    assert_eq!(context(&envelope)["element_index"], 3);
}

#[test]
fn a_snapshot_alone_is_never_left() {
    let found = extract_field(
        "title",
        &field(ExtractKind::Text),
        ExtractAuthorityMode::SnapshotOnly,
        Ok(vec![snapshot_element()]),
    );
    match found {
        Ok(FieldStep::Done(text)) => assert_eq!(plain(&text), "Hello snapshot"),
        other => panic!("unexpected {other:?}"),
    }
    let missing = extract_field(
        "title",
        &field_at(ExtractKind::Text, ".headline"),
        ExtractAuthorityMode::SnapshotOnly,
        Err(RubError::domain(ErrorCode::ElementNotFound, "no match")),
    )
    .unwrap_err()
    .into_envelope();
    assert_eq!(
        context(&missing)["authority_state"],
        "snapshot_extract_live_content_fallback_required"
    );
}

#[test]
fn the_page_is_read_or_its_content_searched() {
    let read = extract_field(
        "title",
        &field(ExtractKind::Text),
        ExtractAuthorityMode::LiveAllowed,
        Ok(vec![snapshot_element()]),
    );
    assert!(matches!(read, Ok(FieldStep::Read(ref elements)) if elements.len() == 1));
    let content = extract_field(
        "title",
        &field_at(ExtractKind::Text, "h1"),
        ExtractAuthorityMode::LiveAllowed,
        Err(RubError::domain(ErrorCode::ElementNotFound, "no match")),
    );
    match content {
        Ok(FieldStep::RunContent { selector, script }) => {
            assert_eq!(selector, "h1");
            assert!(script.contains("const selector = \"h1\";"));
            assert!(script.contains("const kind = \"text\";"));
            assert!(script.contains("const nth = null;"));
            assert!(script.starts_with("(function() {"));
            assert!(script.ends_with("})()"));
        }
        other => panic!("unexpected {other:?}"),
    }
    let several = extract_field(
        "title",
        &field(ExtractKind::Text),
        ExtractAuthorityMode::LiveAllowed,
        Ok(vec![snapshot_element(), snapshot_element()]),
    )
    .unwrap_err()
    .into_envelope();
    assert_eq!(several.code, ErrorCode::InvalidInput);
    assert_eq!(context(&several)["match_count"], 2);
    assert_eq!(context(&several)["surface"], "interactive");
}

#[test]
fn live_readings_become_values() {
    let mut many = field(ExtractKind::Text);
    many.many = true;
    let texts = finish_live_read(
        &many,
        &vec![
            LiveRead::Text("a".to_string()),
            LiveRead::Text("b".to_string()),
        ],
    )
    .unwrap();
    assert_eq!(plain(&texts), value(r#"["a", "b"]"#));
    let mut attribute = field(ExtractKind::Attribute);
    attribute.attribute = Some("href".to_string());
    let found = finish_live_read(
        &attribute,
        &vec![LiveRead::Attributes(Attributes::new().with("href", "/x"))],
    )
    .unwrap();
    assert_eq!(plain(&found), "/x");
    let absent = finish_live_read(&attribute, &vec![LiveRead::Attributes(Attributes::new())]).unwrap();
    assert!(plain(&absent).is_null());
    assert!(finish_live_read(&field(ExtractKind::Text), &Vec::new()).is_err());
}

fn content_payload(match_count: usize, values: &str) -> ContentExtractPayload {
    let values: Vec<Json> = value(values).as_array().unwrap().iter().map(own).collect();
    ContentExtractPayload {
        match_count,
        selected_count: values.len(),
        values,
        selector_error: None,
    }
}

#[test]
fn content_becomes_one_value_or_all() {
    let title = field_at(ExtractKind::Text, "h1");
    let one = extract_content_field_value("title", "h1", &title, content_payload(1, r#"["A"]"#));
    assert_eq!(plain(&one.unwrap()), "A");
    let several =
        extract_content_field_value("title", "h1", &title, content_payload(2, r#"["A", "B"]"#))
            .unwrap_err()
            .into_envelope();
    assert_eq!(context(&several)["surface"], "content");
    let none = extract_content_field_value("title", "h1", &title, content_payload(0, "[]"))
        .unwrap_err()
        .into_envelope();
    assert_eq!(none.code, ErrorCode::ElementNotFound);
    let mut wrong = content_payload(0, "[]");
    wrong.selector_error = Some("bad".to_string());
    let refused = extract_content_field_value("title", "h1", &title, wrong)
        .unwrap_err()
        .into_envelope();
    assert_eq!(
        refused.message,
        "Invalid selector for extract content path: bad"
    );
}

#[test]
fn scripts_answer_in_json_text() {
    assert_eq!(wrap_payload_script("f()"), "JSON.stringify(f())");
    assert_eq!(payload_text(&json(r#""{}""#), "content").unwrap(), "{}");
    match payload_text(&json("[1]"), "content") {
        Err(RubError::Internal(message)) => assert_eq!(
            message,
            "extract content payload returned non-string projection: [1]"
        ),
        other => panic!("unexpected {other:?}"),
    }
    let mut nameless = field(ExtractKind::Attribute);
    nameless.selector = Some("a".to_string());
    assert!(build_content_extract_script("a", &nameless).is_err());
    let mut quoted = field(ExtractKind::Attribute);
    quoted.attribute = Some("data-\"x\"".to_string());
    quoted.nth = Some(3);
    let script = build_content_extract_script("a[b=\"c\"]", &quoted).unwrap();
    assert!(script.contains(r#"const selector = "a[b=\"c\"]";"#));
    assert!(script.contains(r#"const attribute = "data-\"x\"";"#));
    assert!(script.contains("const nth = 3;"));
}

#[test]
fn several_matches_are_worded_by_where_they_were() {
    let row = ExtractMatchSurface::CollectionRow {
        collection_name: "items",
        row_index: 4,
    };
    assert_eq!(
        extract_multi_match_message("price", 2, row),
        "collection field 'price' matched 2 elements in row 4 of 'items'; add first/last/nth, set 'many: true', or narrow the row-scoped locator"
    );
    assert_eq!(
        extract_multi_match_message("price", 2, ExtractMatchSurface::InteractiveField),
        "extract field 'price' matched 2 elements; add first/last/nth, set 'many: true', or narrow the locator"
    );
    assert!(extract_multi_match_suggestion(row).contains("row-local"));
    assert!(extract_multi_match_suggestion(ExtractMatchSurface::ContentField { selector: "a" })
        .contains("content match"));
}

#[test]
fn missing_elements_are_replaced_where_a_field_allows_it() {
    let floats = FloatReadings::new();
    let missing = || Err(RubError::domain(ErrorCode::ElementNotFound, "gone"));
    let mut optional = field(ExtractKind::Text);
    optional.required = false;
    let empty = finish_query_field("title", &optional, missing(), &floats).unwrap();
    assert!(plain(&empty).is_null());
    let mut defaulted = field(ExtractKind::Text);
    defaulted.default = Some(json(r#""none""#));
    let default = finish_query_field("title", &defaulted, missing(), &floats).unwrap();
    assert_eq!(plain(&default), "none");
    let required = finish_query_field("title", &field(ExtractKind::Text), missing(), &floats);
    assert_eq!(failed(required.unwrap_err()).message, "gone");
}

#[test]
fn field_locators_are_written_for_resolution() {
    let mut title = field_at(ExtractKind::Text, "h1");
    title.nth = Some(2);
    assert_eq!(
        plain(&field_locator_args(&title)),
        value(r#"{"selector": "h1", "nth": 2}"#)
    );
}

#[test]
fn nested_collection_result_uses_canonical_batch_shape() {
    let result = plain(&nested_collection_result(vec![
        json(r#"{ "text": "automation" }"#),
        json(r#"{ "text": "rust" }"#),
    ]));
    assert_eq!(result["item_count"], 2);
    assert_eq!(result["items"][0]["text"], "automation");
    assert_eq!(result["items"][1]["text"], "rust");
}

fn row(entries: Vec<(&str, CollectionEntryPayload)>) -> PayloadRow {
    PayloadRow {
        entries: entries
            .into_iter()
            .map(|(name, payload)| (name.to_string(), payload))
            .collect(),
    }
}

fn found(values: &str) -> CollectionEntryPayload {
    let values: Vec<Json> = value(values).as_array().unwrap().iter().map(own).collect();
    CollectionEntryPayload::Field {
        match_count: values.len(),
        values,
    }
}

fn rows(rows: Vec<PayloadRow>) -> CollectionExtractPayload {
    CollectionExtractPayload {
        row_count: rows.len(),
        rows,
        selector_error: None,
        row_scope_error: None,
        field_errors: Attributes::new(),
    }
}

#[test]
fn collections_become_rows_of_their_fields() {
    let mut price = field_at(ExtractKind::Text, ".price");
    price.transform = Some(ExtractTransform::ParseFloat);
    price.value_type = Some(ExtractValueType::Number);
    let tags = collection(
        ".tag",
        vec![("name", ExtractEntrySpec::Field(field(ExtractKind::Text)))],
    );
    let items = collection(
        "li",
        vec![
            ("price", ExtractEntrySpec::Field(price)),
            ("tags", ExtractEntrySpec::Collection(tags)),
        ],
    );
    let payload = rows(vec![row(vec![
        ("price", found(r#"["12.50"]"#)),
        (
            "tags",
            CollectionEntryPayload::Collection {
                payload: rows(vec![row(vec![("name", found(r#"["new"]"#))])]),
            },
        ),
    ])]);
    let extracted =
        with_floats(|floats| extract_collection("items", &items, &payload, floats)).unwrap();
    assert_eq!(
        plain(&extracted),
        value(r#"[{"price": 12.5, "tags": {"items": [{"name": "new"}], "item_count": 1}}]"#)
    );
}

#[test]
fn collections_report_what_the_page_could_not_do() {
    let floats = FloatReadings::new();
    let items = collection(
        "li",
        vec![("name", ExtractEntrySpec::Field(field(ExtractKind::Text)))],
    );
    let mut bad_selector = rows(Vec::new());
    bad_selector.selector_error = Some("oops".to_string());
    let e = failed(extract_collection("items", &items, &bad_selector, &floats).unwrap_err());
    assert_eq!(e.message, "Invalid collection selector for 'items': oops");
    let mut bad_scope = rows(Vec::new());
    bad_scope.row_scope_error = Some("oops".to_string());
    let e = failed(extract_collection("items", &items, &bad_scope, &floats).unwrap_err());
    assert!(e.message.starts_with("Invalid row scope selector"));
    let mut bad_child = rows(Vec::new());
    bad_child.field_errors = Attributes::new().with("name", "oops");
    let e = failed(extract_collection("items", &items, &bad_child, &floats).unwrap_err());
    assert_eq!(context(&e)["field_errors"]["name"], "oops");
    let gap = failed(
        extract_collection("items", &items, &rows(vec![row(Vec::new())]), &floats).unwrap_err(),
    );
    assert!(gap.message.contains("collection payload missing child entry 'name'"));
    let mixed = rows(vec![row(vec![(
        "name",
        CollectionEntryPayload::Collection {
            payload: rows(Vec::new()),
        },
    )])]);
    let e = failed(extract_collection("items", &items, &mixed, &floats).unwrap_err());
    assert!(e.message.contains("returned nested rows for a scalar field"));
    let none = extract_collection("items", &items, &rows(Vec::new()), &floats).unwrap();
    assert_eq!(plain(&none), value("[]"));
}

#[test]
fn fields_of_a_row_are_one_value_all_or_none() {
    let floats = FloatReadings::new();
    let mut name = field_at(ExtractKind::Text, ".name");
    let values = vec![json(r#""a""#), json(r#""b""#)];
    let several = failed(
        project_collection_field("items", 3, "name", &name, 2, &values, &floats).unwrap_err(),
    );
    assert_eq!(context(&several)["surface"], "collection_row");
    assert_eq!(context(&several)["row_index"], 3);
    let none = failed(
        project_collection_field("items", 3, "name", &name, 0, &Vec::new(), &floats).unwrap_err(),
    );
    assert_eq!(
        none.message,
        "collection field 'name' did not resolve within row 3 of 'items'"
    );
    name.many = true;
    let all = project_collection_field("items", 3, "name", &name, 2, &values, &floats).unwrap();
    assert_eq!(plain(&all), value(r#"["a", "b"]"#));
}

#[test]
fn collections_are_planned_as_scripts() {
    let items = collection(
        "li",
        vec![
            ("b", ExtractEntrySpec::Field(field_at(ExtractKind::Text, ".b"))),
            ("a", ExtractEntrySpec::Field(field_at(ExtractKind::Html, ".a"))),
        ],
    );
    let script = plan_collection("items", &items, ExtractAuthorityMode::LiveAllowed, "/*help*/")
        .expect("a script");
    assert!(script.contains("/*help*/"));
    assert!(script.contains("\"selector\":\"li\""));
    assert!(script.find("\"name\":\"a\"") < script.find("\"name\":\"b\""));
    let refused = plan_collection("items", &items, ExtractAuthorityMode::SnapshotOnly, "")
        .unwrap_err()
        .into_envelope();
    assert_eq!(
        context(&refused)["authority_state"],
        "snapshot_extract_live_collection_unsupported"
    );
    let mut ambiguous = collection("li", Vec::new());
    ambiguous.selector = Some("ul".to_string());
    assert!(build_collection_root_schema(&ambiguous).is_err());
    let mut indexed = field(ExtractKind::Text);
    indexed.index = Some(1);
    assert!(build_collection_entry_schema("x", &ExtractEntrySpec::Field(indexed)).is_err());
    let nested = build_collection_entry_schema(
        "tags",
        &ExtractEntrySpec::Collection(collection(".tag", Vec::new())),
    )
    .unwrap();
    assert_eq!(plain(&nested)["entry_kind"], "collection");
    assert_eq!(plain(&nested)["selector"], ".tag");
}

#[test]
fn row_locators_say_one_thing() {
    let nothing = RowScopedLocatorValidation {
        selector: false,
        target_text: false,
        role: false,
        label: false,
        testid: false,
        first: false,
        last: false,
        nth: false,
        allow_default_root: true,
        scope_name: "field",
    };
    assert!(validate_row_scoped_locator(nothing).is_ok());
    let message = |v: RowScopedLocatorValidation<'_>| {
        validate_row_scoped_locator(v)
            .unwrap_err()
            .into_envelope()
            .message
    };
    let rootless = RowScopedLocatorValidation {
        allow_default_root: false,
        ..nothing
    };
    assert!(message(rootless).starts_with("field requires one locator"));
    let both = RowScopedLocatorValidation {
        selector: true,
        role: true,
        ..nothing
    };
    assert!(message(both).starts_with("field locator is ambiguous"));
    let choosy = RowScopedLocatorValidation {
        selector: true,
        first: true,
        nth: true,
        ..nothing
    };
    assert!(message(choosy).starts_with("field match selection is ambiguous"));
    let baseless = RowScopedLocatorValidation {
        last: true,
        ..nothing
    };
    assert!(message(baseless).contains("requires an explicit locator"));
}

#[test]
fn entries_are_kept_in_the_order_of_their_names() {
    let mut entries = ExtractEntries::new();
    for name in ["b", "a", "c", "b"] {
        entries.insert(
            name.to_string(),
            ExtractEntrySpec::Field(field_at(ExtractKind::Text, name)),
        );
    }
    let names: Vec<&str> = entries.entries.iter().map(|(n, _)| n.as_str()).collect();
    assert_eq!(names, vec!["a", "b", "c"]);
}

#[test]
fn lookup_json_path_supports_nested_row_fields() {
    let row = json(r#"{ "subject": { "text": "Confirm your new account" } }"#);
    assert_eq!(
        lookup_json_path(&row, "subject.text").map(plain),
        Some(value(r#""Confirm your new account""#))
    );
    assert!(lookup_json_path(&row, "subject.missing").is_none());
}

#[test]
fn collection_wait_probe_matches_case_insensitive_normalized_contains() {
    let row = json(
        r#"{ "subject": "  Confirm   your NEW account  ", "from": "Discourse Demo" }"#,
    );
    assert!(collection_row_matches_wait_probe(
        &row,
        "subject",
        "confirm your new account"
    ));
    assert!(!collection_row_matches_wait_probe(
        &row,
        "from",
        "activation"
    ));
    assert_eq!(normalize_wait_text(" A\t B "), "a b");
    assert_eq!(normalize_wait_text("Ready NOW"), normalize_wait_text("rEADY now"));
}

fn wait_config() -> ExtractListWaitConfig {
    ExtractListWaitConfig {
        field_path: "subject".to_string(),
        contains: "hello".to_string(),
        timeout_ms: 100,
    }
}

#[test]
fn list_waits_match_sleep_or_time_out() {
    let wait = wait_config();
    let rows = json(r#"[{"subject": "x"}, {"subject": "Hello there"}]"#);
    match poll_collection_match(&rows, &wait, "mail", 10).unwrap() {
        ListWaitStep::Matched(row) => assert_eq!(plain(&row)["subject"], "Hello there"),
        other => panic!("unexpected {other:?}"),
    }
    let quiet = json(r#"[{"subject": "x"}]"#);
    assert!(matches!(
        poll_collection_match(&quiet, &wait, "mail", 10),
        Ok(ListWaitStep::Sleep)
    ));
    let late = poll_collection_match(&quiet, &wait, "mail", 100)
        .unwrap_err()
        .into_envelope();
    assert_eq!(late.code, ErrorCode::WaitTimeout);
    assert_eq!(
        late.message,
        collection_wait_timeout_error("mail", &wait, 100, 1).into_envelope().message
    );
    assert_eq!(context(&late)["item_count"], 1);
}

fn scan_config(until_count: u32) -> ExtractScanConfig {
    ExtractScanConfig {
        until_count,
        dedupe_key: Some("id".to_string()),
        max_scrolls: 2,
        scroll_amount: 100,
        settle_ms: 1,
        stall_limit: 2,
    }
}

#[test]
fn scans_collect_rows_once_until_they_have_enough() {
    let config = scan_config(3);
    let mut scan = ListScan::new();
    let first = scan.absorb(&config, &json(r#"[{"id": 1}, {"id": 2}, {"id": 1}]"#));
    assert!(matches!(first, Ok(ScanStep::Scroll)));
    assert_eq!(scan.rows.len(), 2);
    scan.note_scroll(false);
    let second = scan.absorb(&config, &json(r#"[{"id": 2}, {"id": 3}, {"id": 4}]"#));
    assert!(matches!(second, Ok(ScanStep::Stop(ScanStop::TargetReached))));
    assert_eq!(scan.rows.len(), 3);
    let payload = plain(&scan_payload("items", &scan, ScanStop::TargetReached, &config));
    assert_eq!(payload["result"]["item_count"], 3);
    assert_eq!(payload["result"]["scan"]["complete"], true);
    assert_eq!(payload["subject"]["scan_requested"], true);
    assert_eq!(
        row_fingerprint(&json(r#"{"id": 7}"#), Some("id"), 0).unwrap(),
        row_fingerprint(&json(r#"{"id": 7, "x": 1}"#), Some("id"), 5).unwrap()
    );
    assert!(row_fingerprint(&json("{}"), Some("id"), 0).is_err());
}

#[test]
fn scans_stop_where_nothing_new_comes() {
    let config = scan_config(10);
    let mut scan = ListScan::new();
    let batch = json(r#"[{"id": 1}]"#);
    let mut stop = None;
    for _ in 0..10 {
        match scan.absorb(&config, &batch).unwrap() {
            ScanStep::Stop(reason) => {
                stop = Some(reason);
                break;
            }
            ScanStep::Scroll => scan.note_scroll(false),
        }
    }
    assert!(matches!(stop, Some(ScanStop::Stalled) | Some(ScanStop::MaxScrollsReached)));
    assert_eq!(scan.rows.len(), 1);
}

#[test]
fn extract_wait_args_require_both_field_and_contains() {
    let error = ExtractWaitArgs {
        wait_field: Some("subject".to_string()),
        wait_contains: None,
        wait_timeout_ms: None,
    }
    .parse_config()
    .expect_err("partial wait config should fail")
    .into_envelope();
    assert_eq!(error.code, ErrorCode::InvalidInput);
    assert!(error.message.contains("requires both"), "{}", error.message);
}

fn no_scan() -> ExtractScanArgs {
    ExtractScanArgs {
        scan_until: None,
        scan_key: None,
        max_scrolls: None,
        scroll_amount: None,
        settle_ms: None,
        stall_limit: None,
    }
}

fn no_wait() -> ExtractWaitArgs {
    ExtractWaitArgs {
        wait_field: None,
        wait_contains: None,
        wait_timeout_ms: None,
    }
}

#[test]
fn extract_list_command_parses_wait_config() {
    let command = ExtractCommand::List {
        snapshot_id: None,
        scan: no_scan(),
        wait: ExtractWaitArgs {
            wait_field: Some("subject".to_string()),
            wait_contains: Some("Confirm your account".to_string()),
            wait_timeout_ms: Some(5000),
        },
    };
    let wait = command
        .wait_config()
        .expect("wait config should parse")
        .expect("wait config should be present");
    assert_eq!(wait.field_path, "subject");
    assert_eq!(wait.contains, "Confirm your account");
    assert_eq!(wait.timeout_ms, 5000);
    assert!(matches!(plan_extract(&command), Ok(ExtractPlan::Wait(_))));
}

#[test]
fn extractions_are_planned_by_what_they_ask_for() {
    let query = ExtractCommand::Query { snapshot_id: None };
    assert!(matches!(
        plan_extract(&query),
        Ok(ExtractPlan::Read(ExtractAuthorityMode::LiveAllowed))
    ));
    let snapshot = ExtractCommand::Query {
        snapshot_id: Some("snap-1".to_string()),
    };
    assert!(matches!(
        plan_extract(&snapshot),
        Ok(ExtractPlan::Read(ExtractAuthorityMode::SnapshotOnly))
    ));
    assert_eq!(snapshot.source_kind(), "snapshot");
    let mut scan = no_scan();
    scan.scan_until = Some(3);
    let scan_of_snapshot = ExtractCommand::List {
        snapshot_id: Some("snap-1".to_string()),
        scan,
        wait: no_wait(),
    };
    assert!(plan_extract(&scan_of_snapshot)
        .unwrap_err()
        .into_envelope()
        .message
        .contains("scan cannot reuse --snapshot"));
    let mut scan = no_scan();
    scan.scan_until = Some(3);
    let both = ExtractCommand::List {
        snapshot_id: None,
        scan,
        wait: ExtractWaitArgs {
            wait_field: Some("a".to_string()),
            wait_contains: Some("b".to_string()),
            wait_timeout_ms: None,
        },
    };
    assert!(plan_extract(&both)
        .unwrap_err()
        .into_envelope()
        .message
        .contains("cannot be combined with scan"));
    let mut nothing = no_scan();
    nothing.scan_until = Some(0);
    let none = ExtractCommand::List {
        snapshot_id: None,
        scan: nothing,
        wait: no_wait(),
    };
    assert!(plan_extract(&none).is_err());
}

#[test]
fn answers_say_what_was_asked() {
    let command = ExtractCommand::Query { snapshot_id: None };
    let mut fields = ExtractEntries::new();
    fields.insert(
        "title".to_string(),
        ExtractEntrySpec::Field(field(ExtractKind::Text)),
    );
    fields.insert(
        "link".to_string(),
        ExtractEntrySpec::Field(field(ExtractKind::Text)),
    );
    let answer = plain(&query_payload(
        &command,
        &fields,
        json(r#"{"snapshot_id": "s"}"#),
        &vec![json(r#""L""#), json(r#""T""#)],
    ));
    assert_eq!(answer["result"]["fields"], value(r#"{"link": "L", "title": "T"}"#));
    assert_eq!(answer["result"]["field_count"], 2);
    assert_eq!(answer["subject"]["source"], "live_page");
    let listed = plain(&list_payload(&command, "rows", Json::Null, json("[1, 2]")));
    assert_eq!(listed["result"]["item_count"], 2);
    let waited = plain(&wait_payload(
        "rows",
        json("[1]"),
        json("1"),
        &wait_config(),
        12,
    ));
    assert_eq!(waited["result"]["wait"]["elapsed_ms"], 12);
    assert_eq!(
        waited["result"]["outcome_summary"]["class"],
        "confirmed_new_item_observed"
    );
}

#[test]
fn lists_have_one_collection() {
    let mut fields = ExtractEntries::new();
    assert!(resolve_single_collection(&fields, "inspect list")
        .unwrap_err()
        .into_envelope()
        .message
        .contains("requires a top-level collection spec"));
    fields.insert(
        "rows".to_string(),
        ExtractEntrySpec::Collection(collection("li", Vec::new())),
    );
    assert_eq!(resolve_single_collection(&fields, "inspect list").unwrap().0, "rows");
    fields.insert(
        "title".to_string(),
        ExtractEntrySpec::Field(field(ExtractKind::Text)),
    );
    assert!(resolve_single_collection(&fields, "inspect list")
        .unwrap_err()
        .into_envelope()
        .message
        .contains("exactly one top-level collection field"));
}

#[test]
fn parse_extract_fields_normalizes_nested_collection_string_shorthand() {
    let mut spec = json(
        r#"{ "items": { "collection": ".mail-row", "fields": { "subject": ".subject" } } }"#,
    );
    normalize_extract_spec_shorthands_in_place(&mut spec)
        .expect("nested collection shorthand should normalize recursively");
    assert_eq!(
        plain(&spec)["items"]["fields"]["subject"],
        value(r#"{"selector": ".subject", "kind": "text"}"#)
    );
    let once = plain(&spec);
    normalize_extract_spec_shorthands_in_place(&mut spec).expect("nothing left to write out");
    assert_eq!(plain(&spec), once);
}

#[test]
fn parse_extract_fields_accepts_nested_collection_object_entries() {
    let text = r#"{ "items": { "collection": ".mail-row", "fields": {
        "subject": { "selector": ".subject", "kind": "text" } } } }"#;
    let mut spec = json(text);
    normalize_extract_spec_shorthands_in_place(&mut spec)
        .expect("nested collection object entries should parse");
    assert_eq!(plain(&spec), value(text));
}

#[test]
fn parse_extract_fields_reports_nested_field_path_for_invalid_collection_entry() {
    let mut spec =
        json(r#"{ "items": { "collection": ".mail-row", "fields": { "subject": 42 } } }"#);
    let envelope = normalize_extract_spec_shorthands_in_place(&mut spec)
        .expect_err("invalid nested collection entry should fail closed")
        .into_envelope();
    assert_eq!(envelope.code, ErrorCode::InvalidInput);
    assert_eq!(context(&envelope)["path"], "$.items.fields.subject");
    assert_eq!(context(&envelope)["surface"], "extract_field_map");
}

#[test]
fn postprocess_applies_map_transform_and_type() {
    let map = JsonObject::new().with("In Stock", Json::Bool(true));
    let value = with_floats(|floats| {
        apply_postprocess(
            "stock",
            json(r#""In Stock""#),
            Some(ExtractValueType::Boolean),
            None,
            &map,
            None,
            floats,
        )
    })
    .unwrap();
    assert_eq!(plain(&value), true);

    let price = with_floats(|floats| {
        apply_postprocess(
            "price",
            json(r#"" 12.50 ""#),
            Some(ExtractValueType::Number),
            None,
            &JsonObject::new(),
            Some(ExtractTransform::ParseFloat),
            floats,
        )
    })
    .unwrap();
    assert_eq!(plain(&price), 12.5);
}

#[test]
fn missing_field_uses_default_or_null_when_not_required() {
    assert!(plain(&resolve_missing_field("optional", false, None).unwrap()).is_null());
    assert_eq!(
        plain(&resolve_missing_field("optional", false, Some(&json("[]"))).unwrap()),
        value("[]")
    );
    assert!(resolve_missing_field("needed", true, None).is_err());
}

fn transformed(text: &str, transform: ExtractTransform) -> Result<Value, ErrorEnvelope> {
    with_floats(|floats| {
        apply_postprocess(
            "f",
            Json::Text(text.to_string()),
            None,
            None,
            &JsonObject::new(),
            Some(transform),
            floats,
        )
    })
    .map(|value| plain(&value))
    .map_err(RubError::into_envelope)
}

#[test]
fn transforms_change_texts() {
    assert_eq!(transformed(" a ", ExtractTransform::Trim).unwrap(), "a");
    assert_eq!(
        transformed("Straße ÄΣ", ExtractTransform::Lowercase).unwrap(),
        "Straße ÄΣ".to_lowercase()
    );
    assert_eq!(
        transformed("straße ä", ExtractTransform::Uppercase).unwrap(),
        "STRASSE Ä"
    );
    assert_eq!(transformed(" -42 ", ExtractTransform::ParseInt).unwrap(), -42);
    assert!(transformed("4.5", ExtractTransform::ParseInt).is_err());
    assert!(transformed("9223372036854775808", ExtractTransform::ParseInt).is_err());
    assert_eq!(transformed("yes", ExtractTransform::ParseBool).unwrap(), true);
    assert!(transformed("maybe", ExtractTransform::ParseBool).is_err());
    assert!(transformed("inf", ExtractTransform::ParseFloat).is_err());
    assert!(transformed("x", ExtractTransform::ParseFloat).is_err());
}

#[test]
fn values_of_another_type_are_refused() {
    let refused = with_floats(|floats| {
        apply_postprocess(
            "f",
            json("1"),
            Some(ExtractValueType::Text),
            None,
            &JsonObject::new(),
            None,
            floats,
        )
    });
    assert!(refused.is_err());
}

#[test]
fn locator_keys_are_listed_in_order() {
    let mut title = field_at(ExtractKind::Text, "h1");
    title.first = true;
    assert_eq!(extract_locator_keys_present(&title), vec!["selector", "first"]);
    let mut items = collection("li", Vec::new());
    items.row_scope_selector = Some("ul".to_string());
    items.nth = Some(0);
    assert_eq!(
        extract_collection_locator_keys_present(&items),
        vec!["collection", "row_scope_selector", "nth"]
    );
}

#[test]
fn fields_are_rendered_without_what_is_usual() {
    let mut price = field_at(ExtractKind::Text, ".price");
    price.required = false;
    price.map = JsonObject::new().with("a", Json::Bool(true));
    assert_eq!(
        plain(&render_extract_field_spec(&price)),
        value(r#"{"selector": ".price", "kind": "text", "required": false, "map": {"a": true}}"#)
    );
    let mut entries = ExtractEntries::new();
    entries.insert("p".to_string(), ExtractEntrySpec::Field(price));
    assert_eq!(plain(&entry_summaries(&entries)[0])["required"], false);
}

#[test]
fn subcommands_are_filled_in() {
    let args = json(r#"{"spec": "{}"}"#);
    assert_eq!(plain(&normalize_extract_sub(&args, Some("list")))["sub"], "list");
    assert!(ExtractTypeHint::parse("nonsense").is_err());
}

#[test]
fn specs_are_written_out_up_to_what_is_wrong() {
    let mut spec = json(
        r#"{
            "a": ".first",
            "b": { "collection": ".row", "fields": { "x": ".x", "y": 7, "z": ".z" } },
            "c": ".last"
        }"#,
    );
    let envelope = normalize_extract_spec_shorthands_in_place(&mut spec)
        .expect_err("a number is no field")
        .into_envelope();
    assert_eq!(context(&envelope)["path"], "$.b.fields.y");
    assert_eq!(context(&envelope)["field"], "y");
    assert_eq!(
        plain(&spec),
        value(
            r#"{
                "a": { "selector": ".first", "kind": "text" },
                "b": {
                    "collection": ".row",
                    "fields": { "x": { "selector": ".x", "kind": "text" }, "y": 7, "z": ".z" }
                },
                "c": ".last"
            }"#
        )
    );
}
