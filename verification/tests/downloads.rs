use rub_daemon::downloads::args::{
    matches_wait_state, parse_wait_state, wait_state_label, DownloadSubcommand, DownloadWaitArgs,
    DownloadWaitState,
};
use rub_daemon::downloads::asset_save::execute::{
    entry_json_value, timeout_entry, AssetSave, SaveAction, SaveEvent, SavedAssetEntry,
};
use rub_daemon::downloads::asset_save::paths::{
    build_base_filename, bulk_output_dir_state, content_type_extension, filename_from_segments,
    is_meaningful_filename_stem, normalize_known_extension, plan_named_path, planned_output_path,
    reconcile_output_path, reconcile_output_path_with_bytes, reserve_reconciled_output_path,
    sanitize_filename, saved_asset_output_path_state, set_tracked_temp_path,
    sniff_content_extension, split_known_extension, take_tracked_temp_path, temporary_path,
    temporary_path_at, with_numeric_suffix, NameCounts, SavedAssetStatus,
};
use rub_daemon::downloads::asset_save::request::{
    asset_request_authority, build_request_headers_for_asset, finish_asset_url, load_asset_sources,
    parse_json_asset_row, parse_text_asset_sources, resolve_asset_url, resolve_json_asset_root,
    source_read_error, AssetSource, Cookie,
};
use rub_daemon::downloads::asset_save::summary::summarize_results;
use rub_daemon::downloads::asset_save::{
    batch_payload, deadline_budget_ms, effective_timeout_ms, preparation_timeout_error,
    sort_entries, source_count, subject_projection, Dispatch, DownloadSaveArgs,
    DownloadSaveRequest, SaveBatch, MAX_SAVE_CONCURRENCY,
};
use rub_daemon::downloads::projection::{
    annotate_download_runtime_path_states, download_wait_timeout_error, format_download_progress,
    DownloadEntry, DownloadRuntimeInfo, DownloadRuntimeStatus, DownloadState,
};
use rub_daemon::downloads::{begin_download_wait, cmd_downloads, poll_download_cancel, WaitStep};
use rub_daemon::error::{ErrorCode, ErrorEnvelope};
use rub_daemon::json::{lookup_json_path, Json, JsonNumber, JsonObject};
use rub_daemon::paths::{extension, file_name, file_stem, join, same_path, with_extension};
use serde_json::Value;

/// A JSON value as the library holds it.
fn own(value: &Value) -> Json {
    match value {
        Value::Null => Json::Null,
        Value::Bool(b) => Json::Bool(*b),
        Value::Number(n) => match (n.as_u64(), n.as_i64()) {
            (Some(u), _) => Json::Number(JsonNumber::PosInt(u)),
            (None, Some(i)) => Json::Number(JsonNumber::NegInt(i)),
            (None, None) => Json::Number(JsonNumber::Float(n.to_string())),
        },
        Value::String(s) => Json::Text(s.clone()),
        Value::Array(items) => Json::Array(items.iter().map(own).collect()),
        Value::Object(members) => {
            let mut object = JsonObject::new();
            for (key, member) in members {
                object.insert(key, own(member));
            }
            Json::Object(object)
        }
    }
}

/// A JSON value as serde_json holds it.
fn plain(value: &Json) -> Value {
    match value {
        Json::Null => Value::Null,
        Json::Bool(b) => Value::Bool(*b),
        Json::Number(JsonNumber::PosInt(u)) => Value::from(*u),
        Json::Number(JsonNumber::NegInt(i)) => Value::from(*i),
        Json::Number(JsonNumber::Float(s)) => serde_json::from_str(s).unwrap(),
        Json::Text(s) => Value::from(s.as_str()),
        Json::Array(items) => Value::Array(items.iter().map(plain).collect()),
        Json::Object(object) => Value::Object(
            object
                .entries
                .iter()
                .map(|(key, member)| (key.clone(), plain(member)))
                .collect(),
        ),
    }
}

fn json(text: &str) -> Json {
    own(&value(text))
}

fn value(text: &str) -> Value {
    serde_json::from_str(text).unwrap()
}

fn context(envelope: &ErrorEnvelope) -> Value {
    plain(envelope.context.as_ref().expect("context"))
}

fn download(state: DownloadState) -> DownloadEntry {
    DownloadEntry {
        guid: "guid-1".to_string(),
        state,
        url: Some("https://example.com/report.csv".to_string()),
        suggested_filename: Some("report.csv".to_string()),
        final_path: None,
        mime_hint: None,
        received_bytes: 0,
        total_bytes: None,
        started_at: "2026-03-30T00:00:00Z".to_string(),
        completed_at: None,
        frame_id: None,
        trigger_command_id: None,
    }
}

fn runtime() -> DownloadRuntimeInfo {
    DownloadRuntimeInfo {
        status: DownloadRuntimeStatus::Active,
        mode: "managed".to_string(),
        download_dir: Some("/tmp/downloads".to_string()),
        active_downloads: vec![download(DownloadState::InProgress)],
        completed_downloads: Vec::new(),
        last_download: Some(download(DownloadState::InProgress)),
        degraded_reason: None,
    }
}

#[test]
fn wait_state_parser_accepts_terminal_aliases() {
    assert_eq!(
        parse_wait_state(Some("terminal")).expect("terminal should parse"),
        DownloadWaitState::Terminal
    );
    let err = parse_wait_state(Some("mystery")).expect_err("invalid state should error");
    assert_eq!(err.into_envelope().code, ErrorCode::InvalidInput);
}

#[test]
fn wait_states_are_read_back_from_their_labels() {
    for state in [
        DownloadWaitState::Started,
        DownloadWaitState::InProgress,
        DownloadWaitState::Completed,
        DownloadWaitState::Failed,
        DownloadWaitState::Canceled,
        DownloadWaitState::Terminal,
    ] {
        assert_eq!(
            parse_wait_state(Some(wait_state_label(state))).expect("a label"),
            state
        );
    }
}

#[test]
fn wait_state_matcher_handles_terminal_states() {
    assert!(matches_wait_state(
        &download(DownloadState::Completed),
        DownloadWaitState::Terminal
    ));
    assert!(matches_wait_state(
        &download(DownloadState::Canceled),
        DownloadWaitState::Terminal
    ));
    assert!(!matches_wait_state(
        &download(DownloadState::InProgress),
        DownloadWaitState::Terminal
    ));
}

#[test]
fn wait_timeout_error_includes_live_download_progress_and_guidance() {
    let mut current = download(DownloadState::InProgress);
    current.received_bytes = 512;
    current.total_bytes = Some(1024);
    let error = download_wait_timeout_error(
        Some("guid-1"),
        "completed",
        10_000,
        10_000,
        &runtime(),
        Some(&current),
    );
    let envelope = error.into_envelope();
    assert_eq!(envelope.code, ErrorCode::WaitTimeout);
    assert!(envelope.message.contains("current state is 'in_progress'"));
    assert!(envelope.message.contains("512 / 1024 bytes"));
    assert!(envelope.suggestion.contains("rub downloads"));
    assert_eq!(context(&envelope)["download"]["guid"], "guid-1");
    assert_eq!(
        context(&envelope)["download_runtime"]["download_dir_state"]["path_kind"],
        "managed_download_directory"
    );
    assert!(format_download_progress(&current).contains("512 / 1024 bytes"));
}

#[test]
fn annotate_download_runtime_path_states_marks_managed_directory_reference() {
    let mut runtime = json(
        r#"{
            "download_dir": "/tmp/downloads",
            "active_downloads": [],
            "completed_downloads": [],
            "last_download": null
        }"#,
    );

    annotate_download_runtime_path_states(&mut runtime);

    let runtime = plain(&runtime);
    assert_eq!(
        runtime["download_dir_state"]["truth_level"],
        "operator_path_reference"
    );
    assert_eq!(
        runtime["download_dir_state"]["path_authority"],
        "session.download_runtime.download_dir"
    );
    assert_eq!(
        runtime["download_dir_state"]["upstream_truth"],
        "session_download_runtime"
    );
    assert_eq!(
        runtime["download_dir_state"]["path_kind"],
        "managed_download_directory"
    );
}

#[test]
fn downloads_are_listed() {
    let listed = plain(&cmd_downloads(&runtime()));
    assert_eq!(
        listed["runtime"]["download_dir_state"]["path_kind"],
        "managed_download_directory"
    );
    assert!(matches!(
        DownloadSubcommand::parse(&json(r#"{"sub": "save"}"#)),
        Ok(DownloadSubcommand::Save)
    ));
    assert!(DownloadSubcommand::parse(&json(r#"{"sub": "juggle"}"#)).is_err());
}

#[test]
fn waits_match_sleep_or_time_out() {
    let wait = begin_download_wait(
        &DownloadWaitArgs {
            id: Some("guid-1".to_string()),
            state: Some("completed".to_string()),
            timeout_ms: Some(100),
        },
        &runtime(),
    )
    .expect("a state");
    let entry = download(DownloadState::InProgress);
    assert!(matches!(
        wait.poll(Some(&entry), &runtime(), 10),
        WaitStep::Sleep
    ));
    assert!(matches!(
        wait.poll(Some(&entry), &runtime(), 100),
        WaitStep::TimedOut(_)
    ));
    let finished = download(DownloadState::Completed);
    assert!(matches!(
        wait.poll(Some(&finished), &runtime(), 500),
        WaitStep::Matched(_)
    ));
    assert!(matches!(
        poll_download_cancel(
            "guid-1",
            Some(&download(DownloadState::Canceled)),
            &runtime(),
            false
        ),
        WaitStep::Matched(_)
    ));
}

#[test]
fn build_base_filename_uses_source_name_and_url_extension() {
    assert_eq!(
        build_base_filename("https://example.test/assets/photo.jpg", Some("card-1")),
        "card-1.jpg"
    );
    assert_eq!(
        build_base_filename("https://example.test/assets/photo", Some("card 1")),
        "card_1.bin"
    );
    assert_eq!(
        build_base_filename(
            "https://example.test/assets/photo.webp",
            Some("sample-content-title-v2")
        ),
        "sample-content-title-v2.webp"
    );
    assert_eq!(
        build_base_filename("https://example.test/assets/photo.webp", Some("2.0")),
        "photo.webp"
    );
    assert_eq!(
        build_base_filename("https://example.test/assets/photo", Some("cover.jpg")),
        "cover.jpg"
    );
}

#[test]
fn names_come_from_the_last_segment_of_an_address() {
    assert_eq!(
        filename_from_segments(
            &Some(vec!["a".to_string(), "photo.JPEG".to_string()]),
            None
        ),
        "photo.JPEG"
    );
    assert_eq!(
        build_base_filename("https://example.test/a%20b/c.png?x=1", None),
        "c.png"
    );
    assert_eq!(build_base_filename("not an address", None), "asset.bin");
}

fn test_download_save_request(input_field: Option<&str>) -> DownloadSaveRequest {
    DownloadSaveRequest {
        file: "/tmp/assets.json".to_string(),
        output_dir: "/tmp/output".to_string(),
        input_field: input_field.map(str::to_string),
        url_field: None,
        name_field: None,
        base_url: None,
        cookie_url: None,
        limit: None,
        concurrency: 1,
        overwrite: false,
        timeout_ms: 1_000,
    }
}

#[test]
fn download_save_batch_uses_authoritative_timeout_budget() {
    let mut request = test_download_save_request(None);
    request.timeout_ms = 30_000;
    let request = request.within(250);
    assert_eq!(request.timeout_ms, 250);
    assert!(deadline_budget_ms(request.timeout_ms) <= 260);
    assert_eq!(effective_timeout_ms(100, 250), 100);
}

#[test]
fn reconcile_output_path_uses_content_type_when_name_is_bin() {
    let path = "/tmp/card_1.bin";
    assert_eq!(
        reconcile_output_path(path, Some(b"image/webp")),
        "/tmp/card_1.webp"
    );
    assert_eq!(
        reconcile_output_path("/tmp/card_1.jpg", Some(b"image/webp")),
        "/tmp/card_1.jpg"
    );
    assert_eq!(
        content_type_extension(b"image/jpeg; charset=binary"),
        Some("jpg")
    );
    assert_eq!(
        sniff_content_extension(b"RIFF\x96d\x01\x00WEBPVP8 "),
        Some("webp")
    );
    assert_eq!(
        reconcile_output_path_with_bytes(path, None, Some(b"RIFF\x96d\x01\x00WEBPVP8 ")),
        "/tmp/card_1.webp"
    );
}

#[test]
fn contents_are_told_by_their_first_bytes() {
    assert_eq!(sniff_content_extension(b"\x89PNG\r\n\x1a\n...."), Some("png"));
    assert_eq!(sniff_content_extension(b"\xff\xd8\xff\xe0"), Some("jpg"));
    assert_eq!(sniff_content_extension(b"GIF89a"), Some("gif"));
    assert_eq!(sniff_content_extension(b"plain"), None);
    assert_eq!(content_type_extension(b"text/unknown"), None);
    assert_eq!(content_type_extension(b"image/\xffwebp"), None);
}

#[test]
fn parse_text_asset_sources_ignores_blank_lines() {
    let rows = parse_text_asset_sources("https://a\n\nhttps://b\n").expect("plain text");
    assert_eq!(rows.len(), 2);
    assert_eq!(rows[0].0, "https://a");
    assert_eq!(rows[1].0, "https://b");
}

#[test]
fn json_path_lookup_supports_nested_fields() {
    let value = json(r#"{ "fields": { "items": [{ "url": "https://example.test/a.png" }] } }"#);
    let found = lookup_json_path(&value, "fields.items").expect("a member");
    assert_eq!(plain(found).as_array().map(|items| items.len()), Some(1));
}

#[test]
fn resolve_json_asset_root_accepts_canonical_batch_object_root() {
    let value = json(
        r#"{ "items": [ { "url": "https://example.test/a.png" } ], "item_count": 1 }"#,
    );
    let request = test_download_save_request(None);
    let resolved = resolve_json_asset_root(&request, &value).expect("canonical batch root");
    assert_eq!(plain(resolved), plain(&value)["items"]);
}

#[test]
fn resolve_json_asset_root_auto_detects_canonical_result_batch_root() {
    let value = json(
        r#"{ "data": { "result": {
            "items": [ { "url": "https://example.test/a.png" } ], "item_count": 1
        } } }"#,
    );
    let request = test_download_save_request(None);
    let resolved = resolve_json_asset_root(&request, &value).expect("canonical result batch root");
    assert_eq!(plain(resolved), plain(&value)["data"]["result"]["items"]);
}

#[test]
fn resolve_json_asset_root_accepts_explicit_canonical_batch_path() {
    let value = json(
        r#"{ "data": { "result": {
            "items": [ { "url": "https://example.test/a.png" } ], "item_count": 1
        } } }"#,
    );
    let request = test_download_save_request(Some("data.result"));
    let resolved =
        resolve_json_asset_root(&request, &value).expect("explicit canonical batch root");
    assert_eq!(plain(resolved), plain(&value)["data"]["result"]["items"]);
}

#[test]
fn roots_that_hold_no_rows_are_refused() {
    let request = test_download_save_request(None);
    let whole = json(r#"{"a": 1}"#);
    assert_eq!(
        plain(resolve_json_asset_root(&request, &whole).unwrap()),
        plain(&whole)
    );
    let elsewhere = test_download_save_request(Some("missing.path"));
    assert!(resolve_json_asset_root(&elsewhere, &json("[]")).is_err());
    assert!(parse_json_asset_row(&request, &json("{}"), 3).is_err());
}

fn save_args(concurrency: u32) -> DownloadSaveArgs {
    DownloadSaveArgs {
        file: "downloads.json".to_string(),
        output_dir: "/tmp/out".to_string(),
        input_field: None,
        url_field: None,
        name_field: None,
        base_url: None,
        cookie_url: None,
        limit: None,
        concurrency,
        overwrite: false,
        timeout_ms: 1_000,
    }
}

#[test]
fn parse_save_request_rejects_concurrency_beyond_backpressure_cap() {
    let error = DownloadSaveRequest::try_from_args(save_args(MAX_SAVE_CONCURRENCY + 1))
        .expect_err("oversized concurrency must fail closed");
    assert_eq!(error.into_envelope().code, ErrorCode::InvalidInput);
    assert!(DownloadSaveRequest::try_from_args(save_args(MAX_SAVE_CONCURRENCY)).is_ok());
}

#[test]
fn resolve_asset_url_requires_base_url_for_relative_sources() {
    let error = resolve_asset_url("media/cache/cover.jpg", None).expect_err("relative URL");
    let envelope = error.into_envelope();
    assert_eq!(envelope.code, ErrorCode::InvalidInput);
    assert!(
        envelope.message.contains("provide --base-url"),
        "{}",
        envelope.message
    );
    assert_eq!(
        resolve_asset_url("media/cache/cover.jpg", Some("https://books.toscrape.com/"))
            .expect("resolved relative URL"),
        "https://books.toscrape.com/media/cache/cover.jpg"
    );
}

#[test]
fn addresses_are_parsed_and_joined() {
    assert_eq!(
        resolve_asset_url("https://EXAMPLE.test/a/../b.png", None).expect("an address"),
        "https://EXAMPLE.test/a/../b.png"
    );
    assert_eq!(
        resolve_asset_url("../b.png", Some("https://EXAMPLE.test/a/c/")).expect("an address"),
        "https://example.test/a/b.png"
    );
    assert!(resolve_asset_url("https://[", Some("https://x.test")).is_ok());
    assert!(resolve_asset_url("//[", Some("https://x.test")).is_err());
    assert!(resolve_asset_url("x.png", Some("not a base")).is_err());
    assert_eq!(
        finish_asset_url(
            "x",
            "base",
            Ok("https://a/".to_string()),
            Ok("https://a/x".to_string())
        )
        .ok()
        .as_deref(),
        Some("https://a/x")
    );
}

#[test]
fn filename_helpers_sanitize_and_suffix() {
    assert_eq!(sanitize_filename("hello world!.png"), "hello_world_.png");
    assert_eq!(sanitize_filename("article-title_2.0"), "article-title_2.0");
    assert_eq!(with_numeric_suffix("asset.png", 2), "asset-2.png");
    assert_eq!(normalize_known_extension("jpeg"), Some("jpg".to_string()));
    assert_eq!(
        split_known_extension("cover.jpg".to_string()),
        ("cover".to_string(), Some("jpg".to_string()))
    );
    assert!(is_meaningful_filename_stem("article_123"));
    assert!(!is_meaningful_filename_stem("2.0"));
}

#[test]
fn sanitized_names_stay_as_they_are() {
    for raw in ["hello world!.png", "../../etc/passwd", "a\u{e9}\u{4e2d}b", "   "] {
        let once = sanitize_filename(raw);
        assert_eq!(sanitize_filename(&once), once);
        assert!(!once.contains('/'));
    }
}

#[test]
fn reconciled_output_path_reserves_unique_name_when_extension_inference_collides() {
    let mut planned = vec!["/tmp/alpha.bin".to_string(), "/tmp/alpha.webp".to_string()];
    assert_eq!(
        reserve_reconciled_output_path("/tmp/alpha.bin", Some(b"image/webp"), None, &mut planned),
        "/tmp/alpha-2.webp"
    );
    assert_eq!(
        reserve_reconciled_output_path("/tmp/alpha.webp", Some(b"image/webp"), None, &mut planned),
        "/tmp/alpha.webp"
    );
}

#[test]
fn reconciled_output_path_handles_cascading_extension_collisions() {
    let mut reserved = vec![
        "/tmp/card.bin".to_string(),
        "/tmp/card-2.bin".to_string(),
        "/tmp/card.webp".to_string(),
    ];
    let first =
        reserve_reconciled_output_path("/tmp/card.bin", Some(b"image/webp"), None, &mut reserved);
    let second =
        reserve_reconciled_output_path("/tmp/card-2.bin", Some(b"image/webp"), None, &mut reserved);
    assert_eq!(first, "/tmp/card-2.webp");
    assert_eq!(second, "/tmp/card-2-2.webp");
}

#[test]
fn planned_names_of_one_base_are_numbered() {
    let mut names = NameCounts::new();
    assert_eq!(
        planned_output_path("/out", "https://x.test/a.png", None, &mut names),
        "/out/a.png"
    );
    assert_eq!(
        planned_output_path("/out", "https://y.test/a.png", None, &mut names),
        "/out/a-2.png"
    );
    assert_eq!(
        plan_named_path("/out/", "a.png".to_string(), &mut names),
        "/out/a-3.png"
    );
}

#[test]
fn tracked_temp_paths_are_taken_once() {
    let mut slot: Option<String> = None;
    set_tracked_temp_path(&mut slot, Some("/tmp/alpha.webp.part-1".to_string()));
    assert_eq!(
        take_tracked_temp_path(&mut slot).as_deref(),
        Some("/tmp/alpha.webp.part-1")
    );
    assert_eq!(take_tracked_temp_path(&mut slot), None);
}

#[test]
fn temporary_paths_lie_beside_their_output() {
    assert_eq!(
        temporary_path_at("/tmp/alpha.webp", "17"),
        "/tmp/alpha.webp.part-17"
    );
    let now = temporary_path("/tmp/alpha.webp");
    assert!(now.starts_with("/tmp/alpha.webp.part-"));
    assert!(now.len() > "/tmp/alpha.webp.part-".len() + 10);
    assert!(now["/tmp/alpha.webp.part-".len()..]
        .chars()
        .all(|c| c.is_ascii_digit()));
}

#[test]
fn asset_request_authority_keeps_cookie_lookup_on_asset_url_contract() {
    let authority = asset_request_authority(
        Some("https://app.example.test/feed"),
        "https://cdn.example.test/image.png",
    );
    assert_eq!(
        authority.cookie_lookup_url,
        "https://cdn.example.test/image.png"
    );
    assert_eq!(authority.referer_url, Some("https://app.example.test/feed"));
}

#[test]
fn saved_asset_output_path_state_distinguishes_saved_skipped_and_planned_paths() {
    let saved = saved_asset_output_path_state(SavedAssetStatus::Saved, None);
    assert_eq!(saved.path_kind, "saved_artifact");
    assert_eq!(saved.path_authority, "router.download_save.output_path");
    assert_eq!(saved.upstream_truth, "download_save_entry_result");
    assert_eq!(saved.control_role, "display_only");
    assert_eq!(saved.durability, "durable");

    let published = saved_asset_output_path_state(SavedAssetStatus::Saved, Some(false));
    assert_eq!(published.path_kind, "saved_artifact");
    assert_eq!(published.durability, "published");

    let skipped = saved_asset_output_path_state(SavedAssetStatus::SkippedExisting, None);
    assert_eq!(skipped.path_kind, "existing_file_reference");
    assert_eq!(skipped.durability, "external_existing_file_reference");

    let failed = saved_asset_output_path_state(SavedAssetStatus::Failed, None);
    assert_eq!(failed.path_kind, "planned_output_reference");
    assert_eq!(failed.durability, "not_committed");

    let timed_out = saved_asset_output_path_state(SavedAssetStatus::TimedOut, None);
    assert_eq!(timed_out.path_kind, "planned_output_reference");
    assert_eq!(timed_out.durability, "not_committed");
}

#[test]
fn bulk_output_dir_state_marks_request_directory_reference() {
    let state = bulk_output_dir_state();
    assert_eq!(state.path_kind, "batch_output_directory");
    assert_eq!(state.path_authority, "router.download_save.output_dir");
    assert_eq!(state.upstream_truth, "download_save_batch_request");
    assert_eq!(state.control_role, "display_only");
}

#[test]
fn sources_are_loaded_from_json_or_lines() {
    let mut request = test_download_save_request(None);
    request.url_field = Some("link".to_string());
    request.name_field = Some("title".to_string());
    let sources = load_asset_sources(
        &request,
        r#"[{"link": "https://x.test/a.png", "title": "First"}, {"link": "https://x.test/b", "title": "Second"}]"#,
    )
    .expect("rows");
    assert_eq!(sources.len(), 2);
    assert_eq!(sources[0].output_path, "/tmp/output/First.png");
    assert_eq!(sources[1].output_path, "/tmp/output/Second.bin");
    assert_eq!(sources[1].source_name.as_deref(), Some("Second"));

    let mut limited = test_download_save_request(None);
    limited.limit = Some(1);
    let lines = load_asset_sources(&limited, "https://x.test/a.png\nhttps://x.test/b.png\n")
        .expect("lines");
    assert_eq!(lines.len(), 1);
    assert_eq!(source_count(Some(1), 2), 1);
    assert_eq!(source_count(None, 2), 2);
}

#[test]
fn unreadable_lists_are_reported() {
    assert_eq!(
        source_read_error("a.json", true, "gone").into_envelope().code,
        ErrorCode::FileNotFound
    );
    assert!(source_read_error("a.json", false, "denied")
        .into_envelope()
        .message
        .contains("denied"));
}

#[test]
fn headers_carry_what_they_can() {
    let headers = build_request_headers_for_asset(
        Some("https://app.test/"),
        &vec![Cookie {
            name: "sid".to_string(),
            value: "1".to_string(),
        }],
    )
    .expect("plain headers")
    .expect("some headers");
    assert!(headers
        .iter()
        .any(|(name, value)| name.eq_ignore_ascii_case("referer") && value == "https://app.test/"));
    assert!(headers
        .iter()
        .any(|(name, value)| name.eq_ignore_ascii_case("cookie") && value == "sid=1"));
    assert!(build_request_headers_for_asset(Some("a\nb"), &Vec::new()).is_err());
    assert!(matches!(
        build_request_headers_for_asset(None, &Vec::new()),
        Ok(None)
    ));
}

fn source(index: u32) -> AssetSource {
    AssetSource {
        index,
        url: format!("https://x.test/{index}"),
        source_name: None,
        output_path: format!("/out/{index}.bin"),
    }
}

#[test]
fn an_asset_is_requested_written_and_committed() {
    let mut save = AssetSave::new(source(0), false);
    assert!(matches!(
        save.advance(SaveEvent::Begin {
            deadline_passed: false
        }),
        SaveAction::SendRequest
    ));
    assert!(matches!(
        save.advance(SaveEvent::Response { status: 200 }),
        SaveAction::ReadFirstChunk
    ));
    let mut reserved = vec!["/out/0.bin".to_string()];
    match save.reserve_output(Some(b"image/png"), None, &mut reserved) {
        SaveAction::CheckExisting { path } => assert_eq!(path, "/out/0.png"),
        other => panic!("unexpected {other:?}"),
    }
    match save.advance(SaveEvent::Checked {
        exists: false,
        temp_path: "/out/0.png.part-1".to_string(),
    }) {
        SaveAction::OpenTemp { path } => assert_eq!(path, "/out/0.png.part-1"),
        other => panic!("unexpected {other:?}"),
    }
    assert!(matches!(
        save.advance(SaveEvent::Written { len: 3 }),
        SaveAction::ReadChunk
    ));
    assert!(matches!(
        save.advance(SaveEvent::Flushed),
        SaveAction::CheckDeadline
    ));
    match save.advance(SaveEvent::Deadline { passed: false }) {
        SaveAction::Commit {
            temp,
            output,
            overwrite,
        } => {
            assert_eq!(temp, "/out/0.png.part-1");
            assert_eq!(output, "/out/0.png");
            assert!(!overwrite);
        }
        other => panic!("unexpected {other:?}"),
    }
    match save.advance(SaveEvent::Committed {
        durability_confirmed: true,
    }) {
        SaveAction::Finish { entry, remove } => {
            assert!(matches!(entry.status, SavedAssetStatus::Saved));
            assert_eq!(entry.bytes_written, Some(3));
            assert_eq!(entry.output_path, "/out/0.png");
            assert_eq!(remove, None);
            assert_eq!(plain(&entry_json_value(&entry))["bytes_written"], 3);
        }
        other => panic!("unexpected {other:?}"),
    }
}

#[test]
fn an_asset_that_is_refused_or_late_is_reported() {
    let mut refused = AssetSave::new(source(1), false);
    refused.advance(SaveEvent::Begin {
        deadline_passed: false,
    });
    match refused.advance(SaveEvent::Response { status: 404 }) {
        SaveAction::Finish { entry, .. } => {
            assert!(matches!(entry.status, SavedAssetStatus::Failed));
            assert_eq!(entry.error.as_deref(), Some("http_status:404 Not Found"));
        }
        other => panic!("unexpected {other:?}"),
    }
    let mut late = AssetSave::new(source(2), false);
    match late.advance(SaveEvent::Begin {
        deadline_passed: true,
    }) {
        SaveAction::Finish { entry, .. } => {
            assert!(matches!(entry.status, SavedAssetStatus::TimedOut));
        }
        other => panic!("unexpected {other:?}"),
    }
}

fn entry(index: u32, status: SavedAssetStatus) -> SavedAssetEntry {
    let mut entry = timeout_entry(&source(index), None, "late");
    entry.status = status;
    entry
}

#[test]
fn batches_start_their_sources_in_turn() {
    let mut batch = SaveBatch::new(vec![source(0), source(1), source(2)], 2);
    assert!(matches!(batch.dispatch(false), Dispatch::Start(_)));
    assert!(matches!(batch.dispatch(false), Dispatch::Start(_)));
    assert!(matches!(batch.dispatch(false), Dispatch::Await));
    batch.complete(entry(1, SavedAssetStatus::Saved));
    assert!(matches!(batch.dispatch(true), Dispatch::GivenUp));
    batch.complete(entry(0, SavedAssetStatus::Failed));
    assert!(matches!(batch.dispatch(true), Dispatch::Done));
    assert_eq!(batch.attempted, 2);
    let sorted = sort_entries(batch.results);
    let order: Vec<u32> = sorted.iter().map(|e| e.index).collect();
    assert_eq!(order, vec![0, 1, 2]);
    let summary = summarize_results(3, 2, "/out", &sorted);
    assert_eq!(summary.saved_count, 1);
    assert_eq!(summary.failed_count, 1);
    assert_eq!(summary.timed_out_count, 1);
    assert!(!summary.complete);
}

#[test]
fn batches_report_what_was_asked_and_done() {
    let request = test_download_save_request(None);
    let payload = plain(&batch_payload(
        &request,
        1,
        1,
        vec![entry(0, SavedAssetStatus::Saved)],
    ));
    assert_eq!(payload["subject"], plain(&subject_projection(&request)));
    assert_eq!(payload["result"]["summary"]["saved_count"], 1);
    let late = preparation_timeout_error(true, 250).into_envelope();
    assert_eq!(late.code, ErrorCode::IpcTimeout);
    assert_eq!(context(&late)["timeout_ms"], 250);
    let early = preparation_timeout_error(false, 250).into_envelope();
    assert_ne!(early.message, late.message);
}

#[test]
fn path_texts_are_taken_apart() {
    assert_eq!(file_name("/a/b.tar.gz").as_deref(), Some("b.tar.gz"));
    assert_eq!(file_name("/a/b/").as_deref(), Some("b"));
    assert_eq!(file_name("/"), None);
    assert_eq!(file_name(".."), None);
    assert_eq!(file_stem("/a/b.tar.gz").as_deref(), Some("b.tar"));
    assert_eq!(file_stem("/a/.hidden").as_deref(), Some(".hidden"));
    assert_eq!(extension("/a/b.tar.gz").as_deref(), Some("gz"));
    assert_eq!(extension("/a/.hidden"), None);
    assert_eq!(join("/a", "b"), "/a/b");
    assert_eq!(join("/a/", "b"), "/a/b");
    assert_eq!(join("/a", "/b"), "/b");
    assert_eq!(with_extension("/a/b.bin", "webp"), "/a/b.webp");
    assert!(same_path("/a//b/.", "/a/b"));
    assert!(!same_path("/a/b", "/a/c"));
}

#[test]
fn path_texts_agree_with_the_standard_library() {
    for path in [
        "/a/b.tar.gz", "/a/b/", "/", "..", "a/..", "a/./b", "", ".", "x", "x.", ".x", "/x.y/",
        "a//b", "..a", "a/b.", "/a/.hidden",
    ] {
        let std_path = std::path::Path::new(path);
        let name = std_path.file_name().map(|s| s.to_string_lossy().into_owned());
        let stem = std_path.file_stem().map(|s| s.to_string_lossy().into_owned());
        let ending = std_path.extension().map(|s| s.to_string_lossy().into_owned());
        assert_eq!(file_name(path), name, "{path}");
        assert_eq!(file_stem(path), stem, "{path}");
        assert_eq!(extension(path), ending, "{path}");
        assert_eq!(
            join(path, "n"),
            std_path.join("n").to_string_lossy().into_owned(),
            "{path}"
        );
    }
}

#[test]
fn known_extensions_go_by_one_name() {
    let names = [
        "jpg", "png", "gif", "webp", "avif", "heic", "heif", "svg", "json", "txt", "html", "bin",
    ];
    for name in names {
        assert_eq!(normalize_known_extension(name).as_deref(), Some(name));
        assert_eq!(
            normalize_known_extension(&name.to_ascii_uppercase()).as_deref(),
            Some(name)
        );
    }
    assert_eq!(normalize_known_extension("JPeG").as_deref(), Some("jpg"));
    assert_eq!(normalize_known_extension("Htm").as_deref(), Some("html"));
    assert_eq!(normalize_known_extension("0"), None);
    assert_eq!(normalize_known_extension("pdf"), None);
    assert_eq!(normalize_known_extension(""), None);
}

#[test]
fn joined_lists_have_the_assets_of_both() {
    let first = " https://a \n\nhttps://b";
    let second = "https://a\r\n\t\nhttps://c ";
    let mut rows = parse_text_asset_sources(first).unwrap();
    rows.extend(parse_text_asset_sources(second).unwrap());
    let joined = parse_text_asset_sources(&format!("{first}\n{second}")).unwrap();
    assert_eq!(joined, rows);
    let urls: Vec<&str> = joined.iter().map(|(url, _)| url.as_str()).collect();
    assert_eq!(urls, ["https://a", "https://b", "https://a", "https://c"]);
    assert!(joined.iter().all(|(_, name)| name.is_none()));
}
