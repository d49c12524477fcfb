//! Downloads as a client reads them.

use vstd::prelude::*;
use crate::artifacts;
use crate::error::{self, ErrorCode, RubError};
use crate::json::{self, Json, JsonModel, JsonObject, NumberModel};
use crate::locator;
use crate::text;

verus! {

#[derive(Clone, Copy, Debug, PartialEq, Eq, Structural)]
pub enum DownloadState {
    Started,
    InProgress,
    Completed,
    Failed,
    Canceled,
}

#[derive(Clone, Copy, Debug, PartialEq, Eq, Structural)]
pub enum DownloadRuntimeStatus {
    Inactive,
    Active,
    Degraded,
    Unsupported,
}

/// A download of the browser.
#[derive(Debug)]
pub struct DownloadEntry {
    pub guid: String,
    pub state: DownloadState,
    pub url: Option<String>,
    pub suggested_filename: Option<String>,
    pub final_path: Option<String>,
    pub mime_hint: Option<String>,
    pub received_bytes: u64,
    pub total_bytes: Option<u64>,
    pub started_at: String,
    pub completed_at: Option<String>,
    pub frame_id: Option<String>,
    pub trigger_command_id: Option<String>,
}

/// What the session knows of its downloads.
#[derive(Debug)]
pub struct DownloadRuntimeInfo {
    pub status: DownloadRuntimeStatus,
    pub mode: String,
    pub download_dir: Option<String>,
    pub active_downloads: Vec<DownloadEntry>,
    pub completed_downloads: Vec<DownloadEntry>,
    pub last_download: Option<DownloadEntry>,
    pub degraded_reason: Option<String>,
}

pub open spec fn state_label(state: DownloadState) -> Seq<char> {
    match state {
        DownloadState::Started => "started"@,
        DownloadState::InProgress => "in_progress"@,
        DownloadState::Completed => "completed"@,
        DownloadState::Failed => "failed"@,
        DownloadState::Canceled => "canceled"@,
    }
}

pub fn download_state_label(state: DownloadState) -> (r: &'static str)
    ensures
        r@ == state_label(state),
{
    match state {
        DownloadState::Started => "started",
        DownloadState::InProgress => "in_progress",
        DownloadState::Completed => "completed",
        DownloadState::Failed => "failed",
        DownloadState::Canceled => "canceled",
    }
}

pub open spec fn status_label(status: DownloadRuntimeStatus) -> Seq<char> {
    match status {
        DownloadRuntimeStatus::Inactive => "inactive"@,
        DownloadRuntimeStatus::Active => "active"@,
        DownloadRuntimeStatus::Degraded => "degraded"@,
        DownloadRuntimeStatus::Unsupported => "unsupported"@,
    }
}

fn status_str(status: DownloadRuntimeStatus) -> (r: &'static str)
    ensures
        r@ == status_label(status),
{
    match status {
        DownloadRuntimeStatus::Inactive => "inactive",
        DownloadRuntimeStatus::Active => "active",
        DownloadRuntimeStatus::Degraded => "degraded",
        DownloadRuntimeStatus::Unsupported => "unsupported",
    }
}

pub open spec fn opt_number(n: Option<u64>) -> JsonModel {
    match n {
        Some(n) => JsonModel::Number(NumberModel::Int(n as int)),
        None => JsonModel::Null,
    }
}

fn opt_number_value(n: Option<u64>) -> (r: Json)
    ensures
        r@ == opt_number(n),
{
    match n {
        Some(n) => json::uint_value(n),
        None => Json::Null,
    }
}

/// A download as a client reads it.
pub open spec fn entry_json(d: DownloadEntry) -> JsonModel {
    JsonModel::Object(
        Map::<Seq<char>, JsonModel>::empty().insert("guid"@, JsonModel::Text(d.guid@)).insert(
            "state"@,
            JsonModel::Text(state_label(d.state)),
        ).insert("url"@, json::opt_text_model(text::opt_text(d.url))).insert(
            "suggested_filename"@,
            json::opt_text_model(text::opt_text(d.suggested_filename)),
        ).insert("final_path"@, json::opt_text_model(text::opt_text(d.final_path))).insert(
            "mime_hint"@,
            json::opt_text_model(text::opt_text(d.mime_hint)),
        ).insert(
            "received_bytes"@,
            JsonModel::Number(NumberModel::Int(d.received_bytes as int)),
        ).insert("total_bytes"@, opt_number(d.total_bytes)).insert(
            "started_at"@,
            JsonModel::Text(d.started_at@),
        ).insert("completed_at"@, json::opt_text_model(text::opt_text(d.completed_at))).insert(
            "frame_id"@,
            json::opt_text_model(text::opt_text(d.frame_id)),
        ).insert(
            "trigger_command_id"@,
            json::opt_text_model(text::opt_text(d.trigger_command_id)),
        ),
    )
}

pub fn download_entry_value(d: &DownloadEntry) -> (r: Json)
    ensures
        r@ == entry_json(*d),
{
    Json::Object(
        JsonObject::new().with("guid", json::text_value(d.guid.as_str())).with(
            "state",
            json::text_value(download_state_label(d.state)),
        ).with("url", json::opt_text_value(&d.url)).with(
            "suggested_filename",
            json::opt_text_value(&d.suggested_filename),
        ).with("final_path", json::opt_text_value(&d.final_path)).with(
            "mime_hint",
            json::opt_text_value(&d.mime_hint),
        ).with("received_bytes", json::uint_value(d.received_bytes)).with(
            "total_bytes",
            opt_number_value(d.total_bytes),
        ).with("started_at", json::text_value(d.started_at.as_str())).with(
            "completed_at",
            json::opt_text_value(&d.completed_at),
        ).with("frame_id", json::opt_text_value(&d.frame_id)).with(
            "trigger_command_id",
            json::opt_text_value(&d.trigger_command_id),
        ),
    )
}

pub open spec fn entries_json(s: Seq<DownloadEntry>) -> JsonModel {
    JsonModel::Array(s.map_values(|d: DownloadEntry| entry_json(d)))
}

fn entries_value(v: &Vec<DownloadEntry>) -> (r: Json)
    ensures
        r@ == entries_json(v@),
{
    let ghost all = v@.map_values(|d: DownloadEntry| entry_json(d));
    let mut items: Vec<Json> = Vec::new();
    let mut i: usize = 0;
    assert(json::items_model(items@) =~= all.take(0));
    while i < v.len()
        invariant
            i <= v@.len(),
            all == v@.map_values(|d: DownloadEntry| entry_json(d)),
            json::items_model(items@) == all.take(i as int),
        decreases v@.len() - i,
    {
        let item = download_entry_value(&v[i]);
        let ghost before = items@;
        items.push(item);
        proof {
            assert(items@.drop_last() =~= before);
            assert(all.take(i + 1) =~= all.take(i as int).push(all[i as int]));
        }
        i += 1;
    }
    assert(all.take(i as int) =~= all);
    Json::Array(items)
}

pub open spec fn opt_entry_json(d: Option<DownloadEntry>) -> JsonModel {
    match d {
        Some(d) => entry_json(d),
        None => JsonModel::Null,
    }
}

fn opt_entry_value(d: &Option<DownloadEntry>) -> (r: Json)
    ensures
        r@ == opt_entry_json(*d),
{
    match d {
        Some(d) => download_entry_value(d),
        None => Json::Null,
    }
}

/// The downloads of a session as a client reads them.
pub open spec fn registry_members(runtime: DownloadRuntimeInfo) -> Map<Seq<char>, JsonModel> {
    Map::<Seq<char>, JsonModel>::empty().insert(
        "download_dir"@,
        json::opt_text_model(text::opt_text(runtime.download_dir)),
    ).insert("active_downloads"@, entries_json(runtime.active_downloads@)).insert(
        "completed_downloads"@,
        entries_json(runtime.completed_downloads@),
    ).insert("last_download"@, opt_entry_json(runtime.last_download))
}

fn registry_object(runtime: &DownloadRuntimeInfo) -> (r: JsonObject)
    ensures
        r@ == registry_members(*runtime),
{
    JsonObject::new().with("download_dir", json::opt_text_value(&runtime.download_dir)).with(
        "active_downloads",
        entries_value(&runtime.active_downloads),
    ).with("completed_downloads", entries_value(&runtime.completed_downloads)).with(
        "last_download",
        opt_entry_value(&runtime.last_download),
    )
}

pub fn download_registry_result(runtime: &DownloadRuntimeInfo) -> (r: Json)
    ensures
        r@ == JsonModel::Object(registry_members(*runtime)),
{
    Json::Object(registry_object(runtime))
}

/// What the session knows of its downloads, as a client reads it.
pub open spec fn runtime_json(runtime: DownloadRuntimeInfo) -> JsonModel {
    JsonModel::Object(
        registry_members(runtime).insert(
            "status"@,
            JsonModel::Text(status_label(runtime.status)),
        ).insert("mode"@, JsonModel::Text(runtime.mode@)).insert(
            "degraded_reason"@,
            json::opt_text_model(text::opt_text(runtime.degraded_reason)),
        ),
    )
}

pub fn download_runtime_value(runtime: &DownloadRuntimeInfo) -> (r: Json)
    ensures
        r@ == runtime_json(*runtime),
{
    Json::Object(
        registry_object(runtime).with("status", json::text_value(status_str(runtime.status))).with(
            "mode",
            json::text_value(runtime.mode.as_str()),
        ).with("degraded_reason", json::opt_text_value(&runtime.degraded_reason)),
    )
}

/// A runtime with a note on its download directory, where it has one.
pub open spec fn annotated(runtime: JsonModel) -> JsonModel {
    match json::member(runtime, "download_dir"@) {
        Some(dir) => if dir is Null {
            runtime
        } else {
            artifacts::marked(
                runtime,
                "download_dir_state"@,
                artifacts::path_state(
                    "operator_path_reference"@,
                    "session.download_runtime.download_dir"@,
                    "session_download_runtime"@,
                    "managed_download_directory"@,
                ),
            )
        },
        None => runtime,
    }
}

pub fn annotate_download_runtime_path_states(runtime: &mut Json)
    ensures
        final(runtime)@ == annotated(old(runtime)@),
{
    let noted = match runtime.get("download_dir") {
        Some(Json::Null) => false,
        Some(_) => true,
        None => false,
    };
    if noted {
        artifacts::annotate_operator_path_reference_state(
            runtime,
            "download_dir_state",
            "session.download_runtime.download_dir",
            "session_download_runtime",
            "managed_download_directory",
        );
    }
}

/// The runtime with its note.
pub fn annotated_runtime(runtime: &DownloadRuntimeInfo) -> (r: Json)
    ensures
        r@ == annotated(runtime_json(*runtime)),
{
    let mut value = download_runtime_value(runtime);
    annotate_download_runtime_path_states(&mut value);
    value
}

pub open spec fn payload(subject: JsonModel, result: JsonModel, runtime: JsonModel) -> JsonModel {
    JsonModel::Object(
        Map::<Seq<char>, JsonModel>::empty().insert("subject"@, subject).insert(
            "result"@,
            result,
        ).insert("runtime"@, runtime),
    )
}

pub fn download_payload(subject: Json, result: Json, runtime: Json) -> (r: Json)
    ensures
        r@ == payload(subject@, result@, runtime@),
{
    Json::Object(
        JsonObject::new().with("subject", subject).with("result", result).with(
            "runtime",
            runtime,
        ),
    )
}

pub fn download_registry_subject() -> (r: Json)
    ensures
        r@ == json::object1("kind"@, JsonModel::Text("download_registry"@)),
{
    Json::Object(JsonObject::new().with("kind", json::text_value("download_registry")))
}

/// What an answer about one download is about.
pub open spec fn subject_json(
    id: Option<Seq<char>>,
    operation: Seq<char>,
    wait_state: Option<Seq<char>>,
) -> JsonModel {
    let base = Map::<Seq<char>, JsonModel>::empty().insert(
        "kind"@,
        JsonModel::Text("download"@),
    ).insert("operation"@, JsonModel::Text(operation));
    JsonModel::Object(
        locator::text_if(locator::text_if(base, "id"@, id), "wait_state"@, wait_state),
    )
}

pub fn download_subject(id: Option<&str>, operation: &str, wait_state: Option<&str>) -> (r: Json)
    ensures
        r@ == subject_json(
            json::opt_str_text(id),
            operation@,
            json::opt_str_text(wait_state),
        ),
{
    let mut subject = JsonObject::new().with("kind", json::text_value("download")).with(
        "operation",
        json::text_value(operation),
    );
    if let Some(id) = id {
        subject.insert("id", json::text_value(id));
    }
    if let Some(state) = wait_state {
        subject.insert("wait_state", json::text_value(state));
    }
    Json::Object(subject)
}

/// How much of a download is there, in words.
pub open spec fn progress(d: DownloadEntry) -> Seq<char> {
    if d.total_bytes is Some && d.total_bytes->0 > 0 {
        " ("@ + text::decimal(d.received_bytes as nat) + " / "@ + text::decimal(
            d.total_bytes->0 as nat,
        ) + " bytes)"@
    } else if d.received_bytes > 0 {
        " ("@ + text::decimal(d.received_bytes as nat) + " bytes received)"@
    } else {
        Seq::empty()
    }
}

pub fn format_download_progress(download: &DownloadEntry) -> (r: String)
    ensures
        r@ == progress(*download),
{
    let received = text::decimal_string(download.received_bytes);
    if let Some(total) = download.total_bytes {
        if total > 0 {
            let of = text::decimal_string(total);
            return text::cat5(" (", received.as_str(), " / ", of.as_str(), " bytes)");
        }
    }
    if download.received_bytes > 0 {
        return text::cat3(" (", received.as_str(), " bytes received)");
    }
    String::new()
}

/// What a wait that ran out of time says.
pub open spec fn timeout_message(desired: Seq<char>, current: Option<DownloadEntry>) -> Seq<char> {
    let head = "Download wait timed out before '"@ + desired;
    match current {
        Some(d) => head + "' was observed; current state is '"@ + state_label(d.state) + "'"@
            + progress(d),
        None => head + "' was observed; no matching download has been observed yet"@,
    }
}

/// What to do about a wait that ran out of time.
pub open spec fn timeout_advice(current: Option<DownloadEntry>) -> Seq<char> {
    match current {
        Some(d) => if d.state == DownloadState::Started || d.state == DownloadState::InProgress {
            "Download is still in progress. Run 'rub downloads' to inspect current progress, or retry with a longer --timeout."@
        } else {
            "Run 'rub downloads' to inspect the latest lifecycle state and verify the requested wait target."@
        },
        None =>
            "Run 'rub downloads' to confirm the download started, or retry with a longer --timeout if the browser has not emitted the first download event yet."@,
    }
}

/// The error for a wait that ran out of time.
pub open spec fn wait_timeout(
    target_guid: Option<Seq<char>>,
    desired: Seq<char>,
    timeout_ms: u64,
    elapsed_ms: u64,
    runtime: DownloadRuntimeInfo,
    current: Option<DownloadEntry>,
) -> error::ErrorModel {
    let base = Map::<Seq<char>, JsonModel>::empty().insert(
        "kind"@,
        JsonModel::Text("download"@),
    ).insert("id"@, json::opt_text_model(target_guid)).insert(
        "state"@,
        JsonModel::Text(desired),
    ).insert("timeout_ms"@, JsonModel::Number(NumberModel::Int(timeout_ms as int))).insert(
        "elapsed_ms"@,
        JsonModel::Number(NumberModel::Int(elapsed_ms as int)),
    ).insert("download_runtime"@, annotated(runtime_json(runtime)));
    error::with_suggestion(
        ErrorCode::WaitTimeout,
        timeout_message(desired, current),
        JsonModel::Object(
            match current {
                Some(d) => base.insert("download"@, entry_json(d)),
                None => base,
            },
        ),
        timeout_advice(current),
    )
}

pub open spec fn opt_download(o: Option<&DownloadEntry>) -> Option<DownloadEntry> {
    match o {
        Some(d) => Some(*d),
        None => None,
    }
}

pub fn download_wait_timeout_error(
    target_guid: Option<&str>,
    desired_state: &str,
    timeout_ms: u64,
    elapsed_ms: u64,
    runtime: &DownloadRuntimeInfo,
    current_download: Option<&DownloadEntry>,
) -> (r: RubError)
    ensures
        r@ == wait_timeout(
            json::opt_str_text(target_guid),
            desired_state@,
            timeout_ms,
            elapsed_ms,
            *runtime,
            opt_download(current_download),
        ),
{
    let id = match target_guid {
        Some(guid) => json::text_value(guid),
        None => Json::Null,
    };
    let mut context = JsonObject::new().with("kind", json::text_value("download")).with(
        "id",
        id,
    ).with("state", json::text_value(desired_state)).with(
        "timeout_ms",
        json::uint_value(timeout_ms),
    ).with("elapsed_ms", json::uint_value(elapsed_ms)).with(
        "download_runtime",
        annotated_runtime(runtime),
    );
    let head = text::cat2("Download wait timed out before '", desired_state);
    let message = match current_download {
        Some(d) => {
            context.insert("download", download_entry_value(d));
            let tail = format_download_progress(d);
            text::cat5(
                head.as_str(),
                "' was observed; current state is '",
                download_state_label(d.state),
                "'",
                tail.as_str(),
            )
        },
        None => text::cat2(
            head.as_str(),
            "' was observed; no matching download has been observed yet",
        ),
    };
    let suggestion = match current_download {
        Some(d) => match d.state {
            DownloadState::Started | DownloadState::InProgress =>
                "Download is still in progress. Run 'rub downloads' to inspect current progress, or retry with a longer --timeout.",
            _ =>
                "Run 'rub downloads' to inspect the latest lifecycle state and verify the requested wait target.",
        },
        None =>
            "Run 'rub downloads' to confirm the download started, or retry with a longer --timeout if the browser has not emitted the first download event yet.",
    };
    RubError::domain_with_context_and_suggestion(
        ErrorCode::WaitTimeout,
        message.as_str(),
        Json::Object(context),
        suggestion,
    )
}

/// A download is shown with its state, where it comes from, where it went and how much
/// of it is there, each in its own place.
pub proof fn downloads_are_shown_as_they_are(d: DownloadEntry)
    ensures
        ({
            let j = entry_json(d);
            &&& json::member(j, "guid"@) == Some(JsonModel::Text(d.guid@))
            &&& json::member(j, "state"@) == Some(JsonModel::Text(state_label(d.state)))
            &&& json::member(j, "url"@) == Some(json::opt_text_model(text::opt_text(d.url)))
            &&& json::member(j, "suggested_filename"@) == Some(
                json::opt_text_model(text::opt_text(d.suggested_filename)),
            )
            &&& json::member(j, "final_path"@) == Some(
                json::opt_text_model(text::opt_text(d.final_path)),
            )
            &&& json::member(j, "received_bytes"@) == Some(json::number(d.received_bytes as int))
            &&& json::member(j, "total_bytes"@) == Some(opt_number(d.total_bytes))
            &&& json::member(j, "started_at"@) == Some(JsonModel::Text(d.started_at@))
            &&& json::member(j, "completed_at"@) == Some(
                json::opt_text_model(text::opt_text(d.completed_at)),
            )
        }),
{
    reveal_strlit("guid");
    reveal_strlit("state");
    reveal_strlit("url");
    reveal_strlit("suggested_filename");
    reveal_strlit("final_path");
    reveal_strlit("mime_hint");
    reveal_strlit("received_bytes");
    reveal_strlit("total_bytes");
    reveal_strlit("started_at");
    reveal_strlit("completed_at");
    reveal_strlit("frame_id");
    reveal_strlit("trigger_command_id");
    assert("guid"@.len() != "state"@.len());
    assert("guid"@.len() != "url"@.len());
    assert("guid"@.len() != "suggested_filename"@.len());
    assert("guid"@.len() != "final_path"@.len());
    assert("guid"@.len() != "mime_hint"@.len());
    assert("guid"@.len() != "received_bytes"@.len());
    assert("guid"@.len() != "total_bytes"@.len());
    assert("guid"@.len() != "started_at"@.len());
    assert("guid"@.len() != "completed_at"@.len());
    assert("guid"@.len() != "frame_id"@.len());
    assert("guid"@.len() != "trigger_command_id"@.len());
    assert("state"@.len() != "url"@.len());
    assert("state"@.len() != "suggested_filename"@.len());
    assert("state"@.len() != "final_path"@.len());
    assert("state"@.len() != "mime_hint"@.len());
    assert("state"@.len() != "received_bytes"@.len());
    assert("state"@.len() != "total_bytes"@.len());
    assert("state"@.len() != "started_at"@.len());
    assert("state"@.len() != "completed_at"@.len());
    assert("state"@.len() != "frame_id"@.len());
    assert("state"@.len() != "trigger_command_id"@.len());
    assert("url"@.len() != "suggested_filename"@.len());
    assert("url"@.len() != "final_path"@.len());
    assert("url"@.len() != "mime_hint"@.len());
    assert("url"@.len() != "received_bytes"@.len());
    assert("url"@.len() != "total_bytes"@.len());
    assert("url"@.len() != "started_at"@.len());
    assert("url"@.len() != "completed_at"@.len());
    assert("url"@.len() != "frame_id"@.len());
    assert("url"@.len() != "trigger_command_id"@.len());
    assert("suggested_filename"@.len() != "final_path"@.len());
    assert("suggested_filename"@.len() != "mime_hint"@.len());
    assert("suggested_filename"@.len() != "received_bytes"@.len());
    assert("suggested_filename"@.len() != "total_bytes"@.len());
    assert("suggested_filename"@.len() != "started_at"@.len());
    assert("suggested_filename"@.len() != "completed_at"@.len());
    assert("suggested_filename"@.len() != "frame_id"@.len());
    assert("suggested_filename"@[0] != "trigger_command_id"@[0]);
    assert("final_path"@.len() != "mime_hint"@.len());
    assert("final_path"@.len() != "received_bytes"@.len());
    assert("final_path"@.len() != "total_bytes"@.len());
    assert("final_path"@[0] != "started_at"@[0]);
    assert("final_path"@.len() != "completed_at"@.len());
    assert("final_path"@.len() != "frame_id"@.len());
    assert("final_path"@.len() != "trigger_command_id"@.len());
    assert("mime_hint"@.len() != "received_bytes"@.len());
    assert("mime_hint"@.len() != "total_bytes"@.len());
    assert("mime_hint"@.len() != "started_at"@.len());
    assert("mime_hint"@.len() != "completed_at"@.len());
    assert("mime_hint"@.len() != "frame_id"@.len());
    assert("mime_hint"@.len() != "trigger_command_id"@.len());
    assert("received_bytes"@.len() != "total_bytes"@.len());
    assert("received_bytes"@.len() != "started_at"@.len());
    assert("received_bytes"@.len() != "completed_at"@.len());
    assert("received_bytes"@.len() != "frame_id"@.len());
    assert("received_bytes"@.len() != "trigger_command_id"@.len());
    assert("total_bytes"@.len() != "started_at"@.len());
    assert("total_bytes"@.len() != "completed_at"@.len());
    assert("total_bytes"@.len() != "frame_id"@.len());
    assert("total_bytes"@.len() != "trigger_command_id"@.len());
    assert("started_at"@.len() != "completed_at"@.len());
    assert("started_at"@.len() != "frame_id"@.len());
    assert("started_at"@.len() != "trigger_command_id"@.len());
    assert("completed_at"@.len() != "frame_id"@.len());
    assert("completed_at"@.len() != "trigger_command_id"@.len());
    assert("frame_id"@.len() != "trigger_command_id"@.len());
}

/// States go by different names.
pub proof fn download_states_are_told_apart(a: DownloadState, b: DownloadState)
    ensures
        state_label(a) == state_label(b) <==> a == b,
{
    reveal_strlit("started");
    reveal_strlit("in_progress");
    reveal_strlit("completed");
    reveal_strlit("failed");
    reveal_strlit("canceled");
    assert("started"@.len() != "in_progress"@.len());
    assert("started"@.len() != "completed"@.len());
    assert("started"@.len() != "failed"@.len());
    assert("started"@.len() != "canceled"@.len());
    assert("in_progress"@.len() != "completed"@.len());
    assert("in_progress"@.len() != "failed"@.len());
    assert("in_progress"@.len() != "canceled"@.len());
    assert("completed"@.len() != "failed"@.len());
    assert("completed"@.len() != "canceled"@.len());
    assert("failed"@.len() != "canceled"@.len());
}

/// The downloads of a session are listed one for one: those that go on, those that
/// ended and the last one, each in its own place.
pub proof fn registries_list_each_download(runtime: DownloadRuntimeInfo)
    ensures
        ({
            let j = runtime_json(runtime);
            &&& json::member(j, "status"@) == Some(JsonModel::Text(status_label(runtime.status)))
            &&& json::member(j, "mode"@) == Some(JsonModel::Text(runtime.mode@))
            &&& json::member(j, "last_download"@) == Some(opt_entry_json(runtime.last_download))
            &&& json::member(j, "active_downloads"@) matches Some(JsonModel::Array(active))
            &&& active.len() == runtime.active_downloads@.len()
            &&& forall|i: int|
                0 <= i < active.len() ==> #[trigger] active[i] == entry_json(
                    runtime.active_downloads@[i],
                )
            &&& json::member(j, "completed_downloads"@) matches Some(JsonModel::Array(done))
            &&& done.len() == runtime.completed_downloads@.len()
            &&& forall|i: int|
                0 <= i < done.len() ==> #[trigger] done[i] == entry_json(
                    runtime.completed_downloads@[i],
                )
        }),
{
    reveal_strlit("download_dir");
    reveal_strlit("active_downloads");
    reveal_strlit("completed_downloads");
    reveal_strlit("last_download");
    reveal_strlit("status");
    reveal_strlit("mode");
    reveal_strlit("degraded_reason");
    assert("download_dir"@.len() != "active_downloads"@.len());
    assert("download_dir"@.len() != "completed_downloads"@.len());
    assert("download_dir"@.len() != "last_download"@.len());
    assert("download_dir"@.len() != "status"@.len());
    assert("download_dir"@.len() != "mode"@.len());
    assert("download_dir"@.len() != "degraded_reason"@.len());
    assert("active_downloads"@.len() != "completed_downloads"@.len());
    assert("active_downloads"@.len() != "last_download"@.len());
    assert("active_downloads"@.len() != "status"@.len());
    assert("active_downloads"@.len() != "mode"@.len());
    assert("active_downloads"@.len() != "degraded_reason"@.len());
    assert("completed_downloads"@.len() != "last_download"@.len());
    assert("completed_downloads"@.len() != "status"@.len());
    assert("completed_downloads"@.len() != "mode"@.len());
    assert("completed_downloads"@.len() != "degraded_reason"@.len());
    assert("last_download"@.len() != "status"@.len());
    assert("last_download"@.len() != "mode"@.len());
    assert("last_download"@.len() != "degraded_reason"@.len());
    assert("status"@.len() != "mode"@.len());
    assert("status"@.len() != "degraded_reason"@.len());
    assert("mode"@.len() != "degraded_reason"@.len());
}

/// A wait that ran out of time is told to look for progress exactly where its download
/// still goes on.
pub proof fn running_downloads_are_called_so(a: DownloadEntry, b: DownloadEntry)
    requires
        a.state == DownloadState::Started || a.state == DownloadState::InProgress,
        b.state != DownloadState::Started && b.state != DownloadState::InProgress,
    ensures
        timeout_advice(Some(a)) != timeout_advice(Some(b)),
        timeout_advice(Some(a)) != timeout_advice(None),
        timeout_advice(Some(b)) != timeout_advice(None),
{
    reveal_strlit(
        "Download is still in progress. Run 'rub downloads' to inspect current progress, or retry with a longer --timeout.",
    );
    reveal_strlit(
        "Run 'rub downloads' to inspect the latest lifecycle state and verify the requested wait target.",
    );
    reveal_strlit(
        "Run 'rub downloads' to confirm the download started, or retry with a longer --timeout if the browser has not emitted the first download event yet.",
    );
    assert(timeout_advice(Some(a))[0] == 'D');
    assert(timeout_advice(Some(b))[0] == 'R');
    assert(timeout_advice(None)[0] == 'R');
    assert(timeout_advice(Some(b)).len() != timeout_advice(None).len());
}

/// The directory of the downloads is noted exactly where there is one, and the note
/// changes nothing else.
pub proof fn only_present_directories_are_noted(runtime: JsonModel, key: Seq<char>)
    requires
        key != "download_dir_state"@,
    ensures
        json::member(annotated(runtime), key) == json::member(runtime, key),
        json::member(runtime, "download_dir"@) is None || json::member(runtime, "download_dir"@)
            == Some(JsonModel::Null) ==> annotated(runtime) == runtime,
        (json::member(runtime, "download_dir"@) matches Some(dir) && !(dir is Null))
            ==> json::member(annotated(runtime), "download_dir_state"@) is Some,
{
}

/// The registry shows the active downloads as active and the completed ones as completed,
/// each in its place.
pub proof fn registries_show_each_download_in_its_place(runtime: DownloadRuntimeInfo, i: int)
    ensures
        ({
            let r = JsonModel::Object(registry_members(runtime));
            &&& 0 <= i < runtime.active_downloads@.len() ==> (json::member(r, "active_downloads"@)
                matches Some(JsonModel::Array(a)) && a.len() == runtime.active_downloads@.len()
                && a[i] == entry_json(runtime.active_downloads@[i]))
            &&& 0 <= i < runtime.completed_downloads@.len() ==> (json::member(
                r,
                "completed_downloads"@,
            ) matches Some(JsonModel::Array(a)) && a.len() == runtime.completed_downloads@.len()
                && a[i] == entry_json(runtime.completed_downloads@[i]))
            &&& json::member(r, "download_dir"@) == Some(
                json::opt_text_model(text::opt_text(runtime.download_dir)),
            )
            &&& json::member(r, "last_download"@) == Some(opt_entry_json(runtime.last_download))
        }),
{
    reveal_strlit("download_dir");
    reveal_strlit("active_downloads");
    reveal_strlit("completed_downloads");
    reveal_strlit("last_download");
    assert("download_dir"@.len() != "active_downloads"@.len());
    assert("download_dir"@.len() != "completed_downloads"@.len());
    assert("download_dir"@.len() != "last_download"@.len());
    assert("active_downloads"@.len() != "completed_downloads"@.len());
    assert("active_downloads"@.len() != "last_download"@.len());
    assert("completed_downloads"@.len() != "last_download"@.len());
}

/// An answer on downloads shows its subject, its result and the runtime.
pub proof fn download_answers_show_their_parts(
    subject: JsonModel,
    result: JsonModel,
    runtime: JsonModel,
)
    ensures
        json::member(payload(subject, result, runtime), "subject"@) == Some(subject),
        json::member(payload(subject, result, runtime), "result"@) == Some(result),
        json::member(payload(subject, result, runtime), "runtime"@) == Some(runtime),
{
    reveal_strlit("subject");
    reveal_strlit("result");
    reveal_strlit("runtime");
    assert("subject"@.len() != "result"@.len());
    assert("subject"@[0] != "runtime"@[0]);
    assert("result"@.len() != "runtime"@.len());
}

/// A wait that ran out of time says for which download and which state, how long it waited,
/// and shows the download where there is one.
pub proof fn timeouts_say_what_was_waited_for(
    target_guid: Option<Seq<char>>,
    desired: Seq<char>,
    timeout_ms: u64,
    elapsed_ms: u64,
    runtime: DownloadRuntimeInfo,
    current: Option<DownloadEntry>,
)
    ensures
        wait_timeout(target_guid, desired, timeout_ms, elapsed_ms, runtime, current) matches
            error::ErrorModel::Domain(e) && e.code == ErrorCode::WaitTimeout && e.message
            == timeout_message(desired, current) && (e.context matches Some(c) && json::member(
            c,
            "id"@,
        ) == Some(json::opt_text_model(target_guid)) && json::member(c, "state"@) == Some(
            JsonModel::Text(desired),
        ) && json::member(c, "timeout_ms"@) == Some(json::number(timeout_ms as int))
            && json::member(c, "elapsed_ms"@) == Some(json::number(elapsed_ms as int))
            && json::member(c, "download"@) == (match current {
            Some(d) => Some(entry_json(d)),
            None => None,
        })),
        current is None ==> timeout_message(desired, current) == "Download wait timed out before '"@
            + desired + "' was observed; no matching download has been observed yet"@,
        current matches Some(d) ==> (d.received_bytes == 0 && (d.total_bytes is None
            || d.total_bytes == Some(0u64)) ==> progress(d).len() == 0),
        current matches Some(d) ==> (d.total_bytes matches Some(all) ==> (all > 0 ==> progress(d)
            == " ("@ + text::decimal(d.received_bytes as nat) + " / "@ + text::decimal(all as nat)
            + " bytes)"@)),
{
    reveal_strlit("kind");
    reveal_strlit("id");
    reveal_strlit("state");
    reveal_strlit("timeout_ms");
    reveal_strlit("elapsed_ms");
    reveal_strlit("download_runtime");
    reveal_strlit("download");
    assert("kind"@.len() != "id"@.len());
    assert("kind"@.len() != "state"@.len());
    assert("kind"@.len() != "timeout_ms"@.len());
    assert("kind"@.len() != "elapsed_ms"@.len());
    assert("kind"@.len() != "download_runtime"@.len());
    assert("kind"@.len() != "download"@.len());
    assert("id"@.len() != "state"@.len());
    assert("id"@.len() != "timeout_ms"@.len());
    assert("id"@.len() != "elapsed_ms"@.len());
    assert("id"@.len() != "download_runtime"@.len());
    assert("id"@.len() != "download"@.len());
    assert("state"@.len() != "timeout_ms"@.len());
    assert("state"@.len() != "elapsed_ms"@.len());
    assert("state"@.len() != "download_runtime"@.len());
    assert("state"@.len() != "download"@.len());
    assert("timeout_ms"@[0] != "elapsed_ms"@[0]);
    assert("timeout_ms"@.len() != "download_runtime"@.len());
    assert("timeout_ms"@.len() != "download"@.len());
    assert("elapsed_ms"@.len() != "download_runtime"@.len());
    assert("elapsed_ms"@.len() != "download"@.len());
    assert("download_runtime"@.len() != "download"@.len());
}

/// Each state of a download goes by its own name.
pub proof fn download_states_go_by_their_names(x: DownloadState)
    ensures
        x == DownloadState::Started <==> state_label(x) == "started"@,
        x == DownloadState::InProgress <==> state_label(x) == "in_progress"@,
        x == DownloadState::Completed <==> state_label(x) == "completed"@,
        x == DownloadState::Failed <==> state_label(x) == "failed"@,
        x == DownloadState::Canceled <==> state_label(x) == "canceled"@,
{
    reveal_strlit("started");
    reveal_strlit("in_progress");
    reveal_strlit("completed");
    reveal_strlit("failed");
    reveal_strlit("canceled");
    assert("started"@.len() != "in_progress"@.len());
    assert("started"@.len() != "completed"@.len());
    assert("started"@.len() != "failed"@.len());
    assert("started"@.len() != "canceled"@.len());
    assert("in_progress"@.len() != "completed"@.len());
    assert("in_progress"@.len() != "failed"@.len());
    assert("in_progress"@.len() != "canceled"@.len());
    assert("completed"@.len() != "failed"@.len());
    assert("completed"@.len() != "canceled"@.len());
    assert("failed"@.len() != "canceled"@.len());
}

/// Each status of the download runtime goes by its own name.
pub proof fn download_statuses_go_by_their_names(x: DownloadRuntimeStatus)
    ensures
        x == DownloadRuntimeStatus::Inactive <==> status_label(x) == "inactive"@,
        x == DownloadRuntimeStatus::Active <==> status_label(x) == "active"@,
        x == DownloadRuntimeStatus::Degraded <==> status_label(x) == "degraded"@,
        x == DownloadRuntimeStatus::Unsupported <==> status_label(x) == "unsupported"@,
{
    reveal_strlit("inactive");
    reveal_strlit("active");
    reveal_strlit("degraded");
    reveal_strlit("unsupported");
    assert("inactive"@.len() != "active"@.len());
    assert("inactive"@[0] != "degraded"@[0]);
    assert("inactive"@.len() != "unsupported"@.len());
    assert("active"@.len() != "degraded"@.len());
    assert("active"@.len() != "unsupported"@.len());
    assert("degraded"@.len() != "unsupported"@.len());
}

} // verus!
