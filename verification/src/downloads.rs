//! Downloads of the browser, and saving assets to files.

pub mod args;
pub mod asset_save;
pub mod projection;

use vstd::prelude::*;
use crate::error::{self, ErrorCode, ErrorModel, RubError};
use crate::json::{self, Json, JsonModel, JsonObject, NumberModel};
use crate::text;
use self::args::{
    DownloadWaitArgs,
    DownloadWaitState,
    matches_wait_state,
    parse_wait_state,
    wait_state_label,
};
use self::projection::{
    DownloadEntry,
    DownloadRuntimeInfo,
    DownloadRuntimeStatus,
    DownloadState,
    annotate_download_runtime_path_states,
    annotated_runtime,
    download_entry_value,
    download_payload,
    download_registry_result,
    download_registry_subject,
    download_subject,
    download_wait_timeout_error,
};

verus! {

/// Answers with the downloads of the session.
pub fn cmd_downloads(runtime: &DownloadRuntimeInfo) -> (r: Json)
    ensures
        r@ == projection::payload(
            json::object1("kind"@, JsonModel::Text("download_registry"@)),
            projection::annotated(JsonModel::Object(projection::registry_members(*runtime))),
            projection::annotated(projection::runtime_json(*runtime)),
        ),
{
    let mut result = download_registry_result(runtime);
    annotate_download_runtime_path_states(&mut result);
    download_payload(download_registry_subject(), result, annotated_runtime(runtime))
}

/// A wait for a download.
#[derive(Debug)]
pub struct DownloadWait {
    pub desired: DownloadWaitState,
    /// What the client called the state.
    pub desired_name: String,
    pub target_guid: Option<String>,
    pub timeout_ms: u64,
}

/// The download that a wait without an id is for at first: the last one.
pub open spec fn first_target(
    id: Option<Seq<char>>,
    last_download: Option<DownloadEntry>,
) -> Option<Seq<char>> {
    match id {
        Some(guid) => Some(guid),
        None => match last_download {
            Some(d) => Some(d.guid@),
            None => None,
        },
    }
}

pub open spec fn unsupported() -> ErrorModel {
    error::plain(
        ErrorCode::InvalidInput,
        "Download runtime is unsupported for this session"@,
    )
}

/// Starts a wait for a download.
pub fn begin_download_wait(args: &DownloadWaitArgs, initial: &DownloadRuntimeInfo) -> (r: Result<
    DownloadWait,
    RubError,
>)
    ensures
        match args::parsed_wait_state(text::opt_text(args.state)) {
            Err(e) => error::err_model(r) == Some(e),
            Ok(desired) => if initial.status == DownloadRuntimeStatus::Unsupported {
                error::err_model(r) == Some(unsupported())
            } else {
                &&& r is Ok
                &&& r->Ok_0.desired == desired
                &&& r->Ok_0.desired_name@ == args::requested_state(text::opt_text(args.state))
                &&& text::opt_text(r->Ok_0.target_guid) == first_target(
                    text::opt_text(args.id),
                    initial.last_download,
                )
                &&& r->Ok_0.timeout_ms == (if args.timeout_ms is Some {
                    args.timeout_ms->0
                } else {
                    30_000
                })
            },
        },
{
    let named = match &args.state {
        Some(s) => Some(s.as_str()),
        None => None,
    };
    let desired = match parse_wait_state(named) {
        Ok(state) => state,
        Err(e) => return Err(e),
    };
    let target_guid = match &args.id {
        Some(guid) => Some(guid.clone()),
        None => match &initial.last_download {
            Some(d) => Some(d.guid.clone()),
            None => None,
        },
    };
    if matches!(initial.status, DownloadRuntimeStatus::Unsupported) {
        return Err(
            RubError::domain(
                ErrorCode::InvalidInput,
                "Download runtime is unsupported for this session",
            ),
        );
    }
    let desired_name = match named {
        Some(s) => s.to_owned(),
        None => "completed".to_owned(),
    };
    let timeout_ms = match args.timeout_ms {
        Some(ms) => ms,
        None => 30_000,
    };
    Ok(DownloadWait { desired, desired_name, target_guid, timeout_ms })
}

/// What a wait does next.
#[derive(Debug)]
pub enum WaitStep {
    Matched(Json),
    TimedOut(RubError),
    /// Sleep a little, and look again.
    Sleep,
}

/// What a wait does next, over models.
#[verifier::ext_equal]
pub enum WaitStepModel {
    Matched(JsonModel),
    TimedOut(ErrorModel),
    Sleep,
}

impl View for WaitStep {
    type V = WaitStepModel;

    open spec fn view(&self) -> WaitStepModel {
        match self {
            WaitStep::Matched(j) => WaitStepModel::Matched(j@),
            WaitStep::TimedOut(e) => WaitStepModel::TimedOut(e@),
            WaitStep::Sleep => WaitStepModel::Sleep,
        }
    }
}

/// The answer to a wait whose download is there.
pub open spec fn wait_answer(
    guid: Seq<char>,
    desired: DownloadWaitState,
    download: DownloadEntry,
    runtime: DownloadRuntimeInfo,
) -> JsonModel {
    projection::payload(
        projection::subject_json(Some(guid), "wait"@, Some(args::wait_label(desired))),
        JsonModel::Object(
            Map::<Seq<char>, JsonModel>::empty().insert(
                "download"@,
                projection::entry_json(download),
            ).insert("matched"@, JsonModel::Bool(true)),
        ),
        projection::annotated(projection::runtime_json(runtime)),
    )
}

/// What a wait does next: it is over once its download is in the desired state,
/// even at the last moment, and else once its time is.
pub open spec fn waited(
    wait: DownloadWait,
    entry: Option<DownloadEntry>,
    runtime: DownloadRuntimeInfo,
    elapsed_ms: u64,
) -> WaitStepModel {
    let target = text::opt_text(wait.target_guid);
    if target is Some && entry is Some && args::awaited(entry->0.state, wait.desired) {
        WaitStepModel::Matched(wait_answer(target->0, wait.desired, entry->0, runtime))
    } else if elapsed_ms >= wait.timeout_ms {
        WaitStepModel::TimedOut(
            projection::wait_timeout(
                target,
                wait.desired_name@,
                wait.timeout_ms,
                elapsed_ms,
                runtime,
                if target is Some {
                    entry
                } else {
                    runtime.last_download
                },
            ),
        )
    } else {
        WaitStepModel::Sleep
    }
}

impl DownloadWait {
    /// Takes the last download that was seen since the wait began as the one to
    /// wait for, where none is known yet.
    pub fn note_events(&mut self, last_event_guid: Option<&str>)
        ensures
            text::opt_text(final(self).target_guid) == (if old(self).target_guid is Some {
                text::opt_text(old(self).target_guid)
            } else {
                json::opt_str_text(last_event_guid)
            }),
            final(self).desired == old(self).desired,
            final(self).desired_name == old(self).desired_name,
            final(self).timeout_ms == old(self).timeout_ms,
    {
        if self.target_guid.is_none() {
            self.target_guid = match last_event_guid {
                Some(guid) => Some(guid.to_owned()),
                None => None,
            };
        }
    }

    /// Looks at the download that the wait is for.
    pub fn poll(
        &self,
        entry: Option<&DownloadEntry>,
        runtime: &DownloadRuntimeInfo,
        elapsed_ms: u64,
    ) -> (r: WaitStep)
        ensures
            r@ == waited(*self, projection::opt_download(entry), *runtime, elapsed_ms),
    {
        if let Some(guid) = &self.target_guid {
            if let Some(download) = entry {
                if matches_wait_state(download, self.desired) {
                    let result = JsonObject::new().with(
                        "download",
                        download_entry_value(download),
                    ).with("matched", Json::Bool(true));
                    return WaitStep::Matched(
                        download_payload(
                            download_subject(
                                Some(guid.as_str()),
                                "wait",
                                Some(wait_state_label(self.desired)),
                            ),
                            Json::Object(result),
                            annotated_runtime(runtime),
                        ),
                    );
                }
            }
        }
        if elapsed_ms < self.timeout_ms {
            return WaitStep::Sleep;
        }
        let target = match &self.target_guid {
            Some(guid) => Some(guid.as_str()),
            None => None,
        };
        let current = if self.target_guid.is_some() {
            entry
        } else {
            match &runtime.last_download {
                Some(d) => Some(d),
                None => None,
            }
        };
        WaitStep::TimedOut(
            download_wait_timeout_error(
                target,
                self.desired_name.as_str(),
                self.timeout_ms,
                elapsed_ms,
                runtime,
                current,
            ),
        )
    }
}

/// A wait goes on only while it has time left, and never past a match.
pub proof fn waits_end(
    wait: DownloadWait,
    entry: Option<DownloadEntry>,
    runtime: DownloadRuntimeInfo,
    elapsed_ms: u64,
)
    ensures
        waited(wait, entry, runtime, elapsed_ms) is Sleep ==> elapsed_ms < wait.timeout_ms,
        wait.target_guid is Some && entry is Some && args::awaited(entry->0.state, wait.desired)
            ==> waited(wait, entry, runtime, elapsed_ms) is Matched,
{
}

/// The error for a cancellation that was not seen in time.
pub open spec fn cancel_timeout(
    guid: Seq<char>,
    entry: Option<DownloadEntry>,
    runtime: DownloadRuntimeInfo,
) -> ErrorModel {
    error::with_context(
        ErrorCode::WaitTimeout,
        "Timed out waiting for download '"@ + guid + "' to reach canceled state"@,
        JsonModel::Object(
            Map::<Seq<char>, JsonModel>::empty().insert(
                "kind"@,
                JsonModel::Text("download"@),
            ).insert("id"@, JsonModel::Text(guid)).insert(
                "state"@,
                JsonModel::Text("canceled"@),
            ).insert("timeout_ms"@, JsonModel::Number(NumberModel::Int(2_000))).insert(
                "download_runtime"@,
                projection::annotated(projection::runtime_json(runtime)),
            ).insert("download"@, projection::opt_entry_json(entry)),
        ),
    )
}

/// What waiting for a cancellation does next.
pub open spec fn canceled(
    guid: Seq<char>,
    entry: Option<DownloadEntry>,
    runtime: DownloadRuntimeInfo,
    deadline_passed: bool,
) -> WaitStepModel {
    if entry is Some && entry->0.state == DownloadState::Canceled {
        WaitStepModel::Matched(
            projection::payload(
                projection::subject_json(Some(guid), "cancel"@, None),
                json::object1("download"@, projection::entry_json(entry->0)),
                projection::annotated(projection::runtime_json(runtime)),
            ),
        )
    } else if deadline_passed {
        WaitStepModel::TimedOut(cancel_timeout(guid, entry, runtime))
    } else {
        WaitStepModel::Sleep
    }
}

/// Looks whether a download was canceled.
pub fn poll_download_cancel(
    guid: &str,
    entry: Option<&DownloadEntry>,
    runtime: &DownloadRuntimeInfo,
    deadline_passed: bool,
) -> (r: WaitStep)
    ensures
        r@ == canceled(guid@, projection::opt_download(entry), *runtime, deadline_passed),
{
    if let Some(download) = entry {
        if matches!(download.state, DownloadState::Canceled) {
            let result = JsonObject::new().with("download", download_entry_value(download));
            return WaitStep::Matched(
                download_payload(
                    download_subject(Some(guid), "cancel", None),
                    Json::Object(result),
                    annotated_runtime(runtime),
                ),
            );
        }
    }
    if !deadline_passed {
        return WaitStep::Sleep;
    }
    let message = text::cat3(
        "Timed out waiting for download '",
        guid,
        "' to reach canceled state",
    );
    let current = match entry {
        Some(d) => download_entry_value(d),
        None => Json::Null,
    };
    let context = JsonObject::new().with("kind", json::text_value("download")).with(
        "id",
        json::text_value(guid),
    ).with("state", json::text_value("canceled")).with("timeout_ms", json::uint_value(2_000)).with(
        "download_runtime",
        annotated_runtime(runtime),
    ).with("download", current);
    WaitStep::TimedOut(
        RubError::domain_with_context(
            ErrorCode::WaitTimeout,
            message.as_str(),
            Json::Object(context),
        ),
    )
}

/// A wait is over exactly where its download is known and in the state that is waited
/// for, however late that is; else it fails once its time is over, and goes on before
/// that.
pub proof fn waits_match_or_time_out_or_go_on(
    wait: DownloadWait,
    entry: Option<DownloadEntry>,
    runtime: DownloadRuntimeInfo,
    elapsed_ms: u64,
)
    ensures
        ({
            let r = waited(wait, entry, runtime, elapsed_ms);
            let there = wait.target_guid is Some && (entry matches Some(d) && args::awaited(
                d.state,
                wait.desired,
            ));
            &&& r is Matched <==> there
            &&& r is TimedOut <==> !there && elapsed_ms >= wait.timeout_ms
            &&& r is Sleep <==> !there && elapsed_ms < wait.timeout_ms
            &&& r matches WaitStepModel::TimedOut(ErrorModel::Domain(e)) ==> e.code
                == ErrorCode::WaitTimeout
            &&& r matches WaitStepModel::Matched(answer) ==> {
                &&& json::member(answer, "result"@) matches Some(result)
                &&& json::member(result, "download"@) == Some(projection::entry_json(entry->0))
                &&& json::member(result, "matched"@) == Some(JsonModel::Bool(true))
                &&& json::member(answer, "subject"@) matches Some(subject)
                &&& json::member(subject, "id"@) == Some(JsonModel::Text(wait.target_guid->0@))
            }
        }),
{
    reveal_strlit("subject");
    reveal_strlit("result");
    reveal_strlit("runtime");
    assert("subject"@.len() != "result"@.len());
    assert("subject"@[0] != "runtime"@[0]);
    assert("result"@.len() != "runtime"@.len());
    reveal_strlit("download");
    reveal_strlit("matched");
    assert("download"@.len() != "matched"@.len());
    reveal_strlit("kind");
    reveal_strlit("operation");
    reveal_strlit("id");
    reveal_strlit("wait_state");
    assert("kind"@.len() != "operation"@.len());
    assert("kind"@.len() != "id"@.len());
    assert("kind"@.len() != "wait_state"@.len());
    assert("operation"@.len() != "id"@.len());
    assert("operation"@.len() != "wait_state"@.len());
    assert("id"@.len() != "wait_state"@.len());
}

/// A wait is for the download that the client named, and only without a name for the
/// last one.
pub proof fn named_downloads_are_waited_for(
    guid: Seq<char>,
    last_download: Option<DownloadEntry>,
)
    ensures
        first_target(Some(guid), last_download) == Some(guid),
        last_download matches Some(d) ==> first_target(None, last_download) == Some(d.guid@),
        last_download is None ==> first_target(None, last_download) is None,
{
}

/// A cancellation is seen exactly where the download is in the canceled state; else
/// waiting for it fails past the deadline and goes on before it.
pub proof fn cancellations_are_seen_or_time_out(
    guid: Seq<char>,
    entry: Option<DownloadEntry>,
    runtime: DownloadRuntimeInfo,
    deadline_passed: bool,
)
    ensures
        ({
            let r = canceled(guid, entry, runtime, deadline_passed);
            let there = entry matches Some(d) && d.state == DownloadState::Canceled;
            &&& r is Matched <==> there
            &&& r is TimedOut <==> !there && deadline_passed
            &&& r is Sleep <==> !there && !deadline_passed
            &&& r matches WaitStepModel::TimedOut(ErrorModel::Domain(e)) ==> e.code
                == ErrorCode::WaitTimeout
            &&& r matches WaitStepModel::Matched(answer) ==> {
                &&& json::member(answer, "result"@) matches Some(result)
                &&& json::member(result, "download"@) == Some(projection::entry_json(entry->0))
            }
        }),
{
    reveal_strlit("subject");
    reveal_strlit("result");
    reveal_strlit("runtime");
    assert("subject"@.len() != "result"@.len());
    assert("subject"@[0] != "runtime"@[0]);
    assert("result"@.len() != "runtime"@.len());
}

/// A wait that saw its download shows it, and a cancellation that was not seen says for
/// which download and how long.
pub proof fn waits_show_their_download(
    guid: Seq<char>,
    desired: DownloadWaitState,
    download: DownloadEntry,
    entry: Option<DownloadEntry>,
    runtime: DownloadRuntimeInfo,
)
    ensures
        ({
            let r = wait_answer(guid, desired, download, runtime);
            json::member(r, "result"@) matches Some(shown) && json::member(shown, "matched"@)
                == Some(JsonModel::Bool(true)) && json::member(shown, "download"@) == Some(
                projection::entry_json(download),
            )
        }),
        ({
            &&& cancel_timeout(guid, entry, runtime) matches ErrorModel::Domain(e)
            &&& e.code == ErrorCode::WaitTimeout
            &&& e.context matches Some(c)
            &&& json::member(c, "id"@) == Some(JsonModel::Text(guid))
            &&& json::member(c, "state"@) == Some(JsonModel::Text("canceled"@))
            &&& json::member(c, "timeout_ms"@) == Some(json::number(2000))
            &&& json::member(c, "download"@) == Some(projection::opt_entry_json(entry))
        }),
{
    reveal_strlit("subject");
    reveal_strlit("result");
    reveal_strlit("runtime");
    assert("subject"@.len() != "result"@.len());
    assert("subject"@[0] != "runtime"@[0]);
    assert("result"@.len() != "runtime"@.len());
    reveal_strlit("download");
    reveal_strlit("matched");
    assert("download"@.len() != "matched"@.len());
    reveal_strlit("kind");
    reveal_strlit("id");
    reveal_strlit("state");
    reveal_strlit("timeout_ms");
    reveal_strlit("download_runtime");
    reveal_strlit("download");
    assert("kind"@.len() != "id"@.len());
    assert("kind"@.len() != "state"@.len());
    assert("kind"@.len() != "timeout_ms"@.len());
    assert("kind"@.len() != "download_runtime"@.len());
    assert("kind"@.len() != "download"@.len());
    assert("id"@.len() != "state"@.len());
    assert("id"@.len() != "timeout_ms"@.len());
    assert("id"@.len() != "download_runtime"@.len());
    assert("id"@.len() != "download"@.len());
    assert("state"@.len() != "timeout_ms"@.len());
    assert("state"@.len() != "download_runtime"@.len());
    assert("state"@.len() != "download"@.len());
    assert("timeout_ms"@.len() != "download_runtime"@.len());
    assert("timeout_ms"@.len() != "download"@.len());
    assert("download_runtime"@.len() != "download"@.len());
}

/// A wait begins for the download that the client names, or for the last one, and lasts
/// thirty seconds unless the client says otherwise; a session without downloads refuses it.
pub proof fn waits_begin_as_the_client_asks(
    args: DownloadWaitArgs,
    initial: DownloadRuntimeInfo,
    r: Result<DownloadWait, RubError>,
)
    requires
        call_ensures(begin_download_wait, (&args, &initial), r),
    ensures
        initial.status == DownloadRuntimeStatus::Unsupported ==> r is Err,
        r matches Ok(wait) ==> {
            &&& args.timeout_ms matches Some(t) ==> wait.timeout_ms == t
            &&& args.timeout_ms is None ==> wait.timeout_ms == 30000
            &&& args.id matches Some(id) ==> text::opt_text(wait.target_guid) == Some(id@)
            &&& args.id is None ==> (initial.last_download matches Some(d) ==> text::opt_text(
                wait.target_guid,
            ) == Some(d.guid@))
            &&& args.id is None && initial.last_download is None ==> wait.target_guid is None
        },
{
}

} // verus!
