//! JavaScript dialogs: answering one, and arming the answer to the next.

use vstd::prelude::*;
use crate::error::{self, ErrorCode, ErrorModel, RubError};
use crate::json::{self, Json, JsonModel, JsonObject};
use crate::text;

verus! {

#[derive(Clone, Copy, Debug, PartialEq, Eq, Structural)]
pub enum DialogKind {
    Alert,
    Confirm,
    Prompt,
    BeforeUnload,
}

#[derive(Clone, Copy, Debug, PartialEq, Eq, Structural)]
pub enum DialogRuntimeStatus {
    Inactive,
    Active,
    Degraded,
}

/// A dialog that a page has opened.
#[derive(Debug)]
pub struct PendingDialogInfo {
    pub kind: DialogKind,
    pub message: String,
    pub url: String,
    pub tab_target_id: Option<String>,
    pub frame_id: Option<String>,
    pub default_prompt: Option<String>,
    pub has_browser_handler: bool,
    pub opened_at: String,
}

/// How a dialog was closed.
#[derive(Debug)]
pub struct DialogResolutionInfo {
    pub accepted: bool,
    pub user_input: Option<String>,
    pub closed_at: String,
}

/// What the daemon knows of a session's dialogs.
#[derive(Debug)]
pub struct DialogRuntimeInfo {
    pub status: DialogRuntimeStatus,
    pub pending_dialog: Option<PendingDialogInfo>,
    pub last_dialog: Option<PendingDialogInfo>,
    pub last_result: Option<DialogResolutionInfo>,
    pub degraded_reason: Option<String>,
}

/// A tab of the browser.
#[derive(Debug)]
pub struct TabInfo {
    pub index: u32,
    pub target_id: String,
    pub url: String,
    pub title: String,
    pub active: bool,
}

/// What a dialog request asks for.
#[derive(Debug)]
pub enum DialogCommand {
    Status,
    Handle { accept: bool, prompt_text: Option<String> },
    Intercept { accept: bool, prompt_text: Option<String> },
    CancelIntercept,
}

/// What a dialog request asks for, over texts.
pub enum DialogCommandModel {
    Status,
    Handle { accept: bool, prompt_text: Option<Seq<char>> },
    Intercept { accept: bool, prompt_text: Option<Seq<char>> },
    CancelIntercept,
}

impl View for DialogCommand {
    type V = DialogCommandModel;

    open spec fn view(&self) -> DialogCommandModel {
        match self {
            DialogCommand::Status => DialogCommandModel::Status,
            DialogCommand::Handle { accept, prompt_text } => DialogCommandModel::Handle {
                accept: *accept,
                prompt_text: text::opt_text(*prompt_text),
            },
            DialogCommand::Intercept { accept, prompt_text } => DialogCommandModel::Intercept {
                accept: *accept,
                prompt_text: text::opt_text(*prompt_text),
            },
            DialogCommand::CancelIntercept => DialogCommandModel::CancelIntercept,
        }
    }
}

/// The text member `key`, or a default.
pub open spec fn text_or(args: JsonModel, key: Seq<char>, default: Seq<char>) -> Seq<char> {
    match json::text_member(args, key) {
        Some(s) => s,
        None => default,
    }
}

/// What a request asks for; a request that says nothing asks for the status.
/// `Err` holds an unknown subcommand.
pub open spec fn dialog_command(args: JsonModel) -> Result<DialogCommandModel, Seq<char>> {
    let sub = text_or(args, "sub"@, "status"@);
    if sub == "status"@ {
        Ok(DialogCommandModel::Status)
    } else if sub == "accept"@ {
        Ok(
            DialogCommandModel::Handle {
                accept: true,
                prompt_text: json::text_member(args, "prompt_text"@),
            },
        )
    } else if sub == "dismiss"@ {
        Ok(DialogCommandModel::Handle { accept: false, prompt_text: None })
    } else if sub == "intercept"@ {
        Ok(
            DialogCommandModel::Intercept {
                accept: text_or(args, "action"@, "accept"@) != "dismiss"@,
                prompt_text: json::text_member(args, "prompt_text"@),
            },
        )
    } else if sub == "cancel_intercept"@ {
        Ok(DialogCommandModel::CancelIntercept)
    } else {
        Err(sub)
    }
}

fn owned(o: Option<&str>) -> (r: Option<String>)
    ensures
        text::opt_text(r) == json::opt_str_text(o),
{
    match o {
        Some(s) => Some(s.to_owned()),
        None => None,
    }
}

/// Reads what a dialog request asks for.
pub fn parse_dialog_command(args: &Json) -> (r: Result<DialogCommand, RubError>)
    ensures
        match (dialog_command(args@), r) {
            (Ok(model), Ok(command)) => command@ == model,
            (Err(sub), Err(e)) => e@ == error::plain(
                ErrorCode::InvalidInput,
                "Unknown dialog subcommand: '"@ + sub + "'"@,
            ),
            _ => false,
        },
{
    let sub = match args.get_str("sub") {
        Some(s) => s,
        None => "status",
    };
    if text::str_eq(sub, "status") {
        return Ok(DialogCommand::Status);
    }
    if text::str_eq(sub, "accept") {
        return Ok(
            DialogCommand::Handle { accept: true, prompt_text: owned(args.get_str("prompt_text")) },
        );
    }
    if text::str_eq(sub, "dismiss") {
        return Ok(DialogCommand::Handle { accept: false, prompt_text: None });
    }
    if text::str_eq(sub, "intercept") {
        let action = match args.get_str("action") {
            Some(s) => s,
            None => "accept",
        };
        return Ok(
            DialogCommand::Intercept {
                accept: !text::str_eq(action, "dismiss"),
                prompt_text: owned(args.get_str("prompt_text")),
            },
        );
    }
    if text::str_eq(sub, "cancel_intercept") {
        return Ok(DialogCommand::CancelIntercept);
    }
    let message = text::cat3("Unknown dialog subcommand: '", sub, "'");
    Err(RubError::domain(ErrorCode::InvalidInput, message.as_str()))
}

/// The first active tab.
pub open spec fn active_at(tabs: Seq<TabInfo>, i: int) -> bool {
    &&& 0 <= i < tabs.len()
    &&& tabs[i].active
    &&& forall|j: int| 0 <= j < i ==> !(#[trigger] tabs[j]).active
}

pub open spec fn no_active_tab() -> ErrorModel {
    error::plain(
        ErrorCode::InvalidInput,
        "Cannot arm dialog intercept: no active tab is available. Navigate to a page before calling 'dialog intercept'."@,
    )
}

/// The tab whose dialogs an armed answer is for. Without an active tab there is
/// none, and nothing is armed: an answer for any tab could be taken by the
/// wrong one.
pub fn resolve_intercept_target_tab_id(list_tabs_result: Result<Vec<TabInfo>, RubError>) -> (r:
    Result<String, RubError>)
    ensures
        match r {
            Ok(id) => list_tabs_result is Ok && exists|i: int|
                #[trigger] active_at(list_tabs_result->Ok_0@, i) && id@
                    == list_tabs_result->Ok_0@[i].target_id@,
            Err(e) => {
                &&& e@ == no_active_tab()
                &&& list_tabs_result matches Ok(tabs) ==> forall|i: int|
                    0 <= i < tabs@.len() ==> !(#[trigger] tabs@[i]).active
            },
        },
{
    if let Ok(tabs) = &list_tabs_result {
        let mut i: usize = 0;
        while i < tabs.len()
            invariant
                i <= tabs@.len(),
                list_tabs_result is Ok && list_tabs_result->Ok_0 == *tabs,
                forall|j: int| 0 <= j < i ==> !(#[trigger] tabs@[j]).active,
            decreases tabs@.len() - i,
        {
            if tabs[i].active {
                assert(active_at(tabs@, i as int));
                return Ok(tabs[i].target_id.clone());
            }
            i += 1;
        }
    }
    Err(
        RubError::domain(
            ErrorCode::InvalidInput,
            "Cannot arm dialog intercept: no active tab is available. Navigate to a page before calling 'dialog intercept'.",
        ),
    )
}

pub open spec fn no_pending_dialog() -> ErrorModel {
    error::plain(
        ErrorCode::InvalidInput,
        "No pending JavaScript dialog is available for this session"@,
    )
}

pub fn generic_no_pending_dialog_error() -> (r: RubError)
    ensures
        r@ == no_pending_dialog(),
{
    RubError::domain(
        ErrorCode::InvalidInput,
        "No pending JavaScript dialog is available for this session",
    )
}

pub open spec fn action_name(accept: bool) -> Seq<char> {
    if accept {
        "accept"@
    } else {
        "dismiss"@
    }
}

fn action_str(accept: bool) -> (r: &'static str)
    ensures
        r@ == action_name(accept),
{
    if accept {
        "accept"
    } else {
        "dismiss"
    }
}

pub open spec fn kind_name(kind: DialogKind) -> Seq<char> {
    match kind {
        DialogKind::Alert => "alert"@,
        DialogKind::Confirm => "confirm"@,
        DialogKind::Prompt => "prompt"@,
        DialogKind::BeforeUnload => "beforeunload"@,
    }
}

fn kind_str(kind: DialogKind) -> (r: &'static str)
    ensures
        r@ == kind_name(kind),
{
    match kind {
        DialogKind::Alert => "alert",
        DialogKind::Confirm => "confirm",
        DialogKind::Prompt => "prompt",
        DialogKind::BeforeUnload => "beforeunload",
    }
}

/// What a dialog says to a client; `null` where there is none.
pub open spec fn dialog_json(d: Option<PendingDialogInfo>) -> JsonModel {
    match d {
        Some(d) => JsonModel::Object(
            Map::<Seq<char>, JsonModel>::empty().insert(
                "kind"@,
                JsonModel::Text(kind_name(d.kind)),
            ).insert("message"@, JsonModel::Text(d.message@)).insert(
                "url"@,
                JsonModel::Text(d.url@),
            ).insert("tab_target_id"@, json::opt_text_model(text::opt_text(d.tab_target_id))).insert(
                "frame_id"@,
                json::opt_text_model(text::opt_text(d.frame_id)),
            ).insert(
                "default_prompt"@,
                json::opt_text_model(text::opt_text(d.default_prompt)),
            ).insert("has_browser_handler"@, JsonModel::Bool(d.has_browser_handler)).insert(
                "opened_at"@,
                JsonModel::Text(d.opened_at@),
            ),
        ),
        None => JsonModel::Null,
    }
}

fn dialog_value(d: &Option<PendingDialogInfo>) -> (r: Json)
    ensures
        r@ == dialog_json(*d),
{
    match d {
        Some(d) => Json::Object(
            JsonObject::new().with("kind", json::text_value(kind_str(d.kind))).with(
                "message",
                json::text_value(d.message.as_str()),
            ).with("url", json::text_value(d.url.as_str())).with(
                "tab_target_id",
                json::opt_text_value(&d.tab_target_id),
            ).with("frame_id", json::opt_text_value(&d.frame_id)).with(
                "default_prompt",
                json::opt_text_value(&d.default_prompt),
            ).with("has_browser_handler", Json::Bool(d.has_browser_handler)).with(
                "opened_at",
                json::text_value(d.opened_at.as_str()),
            ),
        ),
        None => Json::Null,
    }
}

/// How a dialog was closed; `null` where none was.
pub open spec fn resolution_json(d: Option<DialogResolutionInfo>) -> JsonModel {
    match d {
        Some(d) => JsonModel::Object(
            Map::<Seq<char>, JsonModel>::empty().insert(
                "accepted"@,
                JsonModel::Bool(d.accepted),
            ).insert("user_input"@, json::opt_text_model(text::opt_text(d.user_input))).insert(
                "closed_at"@,
                JsonModel::Text(d.closed_at@),
            ),
        ),
        None => JsonModel::Null,
    }
}

fn resolution_value(d: &Option<DialogResolutionInfo>) -> (r: Json)
    ensures
        r@ == resolution_json(*d),
{
    match d {
        Some(d) => Json::Object(
            JsonObject::new().with("accepted", Json::Bool(d.accepted)).with(
                "user_input",
                json::opt_text_value(&d.user_input),
            ).with("closed_at", json::text_value(d.closed_at.as_str())),
        ),
        None => Json::Null,
    }
}

pub open spec fn status_name(s: DialogRuntimeStatus) -> Seq<char> {
    match s {
        DialogRuntimeStatus::Inactive => "inactive"@,
        DialogRuntimeStatus::Active => "active"@,
        DialogRuntimeStatus::Degraded => "degraded"@,
    }
}

/// What the dialog runtime says to a client.
pub open spec fn runtime_json(r: DialogRuntimeInfo) -> JsonModel {
    JsonModel::Object(
        Map::<Seq<char>, JsonModel>::empty().insert(
            "status"@,
            JsonModel::Text(status_name(r.status)),
        ).insert("pending_dialog"@, dialog_json(r.pending_dialog)).insert(
            "last_dialog"@,
            dialog_json(r.last_dialog),
        ).insert("last_result"@, resolution_json(r.last_result)).insert(
            "degraded_reason"@,
            json::opt_text_model(text::opt_text(r.degraded_reason)),
        ),
    )
}

fn runtime_value(r: &DialogRuntimeInfo) -> (j: Json)
    ensures
        j@ == runtime_json(*r),
{
    let status = match r.status {
        DialogRuntimeStatus::Inactive => "inactive",
        DialogRuntimeStatus::Active => "active",
        DialogRuntimeStatus::Degraded => "degraded",
    };
    Json::Object(
        JsonObject::new().with("status", json::text_value(status)).with(
            "pending_dialog",
            dialog_value(&r.pending_dialog),
        ).with("last_dialog", dialog_value(&r.last_dialog)).with(
            "last_result",
            resolution_value(&r.last_result),
        ).with("degraded_reason", json::opt_text_value(&r.degraded_reason)),
    )
}

pub open spec fn subject_json(kind: Seq<char>, action: Seq<char>) -> JsonModel {
    JsonModel::Object(
        Map::<Seq<char>, JsonModel>::empty().insert("kind"@, JsonModel::Text(kind)).insert(
            "action"@,
            JsonModel::Text(action),
        ),
    )
}

fn subject_value(kind: &str, action: &str) -> (r: Json)
    ensures
        r@ == subject_json(kind@, action@),
{
    Json::Object(
        JsonObject::new().with("kind", json::text_value(kind)).with(
            "action",
            json::text_value(action),
        ),
    )
}

/// The answer to a status request.
pub fn dialog_runtime_payload(subject: Json, runtime: &DialogRuntimeInfo) -> (r: Json)
    ensures
        r@ == JsonModel::Object(
            Map::<Seq<char>, JsonModel>::empty().insert("subject"@, subject@).insert(
                "runtime"@,
                runtime_json(*runtime),
            ),
        ),
{
    Json::Object(JsonObject::new().with("subject", subject).with("runtime", runtime_value(runtime)))
}

/// The answer to a request for the status of the dialogs.
pub fn dialog_status_payload(runtime: &DialogRuntimeInfo) -> (r: Json)
    ensures
        r@ == JsonModel::Object(
            Map::<Seq<char>, JsonModel>::empty().insert(
                "subject"@,
                subject_json("dialog_runtime"@, "status"@),
            ).insert("runtime"@, runtime_json(*runtime)),
        ),
{
    dialog_runtime_payload(subject_value("dialog_runtime", "status"), runtime)
}

/// The answer once a dialog was accepted or dismissed.
pub open spec fn action_json(accept: bool, runtime: DialogRuntimeInfo) -> JsonModel {
    JsonModel::Object(
        Map::<Seq<char>, JsonModel>::empty().insert(
            "subject"@,
            subject_json("dialog_action"@, action_name(accept)),
        ).insert(
            "result"@,
            JsonModel::Object(
                Map::<Seq<char>, JsonModel>::empty().insert(
                    "pending_dialog"@,
                    dialog_json(runtime.pending_dialog),
                ).insert("last_result"@, resolution_json(runtime.last_result)),
            ),
        ).insert("runtime"@, runtime_json(runtime)),
    )
}

pub fn dialog_action_payload(accept: bool, runtime: &DialogRuntimeInfo) -> (r: Json)
    ensures
        r@ == action_json(accept, *runtime),
{
    let result = JsonObject::new().with(
        "pending_dialog",
        dialog_value(&runtime.pending_dialog),
    ).with("last_result", resolution_value(&runtime.last_result));
    Json::Object(
        JsonObject::new().with("subject", subject_value("dialog_action", action_str(accept))).with(
            "result",
            Json::Object(result),
        ).with("runtime", runtime_value(runtime)),
    )
}

/// The answer once the reply to the next dialog is armed.
pub fn intercept_armed_payload(
    accept: bool,
    prompt_text: &Option<String>,
    target_tab_id: &str,
) -> (r: Json)
    ensures
        r@ == JsonModel::Object(
            Map::<Seq<char>, JsonModel>::empty().insert(
                "subject"@,
                subject_json("dialog_intercept"@, "armed"@),
            ).insert(
                "intercept"@,
                JsonModel::Object(
                    Map::<Seq<char>, JsonModel>::empty().insert(
                        "action"@,
                        JsonModel::Text(action_name(accept)),
                    ).insert(
                        "prompt_text"@,
                        json::opt_text_model(text::opt_text(*prompt_text)),
                    ).insert("target_tab_id"@, JsonModel::Text(target_tab_id@)),
                ),
            ),
        ),
{
    let intercept = JsonObject::new().with("action", json::text_value(action_str(accept))).with(
        "prompt_text",
        json::opt_text_value(prompt_text),
    ).with("target_tab_id", json::text_value(target_tab_id));
    Json::Object(
        JsonObject::new().with("subject", subject_value("dialog_intercept", "armed")).with(
            "intercept",
            Json::Object(intercept),
        ),
    )
}

/// The answer once an armed reply is taken back.
pub fn intercept_cancelled_payload() -> (r: Json)
    ensures
        r@ == json::object1("subject"@, subject_json("dialog_intercept"@, "cancelled"@)),
{
    Json::Object(JsonObject::new().with("subject", subject_value("dialog_intercept", "cancelled")))
}

/// The dialog was one that the browser itself may have closed.
pub open spec fn closed_by_browser(runtime: DialogRuntimeInfo) -> bool {
    runtime.last_dialog is Some && runtime.last_result is Some
        && runtime.last_dialog->0.has_browser_handler
}

pub open spec fn browser_handled(runtime: DialogRuntimeInfo, accept: bool) -> ErrorModel {
    if closed_by_browser(runtime) {
        error::with_suggestion(
            ErrorCode::InvalidInput,
            "JavaScript dialog was already closed before dialog "@ + action_name(accept)
                + " reached the browser authority"@,
            JsonModel::Object(
                Map::<Seq<char>, JsonModel>::empty().insert(
                    "dialog_runtime"@,
                    runtime_json(runtime),
                ).insert("requested_action"@, JsonModel::Text(action_name(accept))).insert(
                    "last_dialog_kind"@,
                    JsonModel::Text(kind_name(runtime.last_dialog->0.kind)),
                ).insert("last_result"@, resolution_json(runtime.last_result)),
            ),
            "Trigger the dialog and handle it immediately. When 'has_browser_handler' is true, inspect 'last_result' to see how the browser resolved it before your command arrived."@,
        )
    } else {
        no_pending_dialog()
    }
}

/// Explains that a dialog closed before its answer reached the browser.
pub fn browser_handled_dialog_error(runtime: &DialogRuntimeInfo, accept: bool) -> (r: RubError)
    ensures
        r@ == browser_handled(*runtime, accept),
{
    if let Some(last_dialog) = &runtime.last_dialog {
        if runtime.last_result.is_some() && last_dialog.has_browser_handler {
            let action = action_str(accept);
            let message = text::cat3(
                "JavaScript dialog was already closed before dialog ",
                action,
                " reached the browser authority",
            );
            let context = JsonObject::new().with("dialog_runtime", runtime_value(runtime)).with(
                "requested_action",
                json::text_value(action),
            ).with("last_dialog_kind", json::text_value(kind_str(last_dialog.kind))).with(
                "last_result",
                resolution_value(&runtime.last_result),
            );
            return RubError::domain_with_context_and_suggestion(
                ErrorCode::InvalidInput,
                message.as_str(),
                Json::Object(context),
                "Trigger the dialog and handle it immediately. When 'has_browser_handler' is true, inspect 'last_result' to see how the browser resolved it before your command arrived.",
            );
        }
    }
    generic_no_pending_dialog_error()
}

/// Whether there is a dialog to answer.
pub fn ensure_pending_dialog(runtime: &DialogRuntimeInfo) -> (r: Result<(), RubError>)
    ensures
        r is Ok <==> runtime.pending_dialog is Some,
        error::err_model(r) == (if runtime.pending_dialog is Some {
            None
        } else {
            Some(no_pending_dialog())
        }),
{
    if runtime.pending_dialog.is_none() {
        Err(generic_no_pending_dialog_error())
    } else {
        Ok(())
    }
}

/// The error once the browser refused the answer to a dialog: where the dialog
/// is gone meanwhile, that is what is told.
pub fn refused_dialog_error(error: RubError, runtime: &DialogRuntimeInfo, accept: bool) -> (r:
    RubError)
    ensures
        r@ == (if runtime.pending_dialog is None {
            browser_handled(*runtime, accept)
        } else {
            error@
        }),
{
    if runtime.pending_dialog.is_none() {
        browser_handled_dialog_error(runtime, accept)
    } else {
        error
    }
}

/// What to do while a dialog is closing.
#[derive(Debug)]
pub enum DialogWait {
    Closed(Json),
    Poll,
    TimedOut(RubError),
}

pub open spec fn close_timeout(accept: bool) -> ErrorModel {
    error::with_context(
        ErrorCode::WaitTimeout,
        "JavaScript dialog action did not observe a closed event before timeout"@,
        JsonModel::Object(
            Map::<Seq<char>, JsonModel>::empty().insert(
                "kind"@,
                JsonModel::Text("dialog"@),
            ).insert("action"@, JsonModel::Text(action_name(accept))),
        ),
    )
}

/// How long a closing dialog is waited for, in milliseconds.
pub const DIALOG_CLOSE_TIMEOUT_MS: u64 = 2000;

/// How long to wait before looking at a closing dialog again, in milliseconds.
pub const DIALOG_POLL_INTERVAL_MS: u64 = 50;

/// Decides, while a dialog is closing, whether it is closed, and otherwise
/// whether to look again. A dialog that is closed by the deadline is a success.
pub fn observe_closing_dialog(
    runtime: &DialogRuntimeInfo,
    accept: bool,
    elapsed_ms: u64,
) -> (r: DialogWait)
    ensures
        match r {
            DialogWait::Closed(payload) => runtime.pending_dialog is None && payload@
                == action_json(accept, *runtime),
            DialogWait::TimedOut(e) => runtime.pending_dialog is Some && elapsed_ms
                >= DIALOG_CLOSE_TIMEOUT_MS && e@ == close_timeout(accept),
            DialogWait::Poll => runtime.pending_dialog is Some && elapsed_ms
                < DIALOG_CLOSE_TIMEOUT_MS,
        },
{
    if runtime.pending_dialog.is_none() {
        return DialogWait::Closed(dialog_action_payload(accept, runtime));
    }
    if elapsed_ms >= DIALOG_CLOSE_TIMEOUT_MS {
        let context = JsonObject::new().with("kind", json::text_value("dialog")).with(
            "action",
            json::text_value(action_str(accept)),
        );
        return DialogWait::TimedOut(
            RubError::domain_with_context(
                ErrorCode::WaitTimeout,
                "JavaScript dialog action did not observe a closed event before timeout",
                Json::Object(context),
            ),
        );
    }
    DialogWait::Poll
}

/// A dialog request that names no subcommand asks for the status. `accept` hands the
/// prompt text on, `dismiss` never does; an intercept accepts unless its action is to
/// dismiss; and any other subcommand is refused under its own name.
pub proof fn dialog_requests_do_what_they_say(args: JsonModel)
    ensures
        ({
            let r = dialog_command(args);
            let sub = json::text_member(args, "sub"@);
            let prompt = json::text_member(args, "prompt_text"@);
            &&& sub is None ==> r == Ok::<DialogCommandModel, Seq<char>>(DialogCommandModel::Status)
            &&& r matches Ok(DialogCommandModel::Status) ==> sub is None || sub == Some("status"@)
            &&& sub == Some("accept"@) <==> r == Ok::<DialogCommandModel, Seq<char>>(
                DialogCommandModel::Handle { accept: true, prompt_text: prompt },
            )
            &&& sub == Some("dismiss"@) <==> r == Ok::<DialogCommandModel, Seq<char>>(
                DialogCommandModel::Handle { accept: false, prompt_text: None },
            )
            &&& sub == Some("intercept"@) ==> r == Ok::<DialogCommandModel, Seq<char>>(
                DialogCommandModel::Intercept {
                    accept: json::text_member(args, "action"@) != Some("dismiss"@),
                    prompt_text: prompt,
                },
            )
            &&& r matches Ok(DialogCommandModel::Intercept { .. }) ==> sub == Some("intercept"@)
            &&& sub == Some("cancel_intercept"@) <==> r == Ok::<DialogCommandModel, Seq<char>>(
                DialogCommandModel::CancelIntercept,
            )
            &&& r matches Err(name) ==> sub == Some(name)
        }),
{
    reveal_strlit("status");
    reveal_strlit("accept");
    reveal_strlit("dismiss");
    reveal_strlit("intercept");
    reveal_strlit("cancel_intercept");
    assert("status"@[0] != "accept"@[0]);
    assert("status"@.len() != "dismiss"@.len());
    assert("status"@.len() != "intercept"@.len());
    assert("status"@.len() != "cancel_intercept"@.len());
    assert("accept"@.len() != "dismiss"@.len());
    assert("accept"@.len() != "intercept"@.len());
    assert("accept"@.len() != "cancel_intercept"@.len());
    assert("dismiss"@.len() != "intercept"@.len());
    assert("dismiss"@.len() != "cancel_intercept"@.len());
    assert("intercept"@.len() != "cancel_intercept"@.len());
}

/// Only one tab can be the first active one.
pub proof fn the_first_active_tab_is_one(tabs: Seq<TabInfo>, i: int, j: int)
    requires
        active_at(tabs, i),
        active_at(tabs, j),
    ensures
        i == j,
        tabs[i].active,
        forall|k: int| 0 <= k < tabs.len() && (#[trigger] tabs[k]).active ==> i <= k,
{
}

/// Accepting and dismissing go by different names.
pub proof fn dialog_actions_are_told_apart(a: bool, b: bool)
    ensures
        action_name(a) == action_name(b) <==> a == b,
        action_name(true) == "accept"@,
        action_name(false) == "dismiss"@,
{
    reveal_strlit("accept");
    reveal_strlit("dismiss");
    assert("accept"@.len() != "dismiss"@.len());
}

/// The answer to an action shows the dialogs as they stand after it: the one that is
/// pending, how the last one was closed, and the action that was asked for.
pub proof fn action_answers_show_the_dialogs(accept: bool, runtime: DialogRuntimeInfo)
    ensures
        ({
            let r = action_json(accept, runtime);
            &&& json::member(r, "runtime"@) == Some(runtime_json(runtime))
            &&& json::member(r, "subject"@) matches Some(subject)
            &&& json::member(subject, "action"@) == Some(JsonModel::Text(action_name(accept)))
            &&& json::member(r, "result"@) matches Some(result)
            &&& json::member(result, "pending_dialog"@) == Some(dialog_json(runtime.pending_dialog))
            &&& json::member(result, "last_result"@) == Some(resolution_json(runtime.last_result))
        }),
{
    reveal_strlit("subject");
    reveal_strlit("result");
    reveal_strlit("runtime");
    assert("subject"@.len() != "result"@.len());
    assert("subject"@[0] != "runtime"@[0]);
    assert("result"@.len() != "runtime"@.len());
    reveal_strlit("pending_dialog");
    reveal_strlit("last_result");
    assert("pending_dialog"@.len() != "last_result"@.len());
    reveal_strlit("kind");
    reveal_strlit("action");
    assert("kind"@.len() != "action"@.len());
}

/// The state of the dialogs shows the pending dialog, the last one and how it was
/// closed, each in its own place.
pub proof fn dialog_states_show_each_dialog(r: DialogRuntimeInfo)
    ensures
        ({
            let j = runtime_json(r);
            &&& json::member(j, "status"@) == Some(JsonModel::Text(status_name(r.status)))
            &&& json::member(j, "pending_dialog"@) == Some(dialog_json(r.pending_dialog))
            &&& json::member(j, "last_dialog"@) == Some(dialog_json(r.last_dialog))
            &&& json::member(j, "last_result"@) == Some(resolution_json(r.last_result))
            &&& json::member(j, "degraded_reason"@) == Some(
                json::opt_text_model(text::opt_text(r.degraded_reason)),
            )
        }),
        r.pending_dialog is None <==> dialog_json(r.pending_dialog) == JsonModel::Null,
        r.last_result matches Some(d) ==> json::member(resolution_json(r.last_result), "accepted"@)
            == Some(JsonModel::Bool(d.accepted)),
        r.last_result matches Some(d) ==> json::member(
            resolution_json(r.last_result),
            "user_input"@,
        ) == Some(json::opt_text_model(text::opt_text(d.user_input))),
{
    reveal_strlit("status");
    reveal_strlit("pending_dialog");
    reveal_strlit("last_dialog");
    reveal_strlit("last_result");
    reveal_strlit("degraded_reason");
    assert("status"@.len() != "pending_dialog"@.len());
    assert("status"@.len() != "last_dialog"@.len());
    assert("status"@.len() != "last_result"@.len());
    assert("status"@.len() != "degraded_reason"@.len());
    assert("pending_dialog"@.len() != "last_dialog"@.len());
    assert("pending_dialog"@.len() != "last_result"@.len());
    assert("pending_dialog"@.len() != "degraded_reason"@.len());
    assert("last_dialog"@[5] != "last_result"@[5]);
    assert("last_dialog"@.len() != "degraded_reason"@.len());
    assert("last_result"@.len() != "degraded_reason"@.len());
    reveal_strlit("accepted");
    reveal_strlit("user_input");
    reveal_strlit("closed_at");
    assert("accepted"@.len() != "user_input"@.len());
    assert("accepted"@.len() != "closed_at"@.len());
    assert("user_input"@.len() != "closed_at"@.len());
}

/// A dialog is shown with its kind, its message, its page and what the prompt offers.
pub proof fn dialogs_are_shown_as_they_are(d: PendingDialogInfo)
    ensures
        ({
            let j = dialog_json(Some(d));
            &&& json::member(j, "kind"@) == Some(JsonModel::Text(kind_name(d.kind)))
            &&& json::member(j, "message"@) == Some(JsonModel::Text(d.message@))
            &&& json::member(j, "url"@) == Some(JsonModel::Text(d.url@))
            &&& json::member(j, "tab_target_id"@) == Some(
                json::opt_text_model(text::opt_text(d.tab_target_id)),
            )
            &&& json::member(j, "frame_id"@) == Some(
                json::opt_text_model(text::opt_text(d.frame_id)),
            )
            &&& json::member(j, "default_prompt"@) == Some(
                json::opt_text_model(text::opt_text(d.default_prompt)),
            )
            &&& json::member(j, "has_browser_handler"@) == Some(
                JsonModel::Bool(d.has_browser_handler),
            )
            &&& json::member(j, "opened_at"@) == Some(JsonModel::Text(d.opened_at@))
        }),
{
    reveal_strlit("kind");
    reveal_strlit("message");
    reveal_strlit("url");
    reveal_strlit("tab_target_id");
    reveal_strlit("frame_id");
    reveal_strlit("default_prompt");
    reveal_strlit("has_browser_handler");
    reveal_strlit("opened_at");
    assert("kind"@.len() != "message"@.len());
    assert("kind"@.len() != "url"@.len());
    assert("kind"@.len() != "tab_target_id"@.len());
    assert("kind"@.len() != "frame_id"@.len());
    assert("kind"@.len() != "default_prompt"@.len());
    assert("kind"@.len() != "has_browser_handler"@.len());
    assert("kind"@.len() != "opened_at"@.len());
    assert("message"@.len() != "url"@.len());
    assert("message"@.len() != "tab_target_id"@.len());
    assert("message"@.len() != "frame_id"@.len());
    assert("message"@.len() != "default_prompt"@.len());
    assert("message"@.len() != "has_browser_handler"@.len());
    assert("message"@.len() != "opened_at"@.len());
    assert("url"@.len() != "tab_target_id"@.len());
    assert("url"@.len() != "frame_id"@.len());
    assert("url"@.len() != "default_prompt"@.len());
    assert("url"@.len() != "has_browser_handler"@.len());
    assert("url"@.len() != "opened_at"@.len());
    assert("tab_target_id"@.len() != "frame_id"@.len());
    assert("tab_target_id"@.len() != "default_prompt"@.len());
    assert("tab_target_id"@.len() != "has_browser_handler"@.len());
    assert("tab_target_id"@.len() != "opened_at"@.len());
    assert("frame_id"@.len() != "default_prompt"@.len());
    assert("frame_id"@.len() != "has_browser_handler"@.len());
    assert("frame_id"@.len() != "opened_at"@.len());
    assert("default_prompt"@.len() != "has_browser_handler"@.len());
    assert("default_prompt"@.len() != "opened_at"@.len());
    assert("has_browser_handler"@.len() != "opened_at"@.len());
}

/// A refused answer is told as closed by the browser exactly where the last dialog had
/// a handler in the browser and its closing was seen.
pub proof fn browser_closings_are_told_where_they_were_seen(
    runtime: DialogRuntimeInfo,
    accept: bool,
)
    ensures
        browser_handled(runtime, accept) matches ErrorModel::Domain(e) && e.code
            == ErrorCode::InvalidInput && (e.context is Some <==> runtime.last_result is Some && (
        runtime.last_dialog matches Some(d) && d.has_browser_handler)),
{
}

/// A dialog that did not close in time is told with what was to become of it; a text of a
/// request stands for its default where it is given.
pub proof fn dialog_errors_say_what_failed(
    accept: bool,
    args: JsonModel,
    key: Seq<char>,
    default: Seq<char>,
)
    ensures
        ({
            &&& close_timeout(accept) matches ErrorModel::Domain(e)
            &&& e.code == ErrorCode::WaitTimeout
            &&& e.context matches Some(c)
            &&& json::member(c, "kind"@) == Some(JsonModel::Text("dialog"@))
            &&& json::member(c, "action"@) == Some(JsonModel::Text(action_name(accept)))
        }),
        no_active_tab() matches ErrorModel::Domain(e) && e.code == ErrorCode::InvalidInput,
        no_pending_dialog() matches ErrorModel::Domain(e) && e.code == ErrorCode::InvalidInput,
        json::member(args, key) matches Some(JsonModel::Text(s)) ==> text_or(args, key, default)
            == s,
        json::member(args, key) is None ==> text_or(args, key, default) == default,
        subject_json(key, default) == subject_json(key, default) && json::member(
            subject_json(key, default),
            "kind"@,
        ) == Some(JsonModel::Text(key)) && json::member(subject_json(key, default), "action"@)
            == Some(JsonModel::Text(default)),
{
    reveal_strlit("kind");
    reveal_strlit("action");
    assert("kind"@.len() != "action"@.len());
}

/// A closing dialog is waited for until it is gone or the time is up: it is answered exactly
/// where none is pending any more.
pub proof fn closing_dialogs_are_seen_or_time_out(
    runtime: DialogRuntimeInfo,
    accept: bool,
    elapsed_ms: u64,
    r: DialogWait,
    pending: Result<(), RubError>,
)
    requires
        call_ensures(observe_closing_dialog, (&runtime, accept, elapsed_ms), r),
        call_ensures(ensure_pending_dialog, (&runtime,), pending),
    ensures
        r is Closed <==> runtime.pending_dialog is None,
        r is TimedOut <==> runtime.pending_dialog is Some && elapsed_ms >= 2000,
        r is Poll <==> runtime.pending_dialog is Some && elapsed_ms < 2000,
        pending is Ok <==> runtime.pending_dialog is Some,
{
}

/// A dialog is armed for the first active tab, and for none where no tab is active.
pub proof fn dialogs_are_armed_for_the_active_tab(
    listed: Result<Vec<TabInfo>, RubError>,
    r: Result<String, RubError>,
    k: int,
)
    requires
        call_ensures(resolve_intercept_target_tab_id, (listed,), r),
    ensures
        listed matches Ok(tabs) ==> (active_at(tabs@, k) ==> r is Ok && r->Ok_0@
            == tabs@[k].target_id@),
        listed matches Ok(tabs) ==> (r is Ok ==> exists|i: int|
            0 <= i < tabs@.len() && (#[trigger] tabs@[i]).active && tabs@[i].target_id@
                == r->Ok_0@),
        listed is Err ==> r is Err,
{
    if let Ok(tabs) = listed {
        if let Ok(id) = r {
            let i = choose|i: int| #[trigger] active_at(tabs@, i) && id@ == tabs@[i].target_id@;
            if active_at(tabs@, k) {
                the_first_active_tab_is_one(tabs@, i, k);
            }
        } else if active_at(tabs@, k) {
            assert(tabs@[k].active);
        }
    }
}

/// An armed dialog is answered with what will become of it, and where.
pub proof fn armed_dialogs_are_told(
    accept: bool,
    prompt_text: Option<String>,
    target_tab_id: &str,
    r: Json,
)
    requires
        call_ensures(intercept_armed_payload, (accept, &prompt_text, target_tab_id), r),
    ensures
        json::member(r@, "intercept"@) matches Some(shown) && json::member(shown, "action"@) == Some(
            JsonModel::Text(action_name(accept)),
        ) && json::member(shown, "prompt_text"@) == Some(
            json::opt_text_model(text::opt_text(prompt_text)),
        ) && json::member(shown, "target_tab_id"@) == Some(JsonModel::Text(target_tab_id@)),
        json::member(r@, "subject"@) is Some,
{
    reveal_strlit("subject");
    reveal_strlit("intercept");
    assert("subject"@.len() != "intercept"@.len());
    reveal_strlit("action");
    reveal_strlit("prompt_text");
    reveal_strlit("target_tab_id");
    assert("action"@.len() != "prompt_text"@.len());
    assert("action"@.len() != "target_tab_id"@.len());
    assert("prompt_text"@.len() != "target_tab_id"@.len());
}

/// Each kind of dialog goes by its own name.
pub proof fn dialog_kinds_go_by_their_names(x: DialogKind)
    ensures
        x == DialogKind::Alert <==> kind_name(x) == "alert"@,
        x == DialogKind::Confirm <==> kind_name(x) == "confirm"@,
        x == DialogKind::Prompt <==> kind_name(x) == "prompt"@,
        x == DialogKind::BeforeUnload <==> kind_name(x) == "beforeunload"@,
{
    reveal_strlit("alert");
    reveal_strlit("confirm");
    reveal_strlit("prompt");
    reveal_strlit("beforeunload");
    assert("alert"@.len() != "confirm"@.len());
    assert("alert"@.len() != "prompt"@.len());
    assert("alert"@.len() != "beforeunload"@.len());
    assert("confirm"@.len() != "prompt"@.len());
    assert("confirm"@.len() != "beforeunload"@.len());
    assert("prompt"@.len() != "beforeunload"@.len());
}

/// Each status of the dialog runtime goes by its own name.
pub proof fn dialog_statuses_go_by_their_names(x: DialogRuntimeStatus)
    ensures
        x == DialogRuntimeStatus::Inactive <==> status_name(x) == "inactive"@,
        x == DialogRuntimeStatus::Active <==> status_name(x) == "active"@,
        x == DialogRuntimeStatus::Degraded <==> status_name(x) == "degraded"@,
{
    reveal_strlit("inactive");
    reveal_strlit("active");
    reveal_strlit("degraded");
    assert("inactive"@.len() != "active"@.len());
    assert("inactive"@[0] != "degraded"@[0]);
    assert("active"@.len() != "degraded"@.len());
}

} // verus!
