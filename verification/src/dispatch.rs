//! Which handler answers a command, and what surrounds its answer.

use vstd::prelude::*;
use crate::error::{self, EnvelopeModel, ErrorCode, ErrorEnvelope, ErrorModel, RubError};
use crate::json::{self, Json, JsonModel, JsonObject};
use crate::text;

verus! {

/// The commands of the daemon.
#[derive(Clone, Copy, Debug, PartialEq, Eq, Structural)]
pub enum CommandName {
    Handshake,
    UpgradeCheck,
    BlockerDiagnose,
    InteractabilityProbe,
    FillValidate,
    OrchestrationProbe,
    OrchestrationTabFrames,
    OrchestrationTargetDispatch,
    OrchestrationWorkflowSourceVars,
    TriggerFill,
    TriggerPipe,
    Open,
    State,
    Observe,
    Orchestration,
    Inspect,
    Find,
    Click,
    Exec,
    Scroll,
    Back,
    Forward,
    Reload,
    Screenshot,
    Doctor,
    Runtime,
    Frames,
    Frame,
    History,
    Downloads,
    Download,
    Storage,
    Handoff,
    Takeover,
    Dialog,
    Intercept,
    Interference,
    Close,
    Secret,
    Keys,
    Type,
    Wait,
    Tabs,
    Trigger,
    Switch,
    CloseTab,
    Get,
    Hover,
    Cookies,
    Upload,
    Select,
    Fill,
    Extract,
    Pipe,
}

/// The name by which a request asks for a command.
pub open spec fn wire_name(c: CommandName) -> Seq<char> {
    match c {
        CommandName::Handshake => "_handshake"@,
        CommandName::UpgradeCheck => "_upgrade_check"@,
        CommandName::BlockerDiagnose => "_blocker_diagnose"@,
        CommandName::InteractabilityProbe => "_interactability_probe"@,
        CommandName::FillValidate => "_fill_validate"@,
        CommandName::OrchestrationProbe => "_orchestration_probe"@,
        CommandName::OrchestrationTabFrames => "_orchestration_tab_frames"@,
        CommandName::OrchestrationTargetDispatch => "_orchestration_target_dispatch"@,
        CommandName::OrchestrationWorkflowSourceVars => "_orchestration_workflow_source_vars"@,
        CommandName::TriggerFill => "_trigger_fill"@,
        CommandName::TriggerPipe => "_trigger_pipe"@,
        CommandName::Open => "open"@,
        CommandName::State => "state"@,
        CommandName::Observe => "observe"@,
        CommandName::Orchestration => "orchestration"@,
        CommandName::Inspect => "inspect"@,
        CommandName::Find => "find"@,
        CommandName::Click => "click"@,
        CommandName::Exec => "exec"@,
        CommandName::Scroll => "scroll"@,
        CommandName::Back => "back"@,
        CommandName::Forward => "forward"@,
        CommandName::Reload => "reload"@,
        CommandName::Screenshot => "screenshot"@,
        CommandName::Doctor => "doctor"@,
        CommandName::Runtime => "runtime"@,
        CommandName::Frames => "frames"@,
        CommandName::Frame => "frame"@,
        CommandName::History => "history"@,
        CommandName::Downloads => "downloads"@,
        CommandName::Download => "download"@,
        CommandName::Storage => "storage"@,
        CommandName::Handoff => "handoff"@,
        CommandName::Takeover => "takeover"@,
        CommandName::Dialog => "dialog"@,
        CommandName::Intercept => "intercept"@,
        CommandName::Interference => "interference"@,
        CommandName::Close => "close"@,
        CommandName::Secret => "secret"@,
        CommandName::Keys => "keys"@,
        CommandName::Type => "type"@,
        CommandName::Wait => "wait"@,
        CommandName::Tabs => "tabs"@,
        CommandName::Trigger => "trigger"@,
        CommandName::Switch => "switch"@,
        CommandName::CloseTab => "close_tab"@,
        CommandName::Get => "get"@,
        CommandName::Hover => "hover"@,
        CommandName::Cookies => "cookies"@,
        CommandName::Upload => "upload"@,
        CommandName::Select => "select"@,
        CommandName::Fill => "fill"@,
        CommandName::Extract => "extract"@,
        CommandName::Pipe => "pipe"@,
    }
}

impl CommandName {
    /// The name by which a request asks for the command.
    pub fn as_str(self) -> (r: &'static str)
        ensures
            r@ == wire_name(self),
    {
        match self {
            CommandName::Handshake => "_handshake",
            CommandName::UpgradeCheck => "_upgrade_check",
            CommandName::BlockerDiagnose => "_blocker_diagnose",
            CommandName::InteractabilityProbe => "_interactability_probe",
            CommandName::FillValidate => "_fill_validate",
            CommandName::OrchestrationProbe => "_orchestration_probe",
            CommandName::OrchestrationTabFrames => "_orchestration_tab_frames",
            CommandName::OrchestrationTargetDispatch => "_orchestration_target_dispatch",
            CommandName::OrchestrationWorkflowSourceVars => "_orchestration_workflow_source_vars",
            CommandName::TriggerFill => "_trigger_fill",
            CommandName::TriggerPipe => "_trigger_pipe",
            CommandName::Open => "open",
            CommandName::State => "state",
            CommandName::Observe => "observe",
            CommandName::Orchestration => "orchestration",
            CommandName::Inspect => "inspect",
            CommandName::Find => "find",
            CommandName::Click => "click",
            CommandName::Exec => "exec",
            CommandName::Scroll => "scroll",
            CommandName::Back => "back",
            CommandName::Forward => "forward",
            CommandName::Reload => "reload",
            CommandName::Screenshot => "screenshot",
            CommandName::Doctor => "doctor",
            CommandName::Runtime => "runtime",
            CommandName::Frames => "frames",
            CommandName::Frame => "frame",
            CommandName::History => "history",
            CommandName::Downloads => "downloads",
            CommandName::Download => "download",
            CommandName::Storage => "storage",
            CommandName::Handoff => "handoff",
            CommandName::Takeover => "takeover",
            CommandName::Dialog => "dialog",
            CommandName::Intercept => "intercept",
            CommandName::Interference => "interference",
            CommandName::Close => "close",
            CommandName::Secret => "secret",
            CommandName::Keys => "keys",
            CommandName::Type => "type",
            CommandName::Wait => "wait",
            CommandName::Tabs => "tabs",
            CommandName::Trigger => "trigger",
            CommandName::Switch => "switch",
            CommandName::CloseTab => "close_tab",
            CommandName::Get => "get",
            CommandName::Hover => "hover",
            CommandName::Cookies => "cookies",
            CommandName::Upload => "upload",
            CommandName::Select => "select",
            CommandName::Fill => "fill",
            CommandName::Extract => "extract",
            CommandName::Pipe => "pipe",
        }
    }

    /// The command with the given name.
    pub fn parse(name: &str) -> (r: Option<CommandName>)
        ensures
            match r {
                Some(c) => name@ == wire_name(c),
                None => forall|c: CommandName| name@ != #[trigger] wire_name(c),
            },
    {
        if text::str_eq(name, "_handshake") {
            Some(CommandName::Handshake)
        } else if text::str_eq(name, "_upgrade_check") {
            Some(CommandName::UpgradeCheck)
        } else if text::str_eq(name, "_blocker_diagnose") {
            Some(CommandName::BlockerDiagnose)
        } else if text::str_eq(name, "_interactability_probe") {
            Some(CommandName::InteractabilityProbe)
        } else if text::str_eq(name, "_fill_validate") {
            Some(CommandName::FillValidate)
        } else if text::str_eq(name, "_orchestration_probe") {
            Some(CommandName::OrchestrationProbe)
        } else if text::str_eq(name, "_orchestration_tab_frames") {
            Some(CommandName::OrchestrationTabFrames)
        } else if text::str_eq(name, "_orchestration_target_dispatch") {
            Some(CommandName::OrchestrationTargetDispatch)
        } else if text::str_eq(name, "_orchestration_workflow_source_vars") {
            Some(CommandName::OrchestrationWorkflowSourceVars)
        } else if text::str_eq(name, "_trigger_fill") {
            Some(CommandName::TriggerFill)
        } else if text::str_eq(name, "_trigger_pipe") {
            Some(CommandName::TriggerPipe)
        } else if text::str_eq(name, "open") {
            Some(CommandName::Open)
        } else if text::str_eq(name, "state") {
            Some(CommandName::State)
        } else if text::str_eq(name, "observe") {
            Some(CommandName::Observe)
        } else if text::str_eq(name, "orchestration") {
            Some(CommandName::Orchestration)
        } else if text::str_eq(name, "inspect") {
            Some(CommandName::Inspect)
        } else if text::str_eq(name, "find") {
            Some(CommandName::Find)
        } else if text::str_eq(name, "click") {
            Some(CommandName::Click)
        } else if text::str_eq(name, "exec") {
            Some(CommandName::Exec)
        } else if text::str_eq(name, "scroll") {
            Some(CommandName::Scroll)
        } else if text::str_eq(name, "back") {
            Some(CommandName::Back)
        } else if text::str_eq(name, "forward") {
            Some(CommandName::Forward)
        } else if text::str_eq(name, "reload") {
            Some(CommandName::Reload)
        } else if text::str_eq(name, "screenshot") {
            Some(CommandName::Screenshot)
        } else if text::str_eq(name, "doctor") {
            Some(CommandName::Doctor)
        } else if text::str_eq(name, "runtime") {
            Some(CommandName::Runtime)
        } else if text::str_eq(name, "frames") {
            Some(CommandName::Frames)
        } else if text::str_eq(name, "frame") {
            Some(CommandName::Frame)
        } else if text::str_eq(name, "history") {
            Some(CommandName::History)
        } else if text::str_eq(name, "downloads") {
            Some(CommandName::Downloads)
        } else if text::str_eq(name, "download") {
            Some(CommandName::Download)
        } else if text::str_eq(name, "storage") {
            Some(CommandName::Storage)
        } else if text::str_eq(name, "handoff") {
            Some(CommandName::Handoff)
        } else if text::str_eq(name, "takeover") {
            Some(CommandName::Takeover)
        } else if text::str_eq(name, "dialog") {
            Some(CommandName::Dialog)
        } else if text::str_eq(name, "intercept") {
            Some(CommandName::Intercept)
        } else if text::str_eq(name, "interference") {
            Some(CommandName::Interference)
        } else if text::str_eq(name, "close") {
            Some(CommandName::Close)
        } else if text::str_eq(name, "secret") {
            Some(CommandName::Secret)
        } else if text::str_eq(name, "keys") {
            Some(CommandName::Keys)
        } else if text::str_eq(name, "type") {
            Some(CommandName::Type)
        } else if text::str_eq(name, "wait") {
            Some(CommandName::Wait)
        } else if text::str_eq(name, "tabs") {
            Some(CommandName::Tabs)
        } else if text::str_eq(name, "trigger") {
            Some(CommandName::Trigger)
        } else if text::str_eq(name, "switch") {
            Some(CommandName::Switch)
        } else if text::str_eq(name, "close_tab") {
            Some(CommandName::CloseTab)
        } else if text::str_eq(name, "get") {
            Some(CommandName::Get)
        } else if text::str_eq(name, "hover") {
            Some(CommandName::Hover)
        } else if text::str_eq(name, "cookies") {
            Some(CommandName::Cookies)
        } else if text::str_eq(name, "upload") {
            Some(CommandName::Upload)
        } else if text::str_eq(name, "select") {
            Some(CommandName::Select)
        } else if text::str_eq(name, "fill") {
            Some(CommandName::Fill)
        } else if text::str_eq(name, "extract") {
            Some(CommandName::Extract)
        } else if text::str_eq(name, "pipe") {
            Some(CommandName::Pipe)
        } else {
            None
        }
    }
}

/// Two commands never share a name.
pub proof fn wire_name_injective(a: CommandName, b: CommandName)
    requires
        wire_name(a) == wire_name(b),
    ensures
        a == b,
{
    let x = wire_name(a);
    let y = wire_name(b);
    assert(x.len() == y.len() && x[0] == y[0] && x[2] == y[2] && x[9] == y[9]);
    reveal_strlit("_handshake");
    reveal_strlit("_upgrade_check");
    reveal_strlit("_blocker_diagnose");
    reveal_strlit("_interactability_probe");
    reveal_strlit("_fill_validate");
    reveal_strlit("_orchestration_probe");
    reveal_strlit("_orchestration_tab_frames");
    reveal_strlit("_orchestration_target_dispatch");
    reveal_strlit("_orchestration_workflow_source_vars");
    reveal_strlit("_trigger_fill");
    reveal_strlit("_trigger_pipe");
    reveal_strlit("open");
    reveal_strlit("state");
    reveal_strlit("observe");
    reveal_strlit("orchestration");
    reveal_strlit("inspect");
    reveal_strlit("find");
    reveal_strlit("click");
    reveal_strlit("exec");
    reveal_strlit("scroll");
    reveal_strlit("back");
    reveal_strlit("forward");
    reveal_strlit("reload");
    reveal_strlit("screenshot");
    reveal_strlit("doctor");
    reveal_strlit("runtime");
    reveal_strlit("frames");
    reveal_strlit("frame");
    reveal_strlit("history");
    reveal_strlit("downloads");
    reveal_strlit("download");
    reveal_strlit("storage");
    reveal_strlit("handoff");
    reveal_strlit("takeover");
    reveal_strlit("dialog");
    reveal_strlit("intercept");
    reveal_strlit("interference");
    reveal_strlit("close");
    reveal_strlit("secret");
    reveal_strlit("keys");
    reveal_strlit("type");
    reveal_strlit("wait");
    reveal_strlit("tabs");
    reveal_strlit("trigger");
    reveal_strlit("switch");
    reveal_strlit("close_tab");
    reveal_strlit("get");
    reveal_strlit("hover");
    reveal_strlit("cookies");
    reveal_strlit("upload");
    reveal_strlit("select");
    reveal_strlit("fill");
    reveal_strlit("extract");
    reveal_strlit("pipe");
}

/// What the router knows of a command besides its handler.
#[derive(Clone, Copy, Debug, PartialEq, Eq, Structural)]
pub struct CommandMetadata {
    /// Not a command of the public interface.
    pub internal: bool,
    /// May carry a `wait_after` condition.
    pub supports_post_wait: bool,
    /// Runs only on behalf of the daemon's own process.
    pub in_process_only: bool,
}

/// The commands that clients other than the daemon's own tools never send.
pub open spec fn internal(c: CommandName) -> bool {
    match c {
        CommandName::Handshake
        | CommandName::UpgradeCheck
        | CommandName::BlockerDiagnose
        | CommandName::InteractabilityProbe
        | CommandName::FillValidate
        | CommandName::OrchestrationProbe
        | CommandName::OrchestrationTabFrames
        | CommandName::OrchestrationTargetDispatch
        | CommandName::OrchestrationWorkflowSourceVars
        | CommandName::TriggerFill
        | CommandName::TriggerPipe => true,
        _ => false,
    }
}

/// The commands after which a client can ask to wait for a condition: those
/// that act on the page.
pub open spec fn post_wait(c: CommandName) -> bool {
    match c {
        CommandName::Open
        | CommandName::Click
        | CommandName::Exec
        | CommandName::Scroll
        | CommandName::Back
        | CommandName::Forward
        | CommandName::Reload
        | CommandName::Keys
        | CommandName::Type
        | CommandName::Switch
        | CommandName::Hover
        | CommandName::Upload
        | CommandName::Select
        | CommandName::Fill
        | CommandName::Pipe
        | CommandName::TriggerFill
        | CommandName::TriggerPipe => true,
        _ => false,
    }
}

/// The commands that a trigger runs inside the daemon.
pub open spec fn in_process(c: CommandName) -> bool {
    c == CommandName::TriggerFill || c == CommandName::TriggerPipe
}

/// The metadata of the command with a given name; a name without a command
/// has no property.
pub open spec fn metadata_matches(name: Seq<char>, m: CommandMetadata) -> bool {
    &&& forall|c: CommandName|
        name == #[trigger] wire_name(c) ==> m.internal == internal(c) && m.supports_post_wait
            == post_wait(c) && m.in_process_only == in_process(c)
    &&& (forall|c: CommandName| name != #[trigger] wire_name(c)) ==> !m.internal
        && !m.supports_post_wait && !m.in_process_only
}

/// The metadata of the command with the given name.
pub fn command_metadata(command: &str) -> (r: CommandMetadata)
    ensures
        metadata_matches(command@, r),
{
    match CommandName::parse(command) {
        Some(c) => {
            proof {
                assert forall|d: CommandName| command@ == #[trigger] wire_name(d) implies d
                    == c by {
                    wire_name_injective(c, d);
                }
            }
            let is_internal = matches!(
                c,
                CommandName::Handshake
                | CommandName::UpgradeCheck
                | CommandName::BlockerDiagnose
                | CommandName::InteractabilityProbe
                | CommandName::FillValidate
                | CommandName::OrchestrationProbe
                | CommandName::OrchestrationTabFrames
                | CommandName::OrchestrationTargetDispatch
                | CommandName::OrchestrationWorkflowSourceVars
                | CommandName::TriggerFill
                | CommandName::TriggerPipe
            );
            let supports_post_wait = matches!(
                c,
                CommandName::Open
                | CommandName::Click
                | CommandName::Exec
                | CommandName::Scroll
                | CommandName::Back
                | CommandName::Forward
                | CommandName::Reload
                | CommandName::Keys
                | CommandName::Type
                | CommandName::Switch
                | CommandName::Hover
                | CommandName::Upload
                | CommandName::Select
                | CommandName::Fill
                | CommandName::Pipe
                | CommandName::TriggerFill
                | CommandName::TriggerPipe
            );
            let in_process_only = matches!(c, CommandName::TriggerFill | CommandName::TriggerPipe);
            CommandMetadata { internal: is_internal, supports_post_wait, in_process_only }
        },
        None => CommandMetadata {
            internal: false,
            supports_post_wait: false,
            in_process_only: false,
        },
    }
}

pub fn is_internal_command(command: &str) -> (r: bool)
    ensures
        r == exists|c: CommandName| command@ == #[trigger] wire_name(c) && internal(c),
{
    command_metadata(command).internal
}

pub fn is_in_process_only_command(command: &str) -> (r: bool)
    ensures
        r == exists|c: CommandName| command@ == #[trigger] wire_name(c) && in_process(c),
{
    command_metadata(command).in_process_only
}

pub fn command_supports_post_wait(command: &str) -> (r: bool)
    ensures
        r == exists|c: CommandName| command@ == #[trigger] wire_name(c) && post_wait(c),
{
    command_metadata(command).supports_post_wait
}

/// Whatever runs only inside the daemon's process is internal.
pub proof fn in_process_commands_are_internal(c: CommandName)
    ensures
        in_process(c) ==> internal(c),
{
}

/// The handler that answers a command.
#[derive(Clone, Copy, Debug, PartialEq, Eq, Structural)]
pub struct CommandRoute {
    pub command: CommandName,
    /// The handler itself says whether the page's document changed under it.
    pub reports_dom_commit: bool,
}

/// The commands that move between documents.
pub open spec fn moves_between_documents(c: CommandName) -> bool {
    match c {
        CommandName::Open
        | CommandName::Back
        | CommandName::Forward
        | CommandName::Reload
        | CommandName::Switch
        | CommandName::CloseTab => true,
        _ => false,
    }
}

/// Finds the handler of a command.
pub fn dispatch_named_command(command: &str) -> (r: Result<CommandRoute, RubError>)
    ensures
        match r {
            Ok(route) => {
                &&& command@ == wire_name(route.command)
                &&& route.command != CommandName::Secret
                &&& route.reports_dom_commit == moves_between_documents(route.command)
            },
            Err(e) => {
                ||| command@ == wire_name(CommandName::Secret) && e@ == error::plain(
                    ErrorCode::InvalidInput,
                    "Local-only command 'secret' cannot be projected through the daemon"@,
                )
                ||| (forall|c: CommandName| command@ != #[trigger] wire_name(c)) && e@
                    == error::plain(ErrorCode::InvalidInput, "Unknown command: "@ + command@)
            },
        },
{
    match CommandName::parse(command) {
        Some(CommandName::Secret) => Err(
            RubError::domain(
                ErrorCode::InvalidInput,
                "Local-only command 'secret' cannot be projected through the daemon",
            ),
        ),
        Some(c) => {
            let reports_dom_commit = matches!(
                c,
                CommandName::Open
                | CommandName::Back
                | CommandName::Forward
                | CommandName::Reload
                | CommandName::Switch
                | CommandName::CloseTab
            );
            Ok(CommandRoute { command: c, reports_dom_commit })
        },
        None => {
            let message = text::cat2("Unknown command: ", command);
            Err(RubError::domain(ErrorCode::InvalidInput, message.as_str()))
        },
    }
}

/// A command that moves the viewport or the page's form state within one
/// document: cached snapshots no longer show the page, though its epoch stays.
pub open spec fn stale_within_epoch(command: Seq<char>, args: JsonModel) -> bool {
    ||| command == "scroll"@
    ||| command == "fill"@
    ||| command == "extract"@ && json::member(args, "scan"@) is Some
    ||| command == "find"@ && json::member(args, "topmost"@) == Some(JsonModel::Bool(true))
}

/// Whether cached snapshots must go though the epoch stays.
pub fn command_invalidates_cached_snapshots_without_epoch_bump(command: &str, args: &Json) -> (r:
    bool)
    ensures
        r == stale_within_epoch(command@, args@),
{
    if text::str_eq(command, "scroll") || text::str_eq(command, "fill") {
        return true;
    }
    if text::str_eq(command, "extract") && args.get("scan").is_some() {
        return true;
    }
    if text::str_eq(command, "find") {
        if let Some(topmost) = args.get("topmost") {
            return matches!(topmost, Json::Bool(true));
        }
    }
    false
}

/// A failed command may have moved the viewport all the same, unless its
/// input was rejected.
pub open spec fn error_requires_fence(
    command: Seq<char>,
    args: JsonModel,
    e: ErrorModel,
) -> bool {
    stale_within_epoch(command, args) && !(e matches ErrorModel::Domain(envelope)
        && envelope.code == ErrorCode::InvalidInput)
}

/// Whether a failed command leaves cached snapshots stale.
pub fn same_epoch_viewport_error_requires_cache_fence(
    command: &str,
    args: &Json,
    error: &RubError,
) -> (r: bool)
    ensures
        r == error_requires_fence(command@, args@, error@),
{
    let rejected = match error {
        RubError::Domain(envelope) => matches!(envelope.code, ErrorCode::InvalidInput),
        RubError::Internal(_) => false,
    };
    command_invalidates_cached_snapshots_without_epoch_bump(command, args) && !rejected
}

/// What a failed viewport command may have done.
pub open spec fn viewport_side_effect(command: Seq<char>) -> JsonModel {
    JsonModel::Object(
        Map::<Seq<char>, JsonModel>::empty().insert("command"@, JsonModel::Text(command)).insert(
            "effect_commit_state"@,
            JsonModel::Text("possible_commit"@),
        ).insert("cache_fence"@, JsonModel::Text("snapshot_cache_cleared"@)).insert(
            "fallback_authority"@,
            JsonModel::Text("live_viewport_state"@),
        ).insert(
            "recovery_contract"@,
            JsonModel::Object(
                Map::<Seq<char>, JsonModel>::empty().insert(
                    "kind"@,
                    JsonModel::Text("viewport_side_effect_possible_commit"@),
                ).insert("fresh_snapshot_required"@, JsonModel::Bool(true)).insert(
                    "fresh_command_retry_safe"@,
                    JsonModel::Bool(false),
                ),
            ),
        ),
    )
}

/// The members of a context; what is not an object moves under one name.
pub open spec fn context_members(existing: Option<JsonModel>) -> Map<Seq<char>, JsonModel> {
    match existing {
        Some(JsonModel::Object(members)) => members,
        Some(other) => Map::<Seq<char>, JsonModel>::empty().insert("previous_context"@, other),
        None => Map::<Seq<char>, JsonModel>::empty(),
    }
}

fn context_object(existing: Option<Json>) -> (r: JsonObject)
    ensures
        r@ == context_members(error::opt_context(existing)),
{
    match existing {
        Some(Json::Object(members)) => members,
        Some(other) => JsonObject::new().with("previous_context", other),
        None => JsonObject::new(),
    }
}

fn viewport_side_effect_value(command: &str) -> (r: Json)
    ensures
        r@ == viewport_side_effect(command@),
{
    let contract = JsonObject::new().with(
        "kind",
        json::text_value("viewport_side_effect_possible_commit"),
    ).with("fresh_snapshot_required", Json::Bool(true)).with(
        "fresh_command_retry_safe",
        Json::Bool(false),
    );
    Json::Object(
        JsonObject::new().with("command", json::text_value(command)).with(
            "effect_commit_state",
            json::text_value("possible_commit"),
        ).with("cache_fence", json::text_value("snapshot_cache_cleared")).with(
            "fallback_authority",
            json::text_value("live_viewport_state"),
        ).with("recovery_contract", Json::Object(contract)),
    )
}

/// The context of a failed viewport command, with its possible side effect.
pub fn merge_same_epoch_viewport_side_effect_context(existing: Option<Json>, command: &str) -> (r:
    Option<Json>)
    ensures
        error::opt_context(r) == Some(
            JsonModel::Object(
                context_members(error::opt_context(existing)).insert(
                    "same_epoch_viewport_side_effect"@,
                    viewport_side_effect(command@),
                ),
            ),
        ),
{
    let object = context_object(existing).with(
        "same_epoch_viewport_side_effect",
        viewport_side_effect_value(command),
    );
    Some(Json::Object(object))
}

/// The error of a failed viewport command: the handler's own, saying also what
/// the command may have done.
pub open spec fn viewport_error(e: ErrorModel, command: Seq<char>) -> ErrorModel {
    let envelope = error::envelope_of(e);
    ErrorModel::Domain(
        EnvelopeModel {
            context: Some(
                JsonModel::Object(
                    context_members(envelope.context).insert(
                        "same_epoch_viewport_side_effect"@,
                        viewport_side_effect(command),
                    ),
                ),
            ),
            ..envelope
        },
    )
}

/// Says in a handler's error what the failed viewport command may have done.
pub fn same_epoch_viewport_side_effect_error(error: RubError, command: &str) -> (r: RubError)
    ensures
        r@ == viewport_error(error@, command@),
{
    let envelope = error.into_envelope();
    let context = merge_same_epoch_viewport_side_effect_context(envelope.context, command);
    RubError::Domain(
        ErrorEnvelope {
            code: envelope.code,
            message: envelope.message,
            suggestion: envelope.suggestion,
            context,
        },
    )
}

/// What is told of a command whose own effect was committed before the wait
/// after it failed.
pub open spec fn partial_commit(
    command: Seq<char>,
    committed: JsonModel,
    dom_epoch: Option<u64>,
) -> Map<Seq<char>, JsonModel> {
    Map::<Seq<char>, JsonModel>::empty().insert(
        "reason"@,
        JsonModel::Text("post_wait_failed_after_partial_commit"@),
    ).insert("command"@, JsonModel::Text(command)).insert(
        "dom_epoch"@,
        match dom_epoch {
            Some(n) => JsonModel::Number(json::NumberModel::Int(n as int)),
            None => JsonModel::Null,
        },
    ).insert("committed_response_projection"@, committed).insert(
        "partial_commit"@,
        json::object1(
            "recovery_contract"@,
            json::object1("kind"@, JsonModel::Text("partial_commit"@)),
        ),
    )
}

/// What is told of a command whose effect was committed before its wait failed.
pub fn post_wait_partial_commit_timeout_projection(
    command: &str,
    committed_projection: Json,
    dom_epoch: Option<u64>,
) -> (r: JsonObject)
    ensures
        r@ == partial_commit(command@, committed_projection@, dom_epoch),
{
    let epoch = match dom_epoch {
        Some(n) => json::uint_value(n),
        None => Json::Null,
    };
    let kind = JsonObject::new().with("kind", json::text_value("partial_commit"));
    let contract = JsonObject::new().with("recovery_contract", Json::Object(kind));
    JsonObject::new().with("reason", json::text_value("post_wait_failed_after_partial_commit")).with(
        "command",
        json::text_value(command),
    ).with("dom_epoch", epoch).with("committed_response_projection", committed_projection).with(
        "partial_commit",
        Json::Object(contract),
    )
}

/// A context with the members that tell of the partial commit; they win over
/// members of the same name.
pub fn merge_post_wait_partial_commit_context(
    base: Option<Json>,
    command: &str,
    committed_projection: Json,
    dom_epoch: Option<u64>,
) -> (r: Option<Json>)
    ensures
        error::opt_context(r) == Some(
            JsonModel::Object(
                context_members(error::opt_context(base)).union_prefer_right(
                    partial_commit(command@, committed_projection@, dom_epoch),
                ),
            ),
        ),
{
    let mut object = context_object(base);
    let extra = post_wait_partial_commit_timeout_projection(
        command,
        committed_projection,
        dom_epoch,
    );
    object.extend(&extra);
    Some(Json::Object(object))
}

/// The error of a wait that failed after its command was committed. Only an
/// error that a client can act on brings context of its own.
pub open spec fn post_wait_error(
    e: ErrorModel,
    command: Seq<char>,
    committed: JsonModel,
    dom_epoch: Option<u64>,
) -> ErrorModel {
    let envelope = error::envelope_of(e);
    ErrorModel::Domain(
        EnvelopeModel {
            context: Some(
                JsonModel::Object(
                    context_members(envelope.context).union_prefer_right(
                        partial_commit(command, committed, dom_epoch),
                    ),
                ),
            ),
            ..envelope
        },
    )
}

/// Says in the error of a failed wait that its command was committed.
pub fn post_wait_after_commit_error(
    error: RubError,
    command: &str,
    committed_projection: Json,
    dom_epoch: Option<u64>,
) -> (r: RubError)
    ensures
        r@ == post_wait_error(error@, command@, committed_projection@, dom_epoch),
{
    let envelope = error.into_envelope();
    let context = merge_post_wait_partial_commit_context(
        envelope.context,
        command,
        committed_projection,
        dom_epoch,
    );
    RubError::Domain(
        ErrorEnvelope {
            code: envelope.code,
            message: envelope.message,
            suggestion: envelope.suggestion,
            context,
        },
    )
}

/// What to do once a handler has failed.
#[derive(Debug)]
pub struct FailedDispatch {
    pub clear_snapshots: bool,
    pub error: RubError,
}

/// What to do once a handler has succeeded.
#[derive(Clone, Copy, Debug, PartialEq, Eq, Structural)]
pub struct CommittedDispatch {
    pub clear_snapshots: bool,
    pub record_partial_commit: bool,
}

/// After a handler failed: whether cached snapshots go, and what is answered.
pub fn after_failed_dispatch(command: &str, args: &Json, error: RubError) -> (r: FailedDispatch)
    ensures
        r.clear_snapshots == error_requires_fence(command@, args@, error@),
        r.error@ == (if r.clear_snapshots {
            viewport_error(error@, command@)
        } else {
            error@
        }),
{
    if same_epoch_viewport_error_requires_cache_fence(command, args, &error) {
        FailedDispatch {
            clear_snapshots: true,
            error: same_epoch_viewport_side_effect_error(error, command),
        }
    } else {
        FailedDispatch { clear_snapshots: false, error }
    }
}

/// After a handler succeeded: the snapshots go before the requested wait, and
/// the committed answer is kept for the case that the wait times out.
pub fn after_committed_dispatch(command: &str, args: &Json) -> (r: CommittedDispatch)
    ensures
        r.clear_snapshots == stale_within_epoch(command@, args@),
        r.record_partial_commit == (json::member(args@, "wait_after"@) is Some),
{
    CommittedDispatch {
        clear_snapshots: command_invalidates_cached_snapshots_without_epoch_bump(command, args),
        record_partial_commit: args.get("wait_after").is_some(),
    }
}

/// A failure never hides that the document was left with stale snapshots: what
/// a success would clear, a failure clears too, unless the input was rejected.
pub proof fn failure_fences_like_success(command: Seq<char>, args: JsonModel, e: ErrorModel)
    requires
        !(e matches ErrorModel::Domain(envelope) && envelope.code == ErrorCode::InvalidInput),
    ensures
        error_requires_fence(command, args, e) == stale_within_epoch(command, args),
{
}

/// Wrapping keeps the code, the message and the suggestion of an error.
pub proof fn wrapping_keeps_the_error(
    e: ErrorModel,
    command: Seq<char>,
    committed: JsonModel,
    dom_epoch: Option<u64>,
)
    ensures
        ({
            let before = error::envelope_of(e);
            let viewport = error::envelope_of(viewport_error(e, command));
            let waited = error::envelope_of(post_wait_error(e, command, committed, dom_epoch));
            &&& viewport.code == before.code && waited.code == before.code
            &&& viewport.message == before.message && waited.message == before.message
            &&& viewport.suggestion == before.suggestion && waited.suggestion
                == before.suggestion
        }),
{
}

/// The commands of the daemon's own tools are those whose name starts with an underscore,
/// and no client sends one by a plain name.
pub proof fn internal_commands_start_with_an_underscore(c: CommandName)
    ensures
        wire_name(c).len() > 0,
        internal(c) <==> wire_name(c)[0] == '_',
        in_process(c) <==> wire_name(c) == "_trigger_fill"@ || wire_name(c) == "_trigger_pipe"@,
{
    if wire_name(c) == "_trigger_fill"@ {
        wire_name_injective(c, CommandName::TriggerFill);
    }
    if wire_name(c) == "_trigger_pipe"@ {
        wire_name_injective(c, CommandName::TriggerPipe);
    }
    reveal_strlit("_handshake");
    reveal_strlit("_upgrade_check");
    reveal_strlit("_blocker_diagnose");
    reveal_strlit("_interactability_probe");
    reveal_strlit("_fill_validate");
    reveal_strlit("_orchestration_probe");
    reveal_strlit("_orchestration_tab_frames");
    reveal_strlit("_orchestration_target_dispatch");
    reveal_strlit("_orchestration_workflow_source_vars");
    reveal_strlit("_trigger_fill");
    reveal_strlit("_trigger_pipe");
    reveal_strlit("open");
    reveal_strlit("state");
    reveal_strlit("observe");
    reveal_strlit("orchestration");
    reveal_strlit("inspect");
    reveal_strlit("find");
    reveal_strlit("click");
    reveal_strlit("exec");
    reveal_strlit("scroll");
    reveal_strlit("back");
    reveal_strlit("forward");
    reveal_strlit("reload");
    reveal_strlit("screenshot");
    reveal_strlit("doctor");
    reveal_strlit("runtime");
    reveal_strlit("frames");
    reveal_strlit("frame");
    reveal_strlit("history");
    reveal_strlit("downloads");
    reveal_strlit("download");
    reveal_strlit("storage");
    reveal_strlit("handoff");
    reveal_strlit("takeover");
    reveal_strlit("dialog");
    reveal_strlit("intercept");
    reveal_strlit("interference");
    reveal_strlit("close");
    reveal_strlit("secret");
    reveal_strlit("keys");
    reveal_strlit("type");
    reveal_strlit("wait");
    reveal_strlit("tabs");
    reveal_strlit("trigger");
    reveal_strlit("switch");
    reveal_strlit("close_tab");
    reveal_strlit("get");
    reveal_strlit("hover");
    reveal_strlit("cookies");
    reveal_strlit("upload");
    reveal_strlit("select");
    reveal_strlit("fill");
    reveal_strlit("extract");
    reveal_strlit("pipe");
}

/// A client can wait after a command exactly where the command acts on the page: by going
/// to a document, by input, by script or by a batch of such steps. Commands that only look,
/// and those that end or arrange things, have nothing to wait for.
pub proof fn waits_follow_commands_that_act(c: CommandName)
    ensures
        moves_between_documents(c) && c != CommandName::CloseTab ==> post_wait(c),
        in_process(c) ==> post_wait(c),
        internal(c) && !in_process(c) ==> !post_wait(c),
        c == CommandName::Click || c == CommandName::Keys || c == CommandName::Type || c
            == CommandName::Hover || c == CommandName::Upload || c == CommandName::Select || c
            == CommandName::Fill || c == CommandName::Scroll || c == CommandName::Exec || c
            == CommandName::Pipe ==> post_wait(c),
        post_wait(c) ==> moves_between_documents(c) || in_process(c) || c == CommandName::Click || c
            == CommandName::Keys || c == CommandName::Type || c == CommandName::Hover || c
            == CommandName::Upload || c == CommandName::Select || c == CommandName::Fill || c
            == CommandName::Scroll || c == CommandName::Exec || c == CommandName::Pipe,
        moves_between_documents(c) <==> c == CommandName::Open || c == CommandName::Back || c
            == CommandName::Forward || c == CommandName::Reload || c == CommandName::Switch || c
            == CommandName::CloseTab,
{
}

/// Cached snapshots go after scrolling and filling always, after an extraction only where
/// it scans, after a search only where it asks for what lies on top, and after no other
/// command.
pub proof fn snapshots_go_stale_where_the_view_moves(command: Seq<char>, args: JsonModel)
    ensures
        command == "scroll"@ || command == "fill"@ ==> stale_within_epoch(command, args),
        command == "extract"@ ==> (stale_within_epoch(command, args) <==> json::member(
            args,
            "scan"@,
        ) is Some),
        command == "find"@ ==> (stale_within_epoch(command, args) <==> json::member(
            args,
            "topmost"@,
        ) == Some(JsonModel::Bool(true))),
        command != "scroll"@ && command != "fill"@ && command != "extract"@ && command != "find"@
            ==> !stale_within_epoch(command, args),
{
    reveal_strlit("scroll");
    reveal_strlit("fill");
    reveal_strlit("extract");
    reveal_strlit("find");
    assert("scroll"@.len() != "fill"@.len());
    assert("scroll"@.len() != "extract"@.len());
    assert("scroll"@.len() != "find"@.len());
    assert("fill"@.len() != "extract"@.len());
    assert("fill"@[2] != "find"@[2]);
    assert("extract"@.len() != "find"@.len());
}

/// A failure whose input was rejected leaves the snapshots; any other failure of a command
/// that moves the view lets them go.
pub proof fn rejected_input_moves_nothing(command: Seq<char>, args: JsonModel, e: ErrorModel)
    ensures
        error::envelope_of(e).code == ErrorCode::InvalidInput ==> !error_requires_fence(
            command,
            args,
            e,
        ),
        error::envelope_of(e).code != ErrorCode::InvalidInput ==> (error_requires_fence(
            command,
            args,
            e,
        ) <==> stale_within_epoch(command, args)),
{
}

/// What a failed command may have done is told beside what its error says already: each
/// other member of the context stays, and a context that is no object is kept under a name
/// of its own.
pub proof fn side_effects_are_told_beside_the_context(
    e: ErrorModel,
    command: Seq<char>,
    key: Seq<char>,
)
    ensures
        ({
            let before = error::envelope_of(e).context;
            let after = error::envelope_of(viewport_error(e, command)).context;
            &&& after is Some
            &&& json::member(after->0, "same_epoch_viewport_side_effect"@) == Some(
                viewport_side_effect(command),
            )
            &&& key != "same_epoch_viewport_side_effect"@ ==> {
                &&& before matches Some(JsonModel::Object(m)) ==> json::member(after->0, key)
                    == json::member(JsonModel::Object(m), key)
                &&& before is None ==> json::member(after->0, key) is None
                &&& before matches Some(other) ==> (!(other is Object) ==> json::member(
                    after->0,
                    key,
                ) == if key == "previous_context"@ {
                    Some(other)
                } else {
                    None
                })
            }
        }),
{
    reveal_strlit("same_epoch_viewport_side_effect");
    reveal_strlit("previous_context");
    assert("same_epoch_viewport_side_effect"@.len() != "previous_context"@.len());
}

/// What a failed command may have done is told with the command, with the need for a fresh
/// snapshot, and as not safe to try again.
pub proof fn side_effects_are_not_safe_to_repeat(command: Seq<char>)
    ensures
        ({
            let r = viewport_side_effect(command);
            &&& json::member(r, "command"@) == Some(JsonModel::Text(command))
            &&& json::member(r, "recovery_contract"@) matches Some(contract)
            &&& json::member(contract, "fresh_snapshot_required"@) == Some(JsonModel::Bool(true))
            &&& json::member(contract, "fresh_command_retry_safe"@) == Some(JsonModel::Bool(false))
        }),
{
    reveal_strlit("command");
    reveal_strlit("effect_commit_state");
    reveal_strlit("cache_fence");
    reveal_strlit("fallback_authority");
    reveal_strlit("recovery_contract");
    assert("command"@.len() != "effect_commit_state"@.len());
    assert("command"@.len() != "cache_fence"@.len());
    assert("command"@.len() != "fallback_authority"@.len());
    assert("command"@.len() != "recovery_contract"@.len());
    assert("effect_commit_state"@.len() != "cache_fence"@.len());
    assert("effect_commit_state"@.len() != "fallback_authority"@.len());
    assert("effect_commit_state"@.len() != "recovery_contract"@.len());
    assert("cache_fence"@.len() != "fallback_authority"@.len());
    assert("cache_fence"@.len() != "recovery_contract"@.len());
    assert("fallback_authority"@.len() != "recovery_contract"@.len());
    reveal_strlit("kind");
    reveal_strlit("fresh_snapshot_required");
    reveal_strlit("fresh_command_retry_safe");
    assert("kind"@.len() != "fresh_snapshot_required"@.len());
    assert("kind"@.len() != "fresh_command_retry_safe"@.len());
    assert("fresh_snapshot_required"@.len() != "fresh_command_retry_safe"@.len());
}

/// The error of a wait after a command tells what the command had done, and keeps every
/// member of its own context under another name.
pub proof fn partial_commits_are_told_beside_the_context(
    e: ErrorModel,
    command: Seq<char>,
    committed: JsonModel,
    dom_epoch: Option<u64>,
    key: Seq<char>,
)
    ensures
        ({
            let before = error::envelope_of(e).context;
            let after = error::envelope_of(
                post_wait_error(e, command, committed, dom_epoch),
            ).context;
            &&& after is Some
            &&& json::member(after->0, "reason"@) == Some(
                JsonModel::Text("post_wait_failed_after_partial_commit"@),
            )
            &&& json::member(after->0, "command"@) == Some(JsonModel::Text(command))
            &&& json::member(after->0, "committed_response_projection"@) == Some(committed)
            &&& json::member(after->0, "dom_epoch"@) == Some(
                match dom_epoch {
                    Some(n) => json::number(n as int),
                    None => JsonModel::Null,
                },
            )
            &&& key != "reason"@ && key != "command"@ && key != "dom_epoch"@ && key
                != "committed_response_projection"@ && key != "partial_commit"@ ==> (before matches
                Some(JsonModel::Object(m)) ==> json::member(after->0, key) == json::member(
                JsonModel::Object(m),
                key,
            ))
        }),
{
    reveal_strlit("reason");
    reveal_strlit("command");
    reveal_strlit("dom_epoch");
    reveal_strlit("committed_response_projection");
    reveal_strlit("partial_commit");
    assert("reason"@.len() != "command"@.len());
    assert("reason"@.len() != "dom_epoch"@.len());
    assert("reason"@.len() != "committed_response_projection"@.len());
    assert("reason"@.len() != "partial_commit"@.len());
    assert("command"@.len() != "dom_epoch"@.len());
    assert("command"@.len() != "committed_response_projection"@.len());
    assert("command"@.len() != "partial_commit"@.len());
    assert("dom_epoch"@.len() != "committed_response_projection"@.len());
    assert("dom_epoch"@.len() != "partial_commit"@.len());
    assert("committed_response_projection"@.len() != "partial_commit"@.len());
}

/// A context keeps its members; what is no object is kept as what was there before.
pub proof fn contexts_keep_what_they_held(existing: JsonModel, key: Seq<char>)
    ensures
        existing is Object ==> json::member(
            JsonModel::Object(context_members(Some(existing))),
            key,
        ) == json::member(existing, key),
        !(existing is Object) ==> json::member(
            JsonModel::Object(context_members(Some(existing))),
            "previous_context"@,
        ) == Some(existing),
        json::member(JsonModel::Object(context_members(None)), key) is None,
{
}

/// A command is routed exactly where it goes by a name that is not local to the client, and
/// to the command of that name.
pub proof fn commands_are_routed_by_their_names(
    command: &str,
    c: CommandName,
    r: Result<CommandRoute, RubError>,
)
    requires
        call_ensures(dispatch_named_command, (command,), r),
    ensures
        r matches Ok(route) ==> wire_name(route.command) == command@,
        command@ == wire_name(c) && c != CommandName::Secret ==> r is Ok,
        command@ == wire_name(CommandName::Secret) ==> r is Err,
        (forall|d: CommandName| command@ != #[trigger] wire_name(d)) ==> r is Err,
{
    if command@ == wire_name(c) {
        if c != CommandName::Secret && command@ == wire_name(CommandName::Secret) {
            wire_name_injective(c, CommandName::Secret);
        }
    }
    if let Ok(route) = r {
        if command@ == wire_name(CommandName::Secret) {
            wire_name_injective(route.command, CommandName::Secret);
        }
    }
}

/// What a dispatched command did is told with its error exactly where its snapshots are
/// dropped, and a command that waits afterwards is recorded.
pub proof fn dispatches_drop_snapshots_where_they_moved(
    command: &str,
    args: Json,
    e: RubError,
    failed: FailedDispatch,
    committed: CommittedDispatch,
)
    requires
        call_ensures(after_failed_dispatch, (command, &args, e), failed),
        call_ensures(after_committed_dispatch, (command, &args), committed),
    ensures
        !failed.clear_snapshots ==> failed.error@ == e@,
        failed.clear_snapshots ==> committed.clear_snapshots,
        committed.record_partial_commit <==> json::member(args@, "wait_after"@) is Some,
        error::envelope_of(failed.error@).code == error::envelope_of(e@).code,
{
    if !(e@ matches ErrorModel::Domain(x) && x.code == ErrorCode::InvalidInput) {
        failure_fences_like_success(command@, args@, e@);
    }
}

/// Each command goes by its own name.
pub proof fn commands_go_by_their_names(x: CommandName)
    ensures
        x == CommandName::Handshake ==> wire_name(x) == "_handshake"@,
        x == CommandName::UpgradeCheck ==> wire_name(x) == "_upgrade_check"@,
        x == CommandName::BlockerDiagnose ==> wire_name(x) == "_blocker_diagnose"@,
        x == CommandName::InteractabilityProbe ==> wire_name(x) == "_interactability_probe"@,
        x == CommandName::FillValidate ==> wire_name(x) == "_fill_validate"@,
        x == CommandName::OrchestrationProbe ==> wire_name(x) == "_orchestration_probe"@,
        x == CommandName::OrchestrationTabFrames ==> wire_name(x) == "_orchestration_tab_frames"@,
        x == CommandName::OrchestrationTargetDispatch ==> wire_name(x) == "_orchestration_target_dispatch"@,
        x == CommandName::OrchestrationWorkflowSourceVars ==> wire_name(x) == "_orchestration_workflow_source_vars"@,
        x == CommandName::TriggerFill ==> wire_name(x) == "_trigger_fill"@,
        x == CommandName::TriggerPipe ==> wire_name(x) == "_trigger_pipe"@,
        x == CommandName::Open ==> wire_name(x) == "open"@,
        x == CommandName::State ==> wire_name(x) == "state"@,
        x == CommandName::Observe ==> wire_name(x) == "observe"@,
        x == CommandName::Orchestration ==> wire_name(x) == "orchestration"@,
        x == CommandName::Inspect ==> wire_name(x) == "inspect"@,
        x == CommandName::Find ==> wire_name(x) == "find"@,
        x == CommandName::Click ==> wire_name(x) == "click"@,
        x == CommandName::Exec ==> wire_name(x) == "exec"@,
        x == CommandName::Scroll ==> wire_name(x) == "scroll"@,
        x == CommandName::Back ==> wire_name(x) == "back"@,
        x == CommandName::Forward ==> wire_name(x) == "forward"@,
        x == CommandName::Reload ==> wire_name(x) == "reload"@,
        x == CommandName::Screenshot ==> wire_name(x) == "screenshot"@,
        x == CommandName::Doctor ==> wire_name(x) == "doctor"@,
        x == CommandName::Runtime ==> wire_name(x) == "runtime"@,
        x == CommandName::Frames ==> wire_name(x) == "frames"@,
        x == CommandName::Frame ==> wire_name(x) == "frame"@,
        x == CommandName::History ==> wire_name(x) == "history"@,
        x == CommandName::Downloads ==> wire_name(x) == "downloads"@,
        x == CommandName::Download ==> wire_name(x) == "download"@,
        x == CommandName::Storage ==> wire_name(x) == "storage"@,
        x == CommandName::Handoff ==> wire_name(x) == "handoff"@,
        x == CommandName::Takeover ==> wire_name(x) == "takeover"@,
        x == CommandName::Dialog ==> wire_name(x) == "dialog"@,
        x == CommandName::Intercept ==> wire_name(x) == "intercept"@,
        x == CommandName::Interference ==> wire_name(x) == "interference"@,
        x == CommandName::Close ==> wire_name(x) == "close"@,
        x == CommandName::Secret ==> wire_name(x) == "secret"@,
        x == CommandName::Keys ==> wire_name(x) == "keys"@,
        x == CommandName::Type ==> wire_name(x) == "type"@,
        x == CommandName::Wait ==> wire_name(x) == "wait"@,
        x == CommandName::Tabs ==> wire_name(x) == "tabs"@,
        x == CommandName::Trigger ==> wire_name(x) == "trigger"@,
        x == CommandName::Switch ==> wire_name(x) == "switch"@,
        x == CommandName::CloseTab ==> wire_name(x) == "close_tab"@,
        x == CommandName::Get ==> wire_name(x) == "get"@,
        x == CommandName::Hover ==> wire_name(x) == "hover"@,
        x == CommandName::Cookies ==> wire_name(x) == "cookies"@,
        x == CommandName::Upload ==> wire_name(x) == "upload"@,
        x == CommandName::Select ==> wire_name(x) == "select"@,
        x == CommandName::Fill ==> wire_name(x) == "fill"@,
        x == CommandName::Extract ==> wire_name(x) == "extract"@,
        x == CommandName::Pipe ==> wire_name(x) == "pipe"@,
{
}

} // verus!
