//! The history of a session.

pub mod export;
pub mod projection;

use vstd::prelude::*;
use crate::error::{self, ErrorCode, ErrorModel, RubError};
use crate::json::{self, Json, JsonModel, JsonObject};
use crate::locator;
use self::projection::{
    CommandHistoryProjection,
    command_history_projection_state_json,
    command_history_retention_window_json,
    history_subject,
};

verus! {

/// In what form a client wants the history.
#[derive(Clone, Copy, Debug, PartialEq, Eq, Structural)]
pub enum HistoryFormat {
    List,
    Pipe,
    Script,
}

/// A request for the history.
#[derive(Clone, Copy, Debug, PartialEq, Eq, Structural)]
pub struct HistoryRequest {
    pub last: u64,
    pub from: Option<u64>,
    pub to: Option<u64>,
    pub include_observation: bool,
    pub format: HistoryFormat,
}

/// What a request for the history asks, or why it is refused.
pub open spec fn requested(args: JsonModel) -> Result<HistoryRequest, ErrorModel> {
    let pipe = locator::flag_member(args, "export_pipe"@);
    let script = locator::flag_member(args, "export_script"@);
    let from = json::uint_member(args, "from"@);
    let to = json::uint_member(args, "to"@);
    if pipe && script {
        Err(
            error::plain(
                ErrorCode::InvalidInput,
                "history export requires exactly one format: --export-pipe or --export-script"@,
            ),
        )
    } else if from is Some && to is Some && from->0 > to->0 {
        Err(error::plain(ErrorCode::InvalidInput, "--from cannot be greater than --to"@))
    } else {
        Ok(
            HistoryRequest {
                last: match json::uint_member(args, "last"@) {
                    Some(n) => n,
                    None => 10,
                },
                from,
                to,
                include_observation: locator::flag_member(args, "include_observation"@),
                format: if pipe {
                    HistoryFormat::Pipe
                } else if script {
                    HistoryFormat::Script
                } else {
                    HistoryFormat::List
                },
            },
        )
    }
}

pub open spec fn request_result(r: Result<HistoryRequest, RubError>) -> Result<
    HistoryRequest,
    ErrorModel,
> {
    match r {
        Ok(request) => Ok(request),
        Err(e) => Err(e@),
    }
}

/// Reads a request for the history.
pub fn parse_history_request(args: &Json) -> (r: Result<HistoryRequest, RubError>)
    ensures
        request_result(r) == requested(args@),
{
    let last = match args.get_uint("last") {
        Some(n) => n,
        None => 10,
    };
    let pipe = locator::get_flag(args, "export_pipe");
    let script = locator::get_flag(args, "export_script");
    let from = args.get_uint("from");
    let to = args.get_uint("to");
    let include_observation = locator::get_flag(args, "include_observation");
    if pipe && script {
        return Err(
            RubError::domain(
                ErrorCode::InvalidInput,
                "history export requires exactly one format: --export-pipe or --export-script",
            ),
        );
    }
    if let (Some(first), Some(end)) = (from, to) {
        if first > end {
            return Err(
                RubError::domain(ErrorCode::InvalidInput, "--from cannot be greater than --to"),
            );
        }
    }
    let format = if pipe {
        HistoryFormat::Pipe
    } else if script {
        HistoryFormat::Script
    } else {
        HistoryFormat::List
    };
    Ok(HistoryRequest { last, from, to, include_observation, format })
}

impl HistoryRequest {
    /// Whether a range was asked for, in place of the last commands.
    pub fn wants_range(&self) -> (r: bool)
        ensures
            r == (self.from is Some || self.to is Some),
    {
        self.from.is_some() || self.to.is_some()
    }
}

/// The answer with the history as a list.
pub open spec fn list_json(request: HistoryRequest, p: CommandHistoryProjection) -> JsonModel {
    JsonModel::Object(
        Map::<Seq<char>, JsonModel>::empty().insert(
            "subject"@,
            projection::subject_json(request.last, request.from, request.to),
        ).insert(
            "result"@,
            JsonModel::Object(
                Map::<Seq<char>, JsonModel>::empty().insert(
                    "items"@,
                    JsonModel::Array(json::items_model(p.entries@)),
                ).insert(
                    "projection_state"@,
                    JsonModel::Object(
                        projection::state_members(
                            "command_history"@,
                            "session.history"@,
                            projection::history_losses(request.last, request.from, request.to, p),
                        ),
                    ),
                ).insert("retention_window"@, projection::retention_json(p)).insert(
                    "dropped_before_projection"@,
                    json::number(p.dropped_before_projection as int),
                ),
            ),
        ),
    )
}

/// Answers with the history as a list.
pub fn cmd_history(request: &HistoryRequest, projection: CommandHistoryProjection) -> (r: Json)
    ensures
        r@ == list_json(*request, projection),
{
    let state = command_history_projection_state_json(
        request.last,
        request.from,
        request.to,
        &projection,
    );
    let window = command_history_retention_window_json(&projection);
    let dropped: u64 = projection.dropped_before_projection;
    let items = Json::Array(projection.entries);
    let result = JsonObject::new().with("items", items).with("projection_state", state).with(
        "retention_window",
        window,
    ).with("dropped_before_projection", json::uint_value(dropped));
    Json::Object(
        JsonObject::new().with(
            "subject",
            history_subject(request.last, request.from, request.to),
        ).with("result", Json::Object(result)),
    )
}

/// A request for the history is refused exactly where it asks for two exports, or for a
/// range that ends before it starts; else it asks for what its members say, and for the
/// last ten commands where it does not say how many.
pub proof fn history_requests_ask_what_they_say(args: JsonModel)
    ensures
        ({
            let flag = |key: Seq<char>| json::member(args, key) == Some(JsonModel::Bool(true));
            let number = |key: Seq<char>| json::uint_member(args, key);
            let both = flag("export_pipe"@) && flag("export_script"@);
            let backwards = number("from"@) matches Some(a) && (number("to"@) matches Some(b) && b
                < a);
            let r = requested(args);
            &&& r is Err <==> both || backwards
            &&& r matches Err(ErrorModel::Domain(e)) ==> e.code == ErrorCode::InvalidInput
            &&& r matches Ok(q) ==> {
                &&& number("last"@) is None ==> q.last == 10
                &&& number("last"@) matches Some(n) ==> q.last == n
                &&& q.from == number("from"@) && q.to == number("to"@)
                &&& q.include_observation <==> flag("include_observation"@)
                &&& q.format == HistoryFormat::Pipe <==> flag("export_pipe"@)
                &&& q.format == HistoryFormat::Script <==> flag("export_script"@)
            }
        }),
{
}

/// A list of the history holds the commands that are remembered, in their order, and counts
/// those that were never recorded.
pub proof fn lists_hold_the_remembered_commands(
    request: HistoryRequest,
    p: CommandHistoryProjection,
)
    ensures
        ({
            let r = list_json(request, p);
            &&& json::member(r, "result"@) matches Some(result)
            &&& json::member(result, "items"@) == Some(
                JsonModel::Array(json::items_model(p.entries@)),
            )
            &&& json::member(result, "dropped_before_projection"@) == Some(
                json::number(p.dropped_before_projection as int),
            )
            &&& json::member(result, "retention_window"@) == Some(projection::retention_json(p))
            &&& json::member(r, "subject"@) == Some(
                projection::subject_json(request.last, request.from, request.to),
            )
        }),
{
    reveal_strlit("subject");
    reveal_strlit("result");
    assert("subject"@.len() != "result"@.len());
    reveal_strlit("items");
    reveal_strlit("projection_state");
    reveal_strlit("retention_window");
    reveal_strlit("dropped_before_projection");
    assert("items"@.len() != "projection_state"@.len());
    assert("items"@.len() != "retention_window"@.len());
    assert("items"@.len() != "dropped_before_projection"@.len());
    assert("projection_state"@[0] != "retention_window"@[0]);
    assert("projection_state"@.len() != "dropped_before_projection"@.len());
    assert("retention_window"@.len() != "dropped_before_projection"@.len());
}

} // verus!
