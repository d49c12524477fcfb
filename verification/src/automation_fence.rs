//! Whether the answer of an automation step shows that its effect took hold.

use vstd::prelude::*;
use crate::error::{EnvelopeModel, ErrorCode, ErrorEnvelope};
use crate::json::{self, Json, JsonModel, JsonObject};
use crate::text;

verus! {

/// The wait after the step saw its condition come true.
pub open spec fn wait_matched(data: JsonModel) -> bool {
    match json::member(data, "wait_after"@) {
        Some(wait) => json::member(wait, "matched"@) == Some(JsonModel::Bool(true)),
        None => false,
    }
}

/// The status of the step's interaction, where it reports one.
pub open spec fn confirmation_status(data: JsonModel) -> Option<Seq<char>> {
    match json::member(data, "interaction"@) {
        Some(interaction) => json::text_member(interaction, "confirmation_status"@),
        None => None,
    }
}

/// The step is committed: it reports no interaction status, or a confirmed one,
/// or the wait after it saw its condition.
pub open spec fn committed(data: Option<JsonModel>) -> bool {
    match data {
        Some(data) => match confirmation_status(data) {
            Some(status) => status == "confirmed"@ || wait_matched(data),
            None => true,
        },
        None => true,
    }
}

pub open spec fn or_null(o: Option<JsonModel>) -> JsonModel {
    match o {
        Some(j) => j,
        None => JsonModel::Null,
    }
}

/// The error for a step that is not committed.
pub open spec fn not_committed(command: Seq<char>, data: JsonModel) -> EnvelopeModel {
    let interaction = json::member(data, "interaction"@)->0;
    EnvelopeModel {
        code: ErrorCode::WaitTimeout,
        message: "Automation step '"@ + command
            + "' did not reach a committed interaction confirmation fence"@,
        suggestion: Seq::empty(),
        context: Some(
            JsonModel::Object(
                Map::<Seq<char>, JsonModel>::empty().insert(
                    "reason"@,
                    JsonModel::Text("automation_interaction_confirmation_not_committed"@),
                ).insert("command"@, JsonModel::Text(command)).insert(
                    "confirmation_status"@,
                    json::opt_text_model(confirmation_status(data)),
                ).insert(
                    "confirmation_kind"@,
                    json::opt_text_model(json::text_member(interaction, "confirmation_kind"@)),
                ).insert(
                    "confirmation_details"@,
                    or_null(json::member(interaction, "confirmation_details"@)),
                ),
            ),
        ),
    }
}

fn wait_after_matched(data: &Json) -> (r: bool)
    ensures
        r == wait_matched(data@),
{
    match data.get("wait_after") {
        Some(wait) => match wait.get("matched") {
            Some(matched) => matches!(matched, Json::Bool(true)),
            None => false,
        },
        None => false,
    }
}

fn str_or_null(o: Option<&str>) -> (r: Json)
    ensures
        r@ == json::opt_text_model(json::opt_str_text(o)),
{
    match o {
        Some(s) => json::text_value(s),
        None => Json::Null,
    }
}

/// Whether an automation step is committed.
pub fn ensure_committed_automation_result(command: &str, data: Option<&Json>) -> (r: Result<
    (),
    ErrorEnvelope,
>)
    ensures
        r is Ok <==> committed(json::opt_model(data)),
        r matches Err(e) ==> e@ == not_committed(command@, data->0@),
{
    let data = match data {
        Some(data) => data,
        None => {
            return Ok(());
        },
    };
    let interaction = match data.get("interaction") {
        Some(interaction) => interaction,
        None => {
            return Ok(());
        },
    };
    let status = match interaction.get_str("confirmation_status") {
        Some(status) => status,
        None => {
            return Ok(());
        },
    };
    if text::str_eq(status, "confirmed") || wait_after_matched(data) {
        return Ok(());
    }
    let details = match interaction.get("confirmation_details") {
        Some(details) => details.clone(),
        None => Json::Null,
    };
    let context = JsonObject::new().with(
        "reason",
        json::text_value("automation_interaction_confirmation_not_committed"),
    ).with("command", json::text_value(command)).with(
        "confirmation_status",
        json::text_value(status),
    ).with("confirmation_kind", str_or_null(interaction.get_str("confirmation_kind"))).with(
        "confirmation_details",
        details,
    );
    Err(
        ErrorEnvelope {
            code: ErrorCode::WaitTimeout,
            message: text::cat3(
                "Automation step '",
                command,
                "' did not reach a committed interaction confirmation fence",
            ),
            suggestion: String::new(),
            context: Some(Json::Object(context)),
        },
    )
}

/// A step is committed where it reports no status of its interaction; where it reports one,
/// exactly where that is confirmed or the wait after it saw its condition.
pub proof fn steps_commit_by_status_or_wait(data: JsonModel)
    ensures
        committed(None),
        ({
            let status = match json::member(data, "interaction"@) {
                Some(interaction) => json::member(interaction, "confirmation_status"@),
                None => None,
            };
            let waited = json::member(data, "wait_after"@) matches Some(wait) && json::member(
                wait,
                "matched"@,
            ) == Some(JsonModel::Bool(true));
            &&& !(status matches Some(JsonModel::Text(_))) ==> committed(Some(data))
            &&& status matches Some(JsonModel::Text(s)) ==> (committed(Some(data)) <==> s
                == "confirmed"@ || waited)
        }),
{
}

/// The error for a step that is not committed names the command and the status that it
/// ended with.
pub proof fn uncommitted_steps_say_their_status(command: Seq<char>, data: JsonModel)
    requires
        !committed(Some(data)),
    ensures
        ({
            let e = not_committed(command, data);
            &&& e.code == ErrorCode::WaitTimeout
            &&& e.context matches Some(context)
            &&& json::member(context, "command"@) == Some(JsonModel::Text(command))
            &&& json::member(context, "confirmation_status"@) == Some(
                JsonModel::Text(confirmation_status(data)->0),
            )
        }),
{
    reveal_strlit("reason");
    reveal_strlit("command");
    reveal_strlit("confirmation_status");
    reveal_strlit("confirmation_kind");
    reveal_strlit("confirmation_details");
    assert("reason"@.len() != "command"@.len());
    assert("reason"@.len() != "confirmation_status"@.len());
    assert("reason"@.len() != "confirmation_kind"@.len());
    assert("reason"@.len() != "confirmation_details"@.len());
    assert("command"@.len() != "confirmation_status"@.len());
    assert("command"@.len() != "confirmation_kind"@.len());
    assert("command"@.len() != "confirmation_details"@.len());
    assert("confirmation_status"@.len() != "confirmation_kind"@.len());
    assert("confirmation_status"@.len() != "confirmation_details"@.len());
    assert("confirmation_kind"@.len() != "confirmation_details"@.len());
}

/// A wait has matched exactly where the step says so.
pub proof fn waits_match_where_the_step_says_so(data: JsonModel, wait: JsonModel)
    ensures
        json::member(data, "wait_after"@) == Some(wait) ==> (wait_matched(data) <==> json::member(
            wait,
            "matched"@,
        ) == Some(JsonModel::Bool(true))),
        json::member(data, "wait_after"@) is None ==> !wait_matched(data),
        or_null(Some(data)) == data,
        or_null(None) == JsonModel::Null,
{
}

} // verus!
