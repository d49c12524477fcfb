//! Requests about what interferes with automation.

use vstd::prelude::*;
use crate::error::{self, ErrorCode, RubError};
use crate::json::{self, Json, JsonModel, JsonObject};
use crate::model::InterferenceMode;
use crate::text;

verus! {

/// What an interference request asks for.
#[derive(Clone, Copy, Debug, PartialEq, Eq, Structural)]
pub enum InterferenceCommand {
    Mode(InterferenceMode),
    Recover,
    Status,
}

pub open spec fn mode_name(mode: InterferenceMode) -> Seq<char> {
    match mode {
        InterferenceMode::Normal => "normal"@,
        InterferenceMode::PublicWebStable => "public_web_stable"@,
        InterferenceMode::Strict => "strict"@,
    }
}

pub fn mode_str(mode: InterferenceMode) -> (r: &'static str)
    ensures
        r@ == mode_name(mode),
{
    match mode {
        InterferenceMode::Normal => "normal",
        InterferenceMode::PublicWebStable => "public_web_stable",
        InterferenceMode::Strict => "strict",
    }
}

/// Two modes never share a name.
pub proof fn mode_name_injective(a: InterferenceMode, b: InterferenceMode)
    requires
        mode_name(a) == mode_name(b),
    ensures
        a == b,
{
    reveal_strlit("normal");
    reveal_strlit("public_web_stable");
    reveal_strlit("strict");
    assert("normal"@[0] != "strict"@[0]);
}

/// What reading a mode gives.
pub open spec fn mode_outcome(
    raw: Option<Seq<char>>,
    r: Result<InterferenceMode, RubError>,
) -> bool {
    match raw {
        Some(name) => match r {
            Ok(mode) => name == mode_name(mode),
            Err(e) => (forall|m: InterferenceMode| name != #[trigger] mode_name(m)) && e@
                == error::plain(
                ErrorCode::InvalidInput,
                "Unknown interference mode: '"@ + name + "'"@,
            ),
        },
        None => error::err_model(r) == Some(
            error::plain(
                ErrorCode::InvalidInput,
                "Interference mode update requires a 'mode' argument"@,
            ),
        ),
    }
}

pub fn parse_interference_mode(raw: Option<&str>) -> (r: Result<InterferenceMode, RubError>)
    ensures
        mode_outcome(json::opt_str_text(raw), r),
{
    match raw {
        Some(name) => if text::str_eq(name, "normal") {
            Ok(InterferenceMode::Normal)
        } else if text::str_eq(name, "public_web_stable") {
            Ok(InterferenceMode::PublicWebStable)
        } else if text::str_eq(name, "strict") {
            Ok(InterferenceMode::Strict)
        } else {
            let message = text::cat3("Unknown interference mode: '", name, "'");
            Err(RubError::domain(ErrorCode::InvalidInput, message.as_str()))
        },
        None => Err(
            RubError::domain(
                ErrorCode::InvalidInput,
                "Interference mode update requires a 'mode' argument",
            ),
        ),
    }
}

/// The subcommand of a request; without one it recovers.
pub open spec fn subcommand(args: JsonModel) -> Seq<char> {
    match json::text_member(args, "sub"@) {
        Some(s) => s,
        None => "recover"@,
    }
}

/// Reads what an interference request asks for.
pub fn parse_interference_command(args: &Json) -> (r: Result<InterferenceCommand, RubError>)
    ensures
        ({
            let sub = subcommand(args@);
            if sub == "mode"@ {
                match r {
                    Ok(command) => command matches InterferenceCommand::Mode(mode) && mode_outcome(
                        json::text_member(args@, "mode"@),
                        Ok(mode),
                    ),
                    Err(e) => mode_outcome(json::text_member(args@, "mode"@), Err(e)),
                }
            } else if sub == "recover"@ {
                r == Ok::<InterferenceCommand, RubError>(InterferenceCommand::Recover)
            } else if sub == "status"@ {
                r == Ok::<InterferenceCommand, RubError>(InterferenceCommand::Status)
            } else {
                error::err_model(r) == Some(
                    error::plain(
                        ErrorCode::InvalidInput,
                        "Unknown interference subcommand: '"@ + sub + "'"@,
                    ),
                )
            }
        }),
{
    let sub = match args.get_str("sub") {
        Some(s) => s,
        None => "recover",
    };
    if text::str_eq(sub, "mode") {
        return match parse_interference_mode(args.get_str("mode")) {
            Ok(mode) => Ok(InterferenceCommand::Mode(mode)),
            Err(e) => Err(e),
        };
    }
    if text::str_eq(sub, "recover") {
        return Ok(InterferenceCommand::Recover);
    }
    if text::str_eq(sub, "status") {
        return Ok(InterferenceCommand::Status);
    }
    let message = text::cat3("Unknown interference subcommand: '", sub, "'");
    Err(RubError::domain(ErrorCode::InvalidInput, message.as_str()))
}

/// The subject of an answer.
pub open spec fn subject_of(command: InterferenceCommand) -> JsonModel {
    let empty = Map::<Seq<char>, JsonModel>::empty();
    JsonModel::Object(
        match command {
            InterferenceCommand::Mode(mode) => empty.insert(
                "kind"@,
                JsonModel::Text("interference_policy"@),
            ).insert("action"@, JsonModel::Text("mode"@)).insert(
                "requested_mode"@,
                JsonModel::Text(mode_name(mode)),
            ),
            InterferenceCommand::Recover => empty.insert(
                "kind"@,
                JsonModel::Text("interference_recovery"@),
            ).insert("action"@, JsonModel::Text("recover"@)),
            InterferenceCommand::Status => empty.insert(
                "kind"@,
                JsonModel::Text("interference_runtime"@),
            ).insert("action"@, JsonModel::Text("status"@)),
        },
    )
}

/// The subject of the answer to a command.
pub fn interference_subject(command: InterferenceCommand) -> (r: Json)
    ensures
        r@ == subject_of(command),
{
    let subject = match command {
        InterferenceCommand::Mode(mode) => JsonObject::new().with(
            "kind",
            json::text_value("interference_policy"),
        ).with("action", json::text_value("mode")).with(
            "requested_mode",
            json::text_value(mode_str(mode)),
        ),
        InterferenceCommand::Recover => JsonObject::new().with(
            "kind",
            json::text_value("interference_recovery"),
        ).with("action", json::text_value("recover")),
        InterferenceCommand::Status => JsonObject::new().with(
            "kind",
            json::text_value("interference_runtime"),
        ).with("action", json::text_value("status")),
    };
    Json::Object(subject)
}

/// The result of a changed mode: the mode and the policies in force.
pub fn interference_mode_result(mode: InterferenceMode, active_policies: &Vec<String>) -> (r: Json)
    ensures
        r@ == JsonModel::Object(
            Map::<Seq<char>, JsonModel>::empty().insert(
                "mode"@,
                JsonModel::Text(mode_name(mode)),
            ).insert("active_policies"@, json::texts_model(text::texts(active_policies@))),
        ),
{
    Json::Object(
        JsonObject::new().with("mode", json::text_value(mode_str(mode))).with(
            "active_policies",
            json::texts_value(active_policies),
        ),
    )
}

/// The result of a recovery: what it did, and the state of the handoff to a human.
pub fn interference_recovery_result(recovery: Json, handoff: Json) -> (r: Json)
    ensures
        r@ == JsonModel::Object(
            Map::<Seq<char>, JsonModel>::empty().insert("recovery"@, recovery@).insert(
                "handoff"@,
                handoff@,
            ),
        ),
{
    Json::Object(JsonObject::new().with("recovery", recovery).with("handoff", handoff))
}

/// The answer to an interference request.
pub fn interference_payload(subject: Json, result: Json, runtime: Json) -> (r: Json)
    ensures
        r@ == JsonModel::Object(
            Map::<Seq<char>, JsonModel>::empty().insert("subject"@, subject@).insert(
                "result"@,
                result@,
            ).insert("runtime"@, runtime@),
        ),
{
    Json::Object(
        JsonObject::new().with("subject", subject).with("result", result).with("runtime", runtime),
    )
}

/// An answer is about what was asked: a change of mode with the mode, a recovery, or the
/// status.
pub proof fn subjects_say_what_was_asked(a: InterferenceCommand, b: InterferenceCommand)
    ensures
        subject_of(a) == subject_of(b) ==> a == b,
        a matches InterferenceCommand::Mode(mode) ==> json::member(subject_of(a), "requested_mode"@)
            == Some(JsonModel::Text(mode_name(mode))),
        !(a is Mode) ==> json::member(subject_of(a), "requested_mode"@) is None,
        a is Recover <==> json::member(subject_of(a), "action"@) == Some(
            JsonModel::Text("recover"@),
        ),
        a is Status <==> json::member(subject_of(a), "action"@) == Some(JsonModel::Text("status"@)),
        a is Mode <==> json::member(subject_of(a), "action"@) == Some(JsonModel::Text("mode"@)),
{
    reveal_strlit("kind");
    reveal_strlit("action");
    reveal_strlit("requested_mode");
    assert("kind"@.len() != "action"@.len());
    assert("kind"@.len() != "requested_mode"@.len());
    assert("action"@.len() != "requested_mode"@.len());
    reveal_strlit("mode");
    reveal_strlit("recover");
    reveal_strlit("status");
    assert("mode"@.len() != "recover"@.len());
    assert("mode"@.len() != "status"@.len());
    assert("recover"@.len() != "status"@.len());
    if subject_of(a) == subject_of(b) {
        assert(json::member(subject_of(a), "action"@) == json::member(subject_of(b), "action"@));
        assert(json::member(subject_of(a), "requested_mode"@) == json::member(
            subject_of(b),
            "requested_mode"@,
        ));
        if let InterferenceCommand::Mode(x) = a {
            if let InterferenceCommand::Mode(y) = b {
                mode_name_injective(x, y);
            }
        }
    }
}

/// A request recovers unless it says what else to do.
pub proof fn requests_recover_unless_they_say_otherwise(args: JsonModel)
    ensures
        json::member(args, "sub"@) is None ==> subcommand(args) == "recover"@,
        json::member(args, "sub"@) matches Some(JsonModel::Text(s)) ==> subcommand(args) == s,
{
}

/// A request is read as what it names: a mode by its name, a recovery, or a status; nothing
/// else is read.
pub proof fn requests_are_read_as_what_they_name(
    args: Json,
    r: Result<InterferenceCommand, RubError>,
    mode: InterferenceMode,
)
    requires
        call_ensures(parse_interference_command, (&args,), r),
    ensures
        json::member(args@, "sub"@) is None ==> r == Ok::<InterferenceCommand, RubError>(
            InterferenceCommand::Recover,
        ),
        json::member(args@, "sub"@) == Some(JsonModel::Text("recover"@)) ==> r == Ok::<
            InterferenceCommand,
            RubError,
        >(InterferenceCommand::Recover),
        json::member(args@, "sub"@) == Some(JsonModel::Text("status"@)) ==> r == Ok::<
            InterferenceCommand,
            RubError,
        >(InterferenceCommand::Status),
        json::member(args@, "sub"@) == Some(JsonModel::Text("mode"@)) && json::member(
            args@,
            "mode"@,
        ) == Some(JsonModel::Text(mode_name(mode))) ==> r == Ok::<InterferenceCommand, RubError>(
            InterferenceCommand::Mode(mode),
        ),
        json::member(args@, "sub"@) == Some(JsonModel::Text("mode"@)) && json::member(
            args@,
            "mode"@,
        ) is None ==> r is Err,
        json::member(args@, "sub"@) matches Some(JsonModel::Text(s)) ==> (s != "mode"@ && s
            != "recover"@ && s != "status"@ ==> r is Err),
{
    reveal_strlit("mode");
    reveal_strlit("recover");
    reveal_strlit("status");
    assert("mode"@.len() != "recover"@.len());
    assert("mode"@.len() != "status"@.len());
    assert("recover"@.len() != "status"@.len());
    if let Ok(InterferenceCommand::Mode(found)) = r {
        if mode_name(found) == mode_name(mode) {
            mode_name_injective(found, mode);
        }
    }
}

/// Each mode goes by its own name.
pub proof fn modes_go_by_their_names(x: InterferenceMode)
    ensures
        x == InterferenceMode::Normal <==> mode_name(x) == "normal"@,
        x == InterferenceMode::PublicWebStable <==> mode_name(x) == "public_web_stable"@,
        x == InterferenceMode::Strict <==> mode_name(x) == "strict"@,
{
    reveal_strlit("normal");
    reveal_strlit("public_web_stable");
    reveal_strlit("strict");
    assert("normal"@.len() != "public_web_stable"@.len());
    assert("normal"@[0] != "strict"@[0]);
    assert("public_web_stable"@.len() != "strict"@.len());
}

} // verus!
