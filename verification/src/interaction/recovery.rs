//! What is told of an interaction that may have been committed when its answer
//! timed out: enough to find the target again, nothing that was typed.

use vstd::prelude::*;
use crate::error;
use crate::json::{self, Json, JsonModel, JsonObject};

verus! {

/// The members with `public_key` set to the member `key` of the arguments,
/// where there is one.
pub open spec fn copied(
    m: Map<Seq<char>, JsonModel>,
    args: JsonModel,
    key: Seq<char>,
    public_key: Seq<char>,
) -> Map<Seq<char>, JsonModel> {
    match json::member(args, key) {
        Some(value) => m.insert(public_key, value),
        None => m,
    }
}

/// The part of a locator that may be shown. An element reference is shown
/// under one name, whichever of its two the client used.
pub open spec fn public_locator(args: JsonModel) -> Map<Seq<char>, JsonModel> {
    let m = copied(Map::empty(), args, "index"@, "index"@);
    let m = copied(m, args, "element_ref"@, "element_ref"@);
    let m = copied(m, args, "ref"@, "element_ref"@);
    let m = copied(m, args, "selector"@, "selector"@);
    let m = copied(m, args, "role"@, "role"@);
    let m = copied(m, args, "testid"@, "testid"@);
    let m = copied(m, args, "visible"@, "visible"@);
    let m = copied(m, args, "prefer_enabled"@, "prefer_enabled"@);
    let m = copied(m, args, "topmost"@, "topmost"@);
    let m = copied(m, args, "first"@, "first"@);
    let m = copied(m, args, "last"@, "last"@);
    copied(m, args, "nth"@, "nth"@)
}

fn copy_member(o: &mut JsonObject, args: &Json, key: &str, public_key: &str)
    ensures
        final(o)@ == copied(old(o)@, args@, key@, public_key@),
{
    if let Some(value) = args.get(key) {
        o.insert(public_key, value.clone());
    }
}

/// The part of a locator that may be shown, unless nothing is left of it.
pub fn redacted_interaction_locator(args: &Json) -> (r: Option<Json>)
    ensures
        error::opt_context(r) == (if public_locator(args@) == Map::<
            Seq<char>,
            JsonModel,
        >::empty() {
            None
        } else {
            Some(JsonModel::Object(public_locator(args@)))
        }),
{
    let mut locator = JsonObject::new();
    copy_member(&mut locator, args, "index", "index");
    copy_member(&mut locator, args, "element_ref", "element_ref");
    copy_member(&mut locator, args, "ref", "element_ref");
    copy_member(&mut locator, args, "selector", "selector");
    copy_member(&mut locator, args, "role", "role");
    copy_member(&mut locator, args, "testid", "testid");
    copy_member(&mut locator, args, "visible", "visible");
    copy_member(&mut locator, args, "prefer_enabled", "prefer_enabled");
    copy_member(&mut locator, args, "topmost", "topmost");
    copy_member(&mut locator, args, "first", "first");
    copy_member(&mut locator, args, "last", "last");
    copy_member(&mut locator, args, "nth", "nth");
    if locator.is_empty() {
        None
    } else {
        Some(Json::Object(locator))
    }
}

/// The point of a click, where the arguments hold one.
pub open spec fn point_of(args: JsonModel) -> Option<JsonModel> {
    match json::member(args, "xy"@) {
        Some(JsonModel::Array(items)) => if items.len() == 2 {
            Some(JsonModel::Array(items))
        } else {
            None
        },
        _ => None,
    }
}

fn point_value(args: &Json) -> (r: Option<Json>)
    ensures
        error::opt_context(r) == point_of(args@),
{
    match args.get("xy") {
        Some(value) => match value {
            Json::Array(items) => {
                proof {
                    json::items_model_len(items@);
                }
                if items.len() == 2 {
                    Some(value.clone())
                } else {
                    None
                }
            },
            _ => None,
        },
        None => None,
    }
}

/// The request as it may be shown.
pub open spec fn public_request(args: JsonModel) -> Map<Seq<char>, JsonModel> {
    let m = Map::<Seq<char>, JsonModel>::empty();
    let m = if public_locator(args) == Map::<Seq<char>, JsonModel>::empty() {
        m
    } else {
        m.insert("locator"@, JsonModel::Object(public_locator(args)))
    };
    let m = match point_of(args) {
        Some(xy) => m.insert("xy"@, xy),
        None => m,
    };
    let m = match json::text_member(args, "snapshot_id"@) {
        Some(id) => m.insert("snapshot_id"@, JsonModel::Text(id)),
        None => m,
    };
    let m = if json::member(args, "wait_after"@) is Some {
        m.insert("wait_after_requested"@, JsonModel::Bool(true))
    } else {
        m
    };
    m.insert("arguments_redacted"@, JsonModel::Bool(true))
}

/// What is told of a possibly committed interaction.
pub open spec fn recovery_contract(command: Seq<char>, args: JsonModel) -> JsonModel {
    JsonModel::Object(
        Map::<Seq<char>, JsonModel>::empty().insert(
            "kind"@,
            JsonModel::Text("interaction_possible_commit"@),
        ).insert("command"@, JsonModel::Text(command)).insert(
            "same_command_retry_requires_same_command_id"@,
            JsonModel::Bool(true),
        ).insert("request"@, JsonModel::Object(public_request(args))),
    )
}

/// What is told of an interaction that may have been committed.
pub fn interaction_possible_commit_recovery_contract(command: &str, args: &Json) -> (r: Json)
    ensures
        r@ == recovery_contract(command@, args@),
{
    let mut request = JsonObject::new();
    if let Some(locator) = redacted_interaction_locator(args) {
        request.insert("locator", locator);
    }
    if let Some(xy) = point_value(args) {
        request.insert("xy", xy);
    }
    if let Some(id) = args.get_str("snapshot_id") {
        request.insert("snapshot_id", json::text_value(id));
    }
    if args.get("wait_after").is_some() {
        request.insert("wait_after_requested", Json::Bool(true));
    }
    request.insert("arguments_redacted", Json::Bool(true));
    Json::Object(
        JsonObject::new().with("kind", json::text_value("interaction_possible_commit")).with(
            "command",
            json::text_value(command),
        ).with("same_command_retry_requires_same_command_id", Json::Bool(true)).with(
            "request",
            Json::Object(request),
        ),
    )
}

/// Two requests agree on a member.
pub open spec fn agree_on(a: JsonModel, b: JsonModel, key: Seq<char>) -> bool {
    json::member(a, key) == json::member(b, key)
}

/// Two requests agree on all that may be shown.
pub open spec fn same_public_part(a: JsonModel, b: JsonModel) -> bool {
    &&& agree_on(a, b, "index"@)
    &&& agree_on(a, b, "element_ref"@)
    &&& agree_on(a, b, "ref"@)
    &&& agree_on(a, b, "selector"@)
    &&& agree_on(a, b, "role"@)
    &&& agree_on(a, b, "testid"@)
    &&& agree_on(a, b, "visible"@)
    &&& agree_on(a, b, "prefer_enabled"@)
    &&& agree_on(a, b, "topmost"@)
    &&& agree_on(a, b, "first"@)
    &&& agree_on(a, b, "last"@)
    &&& agree_on(a, b, "nth"@)
    &&& agree_on(a, b, "xy"@)
    &&& agree_on(a, b, "snapshot_id"@)
    &&& json::member(a, "wait_after"@) is Some <==> json::member(b, "wait_after"@) is Some
}

/// What is told of an interaction depends on nothing but the public part of its
/// request: two requests that differ only in what was typed, chosen, uploaded
/// or searched for by text are told alike.
pub proof fn recovery_contract_hides_arguments(command: Seq<char>, a: JsonModel, b: JsonModel)
    requires
        same_public_part(a, b),
    ensures
        recovery_contract(command, a) == recovery_contract(command, b),
{
    assert(public_locator(a) == public_locator(b));
    assert(point_of(a) == point_of(b));
    assert(public_request(a) == public_request(b));
}

/// What may be shown of a locator is each public member as the request has it, a reference
/// under one name, and nothing else: no text or label that was searched for.
pub proof fn public_locators_show_public_members_alone(args: JsonModel, key: Seq<char>)
    ensures
        ({
            let r = JsonModel::Object(public_locator(args));
            &&& json::member(r, "index"@) == json::member(args, "index"@)
            &&& json::member(r, "selector"@) == json::member(args, "selector"@)
            &&& json::member(r, "role"@) == json::member(args, "role"@)
            &&& json::member(r, "testid"@) == json::member(args, "testid"@)
            &&& json::member(r, "visible"@) == json::member(args, "visible"@)
            &&& json::member(r, "prefer_enabled"@) == json::member(args, "prefer_enabled"@)
            &&& json::member(r, "topmost"@) == json::member(args, "topmost"@)
            &&& json::member(r, "first"@) == json::member(args, "first"@)
            &&& json::member(r, "last"@) == json::member(args, "last"@)
            &&& json::member(r, "nth"@) == json::member(args, "nth"@)
            &&& json::member(args, "ref"@) is Some ==> json::member(r, "element_ref"@)
                == json::member(args, "ref"@)
            &&& json::member(args, "ref"@) is None ==> json::member(r, "element_ref"@)
                == json::member(args, "element_ref"@)
            &&& json::member(r, key) is Some ==> key == "index"@ || key == "element_ref"@ || key
                == "selector"@ || key == "role"@ || key == "testid"@ || key == "visible"@ || key
                == "prefer_enabled"@ || key == "topmost"@ || key == "first"@ || key == "last"@ || key
                == "nth"@
        }),
{
    reveal_strlit("index");
    reveal_strlit("element_ref");
    reveal_strlit("ref");
    reveal_strlit("selector");
    reveal_strlit("role");
    reveal_strlit("testid");
    reveal_strlit("visible");
    reveal_strlit("prefer_enabled");
    reveal_strlit("topmost");
    reveal_strlit("first");
    reveal_strlit("last");
    reveal_strlit("nth");
    assert("index"@.len() != "element_ref"@.len());
    assert("index"@.len() != "ref"@.len());
    assert("index"@.len() != "selector"@.len());
    assert("index"@.len() != "role"@.len());
    assert("index"@.len() != "testid"@.len());
    assert("index"@.len() != "visible"@.len());
    assert("index"@.len() != "prefer_enabled"@.len());
    assert("index"@.len() != "topmost"@.len());
    assert("index"@[0] != "first"@[0]);
    assert("index"@.len() != "last"@.len());
    assert("index"@.len() != "nth"@.len());
    assert("element_ref"@.len() != "ref"@.len());
    assert("element_ref"@.len() != "selector"@.len());
    assert("element_ref"@.len() != "role"@.len());
    assert("element_ref"@.len() != "testid"@.len());
    assert("element_ref"@.len() != "visible"@.len());
    assert("element_ref"@.len() != "prefer_enabled"@.len());
    assert("element_ref"@.len() != "topmost"@.len());
    assert("element_ref"@.len() != "first"@.len());
    assert("element_ref"@.len() != "last"@.len());
    assert("element_ref"@.len() != "nth"@.len());
    assert("ref"@.len() != "selector"@.len());
    assert("ref"@.len() != "role"@.len());
    assert("ref"@.len() != "testid"@.len());
    assert("ref"@.len() != "visible"@.len());
    assert("ref"@.len() != "prefer_enabled"@.len());
    assert("ref"@.len() != "topmost"@.len());
    assert("ref"@.len() != "first"@.len());
    assert("ref"@.len() != "last"@.len());
    assert("ref"@[0] != "nth"@[0]);
    assert("selector"@.len() != "role"@.len());
    assert("selector"@.len() != "testid"@.len());
    assert("selector"@.len() != "visible"@.len());
    assert("selector"@.len() != "prefer_enabled"@.len());
    assert("selector"@.len() != "topmost"@.len());
    assert("selector"@.len() != "first"@.len());
    assert("selector"@.len() != "last"@.len());
    assert("selector"@.len() != "nth"@.len());
    assert("role"@.len() != "testid"@.len());
    assert("role"@.len() != "visible"@.len());
    assert("role"@.len() != "prefer_enabled"@.len());
    assert("role"@.len() != "topmost"@.len());
    assert("role"@.len() != "first"@.len());
    assert("role"@[0] != "last"@[0]);
    assert("role"@.len() != "nth"@.len());
    assert("testid"@.len() != "visible"@.len());
    assert("testid"@.len() != "prefer_enabled"@.len());
    assert("testid"@.len() != "topmost"@.len());
    assert("testid"@.len() != "first"@.len());
    assert("testid"@.len() != "last"@.len());
    assert("testid"@.len() != "nth"@.len());
    assert("visible"@.len() != "prefer_enabled"@.len());
    assert("visible"@[0] != "topmost"@[0]);
    assert("visible"@.len() != "first"@.len());
    assert("visible"@.len() != "last"@.len());
    assert("visible"@.len() != "nth"@.len());
    assert("prefer_enabled"@.len() != "topmost"@.len());
    assert("prefer_enabled"@.len() != "first"@.len());
    assert("prefer_enabled"@.len() != "last"@.len());
    assert("prefer_enabled"@.len() != "nth"@.len());
    assert("topmost"@.len() != "first"@.len());
    assert("topmost"@.len() != "last"@.len());
    assert("topmost"@.len() != "nth"@.len());
    assert("first"@.len() != "last"@.len());
    assert("first"@.len() != "nth"@.len());
    assert("last"@.len() != "nth"@.len());
}

/// A request is shown with its public locator, its point, its snapshot and that a wait was
/// asked for, each exactly where it has it, and always as one whose arguments are hidden.
pub proof fn requests_are_shown_with_their_arguments_hidden(args: JsonModel, key: Seq<char>)
    ensures
        ({
            let r = JsonModel::Object(public_request(args));
            &&& json::member(r, "arguments_redacted"@) == Some(JsonModel::Bool(true))
            &&& json::member(r, "xy"@) == point_of(args)
            &&& json::member(r, "wait_after_requested"@) == if json::member(args, "wait_after"@)
                is Some {
                Some(JsonModel::Bool(true))
            } else {
                None
            }
            &&& json::member(r, "snapshot_id"@) == match json::text_member(args, "snapshot_id"@) {
                Some(id) => Some(JsonModel::Text(id)),
                None => None,
            }
            &&& json::member(r, "locator"@) is Some <==> public_locator(args) != Map::<
                Seq<char>,
                JsonModel,
            >::empty()
            &&& json::member(r, key) is Some ==> key == "locator"@ || key == "xy"@ || key
                == "snapshot_id"@ || key == "wait_after_requested"@ || key == "arguments_redacted"@
        }),
        point_of(args) is Some <==> (json::member(args, "xy"@) matches Some(JsonModel::Array(p))
            && p.len() == 2),
        point_of(args) is Some ==> point_of(args) == json::member(args, "xy"@),
{
    reveal_strlit("locator");
    reveal_strlit("xy");
    reveal_strlit("snapshot_id");
    reveal_strlit("wait_after_requested");
    reveal_strlit("arguments_redacted");
    assert("locator"@.len() != "xy"@.len());
    assert("locator"@.len() != "snapshot_id"@.len());
    assert("locator"@.len() != "wait_after_requested"@.len());
    assert("locator"@.len() != "arguments_redacted"@.len());
    assert("xy"@.len() != "snapshot_id"@.len());
    assert("xy"@.len() != "wait_after_requested"@.len());
    assert("xy"@.len() != "arguments_redacted"@.len());
    assert("snapshot_id"@.len() != "wait_after_requested"@.len());
    assert("snapshot_id"@.len() != "arguments_redacted"@.len());
    assert("wait_after_requested"@.len() != "arguments_redacted"@.len());
}

/// What is told of a possible commit names the command, and that only the same command may
/// be sent again.
pub proof fn recovery_names_the_command(command: Seq<char>, args: JsonModel)
    ensures
        ({
            let r = recovery_contract(command, args);
            &&& json::member(r, "command"@) == Some(JsonModel::Text(command))
            &&& json::member(r, "same_command_retry_requires_same_command_id"@) == Some(
                JsonModel::Bool(true),
            )
            &&& json::member(r, "request"@) == Some(JsonModel::Object(public_request(args)))
        }),
{
    reveal_strlit("kind");
    reveal_strlit("command");
    reveal_strlit("same_command_retry_requires_same_command_id");
    reveal_strlit("request");
    assert("kind"@.len() != "command"@.len());
    assert("kind"@.len() != "same_command_retry_requires_same_command_id"@.len());
    assert("kind"@.len() != "request"@.len());
    assert("command"@.len() != "same_command_retry_requires_same_command_id"@.len());
    assert("command"@[0] != "request"@[0]);
    assert("same_command_retry_requires_same_command_id"@.len() != "request"@.len());
}

/// A member is copied where the arguments have it, and nothing else changes.
pub proof fn members_are_copied_where_they_are_given(
    m: Map<Seq<char>, JsonModel>,
    args: JsonModel,
    key: Seq<char>,
    public_key: Seq<char>,
    other: Seq<char>,
)
    ensures
        json::member(args, key) matches Some(v) ==> copied(m, args, key, public_key).get(public_key)
            == Some(v),
        json::member(args, key) is None ==> copied(m, args, key, public_key) == m,
        other != public_key ==> copied(m, args, key, public_key).get(other) == m.get(other),
{
}

} // verus!
