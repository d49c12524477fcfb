//! The request that repeats an interaction.

use vstd::prelude::*;
use crate::frame_scope;
use crate::json::{self, Json, JsonModel, JsonObject, NumberModel};
use crate::locator::{locator_json, LocatorRequestArgs};
use crate::locator;
use crate::text;
use super::args::{
    click_gesture_name,
    requested_click_gesture,
    ClickArgs,
    ClickGesture,
    HoverArgs,
    KeysArgs,
    SelectArgs,
    TextEntryArgs,
    UploadArgs,
};
use super::args;
use super::recovery;

verus! {

/// An interaction that can be repeated.
#[derive(Debug)]
pub enum InteractionRequest {
    Click(ClickArgs),
    Keys(KeysArgs),
    Type(TextEntryArgs),
    Hover(HoverArgs),
    Upload(UploadArgs),
    Select(SelectArgs),
}

/// The gesture with a given name.
pub open spec fn gesture_named(name: Option<Seq<char>>) -> Option<ClickGesture> {
    match name {
        None => Some(ClickGesture::Single),
        Some(name) => if name == args::gesture_name(ClickGesture::Single) {
            Some(ClickGesture::Single)
        } else if name == args::gesture_name(ClickGesture::Double) {
            Some(ClickGesture::Double)
        } else if name == args::gesture_name(ClickGesture::Right) {
            Some(ClickGesture::Right)
        } else {
            None
        },
    }
}

/// The members with the frame of the orchestration, where the request has one.
pub open spec fn framed(m: Map<Seq<char>, JsonModel>, args: JsonModel) -> Map<
    Seq<char>,
    JsonModel,
> {
    match frame_scope::replay_metadata(args) {
        Some(metadata) => m.insert("_orchestration"@, metadata),
        None => m,
    }
}

/// `own` members of a targeted request, followed by its target and by what
/// surrounds it.
pub open spec fn targeted(
    own: Map<Seq<char>, JsonModel>,
    l: LocatorRequestArgs,
    args: JsonModel,
) -> Map<Seq<char>, JsonModel> {
    let m = own.union_prefer_right(locator::locator_members(l));
    let m = recovery::copied(m, args, "snapshot_id"@, "snapshot_id"@);
    let m = recovery::copied(m, args, "wait_after"@, "wait_after"@);
    framed(m, args)
}

pub open spec fn point_json(xy: (String, String)) -> JsonModel {
    JsonModel::Array(
        seq![
            JsonModel::Number(NumberModel::Float(xy.0@)),
            JsonModel::Number(NumberModel::Float(xy.1@)),
        ],
    )
}

pub open spec fn click_replay(
    click: ClickArgs,
    gesture: ClickGesture,
    args: JsonModel,
) -> Map<Seq<char>, JsonModel> {
    let own = Map::<Seq<char>, JsonModel>::empty().insert(
        "gesture"@,
        JsonModel::Text(args::gesture_name(gesture)),
    );
    match click.xy {
        Some(xy) => recovery::copied(
            own.insert("xy"@, point_json(xy)),
            args,
            "wait_after"@,
            "wait_after"@,
        ),
        None => {
            let m = own.union_prefer_right(locator::locator_members(click.locator));
            let m = recovery::copied(m, args, "snapshot_id"@, "snapshot_id"@);
            recovery::copied(framed(m, args), args, "wait_after"@, "wait_after"@)
        },
    }
}

/// The members of the request that repeats an interaction. A click with an
/// unknown gesture is not repeated.
pub open spec fn replay_of(request: InteractionRequest, args: JsonModel) -> Option<
    Map<Seq<char>, JsonModel>,
> {
    let empty = Map::<Seq<char>, JsonModel>::empty();
    match request {
        InteractionRequest::Click(click) => match gesture_named(text::opt_text(click.gesture)) {
            Some(gesture) => Some(click_replay(click, gesture, args)),
            None => None,
        },
        InteractionRequest::Keys(keys) => Some(
            framed(
                recovery::copied(
                    empty.insert("keys"@, JsonModel::Text(keys.keys@)),
                    args,
                    "wait_after"@,
                    "wait_after"@,
                ),
                args,
            ),
        ),
        InteractionRequest::Type(entry) => Some(
            targeted(
                empty.insert("text"@, JsonModel::Text(entry.text@)).insert(
                    "clear"@,
                    JsonModel::Bool(entry.clear),
                ),
                entry.locator,
                args,
            ),
        ),
        InteractionRequest::Hover(hover) => Some(targeted(empty, hover.locator, args)),
        InteractionRequest::Upload(upload) => Some(
            targeted(
                empty.insert("path"@, JsonModel::Text(upload.path@)),
                upload.locator,
                args,
            ),
        ),
        InteractionRequest::Select(select) => Some(
            targeted(
                empty.insert("value"@, JsonModel::Text(select.value@)),
                select.locator,
                args,
            ),
        ),
    }
}

fn copy_raw(o: &mut JsonObject, args: &Json, key: &str)
    ensures
        final(o)@ == recovery::copied(old(o)@, args@, key@, key@),
{
    if let Some(value) = args.get(key) {
        o.insert(key, value.clone());
    }
}

fn add_frame(o: &mut JsonObject, args: &Json)
    ensures
        final(o)@ == framed(old(o)@, args@),
{
    if let Some(metadata) = frame_scope::semantic_replay_orchestration_metadata(args) {
        o.insert("_orchestration", metadata);
    }
}

/// Adds the members of a locator, which win over those of the same name.
pub fn merge_locator_projection(projected: &mut JsonObject, locator: &LocatorRequestArgs)
    ensures
        final(projected)@ == old(projected)@.union_prefer_right(
            locator::locator_members(*locator),
        ),
{
    let members = locator_json(locator);
    projected.extend(&members);
}

fn add_target(o: &mut JsonObject, locator: &LocatorRequestArgs, args: &Json)
    ensures
        final(o)@ == targeted(old(o)@, *locator, args@),
{
    merge_locator_projection(o, locator);
    copy_raw(o, args, "snapshot_id");
    copy_raw(o, args, "wait_after");
    add_frame(o, args);
}

fn click_gesture(click: &ClickArgs) -> (r: Option<ClickGesture>)
    ensures
        r == gesture_named(text::opt_text(click.gesture)),
{
    let name = match &click.gesture {
        Some(name) => Some(name.as_str()),
        None => None,
    };
    match requested_click_gesture(name) {
        Ok(gesture) => {
            proof {
                if click.gesture is Some {
                    if name->0@ == args::gesture_name(ClickGesture::Single) {
                        args::gesture_name_injective(gesture, ClickGesture::Single);
                    } else if name->0@ == args::gesture_name(ClickGesture::Double) {
                        args::gesture_name_injective(gesture, ClickGesture::Double);
                    } else if name->0@ == args::gesture_name(ClickGesture::Right) {
                        args::gesture_name_injective(gesture, ClickGesture::Right);
                    }
                } else {
                    args::gesture_name_injective(gesture, ClickGesture::Single);
                }
            }
            Some(gesture)
        },
        Err(_) => {
            proof {
                assert("single"@ == args::gesture_name(ClickGesture::Single));
                assert("double"@ == args::gesture_name(ClickGesture::Double));
                assert("right"@ == args::gesture_name(ClickGesture::Right));
            }
            None
        },
    }
}

fn point_value(xy: &(String, String)) -> (r: Json)
    ensures
        r@ == point_json(*xy),
{
    let mut items: Vec<Json> = Vec::new();
    items.push(json::float_value(xy.0.as_str()));
    items.push(json::float_value(xy.1.as_str()));
    proof {
        assert(items@.drop_last().drop_last() =~= seq![]);
        reveal_with_fuel(json::items_model, 3);
        assert(json::items_model(items@) =~= seq![items@[0]@, items@[1]@]);
    }
    Json::Array(items)
}

fn click_replay_members(click: &ClickArgs, gesture: ClickGesture, args: &Json) -> (r: JsonObject)
    ensures
        r@ == click_replay(*click, gesture, args@),
{
    let mut projected = JsonObject::new().with(
        "gesture",
        json::text_value(click_gesture_name(gesture)),
    );
    match &click.xy {
        Some(xy) => {
            projected.insert("xy", point_value(xy));
        },
        None => {
            merge_locator_projection(&mut projected, &click.locator);
            copy_raw(&mut projected, args, "snapshot_id");
            add_frame(&mut projected, args);
        },
    }
    copy_raw(&mut projected, args, "wait_after");
    projected
}

/// What an optional object denotes.
pub open spec fn opt_members(o: Option<JsonObject>) -> Option<Map<Seq<char>, JsonModel>> {
    match o {
        Some(o) => Some(o@),
        None => None,
    }
}

/// The request that repeats an interaction: what it does and to which target,
/// with the snapshot, the wait and the frame that came with it.
pub fn semantic_replay_args(request: &InteractionRequest, args: &Json) -> (r: Option<JsonObject>)
    ensures
        opt_members(r) == replay_of(*request, args@),
{
    match request {
        InteractionRequest::Click(click) => match click_gesture(click) {
            Some(gesture) => Some(click_replay_members(click, gesture, args)),
            None => None,
        },
        InteractionRequest::Keys(keys) => {
            let mut projected = JsonObject::new().with("keys", json::text_value(keys.keys.as_str()));
            copy_raw(&mut projected, args, "wait_after");
            add_frame(&mut projected, args);
            Some(projected)
        },
        InteractionRequest::Type(entry) => {
            let mut projected = JsonObject::new().with(
                "text",
                json::text_value(entry.text.as_str()),
            ).with("clear", Json::Bool(entry.clear));
            add_target(&mut projected, &entry.locator, args);
            Some(projected)
        },
        InteractionRequest::Hover(hover) => {
            let mut projected = JsonObject::new();
            add_target(&mut projected, &hover.locator, args);
            Some(projected)
        },
        InteractionRequest::Upload(upload) => {
            let mut projected = JsonObject::new().with(
                "path",
                json::text_value(upload.path.as_str()),
            );
            add_target(&mut projected, &upload.locator, args);
            Some(projected)
        },
        InteractionRequest::Select(select) => {
            let mut projected = JsonObject::new().with(
                "value",
                json::text_value(select.value.as_str()),
            );
            add_target(&mut projected, &select.locator, args);
            Some(projected)
        },
    }
}

/// The names of a locator's members are none of those that surround a request.
proof fn locator_members_are_its_own(l: LocatorRequestArgs)
    ensures
        !locator::locator_members(l).dom().contains("snapshot_id"@),
        !locator::locator_members(l).dom().contains("wait_after"@),
        !locator::locator_members(l).dom().contains("_orchestration"@),
{
    context_names_are_distinct();
    reveal_strlit("index");
    reveal_strlit("element_ref");
    reveal_strlit("selector");
    reveal_strlit("target_text");
    reveal_strlit("role");
    reveal_strlit("label");
    reveal_strlit("testid");
    reveal_strlit("visible");
    reveal_strlit("prefer_enabled");
    reveal_strlit("topmost");
    reveal_strlit("first");
    reveal_strlit("last");
    reveal_strlit("nth");
    assert("element_ref"@[0] != "snapshot_id"@[0]);
    assert("target_text"@[0] != "snapshot_id"@[0]);
    assert("prefer_enabled"@[0] != "_orchestration"@[0]);
}

proof fn context_names_are_distinct()
    ensures
        "snapshot_id"@.len() == 11,
        "wait_after"@.len() == 10,
        "_orchestration"@.len() == 14,
        "snapshot_id"@[0] == 's',
        "_orchestration"@[0] == '_',
        "gesture"@.len() == 7,
        "xy"@.len() == 2,
        "keys"@.len() == 4,
        "text"@.len() == 4,
        "clear"@.len() == 5,
        "path"@.len() == 4,
        "value"@.len() == 5,
{
    reveal_strlit("snapshot_id");
    reveal_strlit("wait_after");
    reveal_strlit("_orchestration");
    reveal_strlit("gesture");
    reveal_strlit("xy");
    reveal_strlit("keys");
    reveal_strlit("text");
    reveal_strlit("clear");
    reveal_strlit("path");
    reveal_strlit("value");
}

/// The frame of a request survives its replay.
proof fn replay_metadata_stable(args: JsonModel, m: Map<Seq<char>, JsonModel>)
    requires
        match frame_scope::replay_metadata(args) {
            Some(metadata) => m.get("_orchestration"@) == Some(metadata),
            None => m.get("_orchestration"@) is None,
        },
    ensures
        frame_scope::replay_metadata(JsonModel::Object(m)) == frame_scope::replay_metadata(args),
{
    if let Some(id) = frame_scope::frame_override(args) {
        let raw = json::text_member(json::member(args, "_orchestration"@)->0, "frame_id"@)->0;
        text::trimmed_idempotent(raw);
        assert(json::member(frame_scope::replay_metadata(args)->0, "frame_id"@) == Some(
            JsonModel::Text(id),
        ));
    }
}

/// A repeated request waits for the same as the first.
pub proof fn replay_keeps_the_wait(request: InteractionRequest, args: JsonModel)
    requires
        replay_of(request, args) is Some,
    ensures
        replay_of(request, args)->0.get("wait_after"@) == json::member(args, "wait_after"@),
{
    context_names_are_distinct();
    if let InteractionRequest::Click(click) = request {
        locator_members_are_its_own(click.locator);
    } else if let InteractionRequest::Type(entry) = request {
        locator_members_are_its_own(entry.locator);
    } else if let InteractionRequest::Hover(hover) = request {
        locator_members_are_its_own(hover.locator);
    } else if let InteractionRequest::Upload(upload) = request {
        locator_members_are_its_own(upload.locator);
    } else if let InteractionRequest::Select(select) = request {
        locator_members_are_its_own(select.locator);
    }
}

/// Repeating what was repeated changes nothing more.
pub proof fn replay_is_stable(request: InteractionRequest, args: JsonModel)
    requires
        replay_of(request, args) is Some,
    ensures
        replay_of(request, JsonModel::Object(replay_of(request, args)->0)) == replay_of(
            request,
            args,
        ),
{
    let m = replay_of(request, args)->0;
    let again = JsonModel::Object(m);
    context_names_are_distinct();
    replay_keeps_the_wait(request, args);
    match request {
        InteractionRequest::Click(click) => {
            locator_members_are_its_own(click.locator);
            if click.xy is None {
                assert(json::member(again, "snapshot_id"@) == json::member(args, "snapshot_id"@));
                replay_metadata_stable(args, m);
            }
        },
        InteractionRequest::Keys(keys) => {
            replay_metadata_stable(args, m);
        },
        InteractionRequest::Type(entry) => {
            locator_members_are_its_own(entry.locator);
            assert(json::member(again, "snapshot_id"@) == json::member(args, "snapshot_id"@));
            replay_metadata_stable(args, m);
        },
        InteractionRequest::Hover(hover) => {
            locator_members_are_its_own(hover.locator);
            assert(json::member(again, "snapshot_id"@) == json::member(args, "snapshot_id"@));
            replay_metadata_stable(args, m);
        },
        InteractionRequest::Upload(upload) => {
            locator_members_are_its_own(upload.locator);
            assert(json::member(again, "snapshot_id"@) == json::member(args, "snapshot_id"@));
            replay_metadata_stable(args, m);
        },
        InteractionRequest::Select(select) => {
            locator_members_are_its_own(select.locator);
            assert(json::member(again, "snapshot_id"@) == json::member(args, "snapshot_id"@));
            replay_metadata_stable(args, m);
        },
    }
}

/// Whether a name is one that the members of a locator go by.
spec fn locator_name(key: Seq<char>) -> bool {
    ||| key == "index"@
    ||| key == "element_ref"@
    ||| key == "selector"@
    ||| key == "target_text"@
    ||| key == "role"@
    ||| key == "label"@
    ||| key == "testid"@
    ||| key == "visible"@
    ||| key == "prefer_enabled"@
    ||| key == "topmost"@
    ||| key == "first"@
    ||| key == "last"@
    ||| key == "nth"@
}

proof fn locators_go_by_their_names(l: LocatorRequestArgs, key: Seq<char>)
    ensures
        locator::locator_members(l).dom().contains(key) ==> locator_name(key),
{
}

proof fn not_a_locator_name_gesture()
    ensures
        !locator_name("gesture"@),
{
    reveal_strlit("gesture");
    reveal_strlit("index");
    reveal_strlit("element_ref");
    reveal_strlit("selector");
    reveal_strlit("target_text");
    reveal_strlit("role");
    reveal_strlit("label");
    reveal_strlit("testid");
    reveal_strlit("visible");
    reveal_strlit("prefer_enabled");
    reveal_strlit("topmost");
    reveal_strlit("first");
    reveal_strlit("last");
    reveal_strlit("nth");
    assert("gesture"@.len() != "index"@.len());
    assert("gesture"@.len() != "element_ref"@.len());
    assert("gesture"@.len() != "selector"@.len());
    assert("gesture"@.len() != "target_text"@.len());
    assert("gesture"@.len() != "role"@.len());
    assert("gesture"@.len() != "label"@.len());
    assert("gesture"@.len() != "testid"@.len());
    assert("gesture"@[0] != "visible"@[0]);
    assert("gesture"@.len() != "prefer_enabled"@.len());
    assert("gesture"@[0] != "topmost"@[0]);
    assert("gesture"@.len() != "first"@.len());
    assert("gesture"@.len() != "last"@.len());
    assert("gesture"@.len() != "nth"@.len());
}

proof fn not_a_locator_name_text()
    ensures
        !locator_name("text"@),
{
    reveal_strlit("text");
    reveal_strlit("index");
    reveal_strlit("element_ref");
    reveal_strlit("selector");
    reveal_strlit("target_text");
    reveal_strlit("role");
    reveal_strlit("label");
    reveal_strlit("testid");
    reveal_strlit("visible");
    reveal_strlit("prefer_enabled");
    reveal_strlit("topmost");
    reveal_strlit("first");
    reveal_strlit("last");
    reveal_strlit("nth");
    assert("text"@.len() != "index"@.len());
    assert("text"@.len() != "element_ref"@.len());
    assert("text"@.len() != "selector"@.len());
    assert("text"@.len() != "target_text"@.len());
    assert("text"@[0] != "role"@[0]);
    assert("text"@.len() != "label"@.len());
    assert("text"@.len() != "testid"@.len());
    assert("text"@.len() != "visible"@.len());
    assert("text"@.len() != "prefer_enabled"@.len());
    assert("text"@.len() != "topmost"@.len());
    assert("text"@.len() != "first"@.len());
    assert("text"@[0] != "last"@[0]);
    assert("text"@.len() != "nth"@.len());
}

proof fn not_a_locator_name_clear()
    ensures
        !locator_name("clear"@),
{
    reveal_strlit("clear");
    reveal_strlit("index");
    reveal_strlit("element_ref");
    reveal_strlit("selector");
    reveal_strlit("target_text");
    reveal_strlit("role");
    reveal_strlit("label");
    reveal_strlit("testid");
    reveal_strlit("visible");
    reveal_strlit("prefer_enabled");
    reveal_strlit("topmost");
    reveal_strlit("first");
    reveal_strlit("last");
    reveal_strlit("nth");
    assert("clear"@[0] != "index"@[0]);
    assert("clear"@.len() != "element_ref"@.len());
    assert("clear"@.len() != "selector"@.len());
    assert("clear"@.len() != "target_text"@.len());
    assert("clear"@.len() != "role"@.len());
    assert("clear"@[0] != "label"@[0]);
    assert("clear"@.len() != "testid"@.len());
    assert("clear"@.len() != "visible"@.len());
    assert("clear"@.len() != "prefer_enabled"@.len());
    assert("clear"@.len() != "topmost"@.len());
    assert("clear"@[0] != "first"@[0]);
    assert("clear"@.len() != "last"@.len());
    assert("clear"@.len() != "nth"@.len());
}

proof fn not_a_locator_name_path()
    ensures
        !locator_name("path"@),
{
    reveal_strlit("path");
    reveal_strlit("index");
    reveal_strlit("element_ref");
    reveal_strlit("selector");
    reveal_strlit("target_text");
    reveal_strlit("role");
    reveal_strlit("label");
    reveal_strlit("testid");
    reveal_strlit("visible");
    reveal_strlit("prefer_enabled");
    reveal_strlit("topmost");
    reveal_strlit("first");
    reveal_strlit("last");
    reveal_strlit("nth");
    assert("path"@.len() != "index"@.len());
    assert("path"@.len() != "element_ref"@.len());
    assert("path"@.len() != "selector"@.len());
    assert("path"@.len() != "target_text"@.len());
    assert("path"@[0] != "role"@[0]);
    assert("path"@.len() != "label"@.len());
    assert("path"@.len() != "testid"@.len());
    assert("path"@.len() != "visible"@.len());
    assert("path"@.len() != "prefer_enabled"@.len());
    assert("path"@.len() != "topmost"@.len());
    assert("path"@.len() != "first"@.len());
    assert("path"@[0] != "last"@[0]);
    assert("path"@.len() != "nth"@.len());
}

proof fn not_a_locator_name_value()
    ensures
        !locator_name("value"@),
{
    reveal_strlit("value");
    reveal_strlit("index");
    reveal_strlit("element_ref");
    reveal_strlit("selector");
    reveal_strlit("target_text");
    reveal_strlit("role");
    reveal_strlit("label");
    reveal_strlit("testid");
    reveal_strlit("visible");
    reveal_strlit("prefer_enabled");
    reveal_strlit("topmost");
    reveal_strlit("first");
    reveal_strlit("last");
    reveal_strlit("nth");
    assert("value"@[0] != "index"@[0]);
    assert("value"@.len() != "element_ref"@.len());
    assert("value"@.len() != "selector"@.len());
    assert("value"@.len() != "target_text"@.len());
    assert("value"@.len() != "role"@.len());
    assert("value"@[0] != "label"@[0]);
    assert("value"@.len() != "testid"@.len());
    assert("value"@.len() != "visible"@.len());
    assert("value"@.len() != "prefer_enabled"@.len());
    assert("value"@.len() != "topmost"@.len());
    assert("value"@[0] != "first"@[0]);
    assert("value"@.len() != "last"@.len());
    assert("value"@.len() != "nth"@.len());
}

proof fn not_a_locator_name_snapshot_id()
    ensures
        !locator_name("snapshot_id"@),
{
    reveal_strlit("snapshot_id");
    reveal_strlit("index");
    reveal_strlit("element_ref");
    reveal_strlit("selector");
    reveal_strlit("target_text");
    reveal_strlit("role");
    reveal_strlit("label");
    reveal_strlit("testid");
    reveal_strlit("visible");
    reveal_strlit("prefer_enabled");
    reveal_strlit("topmost");
    reveal_strlit("first");
    reveal_strlit("last");
    reveal_strlit("nth");
    assert("snapshot_id"@.len() != "index"@.len());
    assert("snapshot_id"@[0] != "element_ref"@[0]);
    assert("snapshot_id"@.len() != "selector"@.len());
    assert("snapshot_id"@[0] != "target_text"@[0]);
    assert("snapshot_id"@.len() != "role"@.len());
    assert("snapshot_id"@.len() != "label"@.len());
    assert("snapshot_id"@.len() != "testid"@.len());
    assert("snapshot_id"@.len() != "visible"@.len());
    assert("snapshot_id"@.len() != "prefer_enabled"@.len());
    assert("snapshot_id"@.len() != "topmost"@.len());
    assert("snapshot_id"@.len() != "first"@.len());
    assert("snapshot_id"@.len() != "last"@.len());
    assert("snapshot_id"@.len() != "nth"@.len());
}

proof fn not_a_locator_name_wait_after()
    ensures
        !locator_name("wait_after"@),
{
    reveal_strlit("wait_after");
    reveal_strlit("index");
    reveal_strlit("element_ref");
    reveal_strlit("selector");
    reveal_strlit("target_text");
    reveal_strlit("role");
    reveal_strlit("label");
    reveal_strlit("testid");
    reveal_strlit("visible");
    reveal_strlit("prefer_enabled");
    reveal_strlit("topmost");
    reveal_strlit("first");
    reveal_strlit("last");
    reveal_strlit("nth");
    assert("wait_after"@.len() != "index"@.len());
    assert("wait_after"@.len() != "element_ref"@.len());
    assert("wait_after"@.len() != "selector"@.len());
    assert("wait_after"@.len() != "target_text"@.len());
    assert("wait_after"@.len() != "role"@.len());
    assert("wait_after"@.len() != "label"@.len());
    assert("wait_after"@.len() != "testid"@.len());
    assert("wait_after"@.len() != "visible"@.len());
    assert("wait_after"@.len() != "prefer_enabled"@.len());
    assert("wait_after"@.len() != "topmost"@.len());
    assert("wait_after"@.len() != "first"@.len());
    assert("wait_after"@.len() != "last"@.len());
    assert("wait_after"@.len() != "nth"@.len());
}

proof fn not_a_locator_name_orchestration()
    ensures
        !locator_name("_orchestration"@),
{
    reveal_strlit("_orchestration");
    reveal_strlit("index");
    reveal_strlit("element_ref");
    reveal_strlit("selector");
    reveal_strlit("target_text");
    reveal_strlit("role");
    reveal_strlit("label");
    reveal_strlit("testid");
    reveal_strlit("visible");
    reveal_strlit("prefer_enabled");
    reveal_strlit("topmost");
    reveal_strlit("first");
    reveal_strlit("last");
    reveal_strlit("nth");
    assert("_orchestration"@.len() != "index"@.len());
    assert("_orchestration"@.len() != "element_ref"@.len());
    assert("_orchestration"@.len() != "selector"@.len());
    assert("_orchestration"@.len() != "target_text"@.len());
    assert("_orchestration"@.len() != "role"@.len());
    assert("_orchestration"@.len() != "label"@.len());
    assert("_orchestration"@.len() != "testid"@.len());
    assert("_orchestration"@.len() != "visible"@.len());
    assert("_orchestration"@[0] != "prefer_enabled"@[0]);
    assert("_orchestration"@.len() != "topmost"@.len());
    assert("_orchestration"@.len() != "first"@.len());
    assert("_orchestration"@.len() != "last"@.len());
    assert("_orchestration"@.len() != "nth"@.len());
}

proof fn own_names_are_their_own(l: LocatorRequestArgs)
    ensures
        !locator::locator_members(l).dom().contains("gesture"@),
        !locator::locator_members(l).dom().contains("text"@),
        !locator::locator_members(l).dom().contains("clear"@),
        !locator::locator_members(l).dom().contains("path"@),
        !locator::locator_members(l).dom().contains("value"@),
        !locator::locator_members(l).dom().contains("snapshot_id"@),
        !locator::locator_members(l).dom().contains("wait_after"@),
        !locator::locator_members(l).dom().contains("_orchestration"@),
{
    not_a_locator_name_gesture();
    locators_go_by_their_names(l, "gesture"@);
    not_a_locator_name_text();
    locators_go_by_their_names(l, "text"@);
    not_a_locator_name_clear();
    locators_go_by_their_names(l, "clear"@);
    not_a_locator_name_path();
    locators_go_by_their_names(l, "path"@);
    not_a_locator_name_value();
    locators_go_by_their_names(l, "value"@);
    not_a_locator_name_snapshot_id();
    locators_go_by_their_names(l, "snapshot_id"@);
    not_a_locator_name_wait_after();
    locators_go_by_their_names(l, "wait_after"@);
    not_a_locator_name_orchestration();
    locators_go_by_their_names(l, "_orchestration"@);
}

/// A repeated interaction does what the first did: it types the same text and clears alike,
/// uploads the same file, chooses the same value, and sends the same keys.
pub proof fn replays_do_the_same(request: InteractionRequest, args: JsonModel)
    requires
        replay_of(request, args) is Some,
    ensures
        ({
            let r = JsonModel::Object(replay_of(request, args)->0);
            match request {
                InteractionRequest::Click(click) => {
                    &&& gesture_named(text::opt_text(click.gesture)) matches Some(g)
                    &&& json::member(r, "gesture"@) == Some(JsonModel::Text(args::gesture_name(g)))
                    &&& click.xy matches Some(xy) ==> json::member(r, "xy"@) == Some(
                        point_json(xy),
                    ) && json::member(r, "snapshot_id"@) is None
                },
                InteractionRequest::Keys(keys) => json::member(r, "keys"@) == Some(
                    JsonModel::Text(keys.keys@),
                ),
                InteractionRequest::Type(entry) => json::member(r, "text"@) == Some(
                    JsonModel::Text(entry.text@),
                ) && json::member(r, "clear"@) == Some(JsonModel::Bool(entry.clear)),
                InteractionRequest::Hover(_) => true,
                InteractionRequest::Upload(upload) => json::member(r, "path"@) == Some(
                    JsonModel::Text(upload.path@),
                ),
                InteractionRequest::Select(select) => json::member(r, "value"@) == Some(
                    JsonModel::Text(select.value@),
                ),
            }
        }),
{
    reveal_strlit("gesture");
    reveal_strlit("xy");
    reveal_strlit("keys");
    reveal_strlit("text");
    reveal_strlit("clear");
    reveal_strlit("path");
    reveal_strlit("value");
    reveal_strlit("snapshot_id");
    reveal_strlit("wait_after");
    reveal_strlit("_orchestration");
    assert("gesture"@.len() != "xy"@.len());
    assert("gesture"@.len() != "keys"@.len());
    assert("gesture"@.len() != "text"@.len());
    assert("gesture"@.len() != "clear"@.len());
    assert("gesture"@.len() != "path"@.len());
    assert("gesture"@.len() != "value"@.len());
    assert("gesture"@.len() != "snapshot_id"@.len());
    assert("gesture"@.len() != "wait_after"@.len());
    assert("gesture"@.len() != "_orchestration"@.len());
    assert("xy"@.len() != "keys"@.len());
    assert("xy"@.len() != "text"@.len());
    assert("xy"@.len() != "clear"@.len());
    assert("xy"@.len() != "path"@.len());
    assert("xy"@.len() != "value"@.len());
    assert("xy"@.len() != "snapshot_id"@.len());
    assert("xy"@.len() != "wait_after"@.len());
    assert("xy"@.len() != "_orchestration"@.len());
    assert("keys"@[0] != "text"@[0]);
    assert("keys"@.len() != "clear"@.len());
    assert("keys"@[0] != "path"@[0]);
    assert("keys"@.len() != "value"@.len());
    assert("keys"@.len() != "snapshot_id"@.len());
    assert("keys"@.len() != "wait_after"@.len());
    assert("keys"@.len() != "_orchestration"@.len());
    assert("text"@.len() != "clear"@.len());
    assert("text"@[0] != "path"@[0]);
    assert("text"@.len() != "value"@.len());
    assert("text"@.len() != "snapshot_id"@.len());
    assert("text"@.len() != "wait_after"@.len());
    assert("text"@.len() != "_orchestration"@.len());
    assert("clear"@.len() != "path"@.len());
    assert("clear"@[0] != "value"@[0]);
    assert("clear"@.len() != "snapshot_id"@.len());
    assert("clear"@.len() != "wait_after"@.len());
    assert("clear"@.len() != "_orchestration"@.len());
    assert("path"@.len() != "value"@.len());
    assert("path"@.len() != "snapshot_id"@.len());
    assert("path"@.len() != "wait_after"@.len());
    assert("path"@.len() != "_orchestration"@.len());
    assert("value"@.len() != "snapshot_id"@.len());
    assert("value"@.len() != "wait_after"@.len());
    assert("value"@.len() != "_orchestration"@.len());
    assert("snapshot_id"@.len() != "wait_after"@.len());
    assert("snapshot_id"@.len() != "_orchestration"@.len());
    assert("wait_after"@.len() != "_orchestration"@.len());
    match request {
        InteractionRequest::Click(click) => {
            own_names_are_their_own(click.locator);
        },
        InteractionRequest::Type(entry) => {
            own_names_are_their_own(entry.locator);
        },
        InteractionRequest::Upload(upload) => {
            own_names_are_their_own(upload.locator);
        },
        InteractionRequest::Select(select) => {
            own_names_are_their_own(select.locator);
        },
        _ => {},
    }
}

/// A repeated interaction goes to the same target, on the same snapshot and in the same
/// frame as the first.
pub proof fn replays_go_to_the_same_target(
    own: Map<Seq<char>, JsonModel>,
    l: LocatorRequestArgs,
    args: JsonModel,
    key: Seq<char>,
)
    ensures
        ({
            let r = targeted(own, l, args);
            &&& locator::locator_members(l).dom().contains(key) ==> r.get(key) == Some(
                locator::locator_members(l)[key],
            )
            &&& json::member(args, "snapshot_id"@) is Some ==> r.get("snapshot_id"@)
                == json::member(args, "snapshot_id"@)
            &&& frame_scope::replay_metadata(args) is Some ==> r.get("_orchestration"@)
                == frame_scope::replay_metadata(args)
        }),
{
    reveal_strlit("snapshot_id");
    reveal_strlit("wait_after");
    reveal_strlit("_orchestration");
    assert("snapshot_id"@.len() != "wait_after"@.len());
    assert("snapshot_id"@.len() != "_orchestration"@.len());
    assert("wait_after"@.len() != "_orchestration"@.len());
    own_names_are_their_own(l);
}

/// A click without a gesture is a single one; one with a gesture is repeated exactly where
/// the gesture is known, and then with that gesture.
pub proof fn known_gestures_are_repeated(name: Option<Seq<char>>)
    ensures
        name is None ==> gesture_named(name) == Some(ClickGesture::Single),
        name matches Some(n) ==> match gesture_named(name) {
            Some(g) => args::gesture_name(g) == n,
            None => forall|g: ClickGesture| #[trigger] args::gesture_name(g) != n,
        },
{
    if let Some(n) = name {
        if gesture_named(name) is None {
            assert forall|g: ClickGesture| #[trigger] args::gesture_name(g) != n by {
                match g {
                    ClickGesture::Single => {},
                    ClickGesture::Double => {},
                    ClickGesture::Right => {},
                }
            }
        }
    }
}

/// A point is written as its two numbers, across before down.
pub proof fn points_are_two_numbers(xy: (String, String))
    ensures
        point_json(xy) matches JsonModel::Array(p) && p.len() == 2 && p[0] == JsonModel::Number(
            NumberModel::Float(xy.0@),
        ) && p[1] == JsonModel::Number(NumberModel::Float(xy.1@)),
{
}

} // verus!
