//! Which frame of a tab a request acts in, and whether it still can.

use vstd::prelude::*;
use crate::error::{self, ErrorCode, RubError};
use crate::json::{self, Json, JsonModel, JsonObject, NumberModel};
use crate::model::FrameContextInfo;
use crate::text;

verus! {

/// A frame in the list of a tab's frames.
#[derive(Debug)]
pub struct FrameInventoryEntry {
    pub index: u32,
    pub frame: FrameContextInfo,
    pub is_primary: bool,
    pub is_current: bool,
}

/// The frame that an orchestration asks for: the trimmed `frame_id`, unless it
/// is blank.
pub open spec fn frame_override(args: JsonModel) -> Option<Seq<char>> {
    match json::member(args, "_orchestration"@) {
        Some(orchestration) => match json::text_member(orchestration, "frame_id"@) {
            Some(id) => if text::trimmed(id).len() > 0 {
                Some(text::trimmed(id))
            } else {
                None
            },
            None => None,
        },
        None => None,
    }
}

pub fn orchestration_frame_override(args: &Json) -> (r: Option<&str>)
    ensures
        json::opt_str_text(r) == frame_override(args@),
{
    match args.get("_orchestration") {
        Some(orchestration) => match orchestration.get_str("frame_id") {
            Some(id) => {
                let trimmed = text::trim(id);
                if trimmed.is_empty() {
                    None
                } else {
                    Some(trimmed)
                }
            },
            None => None,
        },
        None => None,
    }
}

/// The orchestration member of a replayed request.
pub open spec fn replay_metadata(args: JsonModel) -> Option<JsonModel> {
    match frame_override(args) {
        Some(id) => Some(json::object1("frame_id"@, JsonModel::Text(id))),
        None => None,
    }
}

pub fn semantic_replay_orchestration_metadata(args: &Json) -> (r: Option<Json>)
    ensures
        error::opt_context(r) == replay_metadata(args@),
{
    match orchestration_frame_override(args) {
        Some(id) => Some(Json::Object(JsonObject::new().with("frame_id", json::text_value(id)))),
        None => None,
    }
}

/// The frame that a request acts in: the one an orchestration asks for, else
/// the one that the session has selected, else none.
pub open spec fn requested_frame(args: JsonModel, selected: Option<Seq<char>>) -> Option<
    Seq<char>,
> {
    match frame_override(args) {
        Some(id) => Some(id),
        None => selected,
    }
}

pub fn requested_frame_id(args: &Json, selected: &Option<String>) -> (r: Option<String>)
    ensures
        text::opt_text(r) == requested_frame(args@, text::opt_text(*selected)),
{
    match orchestration_frame_override(args) {
        Some(id) => Some(id.to_owned()),
        None => text::clone_opt(selected),
    }
}

/// The frame can be clicked and typed into from the top of its tab.
pub open spec fn switchable(entry: FrameInventoryEntry) -> bool {
    entry.is_primary || entry.frame.same_origin_accessible == Some(true)
}

pub fn is_switchable(entry: &FrameInventoryEntry) -> (r: bool)
    ensures
        r == switchable(*entry),
{
    entry.is_primary || matches!(entry.frame.same_origin_accessible, Some(true))
}

/// The first frame with the given identifier.
pub open spec fn frame_at(frames: Seq<FrameInventoryEntry>, frame_id: Seq<char>, i: int) -> bool {
    &&& 0 <= i < frames.len()
    &&& frames[i].frame.frame_id@ == frame_id
    &&& forall|j: int| 0 <= j < i ==> (#[trigger] frames[j]).frame.frame_id@ != frame_id
}

/// No frame has the given identifier.
pub open spec fn frame_absent(frames: Seq<FrameInventoryEntry>, frame_id: Seq<char>) -> bool {
    forall|j: int| 0 <= j < frames.len() ==> (#[trigger] frames[j]).frame.frame_id@ != frame_id
}

fn find_frame(frames: &Vec<FrameInventoryEntry>, frame_id: &str) -> (r: Option<usize>)
    ensures
        match r {
            Some(i) => frame_at(frames@, frame_id@, i as int),
            None => frame_absent(frames@, frame_id@),
        },
{
    let mut i: usize = 0;
    while i < frames.len()
        invariant
            i <= frames@.len(),
            forall|j: int| 0 <= j < i ==> (#[trigger] frames@[j]).frame.frame_id@ != frame_id@,
        decreases frames@.len() - i,
    {
        if text::str_eq(frames[i].frame.frame_id.as_str(), frame_id) {
            return Some(i);
        }
        i += 1;
    }
    None
}

pub open spec fn frame_error(
    message: Seq<char>,
    reason: Seq<char>,
    frame_id: Seq<char>,
) -> error::ErrorModel {
    error::with_context(
        ErrorCode::InvalidInput,
        message,
        JsonModel::Object(
            Map::<Seq<char>, JsonModel>::empty().insert("reason"@, JsonModel::Text(reason)).insert(
                "frame_id"@,
                JsonModel::Text(frame_id),
            ),
        ),
    )
}

fn frame_error_value(message: &str, reason: &str, frame_id: &str) -> (r: RubError)
    ensures
        r@ == frame_error(message@, reason@, frame_id@),
{
    let context = JsonObject::new().with("reason", json::text_value(reason)).with(
        "frame_id",
        json::text_value(frame_id),
    );
    RubError::domain_with_context(ErrorCode::InvalidInput, message, Json::Object(context))
}

/// The error for a tab whose frames could not be listed.
pub open spec fn inventory_unavailable(cause: Seq<char>, frame_id: Seq<char>) -> error::ErrorModel {
    frame_error(
        "Unable to revalidate selected-frame authority because the current frame inventory is unavailable: "@
            + cause,
        "continuity_frame_inventory_unavailable"@,
        frame_id,
    )
}

/// The error for a frame that is gone.
pub open spec fn frame_gone(frame_id: Seq<char>) -> error::ErrorModel {
    frame_error(
        "Selected frame '"@ + frame_id + "' is no longer present in the current tab inventory"@,
        "continuity_frame_unavailable"@,
        frame_id,
    )
}

/// The error for a frame that cannot be acted in.
pub open spec fn frame_unreachable(entry: FrameInventoryEntry) -> error::ErrorModel {
    error::with_context(
        ErrorCode::InvalidInput,
        "Selected frame '"@ + entry.frame.frame_id@
            + "' does not have top-level hit-test authority for frame-scoped interaction"@,
        JsonModel::Object(
            Map::<Seq<char>, JsonModel>::empty().insert(
                "reason"@,
                JsonModel::Text("continuity_frame_unavailable"@),
            ).insert("frame_id"@, JsonModel::Text(entry.frame.frame_id@)).insert(
                "same_origin_accessible"@,
                json::opt_bool_model(entry.frame.same_origin_accessible),
            ).insert("index"@, JsonModel::Number(NumberModel::Int(entry.index as int))),
        ),
    )
}

/// Whether a frame can be acted in.
pub fn ensure_frame_switchable(entry: &FrameInventoryEntry) -> (r: Result<(), RubError>)
    ensures
        match r {
            Ok(_) => switchable(*entry),
            Err(e) => !switchable(*entry) && e@ == frame_unreachable(*entry),
        },
{
    if is_switchable(entry) {
        return Ok(());
    }
    let message = text::cat3(
        "Selected frame '",
        entry.frame.frame_id.as_str(),
        "' does not have top-level hit-test authority for frame-scoped interaction",
    );
    let context = JsonObject::new().with(
        "reason",
        json::text_value("continuity_frame_unavailable"),
    ).with("frame_id", json::text_value(entry.frame.frame_id.as_str())).with(
        "same_origin_accessible",
        json::opt_bool_value(entry.frame.same_origin_accessible),
    ).with("index", json::uint_value(entry.index as u64));
    Err(
        RubError::domain_with_context(
            ErrorCode::InvalidInput,
            message.as_str(),
            Json::Object(context),
        ),
    )
}

/// The entry of a frame in the listed frames; `frames` is the cause where the
/// list could not be had.
pub fn request_frame_entry<'a>(
    frames: &'a Result<Vec<FrameInventoryEntry>, String>,
    frame_id: &str,
) -> (r: Result<&'a FrameInventoryEntry, RubError>)
    ensures
        match (frames, r) {
            (Ok(list), Ok(entry)) => exists|i: int|
                #[trigger] frame_at(list@, frame_id@, i) && *entry == list@[i],
            (Ok(list), Err(e)) => frame_absent(list@, frame_id@) && e@ == frame_gone(frame_id@),
            (Err(cause), Ok(_)) => false,
            (Err(cause), Err(e)) => e@ == inventory_unavailable(cause@, frame_id@),
        },
{
    match frames {
        Err(cause) => {
            let message = text::cat2(
                "Unable to revalidate selected-frame authority because the current frame inventory is unavailable: ",
                cause.as_str(),
            );
            Err(
                frame_error_value(
                    message.as_str(),
                    "continuity_frame_inventory_unavailable",
                    frame_id,
                ),
            )
        },
        Ok(list) => match find_frame(list, frame_id) {
            Some(i) => {
                assert(frame_at(list@, frame_id@, i as int));
                Ok(&list[i])
            },
            None => {
                let message = text::cat3(
                    "Selected frame '",
                    frame_id,
                    "' is no longer present in the current tab inventory",
                );
                Err(frame_error_value(message.as_str(), "continuity_frame_unavailable", frame_id))
            },
        },
    }
}

/// The frame that a request reads from. A request without a frame succeeds
/// whatever the frames are; one with a frame only where that frame is listed.
pub fn effective_request_frame_id(
    args: &Json,
    selected: &Option<String>,
    frames: &Result<Vec<FrameInventoryEntry>, String>,
) -> (r: Result<Option<String>, RubError>)
    ensures
        match requested_frame(args@, text::opt_text(*selected)) {
            None => r is Ok && r->Ok_0 is None,
            Some(id) => match (frames, r) {
                (Ok(list), Ok(frame)) => !frame_absent(list@, id) && text::opt_text(frame) == Some(
                    id,
                ),
                (Ok(list), Err(e)) => frame_absent(list@, id) && e@ == frame_gone(id),
                (Err(cause), Ok(_)) => false,
                (Err(cause), Err(e)) => e@ == inventory_unavailable(cause@, id),
            },
        },
{
    let requested = requested_frame_id(args, selected);
    match &requested {
        Some(id) => match request_frame_entry(frames, id.as_str()) {
            Ok(_) => {},
            Err(e) => {
                return Err(e);
            },
        },
        None => {},
    }
    Ok(requested)
}

/// The frame that a request acts in: as for reading, and the frame must be one
/// that can be acted in.
pub fn effective_interaction_frame_id(
    args: &Json,
    selected: &Option<String>,
    frames: &Result<Vec<FrameInventoryEntry>, String>,
) -> (r: Result<Option<String>, RubError>)
    ensures
        match requested_frame(args@, text::opt_text(*selected)) {
            None => r is Ok && r->Ok_0 is None,
            Some(id) => match (frames, r) {
                (Ok(list), Ok(frame)) => text::opt_text(frame) == Some(id) && exists|i: int|
                    #[trigger] frame_at(list@, id, i) && switchable(list@[i]),
                (Ok(list), Err(e)) => {
                    ||| frame_absent(list@, id) && e@ == frame_gone(id)
                    ||| exists|i: int|
                        #[trigger] frame_at(list@, id, i) && !switchable(list@[i]) && e@
                            == frame_unreachable(list@[i])
                },
                (Err(cause), Ok(_)) => false,
                (Err(cause), Err(e)) => e@ == inventory_unavailable(cause@, id),
            },
        },
{
    let requested = requested_frame_id(args, selected);
    match &requested {
        Some(id) => match request_frame_entry(frames, id.as_str()) {
            Ok(entry) => match ensure_frame_switchable(entry) {
                Ok(_) => {},
                Err(e) => {
                    return Err(e);
                },
            },
            Err(e) => {
                return Err(e);
            },
        },
        None => {},
    }
    Ok(requested)
}

/// A frame that can be acted in can also be read from: whenever a request may
/// act in its frame, it may read from it.
pub proof fn acting_implies_reading(frames: Seq<FrameInventoryEntry>, id: Seq<char>, i: int)
    requires
        frame_at(frames, id, i),
        switchable(frames[i]),
    ensures
        !frame_absent(frames, id),
{
}

/// What a trigger's frame check says of one frame of a tab.
pub open spec fn trigger_context(
    role: Seq<char>,
    suffix: Seq<char>,
    target_id: Seq<char>,
    frame_id: Seq<char>,
) -> Map<Seq<char>, JsonModel> {
    Map::<Seq<char>, JsonModel>::empty().insert(
        "reason"@,
        JsonModel::Text("trigger_"@ + role + suffix),
    ).insert("tab_target_id"@, JsonModel::Text(target_id)).insert(
        "frame_id"@,
        JsonModel::Text(frame_id),
    )
}

fn trigger_context_object(role: &str, suffix: &str, target_id: &str, frame_id: &str) -> (r:
    JsonObject)
    ensures
        r@ == trigger_context(role@, suffix@, target_id@, frame_id@),
{
    let reason = text::cat3("trigger_", role, suffix);
    JsonObject::new().with("reason", json::text_value(reason.as_str())).with(
        "tab_target_id",
        json::text_value(target_id),
    ).with("frame_id", json::text_value(frame_id))
}

pub open spec fn trigger_inventory_unavailable(
    cause: Seq<char>,
    target_id: Seq<char>,
    frame_id: Seq<char>,
    role: Seq<char>,
) -> error::ErrorModel {
    error::with_context(
        ErrorCode::SessionBusy,
        "Unable to inspect frame inventory for trigger "@ + role + " tab: "@ + cause,
        JsonModel::Object(
            trigger_context(role, "_frame_inventory_unavailable"@, target_id, frame_id),
        ),
    )
}

pub open spec fn trigger_frame_missing(
    target_id: Seq<char>,
    frame_id: Seq<char>,
    role: Seq<char>,
) -> error::ErrorModel {
    error::with_context(
        ErrorCode::InvalidInput,
        "Trigger "@ + role + " frame '"@ + frame_id + "' is not present in tab '"@ + target_id
            + "'"@,
        JsonModel::Object(trigger_context(role, "_frame_missing"@, target_id, frame_id)),
    )
}

pub open spec fn trigger_frame_unavailable(
    entry: FrameInventoryEntry,
    target_id: Seq<char>,
    frame_id: Seq<char>,
    role: Seq<char>,
) -> error::ErrorModel {
    error::with_context(
        ErrorCode::InvalidInput,
        "Trigger "@ + role + " frame '"@ + frame_id
            + "' does not have top-level hit-test authority for trigger execution"@,
        JsonModel::Object(
            trigger_context(role, "_frame_unavailable"@, target_id, frame_id).insert(
                "same_origin_accessible"@,
                json::opt_bool_model(entry.frame.same_origin_accessible),
            ).insert("index"@, JsonModel::Number(NumberModel::Int(entry.index as int))).insert(
                "cause"@,
                JsonModel::Text(error::envelope_of(frame_unreachable(entry)).message),
            ),
        ),
    )
}

/// Whether a trigger can act in a frame of a tab; `frames` is the cause where
/// the tab's frames could not be listed.
pub fn ensure_tab_frame_available(
    frames: &Result<Vec<FrameInventoryEntry>, String>,
    target_id: &str,
    frame_id: &str,
    role: &str,
) -> (r: Result<(), RubError>)
    ensures
        match (frames, r) {
            (Ok(list), Ok(_)) => exists|i: int|
                #[trigger] frame_at(list@, frame_id@, i) && switchable(list@[i]),
            (Ok(list), Err(e)) => {
                ||| frame_absent(list@, frame_id@) && e@ == trigger_frame_missing(
                    target_id@,
                    frame_id@,
                    role@,
                )
                ||| exists|i: int|
                    #[trigger] frame_at(list@, frame_id@, i) && !switchable(list@[i]) && e@
                        == trigger_frame_unavailable(list@[i], target_id@, frame_id@, role@)
            },
            (Err(cause), Ok(_)) => false,
            (Err(cause), Err(e)) => e@ == trigger_inventory_unavailable(
                cause@,
                target_id@,
                frame_id@,
                role@,
            ),
        },
{
    let list = match frames {
        Ok(list) => list,
        Err(cause) => {
            let head = text::cat3(
                "Unable to inspect frame inventory for trigger ",
                role,
                " tab: ",
            );
            let message = text::cat2(head.as_str(), cause.as_str());
            return Err(
                RubError::domain_with_context(
                    ErrorCode::SessionBusy,
                    message.as_str(),
                    Json::Object(
                        trigger_context_object(
                            role,
                            "_frame_inventory_unavailable",
                            target_id,
                            frame_id,
                        ),
                    ),
                ),
            );
        },
    };
    let at: usize = match find_frame(list, frame_id) {
        Some(i) => i,
        None => {
            let head = text::cat5("Trigger ", role, " frame '", frame_id, "' is not present in tab '");
            let message = text::cat3(head.as_str(), target_id, "'");
            return Err(
                RubError::domain_with_context(
                    ErrorCode::InvalidInput,
                    message.as_str(),
                    Json::Object(
                        trigger_context_object(role, "_frame_missing", target_id, frame_id),
                    ),
                ),
            );
        },
    };
    let entry = &list[at];
    match ensure_frame_switchable(entry) {
        Ok(_) => Ok(()),
        Err(e) => {
            let cause = e.into_envelope().message;
            let message = text::cat5(
                "Trigger ",
                role,
                " frame '",
                frame_id,
                "' does not have top-level hit-test authority for trigger execution",
            );
            let context = trigger_context_object(
                role,
                "_frame_unavailable",
                target_id,
                frame_id,
            ).with(
                "same_origin_accessible",
                json::opt_bool_value(entry.frame.same_origin_accessible),
            ).with("index", json::uint_value(entry.index as u64)).with(
                "cause",
                json::text_value(cause.as_str()),
            );
            Err(
                RubError::domain_with_context(
                    ErrorCode::InvalidInput,
                    message.as_str(),
                    Json::Object(context),
                ),
            )
        },
    }
}

/// A frame that an orchestration asks for goes before the one that the session has
/// selected; one that is blank or no text is as good as none.
pub proof fn the_asked_for_frame_goes_first(args: JsonModel, selected: Option<Seq<char>>)
    ensures
        frame_override(args) is Some ==> requested_frame(args, selected) == frame_override(args),
        frame_override(args) is None ==> requested_frame(args, selected) == selected,
        json::member(args, "_orchestration"@) is None ==> frame_override(args) is None,
        json::member(args, "_orchestration"@) matches Some(o) ==> match json::member(
            o,
            "frame_id"@,
        ) {
            Some(JsonModel::Text(id)) => if text::blank(id) {
                frame_override(args) is None
            } else {
                frame_override(args) == Some(text::trimmed(id))
            },
            _ => frame_override(args) is None,
        },
{
    if let Some(o) = json::member(args, "_orchestration"@) {
        if let Some(JsonModel::Text(id)) = json::member(o, "frame_id"@) {
            text::blank_texts_trim_to_nothing(id);
        }
    }
}

/// A replayed request asks for the frame that the request asked for, and asks for
/// none where the request did not.
pub proof fn replays_ask_for_the_same_frame(args: JsonModel, rest: Map<Seq<char>, JsonModel>)
    ensures
        replay_metadata(args) is Some <==> frame_override(args) is Some,
        replay_metadata(args) matches Some(o) ==> frame_override(
            JsonModel::Object(rest.insert("_orchestration"@, o)),
        ) == frame_override(args),
{
    if let Some(o) = json::member(args, "_orchestration"@) {
        if let Some(JsonModel::Text(id)) = json::member(o, "frame_id"@) {
            text::trimmed_idempotent(id);
        }
    }
}

/// A frame can be acted in exactly where it is the tab's own or its content can be
/// reached from there; where that is not known it cannot.
pub proof fn frames_are_acted_in_where_they_can_be_reached(entry: FrameInventoryEntry)
    ensures
        entry.is_primary ==> switchable(entry),
        !entry.is_primary && entry.frame.same_origin_accessible is None ==> !switchable(entry),
        !entry.is_primary ==> (entry.frame.same_origin_accessible matches Some(b) ==> (switchable(
            entry,
        ) <==> b)),
{
}

/// A name stands for at most one place in the list, the first that has it, and a
/// list either has the name or lacks it.
pub proof fn frames_are_found_by_their_first_place(
    frames: Seq<FrameInventoryEntry>,
    id: Seq<char>,
    i: int,
    j: int,
)
    ensures
        frame_at(frames, id, i) && frame_at(frames, id, j) ==> i == j,
        frame_at(frames, id, i) ==> frames[i].frame.frame_id@ == id && !frame_absent(frames, id),
        !frame_absent(frames, id) ==> exists|k: int| frame_at(frames, id, k),
    decreases frames.len(),
{
    if !frame_absent(frames, id) {
        let front = frames.drop_last();
        if frame_absent(front, id) {
            assert forall|k: int| 0 <= k < frames.len() - 1 implies (
            #[trigger] frames[k]).frame.frame_id@ != id by {
                assert(front[k] == frames[k]);
            }
            assert(frame_at(frames, id, frames.len() - 1));
        } else {
            frames_are_found_by_their_first_place(front, id, i, j);
            let k = choose|k: int| frame_at(front, id, k);
            assert forall|x: int| 0 <= x < k implies (#[trigger] frames[x]).frame.frame_id@
                != id by {
                assert(front[x] == frames[x]);
            }
            assert(front[k] == frames[k]);
            assert(frame_at(frames, id, k));
        }
    }
}

/// An error about a frame names the frame and why it cannot be used.
pub proof fn frame_errors_name_the_frame(
    cause: Seq<char>,
    frame_id: Seq<char>,
    entry: FrameInventoryEntry,
)
    ensures
        ({
            &&& inventory_unavailable(cause, frame_id) matches error::ErrorModel::Domain(e)
            &&& e.code == ErrorCode::InvalidInput
            &&& e.context matches Some(c)
            &&& json::member(c, "frame_id"@) == Some(JsonModel::Text(frame_id))
            &&& json::member(c, "reason"@) == Some(
                JsonModel::Text("continuity_frame_inventory_unavailable"@),
            )
        }),
        ({
            &&& frame_gone(frame_id) matches error::ErrorModel::Domain(e)
            &&& e.code == ErrorCode::InvalidInput
            &&& e.context matches Some(c)
            &&& json::member(c, "frame_id"@) == Some(JsonModel::Text(frame_id))
            &&& json::member(c, "reason"@) == Some(JsonModel::Text("continuity_frame_unavailable"@))
        }),
        ({
            &&& frame_unreachable(entry) matches error::ErrorModel::Domain(e)
            &&& e.code == ErrorCode::InvalidInput
            &&& e.context matches Some(c)
            &&& json::member(c, "frame_id"@) == Some(JsonModel::Text(entry.frame.frame_id@))
            &&& json::member(c, "reason"@) == Some(JsonModel::Text("continuity_frame_unavailable"@))
            &&& json::member(c, "index"@) == Some(json::number(entry.index as int))
        }),
{
    reveal_strlit("reason");
    reveal_strlit("frame_id");
    reveal_strlit("same_origin_accessible");
    reveal_strlit("index");
    assert("reason"@.len() != "frame_id"@.len());
    assert("reason"@.len() != "same_origin_accessible"@.len());
    assert("reason"@.len() != "index"@.len());
    assert("frame_id"@.len() != "same_origin_accessible"@.len());
    assert("frame_id"@.len() != "index"@.len());
    assert("same_origin_accessible"@.len() != "index"@.len());
}

/// An error about the frame of a trigger names the trigger's end, the tab and the frame.
pub proof fn trigger_errors_name_tab_and_frame(
    cause: Seq<char>,
    target_id: Seq<char>,
    frame_id: Seq<char>,
    role: Seq<char>,
    entry: FrameInventoryEntry,
)
    ensures
        ({
            &&& trigger_inventory_unavailable(cause, target_id, frame_id, role) matches error::ErrorModel::Domain(e)
            &&& e.code == ErrorCode::SessionBusy
            &&& e.context matches Some(c)
            &&& json::member(c, "frame_id"@) == Some(JsonModel::Text(frame_id))
            &&& json::member(c, "tab_target_id"@) == Some(JsonModel::Text(target_id))
            &&& json::member(c, "reason"@) == Some(
                JsonModel::Text("trigger_"@ + role + "_frame_inventory_unavailable"@),
            )
        }),
        ({
            &&& trigger_frame_missing(target_id, frame_id, role) matches error::ErrorModel::Domain(e)
            &&& e.code == ErrorCode::InvalidInput
            &&& e.context matches Some(c)
            &&& json::member(c, "frame_id"@) == Some(JsonModel::Text(frame_id))
            &&& json::member(c, "tab_target_id"@) == Some(JsonModel::Text(target_id))
            &&& json::member(c, "reason"@) == Some(
                JsonModel::Text("trigger_"@ + role + "_frame_missing"@),
            )
        }),
        ({
            &&& trigger_frame_unavailable(entry, target_id, frame_id, role) matches error::ErrorModel::Domain(e)
            &&& e.code == ErrorCode::InvalidInput
            &&& e.context matches Some(c)
            &&& json::member(c, "frame_id"@) == Some(JsonModel::Text(frame_id))
            &&& json::member(c, "tab_target_id"@) == Some(JsonModel::Text(target_id))
            &&& json::member(c, "reason"@) == Some(
                JsonModel::Text("trigger_"@ + role + "_frame_unavailable"@),
            )
            &&& json::member(c, "index"@) == Some(json::number(entry.index as int))
        }),
{
    reveal_strlit("reason");
    reveal_strlit("frame_id");
    reveal_strlit("tab_target_id");
    reveal_strlit("same_origin_accessible");
    reveal_strlit("index");
    reveal_strlit("cause");
    assert("reason"@.len() != "frame_id"@.len());
    assert("reason"@.len() != "tab_target_id"@.len());
    assert("reason"@.len() != "same_origin_accessible"@.len());
    assert("reason"@.len() != "index"@.len());
    assert("reason"@.len() != "cause"@.len());
    assert("frame_id"@.len() != "tab_target_id"@.len());
    assert("frame_id"@.len() != "same_origin_accessible"@.len());
    assert("frame_id"@.len() != "index"@.len());
    assert("frame_id"@.len() != "cause"@.len());
    assert("tab_target_id"@.len() != "same_origin_accessible"@.len());
    assert("tab_target_id"@.len() != "index"@.len());
    assert("tab_target_id"@.len() != "cause"@.len());
    assert("same_origin_accessible"@.len() != "index"@.len());
    assert("same_origin_accessible"@.len() != "cause"@.len());
    assert("index"@[0] != "cause"@[0]);
}

/// A request acts in no frame of its own where it asks for none and none is selected; else
/// in the frame that it asks for, and where it asks for none in the selected one, where that
/// frame is listed and can be reached. Reading asks only that it is listed.
pub proof fn requests_act_in_frames_that_can_be_reached(
    args: Json,
    selected: Option<String>,
    list: Vec<FrameInventoryEntry>,
    reading: Result<Option<String>, RubError>,
    acting: Result<Option<String>, RubError>,
    k: int,
)
    requires
        call_ensures(
            effective_request_frame_id,
            (&args, &selected, &Ok::<Vec<FrameInventoryEntry>, String>(list)),
            reading,
        ),
        call_ensures(
            effective_interaction_frame_id,
            (&args, &selected, &Ok::<Vec<FrameInventoryEntry>, String>(list)),
            acting,
        ),
        frame_override(args@) is None,
    ensures
        selected is None ==> reading is Ok && reading->Ok_0 is None && acting is Ok && acting->Ok_0
            is None,
        selected matches Some(id) ==> (reading is Ok <==> exists|i: int|
            0 <= i < list@.len() && (#[trigger] list@[i]).frame.frame_id@ == id@),
        selected matches Some(id) ==> (reading matches Ok(r) ==> text::opt_text(r) == Some(id@)),
        selected matches Some(id) ==> (acting matches Ok(r) ==> text::opt_text(r) == Some(id@)),
        acting is Ok ==> reading is Ok,
        selected matches Some(id) ==> (0 <= k < list@.len() && list@[k].frame.frame_id@ == id@ && (
        forall|j: int| 0 <= j < k ==> (#[trigger] list@[j]).frame.frame_id@ != id@) ==> (acting
            is Ok <==> switchable(list@[k]))),
{
}

} // verus!
