//! Selecting a frame of the current tab.

use vstd::prelude::*;
use crate::error::{self, ErrorCode, RubError};
use crate::frame_scope::{is_switchable, FrameInventoryEntry};
use crate::frame_scope;
use crate::json::{self, Json, JsonModel, JsonObject, NumberModel};
use crate::text;

verus! {

/// The selector of a frame request; the first that is given counts.
#[derive(Debug)]
pub struct FrameSelectionArgs {
    pub top: bool,
    pub index: Option<u32>,
    pub name: Option<String>,
}

/// What the request selected by.
pub open spec fn selection_subject(args: FrameSelectionArgs) -> JsonModel {
    let empty = Map::<Seq<char>, JsonModel>::empty();
    JsonModel::Object(
        if args.top {
            empty.insert("kind"@, JsonModel::Text("top"@))
        } else if args.index is Some {
            empty.insert("kind"@, JsonModel::Text("index"@)).insert(
                "index"@,
                JsonModel::Number(NumberModel::Int(args.index->0 as int)),
            )
        } else if args.name is Some {
            empty.insert("kind"@, JsonModel::Text("name"@)).insert(
                "name"@,
                JsonModel::Text(args.name->0@),
            )
        } else {
            empty.insert("kind"@, JsonModel::Text("unknown"@))
        },
    )
}

pub fn frame_selection_subject(args: &FrameSelectionArgs) -> (r: Json)
    ensures
        r@ == selection_subject(*args),
{
    if args.top {
        return Json::Object(JsonObject::new().with("kind", json::text_value("top")));
    }
    if let Some(index) = args.index {
        return Json::Object(
            JsonObject::new().with("kind", json::text_value("index")).with(
                "index",
                json::uint_value(index as u64),
            ),
        );
    }
    if let Some(name) = &args.name {
        return Json::Object(
            JsonObject::new().with("kind", json::text_value("name")).with(
                "name",
                json::text_value(name.as_str()),
            ),
        );
    }
    Json::Object(JsonObject::new().with("kind", json::text_value("unknown")))
}

/// An answer on frames: what it is about, the current frame and the listed
/// frames, and the state of the frame runtime.
pub open spec fn frame_answer(
    subject: JsonModel,
    current_frame: JsonModel,
    items: JsonModel,
    runtime: JsonModel,
) -> JsonModel {
    let empty = Map::<Seq<char>, JsonModel>::empty();
    JsonModel::Object(
        empty.insert("subject"@, subject).insert(
            "result"@,
            JsonModel::Object(
                empty.insert("current_frame"@, current_frame).insert("items"@, items),
            ),
        ).insert("runtime"@, runtime),
    )
}

fn frame_payload(subject: Json, current_frame: Json, items: Json, runtime: Json) -> (r: Json)
    ensures
        r@ == frame_answer(subject@, current_frame@, items@, runtime@),
{
    let result = JsonObject::new().with("current_frame", current_frame).with("items", items);
    Json::Object(
        JsonObject::new().with("subject", subject).with("result", Json::Object(result)).with(
            "runtime",
            runtime,
        ),
    )
}

/// The answer that lists the frames of the current tab.
pub fn frame_inventory_payload(current_frame: Json, items: Json, runtime: Json) -> (r: Json)
    ensures
        r@ == frame_answer(
            JsonModel::Object(
                Map::<Seq<char>, JsonModel>::empty().insert(
                    "kind"@,
                    JsonModel::Text("frame_inventory"@),
                ),
            ),
            current_frame@,
            items@,
            runtime@,
        ),
{
    let subject = JsonObject::new().with("kind", json::text_value("frame_inventory"));
    frame_payload(Json::Object(subject), current_frame, items, runtime)
}

/// The answer to a request that selected a frame.
pub fn frame_selection_payload(
    args: &FrameSelectionArgs,
    current_frame: Json,
    items: Json,
    runtime: Json,
) -> (r: Json)
    ensures
        r@ == frame_answer(
            JsonModel::Object(
                Map::<Seq<char>, JsonModel>::empty().insert(
                    "kind"@,
                    JsonModel::Text("frame_selection"@),
                ).insert("selector"@, selection_subject(*args)),
            ),
            current_frame@,
            items@,
            runtime@,
        ),
{
    let subject = JsonObject::new().with("kind", json::text_value("frame_selection")).with(
        "selector",
        frame_selection_subject(args),
    );
    frame_payload(Json::Object(subject), current_frame, items, runtime)
}

/// The frames with the given name, in order.
pub open spec fn with_name(frames: Seq<FrameInventoryEntry>, name: Seq<char>) -> Seq<
    FrameInventoryEntry,
>
    decreases frames.len(),
{
    if frames.len() == 0 {
        seq![]
    } else {
        let rest = with_name(frames.drop_last(), name);
        if text::opt_text(frames.last().frame.name) == Some(name) {
            rest.push(frames.last())
        } else {
            rest
        }
    }
}

/// The frame at position `i` is the first with the given number.
pub open spec fn index_at(frames: Seq<FrameInventoryEntry>, index: u32, i: int) -> bool {
    &&& 0 <= i < frames.len()
    &&& frames[i].index == index
    &&& forall|j: int| 0 <= j < i ==> (#[trigger] frames[j]).index != index
}

pub open spec fn index_absent(frames: Seq<FrameInventoryEntry>, index: u32) -> bool {
    forall|j: int| 0 <= j < frames.len() ==> (#[trigger] frames[j]).index != index
}

/// The error for a frame that cannot be switched to.
pub open spec fn not_switchable(entry: FrameInventoryEntry) -> error::ErrorModel {
    error::with_context(
        ErrorCode::InvalidInput,
        "Frame '"@ + entry.frame.frame_id@
            + "' is not same-origin accessible for frame-scoped snapshot and interaction"@,
        JsonModel::Object(
            Map::<Seq<char>, JsonModel>::empty().insert(
                "frame_id"@,
                JsonModel::Text(entry.frame.frame_id@),
            ).insert(
                "same_origin_accessible"@,
                json::opt_bool_model(entry.frame.same_origin_accessible),
            ).insert("index"@, JsonModel::Number(NumberModel::Int(entry.index as int))),
        ),
    )
}

/// Whether a frame can be switched to.
pub fn ensure_frame_switchable(entry: &FrameInventoryEntry) -> (r: Result<(), RubError>)
    ensures
        match r {
            Ok(_) => frame_scope::switchable(*entry),
            Err(e) => !frame_scope::switchable(*entry) && e@ == not_switchable(*entry),
        },
{
    if is_switchable(entry) {
        return Ok(());
    }
    let message = text::cat3(
        "Frame '",
        entry.frame.frame_id.as_str(),
        "' is not same-origin accessible for frame-scoped snapshot and interaction",
    );
    let context = JsonObject::new().with(
        "frame_id",
        json::text_value(entry.frame.frame_id.as_str()),
    ).with(
        "same_origin_accessible",
        json::opt_bool_value(entry.frame.same_origin_accessible),
    ).with("index", json::uint_value(entry.index as u64));
    Err(
        RubError::domain_with_context(
            ErrorCode::InvalidInput,
            message.as_str(),
            Json::Object(context),
        ),
    )
}

/// The outcome of selecting one found frame.
pub open spec fn selects(entry: FrameInventoryEntry, r: Result<Option<String>, RubError>) -> bool {
    match r {
        Ok(id) => frame_scope::switchable(entry) && text::opt_text(id) == Some(
            entry.frame.frame_id@,
        ),
        Err(e) => !frame_scope::switchable(entry) && e@ == not_switchable(entry),
    }
}

fn select_entry(entry: &FrameInventoryEntry) -> (r: Result<Option<String>, RubError>)
    ensures
        selects(*entry, r),
{
    match ensure_frame_switchable(entry) {
        Ok(_) => Ok(Some(entry.frame.frame_id.clone())),
        Err(e) => Err(e),
    }
}

pub open spec fn index_missing(index: u32) -> error::ErrorModel {
    error::plain(
        ErrorCode::InvalidInput,
        "Frame index "@ + text::decimal(index as nat)
            + " is not present in the current inventory"@,
    )
}

pub open spec fn name_missing(name: Seq<char>) -> error::ErrorModel {
    error::plain(
        ErrorCode::InvalidInput,
        "Frame named '"@ + name + "' is not present in the current inventory"@,
    )
}

pub open spec fn index_numbers(frames: Seq<FrameInventoryEntry>) -> Seq<JsonModel> {
    frames.map_values(
        |e: FrameInventoryEntry| JsonModel::Number(NumberModel::Int(e.index as int)),
    )
}

pub open spec fn name_ambiguous(
    name: Seq<char>,
    frames: Seq<FrameInventoryEntry>,
) -> error::ErrorModel {
    error::with_context(
        ErrorCode::InvalidInput,
        "Frame name '"@ + name + "' is ambiguous"@,
        JsonModel::Object(
            Map::<Seq<char>, JsonModel>::empty().insert("name"@, JsonModel::Text(name)).insert(
                "matching_indices"@,
                JsonModel::Array(index_numbers(frames)),
            ),
        ),
    )
}

/// What a frame request selects: nothing for the top frame; else the one frame
/// with the number or the name, if there is exactly one and it can be switched
/// to.
pub open spec fn selection(
    args: FrameSelectionArgs,
    frames: Seq<FrameInventoryEntry>,
    r: Result<Option<String>, RubError>,
) -> bool {
    if args.top {
        r is Ok && r->Ok_0 is None
    } else if args.index is Some {
        let index = args.index->0;
        ||| exists|i: int| #[trigger] index_at(frames, index, i) && selects(frames[i], r)
        ||| index_absent(frames, index) && error::err_model(r) == Some(index_missing(index))
    } else if args.name is Some {
        let name = text::trimmed(args.name->0@);
        let matches = with_name(frames, name);
        if matches.len() == 0 {
            error::err_model(r) == Some(name_missing(name))
        } else if matches.len() > 1 {
            error::err_model(r) == Some(name_ambiguous(name, matches))
        } else {
            selects(matches[0], r)
        }
    } else {
        error::err_model(r) == Some(
            error::plain(
                ErrorCode::InvalidInput,
                "frame requires exactly one selector: <index>, --name, or --top"@,
            ),
        )
    }
}

fn select_by_index(index: u32, frames: &Vec<FrameInventoryEntry>) -> (r: Result<
    Option<String>,
    RubError,
>)
    ensures
        ({
            ||| exists|i: int| #[trigger] index_at(frames@, index, i) && selects(frames@[i], r)
            ||| index_absent(frames@, index) && error::err_model(r) == Some(index_missing(index))
        }),
{
    let mut i: usize = 0;
    while i < frames.len()
        invariant
            i <= frames@.len(),
            forall|j: int| 0 <= j < i ==> (#[trigger] frames@[j]).index != index,
        decreases frames@.len() - i,
    {
        if frames[i].index == index {
            assert(index_at(frames@, index, i as int));
            return select_entry(&frames[i]);
        }
        i += 1;
    }
    let number = text::decimal_string(index as u64);
    let message = text::cat3(
        "Frame index ",
        number.as_str(),
        " is not present in the current inventory",
    );
    Err(RubError::domain(ErrorCode::InvalidInput, message.as_str()))
}

fn has_name(entry: &FrameInventoryEntry, name: &str) -> (r: bool)
    ensures
        r == (text::opt_text(entry.frame.name) == Some(name@)),
{
    match &entry.frame.name {
        Some(n) => text::str_eq(n.as_str(), name),
        None => false,
    }
}

fn select_by_name(name: &str, frames: &Vec<FrameInventoryEntry>) -> (r: Result<
    Option<String>,
    RubError,
>)
    ensures
        ({
            let matches = with_name(frames@, name@);
            if matches.len() == 0 {
                error::err_model(r) == Some(name_missing(name@))
            } else if matches.len() > 1 {
                error::err_model(r) == Some(name_ambiguous(name@, matches))
            } else {
                selects(matches[0], r)
            }
        }),
{
    let mut numbers: Vec<Json> = Vec::new();
    let mut first: usize = 0;
    let mut i: usize = 0;
    while i < frames.len()
        invariant
            i <= frames@.len(),
            numbers@.len() == with_name(frames@.take(i as int), name@).len(),
            json::items_model(numbers@) == index_numbers(with_name(frames@.take(i as int), name@)),
            numbers@.len() > 0 ==> first < i && with_name(frames@.take(i as int), name@)[0]
                == frames@[first as int],
        decreases frames@.len() - i,
    {
        let ghost found = with_name(frames@.take(i as int), name@);
        assert(frames@.take(i + 1).drop_last() =~= frames@.take(i as int));
        if has_name(&frames[i], name) {
            if numbers.len() == 0 {
                first = i;
            }
            let ghost before = numbers@;
            numbers.push(json::uint_value(frames[i].index as u64));
            assert(numbers@.drop_last() =~= before);
            assert(index_numbers(found.push(frames@[i as int])) =~= index_numbers(found).push(
                JsonModel::Number(NumberModel::Int(frames@[i as int].index as int)),
            ));
        }
        i += 1;
    }
    assert(frames@.take(i as int) =~= frames@);
    if numbers.len() == 0 {
        let message = text::cat3(
            "Frame named '",
            name,
            "' is not present in the current inventory",
        );
        return Err(RubError::domain(ErrorCode::InvalidInput, message.as_str()));
    }
    if numbers.len() > 1 {
        let message = text::cat3("Frame name '", name, "' is ambiguous");
        let context = JsonObject::new().with("name", json::text_value(name)).with(
            "matching_indices",
            Json::Array(numbers),
        );
        return Err(
            RubError::domain_with_context(
                ErrorCode::InvalidInput,
                message.as_str(),
                Json::Object(context),
            ),
        );
    }
    select_entry(&frames[first])
}

/// Finds the frame that a request selects; the top frame is no frame.
pub fn resolve_selected_frame_id(
    args: &FrameSelectionArgs,
    frames: &Vec<FrameInventoryEntry>,
) -> (r: Result<Option<String>, RubError>)
    ensures
        selection(*args, frames@, r),
{
    if args.top {
        return Ok(None);
    }
    if let Some(index) = args.index {
        return select_by_index(index, frames);
    }
    if let Some(name) = &args.name {
        return select_by_name(text::trim(name.as_str()), frames);
    }
    Err(
        RubError::domain(
            ErrorCode::InvalidInput,
            "frame requires exactly one selector: <index>, --name, or --top",
        ),
    )
}

proof fn with_name_members(frames: Seq<FrameInventoryEntry>, name: Seq<char>)
    ensures
        forall|k: int|
            0 <= k < with_name(frames, name).len() ==> exists|i: int|
                0 <= i < frames.len() && #[trigger] frames[i] == #[trigger] with_name(
                    frames,
                    name,
                )[k],
    decreases frames.len(),
{
    if frames.len() > 0 {
        let front = frames.drop_last();
        with_name_members(front, name);
        assert forall|k: int| 0 <= k < with_name(frames, name).len() implies exists|i: int|
            0 <= i < frames.len() && #[trigger] frames[i] == #[trigger] with_name(
                frames,
                name,
            )[k] by {
            if k < with_name(front, name).len() {
                let i = choose|i: int|
                    0 <= i < front.len() && #[trigger] front[i] == with_name(front, name)[k];
                assert(frames[i] == with_name(frames, name)[k]);
            } else {
                assert(frames[frames.len() - 1] == with_name(frames, name)[k]);
            }
        }
    }
}

/// Whatever frame is selected is one of the listed frames and can be switched
/// to.
pub proof fn selected_frames_are_listed_and_switchable(
    args: FrameSelectionArgs,
    frames: Seq<FrameInventoryEntry>,
    r: Result<Option<String>, RubError>,
)
    requires
        selection(args, frames, r),
        r is Ok && r->Ok_0 is Some,
    ensures
        exists|i: int|
            0 <= i < frames.len() && frame_scope::switchable(#[trigger] frames[i])
                && frames[i].frame.frame_id@ == r->Ok_0->0@,
{
    if !args.top && args.index is None && args.name is Some {
        let name = text::trimmed(args.name->0@);
        with_name_members(frames, name);
        let found = with_name(frames, name);
        let i = choose|i: int| 0 <= i < frames.len() && #[trigger] frames[i] == found[0];
        assert(frame_scope::switchable(frames[i]));
    }
}

/// The frames with a name are those that have it, each in its order, and no other.
pub proof fn names_find_all_their_frames(
    frames: Seq<FrameInventoryEntry>,
    entry: FrameInventoryEntry,
    name: Seq<char>,
)
    ensures
        with_name(seq![], name).len() == 0,
        text::opt_text(entry.frame.name) == Some(name) ==> with_name(frames.push(entry), name)
            == with_name(frames, name).push(entry),
        text::opt_text(entry.frame.name) != Some(name) ==> with_name(frames.push(entry), name)
            == with_name(frames, name),
{
    assert(frames.push(entry).drop_last() =~= frames);
}

/// `top` selects no frame, whatever else the request gives. A number goes before a
/// name. A request without a selector, a number or a name that no frame has, a name
/// that several have, and a frame that cannot be switched to are refused.
pub proof fn selectors_go_in_order(
    args: FrameSelectionArgs,
    frames: Seq<FrameInventoryEntry>,
    r: Result<Option<String>, RubError>,
)
    requires
        selection(args, frames, r),
    ensures
        args.top ==> r is Ok && r->Ok_0 is None,
        !args.top && r is Ok ==> r->Ok_0 is Some,
        !args.top && args.index is None && args.name is None ==> r is Err,
        !args.top && args.index is Some ==> {
            let index = args.index->0;
            &&& index_absent(frames, index) ==> r is Err
            &&& r is Ok ==> exists|i: int|
                0 <= i < frames.len() && (#[trigger] frames[i]).index == index
                    && frames[i].frame.frame_id@ == r->Ok_0->0@ && (forall|j: int|
                    0 <= j < i ==> (#[trigger] frames[j]).index != index)
        },
        !args.top && args.index is None && args.name is Some ==> {
            let found = with_name(frames, text::trimmed(args.name->0@));
            &&& r is Ok ==> found.len() == 1 && found[0].frame.frame_id@ == r->Ok_0->0@
            &&& found.len() == 1 && frame_scope::switchable(found[0]) ==> r is Ok
        },
        r matches Err(e) ==> (e@ matches error::ErrorModel::Domain(x) && x.code
            == ErrorCode::InvalidInput),
{
    if !args.top && args.index is Some && r is Ok {
        let index = args.index->0;
        let i = choose|i: int| #[trigger] index_at(frames, index, i) && selects(frames[i], r);
        assert(frames[i].index == index);
    }
}

/// What a request selected by is told: the top before a number, and a number before a name.
pub proof fn selections_are_told(args: FrameSelectionArgs)
    ensures
        ({
            let r = selection_subject(args);
            &&& args.top ==> json::member(r, "kind"@) == Some(JsonModel::Text("top"@))
            &&& !args.top ==> (args.index matches Some(n) ==> json::member(r, "kind"@) == Some(
                JsonModel::Text("index"@),
            ) && json::member(r, "index"@) == Some(json::number(n as int)))
            &&& !args.top && args.index is None ==> (args.name matches Some(name) ==> json::member(
                r,
                "kind"@,
            ) == Some(JsonModel::Text("name"@)) && json::member(r, "name"@) == Some(
                JsonModel::Text(name@),
            ))
            &&& !args.top && args.index is None && args.name is None ==> json::member(r, "kind"@)
                == Some(JsonModel::Text("unknown"@))
        }),
{
    reveal_strlit("kind");
    reveal_strlit("index");
    reveal_strlit("name");
    assert("kind"@.len() != "index"@.len());
    assert("kind"@[0] != "name"@[0]);
    assert("index"@.len() != "name"@.len());
}

/// An answer on frames shows its subject, the current frame, the frames and the runtime.
pub proof fn frame_answers_show_their_parts(
    subject: JsonModel,
    current_frame: JsonModel,
    items: JsonModel,
    runtime: JsonModel,
)
    ensures
        ({
            let r = frame_answer(subject, current_frame, items, runtime);
            &&& json::member(r, "subject"@) == Some(subject)
            &&& json::member(r, "runtime"@) == Some(runtime)
            &&& json::member(r, "result"@) matches Some(shown)
            &&& json::member(shown, "current_frame"@) == Some(current_frame)
            &&& json::member(shown, "items"@) == Some(items)
        }),
{
    reveal_strlit("subject");
    reveal_strlit("result");
    reveal_strlit("runtime");
    assert("subject"@.len() != "result"@.len());
    assert("subject"@[0] != "runtime"@[0]);
    assert("result"@.len() != "runtime"@.len());
    reveal_strlit("current_frame");
    reveal_strlit("items");
    assert("current_frame"@.len() != "items"@.len());
}

/// A frame that cannot be switched to is named, and so are all frames of an ambiguous name,
/// by their numbers in order.
pub proof fn refused_selections_name_their_frames(
    entry: FrameInventoryEntry,
    name: Seq<char>,
    frames: Seq<FrameInventoryEntry>,
    i: int,
)
    requires
        0 <= i < frames.len(),
    ensures
        ({
            &&& not_switchable(entry) matches error::ErrorModel::Domain(e)
            &&& e.code == ErrorCode::InvalidInput
            &&& e.context matches Some(c)
            &&& json::member(c, "frame_id"@) == Some(JsonModel::Text(entry.frame.frame_id@))
            &&& json::member(c, "index"@) == Some(json::number(entry.index as int))
            &&& json::member(c, "same_origin_accessible"@) == Some(
                json::opt_bool_model(entry.frame.same_origin_accessible),
            )
        }),
        name_ambiguous(name, frames) matches error::ErrorModel::Domain(e) && e.code
            == ErrorCode::InvalidInput && (e.context matches Some(c) && json::member(c, "name"@)
            == Some(JsonModel::Text(name)) && (json::member(c, "matching_indices"@) matches Some(
            JsonModel::Array(numbers),
        ) && numbers.len() == frames.len() && numbers[i] == json::number(frames[i].index as int))),
{
    reveal_strlit("frame_id");
    reveal_strlit("same_origin_accessible");
    reveal_strlit("index");
    assert("frame_id"@.len() != "same_origin_accessible"@.len());
    assert("frame_id"@.len() != "index"@.len());
    assert("same_origin_accessible"@.len() != "index"@.len());
    reveal_strlit("name");
    reveal_strlit("matching_indices");
    assert("name"@.len() != "matching_indices"@.len());
}

} // verus!
