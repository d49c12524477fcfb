//! What is told of a locator that matches more than one element.

use vstd::prelude::*;
use crate::element_semantics as semantics;
use crate::element_semantics::{
    accessible_label,
    has_snapshot_visible_bbox,
    is_disabled_in_snapshot,
    semantic_role,
    test_id,
};
use crate::error::{self, ErrorCode, RubError};
use crate::interaction::explain::target;
use crate::json::{self, Json, JsonModel, JsonObject, NumberModel};
use crate::locator::{self, LocatorSelection};
use crate::model::{self, Element, ElementModel};
use crate::text;

verus! {

/// The members that spell a selection.
pub open spec fn selection_json(s: LocatorSelection) -> JsonModel {
    match s {
        LocatorSelection::First => json::object1("first"@, JsonModel::Bool(true)),
        LocatorSelection::Last => json::object1("last"@, JsonModel::Bool(true)),
        LocatorSelection::Nth(n) => json::object1(
            "nth"@,
            JsonModel::Number(NumberModel::Int(n as int)),
        ),
    }
}

pub fn selection_context(selection: LocatorSelection) -> (r: Json)
    ensures
        r@ == selection_json(selection),
{
    Json::Object(
        match selection {
            LocatorSelection::First => JsonObject::new().with("first", Json::Bool(true)),
            LocatorSelection::Last => JsonObject::new().with("last", Json::Bool(true)),
            LocatorSelection::Nth(n) => JsonObject::new().with("nth", json::uint_value(n as u64)),
        },
    )
}

pub open spec fn opt_selection(s: Option<LocatorSelection>) -> JsonModel {
    match s {
        Some(s) => selection_json(s),
        None => JsonModel::Null,
    }
}

pub fn opt_selection_context(selection: Option<LocatorSelection>) -> (r: Json)
    ensures
        r@ == opt_selection(selection),
{
    match selection {
        Some(s) => selection_context(s),
        None => Json::Null,
    }
}

/// How a request named its elements: by the first locator that it gives.
pub open spec fn locator_json_of(args: JsonModel) -> JsonModel {
    if json::text_member(args, "element_ref"@) is Some {
        json::object1("ref"@, JsonModel::Text(json::text_member(args, "element_ref"@)->0))
    } else if json::text_member(args, "ref"@) is Some {
        json::object1("ref"@, JsonModel::Text(json::text_member(args, "ref"@)->0))
    } else if json::text_member(args, "selector"@) is Some {
        json::object1("selector"@, JsonModel::Text(json::text_member(args, "selector"@)->0))
    } else if json::text_member(args, "target_text"@) is Some {
        json::object1("target_text"@, JsonModel::Text(json::text_member(args, "target_text"@)->0))
    } else if json::text_member(args, "role"@) is Some {
        json::object1("role"@, JsonModel::Text(json::text_member(args, "role"@)->0))
    } else if json::text_member(args, "label"@) is Some {
        json::object1("label"@, JsonModel::Text(json::text_member(args, "label"@)->0))
    } else if json::text_member(args, "testid"@) is Some {
        json::object1("testid"@, JsonModel::Text(json::text_member(args, "testid"@)->0))
    } else {
        json::object1(
            "index"@,
            match json::member(args, "index"@) {
                Some(v) => v,
                None => JsonModel::Null,
            },
        )
    }
}

fn named(alias: &str, value: &str) -> (r: Json)
    ensures
        r@ == json::object1(alias@, JsonModel::Text(value@)),
{
    Json::Object(JsonObject::new().with(alias, json::text_value(value)))
}

pub fn locator_context(args: &Json) -> (r: Json)
    ensures
        r@ == locator_json_of(args@),
{
    if let Some(value) = args.get_str("element_ref") {
        return named("ref", value);
    }
    if let Some(value) = args.get_str("ref") {
        return named("ref", value);
    }
    if let Some(value) = args.get_str("selector") {
        return named("selector", value);
    }
    if let Some(value) = args.get_str("target_text") {
        return named("target_text", value);
    }
    if let Some(value) = args.get_str("role") {
        return named("role", value);
    }
    if let Some(value) = args.get_str("label") {
        return named("label", value);
    }
    if let Some(value) = args.get_str("testid") {
        return named("testid", value);
    }
    let index = match args.get("index") {
        Some(v) => v.clone(),
        None => Json::Null,
    };
    Json::Object(JsonObject::new().with("index", index))
}

/// The selection of a request, where it gives one.
pub open spec fn requested_selection(args: JsonModel) -> JsonModel {
    if locator::flag_member(args, "first"@) {
        json::object1("first"@, JsonModel::Bool(true))
    } else if locator::flag_member(args, "last"@) {
        json::object1("last"@, JsonModel::Bool(true))
    } else {
        match json::member(args, "nth"@) {
            Some(v) => match json::uint_of(v) {
                Some(n) => json::object1("nth"@, JsonModel::Number(NumberModel::Int(n as int))),
                None => JsonModel::Null,
            },
            None => JsonModel::Null,
        }
    }
}

pub fn selection_context_from_args(args: &Json) -> (r: Json)
    ensures
        r@ == requested_selection(args@),
{
    if locator::get_flag(args, "first") {
        return Json::Object(JsonObject::new().with("first", Json::Bool(true)));
    }
    if locator::get_flag(args, "last") {
        return Json::Object(JsonObject::new().with("last", Json::Bool(true)));
    }
    match args.get("nth") {
        Some(v) => match v.as_u64() {
            Some(n) => Json::Object(JsonObject::new().with("nth", json::uint_value(n))),
            None => Json::Null,
        },
        None => Json::Null,
    }
}

/// The order in which matches are offered, in words.
pub open spec fn ordering_policy(args: JsonModel) -> Seq<char> {
    let visible = locator::flag_member(args, "visible"@);
    let prefer_enabled = locator::flag_member(args, "prefer_enabled"@);
    let topmost = locator::flag_member(args, "topmost"@);
    if visible && prefer_enabled && topmost {
        "visible_filter_then_topmost_hit_test_then_prefer_enabled_then_snapshot_index"@
    } else if visible && prefer_enabled {
        "visible_filter_then_prefer_enabled_then_snapshot_index"@
    } else if visible && topmost {
        "visible_filter_then_topmost_hit_test_then_snapshot_index"@
    } else if visible {
        "visible_filter_then_snapshot_index"@
    } else if prefer_enabled && topmost {
        "topmost_hit_test_then_prefer_enabled_then_snapshot_index"@
    } else if prefer_enabled {
        "prefer_enabled_then_snapshot_index"@
    } else if topmost {
        "topmost_hit_test_then_snapshot_index"@
    } else {
        "snapshot_index"@
    }
}

pub fn ordering_policy_from_args(args: &Json) -> (r: &'static str)
    ensures
        r@ == ordering_policy(args@),
{
    let visible = locator::get_flag(args, "visible");
    let prefer_enabled = locator::get_flag(args, "prefer_enabled");
    let topmost = locator::get_flag(args, "topmost");
    if visible && prefer_enabled && topmost {
        "visible_filter_then_topmost_hit_test_then_prefer_enabled_then_snapshot_index"
    } else if visible && prefer_enabled {
        "visible_filter_then_prefer_enabled_then_snapshot_index"
    } else if visible && topmost {
        "visible_filter_then_topmost_hit_test_then_snapshot_index"
    } else if visible {
        "visible_filter_then_snapshot_index"
    } else if prefer_enabled && topmost {
        "topmost_hit_test_then_prefer_enabled_then_snapshot_index"
    } else if prefer_enabled {
        "prefer_enabled_then_snapshot_index"
    } else if topmost {
        "topmost_hit_test_then_snapshot_index"
    } else {
        "snapshot_index"
    }
}

/// The fields by which a client can tell elements apart.
#[derive(Clone, Copy, Debug, PartialEq, Eq, Structural)]
pub enum CandidateField {
    Label,
    Role,
    TestId,
    Text,
}

/// The value of a field, unless it is blank.
pub open spec fn field_of(e: ElementModel, field: CandidateField) -> Option<Seq<char>> {
    match field {
        CandidateField::Label => semantics::nonblank(semantics::label_of(e)),
        CandidateField::Role => semantics::nonblank(semantics::role_of(e)),
        CandidateField::TestId => match semantics::test_id_of(e) {
            Some(id) => semantics::nonblank(id),
            None => None,
        },
        CandidateField::Text => semantics::nonblank(e.text),
    }
}

/// The values that a field has among the elements, in order.
pub open spec fn field_values(s: Seq<ElementModel>, field: CandidateField) -> Seq<Seq<char>>
    decreases s.len(),
{
    if s.len() == 0 {
        seq![]
    } else {
        let front = field_values(s.drop_last(), field);
        match field_of(s.last(), field) {
            Some(value) => front.push(value),
            None => front,
        }
    }
}

/// How often a value stands among the values.
pub open spec fn count_of(values: Seq<Seq<char>>, value: Seq<char>) -> int
    decreases values.len(),
{
    if values.len() == 0 {
        0
    } else {
        count_of(values.drop_last(), value) + (if values.last() == value {
            1int
        } else {
            0int
        })
    }
}

/// The values that stand once, in order.
pub open spec fn once_among(values: Seq<Seq<char>>, all: Seq<Seq<char>>) -> Seq<Seq<char>>
    decreases values.len(),
{
    if values.len() == 0 {
        seq![]
    } else {
        let front = once_among(values.drop_last(), all);
        if count_of(all, values.last()) == 1 {
            front.push(values.last())
        } else {
            front
        }
    }
}

/// The first of the values that stand once, in the order of texts.
pub open spec fn unique_values(values: Seq<Seq<char>>) -> Seq<Seq<char>> {
    let sorted = text::lex_sorted(once_among(values, values));
    if sorted.len() > 5 {
        sorted.take(5)
    } else {
        sorted
    }
}

fn field_value(e: &Element, field: CandidateField) -> (r: Option<String>)
    ensures
        text::opt_text(r) == field_of(e@, field),
{
    match field {
        CandidateField::Label => owned(non_empty(accessible_label(e).as_str())),
        CandidateField::Role => owned(non_empty(semantic_role(e).as_str())),
        CandidateField::TestId => match test_id(e) {
            Some(id) => owned(non_empty(id)),
            None => None,
        },
        CandidateField::Text => owned(non_empty(e.text.as_str())),
    }
}

fn owned(o: Option<&str>) -> (r: Option<String>)
    ensures
        text::opt_text(r) == json::opt_str_text(o),
{
    match o {
        Some(s) => Some(s.to_owned()),
        None => None,
    }
}

/// The values that a field has among the elements, each as often as it occurs.
pub fn candidate_field_frequencies(matches: &Vec<Element>, field: CandidateField) -> (r: Vec<
    String,
>)
    ensures
        text::texts(r@) == field_values(model::element_models(matches@), field),
{
    let ghost all = model::element_models(matches@);
    let mut out: Vec<String> = Vec::new();
    let mut i: usize = 0;
    assert(text::texts(out@) =~= field_values(all.take(0), field));
    while i < matches.len()
        invariant
            i <= matches@.len(),
            all == model::element_models(matches@),
            text::texts(out@) == field_values(all.take(i as int), field),
        decreases matches@.len() - i,
    {
        assert(all.take(i + 1).drop_last() =~= all.take(i as int));
        if let Some(value) = field_value(&matches[i], field) {
            let ghost before = text::texts(out@);
            out.push(value);
            assert(text::texts(out@) =~= before.push(value@));
        }
        i += 1;
    }
    assert(all.take(i as int) =~= all);
    out
}

fn occurs_once(values: &Vec<String>, value: &str) -> (r: bool)
    ensures
        r == (count_of(text::texts(values@), value@) == 1),
{
    let ghost all = text::texts(values@);
    let mut n: usize = 0;
    let mut i: usize = 0;
    while i < values.len()
        invariant
            i <= values@.len(),
            all == text::texts(values@),
            n == count_of(all.take(i as int), value@),
            n <= i,
        decreases values@.len() - i,
    {
        assert(all.take(i + 1).drop_last() =~= all.take(i as int));
        if text::str_eq(values[i].as_str(), value) {
            n += 1;
        }
        i += 1;
    }
    assert(all.take(i as int) =~= all);
    n == 1
}

/// The values that occur once, in the order of texts; at most five.
pub fn unique_frequency_values(frequencies: &Vec<String>) -> (r: Vec<String>)
    ensures
        text::texts(r@) == unique_values(text::texts(frequencies@)),
{
    let ghost all = text::texts(frequencies@);
    let mut once: Vec<String> = Vec::new();
    let mut i: usize = 0;
    assert(text::texts(once@) =~= once_among(all.take(0), all));
    while i < frequencies.len()
        invariant
            i <= frequencies@.len(),
            all == text::texts(frequencies@),
            text::texts(once@) == once_among(all.take(i as int), all),
        decreases frequencies@.len() - i,
    {
        assert(all.take(i + 1).drop_last() =~= all.take(i as int));
        if occurs_once(frequencies, frequencies[i].as_str()) {
            let ghost before = text::texts(once@);
            let value = frequencies[i].clone();
            once.push(value);
            assert(text::texts(once@) =~= before.push(value@));
        }
        i += 1;
    }
    assert(all.take(i as int) =~= all);
    let mut values = text::sort_texts(&once);
    assert(text::texts(values@).len() == values@.len());
    if values.len() > 5 {
        let ghost sorted = text::texts(values@);
        values.truncate(5);
        assert(text::texts(values@) =~= sorted.take(5));
    }
    values
}

/// The trimmed value, where it occurs once.
pub open spec fn unique_field(values: Seq<Seq<char>>, value: Seq<char>) -> Option<Seq<char>> {
    match semantics::nonblank(value) {
        Some(v) => if count_of(values, v) == 1 {
            Some(v)
        } else {
            None
        },
        None => None,
    }
}

pub fn unique_field_value<'a>(frequencies: &Vec<String>, value: &'a str) -> (r: Option<&'a str>)
    ensures
        json::opt_str_text(r) == unique_field(text::texts(frequencies@), value@),
{
    match non_empty(value) {
        Some(v) => if occurs_once(frequencies, v) {
            Some(v)
        } else {
            None
        },
        None => None,
    }
}

/// The trimmed text, unless it is empty.
pub fn non_empty(value: &str) -> (r: Option<&str>)
    ensures
        json::opt_str_text(r) == semantics::nonblank(value@),
{
    let trimmed = text::trim(value);
    if trimmed.is_empty() {
        None
    } else {
        Some(trimmed)
    }
}

/// The fields that single out an element among the matches.
pub open spec fn anchors_json(e: ElementModel, s: Seq<ElementModel>) -> JsonModel {
    let labels = field_values(s, CandidateField::Label);
    let roles = field_values(s, CandidateField::Role);
    let testids = field_values(s, CandidateField::TestId);
    let texts = field_values(s, CandidateField::Text);
    let testid = match semantics::test_id_of(e) {
        Some(id) => if unique_field(testids, id) is Some {
            Some(id)
        } else {
            None
        },
        None => None,
    };
    let text = match semantics::nonblank(text::trimmed(e.text)) {
        Some(t) => if unique_field(texts, t) is Some {
            Some(t)
        } else {
            None
        },
        None => None,
    };
    JsonModel::Object(
        Map::<Seq<char>, JsonModel>::empty().insert(
            "label"@,
            json::opt_text_model(unique_field(labels, semantics::label_of(e))),
        ).insert(
            "role"@,
            json::opt_text_model(unique_field(roles, semantics::role_of(e))),
        ).insert("testid"@, json::opt_text_model(testid)).insert(
            "text"@,
            json::opt_text_model(text),
        ),
    )
}

/// How a match is described.
pub open spec fn candidate_json(
    e: ElementModel,
    rank: int,
    s: Seq<ElementModel>,
    policy: Seq<char>,
) -> JsonModel {
    let hints = JsonModel::Object(
        Map::<Seq<char>, JsonModel>::empty().insert("ordered_by"@, JsonModel::Text(policy)).insert(
            "unique_anchors"@,
            anchors_json(e, s),
        ),
    );
    JsonModel::Object(
        Map::<Seq<char>, JsonModel>::empty().insert(
            "rank"@,
            JsonModel::Number(NumberModel::Int(rank)),
        ).insert("index"@, JsonModel::Number(NumberModel::Int(e.index as int))).insert(
            "tag"@,
            JsonModel::Text(target::tag_name(e.tag)),
        ).insert("text"@, JsonModel::Text(e.text)).insert(
            "role"@,
            JsonModel::Text(semantics::role_of(e)),
        ).insert("label"@, JsonModel::Text(semantics::label_of(e))).insert(
            "testid"@,
            json::opt_text_model(semantics::test_id_of(e)),
        ).insert("element_ref"@, json::opt_text_model(e.element_ref)).insert(
            "snapshot_visible"@,
            JsonModel::Bool(semantics::visible_bbox(e.bounding_box)),
        ).insert("enabled"@, JsonModel::Bool(!semantics::disabled(e))).insert(
            "ranking_hints"@,
            hints,
        ),
    )
}

/// The first matches as they are described.
pub open spec fn candidates_json(s: Seq<ElementModel>, policy: Seq<char>, n: int) -> Seq<
    JsonModel,
> {
    Seq::new(n as nat, |i: int| candidate_json(s[i], i, s, policy))
}

/// How many matches are described.
pub open spec fn shown(s: Seq<ElementModel>) -> int {
    if s.len() > 5 {
        5
    } else {
        s.len() as int
    }
}

fn str_or_null(o: Option<&str>) -> (r: Json)
    ensures
        r@ == json::opt_text_model(json::opt_str_text(o)),
{
    match o {
        Some(s) => json::text_value(s),
        None => Json::Null,
    }
}

fn anchors_value(
    e: &Element,
    labels: &Vec<String>,
    roles: &Vec<String>,
    testids: &Vec<String>,
    texts: &Vec<String>,
    Ghost(s): Ghost<Seq<ElementModel>>,
) -> (r: Json)
    requires
        text::texts(labels@) == field_values(s, CandidateField::Label),
        text::texts(roles@) == field_values(s, CandidateField::Role),
        text::texts(testids@) == field_values(s, CandidateField::TestId),
        text::texts(texts@) == field_values(s, CandidateField::Text),
    ensures
        r@ == anchors_json(e@, s),
{
    let label = accessible_label(e);
    let role = semantic_role(e);
    let testid = match test_id(e) {
        Some(id) => if unique_field_value(testids, id).is_some() {
            Some(id)
        } else {
            None
        },
        None => None,
    };
    let trimmed = text::trim(e.text.as_str());
    let text = match non_empty(trimmed) {
        Some(t) => if unique_field_value(texts, t).is_some() {
            Some(t)
        } else {
            None
        },
        None => None,
    };
    Json::Object(
        JsonObject::new().with(
            "label",
            str_or_null(unique_field_value(labels, label.as_str())),
        ).with("role", str_or_null(unique_field_value(roles, role.as_str()))).with(
            "testid",
            str_or_null(testid),
        ).with("text", str_or_null(text)),
    )
}

fn candidate_value(
    e: &Element,
    rank: usize,
    anchors: Json,
    ordering_policy: &str,
    Ghost(s): Ghost<Seq<ElementModel>>,
) -> (r: Json)
    requires
        anchors@ == anchors_json(e@, s),
    ensures
        r@ == candidate_json(e@, rank as int, s, ordering_policy@),
{
    let hints = JsonObject::new().with("ordered_by", json::text_value(ordering_policy)).with(
        "unique_anchors",
        anchors,
    );
    let role = semantic_role(e);
    let label = accessible_label(e);
    Json::Object(
        JsonObject::new().with("rank", json::uint_value(rank as u64)).with(
            "index",
            json::uint_value(e.index as u64),
        ).with("tag", json::text_value(target::tag_str(e.tag))).with(
            "text",
            json::text_value(e.text.as_str()),
        ).with("role", json::text_value(role.as_str())).with(
            "label",
            json::text_value(label.as_str()),
        ).with("testid", str_or_null(test_id(e))).with(
            "element_ref",
            json::opt_text_value(&e.element_ref),
        ).with("snapshot_visible", Json::Bool(has_snapshot_visible_bbox(e))).with(
            "enabled",
            Json::Bool(!is_disabled_in_snapshot(e)),
        ).with("ranking_hints", Json::Object(hints)),
    )
}

/// Describes the first matches, at most five.
pub fn project_locator_candidates(matches: &Vec<Element>, ordering_policy: &str) -> (r: Json)
    ensures
        r@ == JsonModel::Array(
            candidates_json(
                model::element_models(matches@),
                ordering_policy@,
                shown(model::element_models(matches@)),
            ),
        ),
{
    let ghost s = model::element_models(matches@);
    let labels = candidate_field_frequencies(matches, CandidateField::Label);
    let roles = candidate_field_frequencies(matches, CandidateField::Role);
    let testids = candidate_field_frequencies(matches, CandidateField::TestId);
    let texts = candidate_field_frequencies(matches, CandidateField::Text);
    let n: usize = if matches.len() > 5 {
        5
    } else {
        matches.len()
    };
    let mut items: Vec<Json> = Vec::new();
    let mut i: usize = 0;
    assert(json::items_model(items@) =~= candidates_json(s, ordering_policy@, 0));
    while i < n
        invariant
            i <= n <= matches@.len(),
            s == model::element_models(matches@),
            text::texts(labels@) == field_values(s, CandidateField::Label),
            text::texts(roles@) == field_values(s, CandidateField::Role),
            text::texts(testids@) == field_values(s, CandidateField::TestId),
            text::texts(texts@) == field_values(s, CandidateField::Text),
            json::items_model(items@) == candidates_json(s, ordering_policy@, i as int),
        decreases n - i,
    {
        let e = &matches[i];
        let anchors = anchors_value(e, &labels, &roles, &testids, &texts, Ghost(s));
        let item = candidate_value(e, i, anchors, ordering_policy, Ghost(s));
        let ghost before = items@;
        items.push(item);
        proof {
            assert(items@.drop_last() =~= before);
            assert(s[i as int] == e@);
            assert(candidates_json(s, ordering_policy@, i + 1) =~= candidates_json(
                s,
                ordering_policy@,
                i as int,
            ).push(candidate_json(s[i as int], i as int, s, ordering_policy@)));
        }
        i += 1;
    }
    Json::Array(items)
}

/// The values that single out one of the matches, by field.
pub open spec fn hints_json(s: Seq<ElementModel>) -> JsonModel {
    JsonModel::Object(
        Map::<Seq<char>, JsonModel>::empty().insert(
            "labels"@,
            json::texts_model(unique_values(field_values(s, CandidateField::Label))),
        ).insert(
            "roles"@,
            json::texts_model(unique_values(field_values(s, CandidateField::Role))),
        ).insert(
            "testids"@,
            json::texts_model(unique_values(field_values(s, CandidateField::TestId))),
        ).insert(
            "texts"@,
            json::texts_model(unique_values(field_values(s, CandidateField::Text))),
        ),
    )
}

fn unique_values_json(matches: &Vec<Element>, field: CandidateField) -> (r: Json)
    ensures
        r@ == json::texts_model(
            unique_values(field_values(model::element_models(matches@), field)),
        ),
{
    let frequencies = candidate_field_frequencies(matches, field);
    let values = unique_frequency_values(&frequencies);
    json::texts_value(&values)
}

pub fn project_locator_disambiguation_hints(matches: &Vec<Element>) -> (r: Json)
    ensures
        r@ == hints_json(model::element_models(matches@)),
{
    Json::Object(
        JsonObject::new().with("labels", unique_values_json(matches, CandidateField::Label)).with(
            "roles",
            unique_values_json(matches, CandidateField::Role),
        ).with("testids", unique_values_json(matches, CandidateField::TestId)).with(
            "texts",
            unique_values_json(matches, CandidateField::Text),
        ),
    )
}

/// How many of the elements have an area on the page.
pub open spec fn visible_count(s: Seq<ElementModel>) -> int
    decreases s.len(),
{
    if s.len() == 0 {
        0
    } else {
        visible_count(s.drop_last()) + (if semantics::visible_bbox(s.last().bounding_box) {
            1int
        } else {
            0int
        })
    }
}

/// What to do about several matches.
pub open spec fn ambiguity_advice(args: JsonModel, s: Seq<ElementModel>) -> Seq<char> {
    let advice = "Refine the locator, or use --first, --last, or --nth to select a single match"@;
    if !locator::flag_member(args, "visible"@) && visible_count(s) == 1 {
        advice
            + ". `--visible` would keep only the single candidate with an authoritative visible bounding box"@
    } else {
        advice
    }
}

pub fn ambiguous_locator_suggestion(args: &Json, matches: &Vec<Element>) -> (r: String)
    ensures
        r@ == ambiguity_advice(args@, model::element_models(matches@)),
{
    let ghost all = model::element_models(matches@);
    let mut n: usize = 0;
    let mut i: usize = 0;
    while i < matches.len()
        invariant
            i <= matches@.len(),
            all == model::element_models(matches@),
            n == visible_count(all.take(i as int)),
            n <= i,
        decreases matches@.len() - i,
    {
        assert(all.take(i + 1).drop_last() =~= all.take(i as int));
        if has_snapshot_visible_bbox(&matches[i]) {
            n += 1;
        }
        i += 1;
    }
    assert(all.take(i as int) =~= all);
    if !locator::get_flag(args, "visible") && n == 1 {
        text::cat2(
            "Refine the locator, or use --first, --last, or --nth to select a single match",
            ". `--visible` would keep only the single candidate with an authoritative visible bounding box",
        )
    } else {
        "Refine the locator, or use --first, --last, or --nth to select a single match".to_owned()
    }
}

/// The error for a locator that matches more than one element.
pub open spec fn ambiguous(
    command_name: Seq<char>,
    args: JsonModel,
    s: Seq<ElementModel>,
) -> error::ErrorModel {
    error::with_suggestion(
        ErrorCode::InvalidInput,
        command_name + " locator matched "@ + text::decimal(s.len())
            + " interactive snapshot elements; refine the locator"@,
        JsonModel::Object(
            Map::<Seq<char>, JsonModel>::empty().insert("locator"@, locator_json_of(args)).insert(
                "ordering_policy"@,
                JsonModel::Text(ordering_policy(args)),
            ).insert(
                "candidates"@,
                JsonModel::Array(candidates_json(s, ordering_policy(args), shown(s))),
            ).insert("disambiguation_hints"@, hints_json(s)).insert(
                "selection"@,
                requested_selection(args),
            ),
        ),
        ambiguity_advice(args, s),
    )
}

/// Says that a locator matches more than one element, and how to tell them
/// apart.
pub fn ambiguous_locator_error(command_name: &str, args: &Json, matches: &Vec<Element>) -> (r:
    RubError)
    ensures
        r@ == ambiguous(command_name@, args@, model::element_models(matches@)),
{
    let policy = ordering_policy_from_args(args);
    let count = text::decimal_string(matches.len() as u64);
    let head = text::cat3(command_name, " locator matched ", count.as_str());
    let message = text::cat2(
        head.as_str(),
        " interactive snapshot elements; refine the locator",
    );
    let context = JsonObject::new().with("locator", locator_context(args)).with(
        "ordering_policy",
        json::text_value(policy),
    ).with("candidates", project_locator_candidates(matches, policy)).with(
        "disambiguation_hints",
        project_locator_disambiguation_hints(matches),
    ).with("selection", selection_context_from_args(args));
    let suggestion = ambiguous_locator_suggestion(args, matches);
    assert(model::element_models(matches@).len() == matches@.len());
    RubError::domain_with_context_and_suggestion(
        ErrorCode::InvalidInput,
        message.as_str(),
        Json::Object(context),
        suggestion.as_str(),
    )
}

proof fn once_among_members(values: Seq<Seq<char>>, all: Seq<Seq<char>>)
    ensures
        forall|v: Seq<char>| #[trigger]
            once_among(values, all).contains(v) ==> count_of(all, v) == 1,
    decreases values.len(),
{
    if values.len() > 0 {
        let front = once_among(values.drop_last(), all);
        once_among_members(values.drop_last(), all);
        assert forall|v: Seq<char>| #[trigger] once_among(values, all).contains(v) implies count_of(
            all,
            v,
        ) == 1 by {
            let s = once_among(values, all);
            let i = choose|i: int| 0 <= i < s.len() && s[i] == v;
            if i < front.len() {
                assert(front[i] == v);
                assert(front.contains(v));
            }
        }
    }
}

/// Every offered value singles out one of the matches, and the values come in
/// the order of texts.
pub proof fn hints_single_out(values: Seq<Seq<char>>)
    ensures
        forall|v: Seq<char>| #[trigger]
            unique_values(values).contains(v) ==> count_of(values, v) == 1,
        forall|i: int, j: int|
            0 <= i < j < unique_values(values).len() ==> text::lex_le(
                #[trigger] unique_values(values)[i],
                #[trigger] unique_values(values)[j],
            ),
        unique_values(values).len() <= 5,
{
    let once = once_among(values, values);
    let sorted = text::lex_sorted(once);
    once_among_members(values, values);
    text::lex_sorted_is_a_sort(once);
    assert forall|v: Seq<char>| #[trigger] unique_values(values).contains(v) implies count_of(
        values,
        v,
    ) == 1 by {
        let u = unique_values(values);
        let i = choose|i: int| 0 <= i < u.len() && u[i] == v;
        assert(sorted[i] == v);
        assert(sorted.contains(v));
        sorted.to_multiset_ensures();
        once.to_multiset_ensures();
        assert(once.to_multiset().count(v) > 0);
        assert(once.contains(v));
    }
}

/// Requests with one order of matches ask for the same ranking.
pub proof fn orders_are_told_apart(a: JsonModel, b: JsonModel)
    ensures
        ordering_policy(a) == ordering_policy(b) <==> (locator::flag_member(a, "visible"@)
            == locator::flag_member(b, "visible"@) && locator::flag_member(a, "prefer_enabled"@)
            == locator::flag_member(b, "prefer_enabled"@) && locator::flag_member(a, "topmost"@)
            == locator::flag_member(b, "topmost"@)),
        !locator::flag_member(a, "visible"@) && !locator::flag_member(a, "prefer_enabled"@)
            && !locator::flag_member(a, "topmost"@) ==> ordering_policy(a) == "snapshot_index"@,
{
    reveal_strlit("visible_filter_then_topmost_hit_test_then_prefer_enabled_then_snapshot_index");
    reveal_strlit("visible_filter_then_prefer_enabled_then_snapshot_index");
    reveal_strlit("visible_filter_then_topmost_hit_test_then_snapshot_index");
    reveal_strlit("visible_filter_then_snapshot_index");
    reveal_strlit("topmost_hit_test_then_prefer_enabled_then_snapshot_index");
    reveal_strlit("prefer_enabled_then_snapshot_index");
    reveal_strlit("topmost_hit_test_then_snapshot_index");
    reveal_strlit("snapshot_index");
    assert("visible_filter_then_topmost_hit_test_then_prefer_enabled_then_snapshot_index"@.len() != "visible_filter_then_prefer_enabled_then_snapshot_index"@.len());
    assert("visible_filter_then_topmost_hit_test_then_prefer_enabled_then_snapshot_index"@.len() != "visible_filter_then_topmost_hit_test_then_snapshot_index"@.len());
    assert("visible_filter_then_topmost_hit_test_then_prefer_enabled_then_snapshot_index"@.len() != "visible_filter_then_snapshot_index"@.len());
    assert("visible_filter_then_topmost_hit_test_then_prefer_enabled_then_snapshot_index"@.len() != "topmost_hit_test_then_prefer_enabled_then_snapshot_index"@.len());
    assert("visible_filter_then_topmost_hit_test_then_prefer_enabled_then_snapshot_index"@.len() != "prefer_enabled_then_snapshot_index"@.len());
    assert("visible_filter_then_topmost_hit_test_then_prefer_enabled_then_snapshot_index"@.len() != "topmost_hit_test_then_snapshot_index"@.len());
    assert("visible_filter_then_topmost_hit_test_then_prefer_enabled_then_snapshot_index"@.len() != "snapshot_index"@.len());
    assert("visible_filter_then_prefer_enabled_then_snapshot_index"@.len() != "visible_filter_then_topmost_hit_test_then_snapshot_index"@.len());
    assert("visible_filter_then_prefer_enabled_then_snapshot_index"@.len() != "visible_filter_then_snapshot_index"@.len());
    assert("visible_filter_then_prefer_enabled_then_snapshot_index"@.len() != "topmost_hit_test_then_prefer_enabled_then_snapshot_index"@.len());
    assert("visible_filter_then_prefer_enabled_then_snapshot_index"@.len() != "prefer_enabled_then_snapshot_index"@.len());
    assert("visible_filter_then_prefer_enabled_then_snapshot_index"@.len() != "topmost_hit_test_then_snapshot_index"@.len());
    assert("visible_filter_then_prefer_enabled_then_snapshot_index"@.len() != "snapshot_index"@.len());
    assert("visible_filter_then_topmost_hit_test_then_snapshot_index"@.len() != "visible_filter_then_snapshot_index"@.len());
    assert("visible_filter_then_topmost_hit_test_then_snapshot_index"@[0] != "topmost_hit_test_then_prefer_enabled_then_snapshot_index"@[0]);
    assert("visible_filter_then_topmost_hit_test_then_snapshot_index"@.len() != "prefer_enabled_then_snapshot_index"@.len());
    assert("visible_filter_then_topmost_hit_test_then_snapshot_index"@.len() != "topmost_hit_test_then_snapshot_index"@.len());
    assert("visible_filter_then_topmost_hit_test_then_snapshot_index"@.len() != "snapshot_index"@.len());
    assert("visible_filter_then_snapshot_index"@.len() != "topmost_hit_test_then_prefer_enabled_then_snapshot_index"@.len());
    assert("visible_filter_then_snapshot_index"@[0] != "prefer_enabled_then_snapshot_index"@[0]);
    assert("visible_filter_then_snapshot_index"@.len() != "topmost_hit_test_then_snapshot_index"@.len());
    assert("visible_filter_then_snapshot_index"@.len() != "snapshot_index"@.len());
    assert("topmost_hit_test_then_prefer_enabled_then_snapshot_index"@.len() != "prefer_enabled_then_snapshot_index"@.len());
    assert("topmost_hit_test_then_prefer_enabled_then_snapshot_index"@.len() != "topmost_hit_test_then_snapshot_index"@.len());
    assert("topmost_hit_test_then_prefer_enabled_then_snapshot_index"@.len() != "snapshot_index"@.len());
    assert("prefer_enabled_then_snapshot_index"@.len() != "topmost_hit_test_then_snapshot_index"@.len());
    assert("prefer_enabled_then_snapshot_index"@.len() != "snapshot_index"@.len());
    assert("topmost_hit_test_then_snapshot_index"@.len() != "snapshot_index"@.len());
}

/// The values of a field are those of the elements that have one, in their order, without
/// blanks around them.
pub proof fn field_values_go_element_by_element(
    s: Seq<ElementModel>,
    e: ElementModel,
    field: CandidateField,
)
    ensures
        field_values(seq![], field).len() == 0,
        field_of(e, field) matches Some(v) ==> field_values(s.push(e), field) == field_values(
            s,
            field,
        ).push(v),
        field_of(e, field) is None ==> field_values(s.push(e), field) == field_values(s, field),
        field_of(e, CandidateField::Text) is Some <==> !text::blank(e.text),
        field_of(e, CandidateField::Text) matches Some(v) ==> v == text::trimmed(e.text),
        field_of(e, CandidateField::Label) is Some <==> !text::blank(semantics::label_of(e)),
        field_of(e, CandidateField::Role) is Some <==> !text::blank(semantics::role_of(e)),
        field_of(e, CandidateField::TestId) is Some ==> semantics::test_id_of(e) is Some,
{
    assert(s.push(e).drop_last() =~= s);
    text::blank_texts_trim_to_nothing(e.text);
    text::blank_texts_trim_to_nothing(semantics::label_of(e));
    text::blank_texts_trim_to_nothing(semantics::role_of(e));
}

/// A value is counted once for each time that it stands there.
pub proof fn values_are_counted_one_by_one(
    values: Seq<Seq<char>>,
    last: Seq<char>,
    value: Seq<char>,
)
    ensures
        count_of(seq![], value) == 0,
        count_of(values.push(last), value) == count_of(values, value) + if last == value {
            1int
        } else {
            0int
        },
        count_of(values, value) > 0 <==> values.contains(value),
    decreases values.len(),
{
    assert(values.push(last).drop_last() =~= values);
    if values.len() > 0 {
        let front = values.drop_last();
        values_are_counted_one_by_one(front, last, value);
        count_is_not_negative(front, value);
        if values.contains(value) && values.last() != value {
            let i = choose|i: int| 0 <= i < values.len() && values[i] == value;
            assert(front[i] == value);
        }
        if front.contains(value) {
            let i = choose|i: int| 0 <= i < front.len() && front[i] == value;
            assert(values[i] == value);
        }
        if values.last() == value {
            assert(values[values.len() - 1] == value);
        }
    }
}

proof fn count_is_not_negative(values: Seq<Seq<char>>, value: Seq<char>)
    ensures
        count_of(values, value) >= 0,
    decreases values.len(),
{
    if values.len() > 0 {
        count_is_not_negative(values.drop_last(), value);
    }
}

/// A value singles an element out exactly where it is not blank and stands once among the
/// values.
pub proof fn anchors_stand_once(values: Seq<Seq<char>>, value: Seq<char>)
    ensures
        unique_field(values, value) is Some <==> !text::blank(value) && count_of(
            values,
            text::trimmed(value),
        ) == 1,
        unique_field(values, value) matches Some(v) ==> v == text::trimmed(value),
{
    text::blank_texts_trim_to_nothing(value);
}

/// A match is described with its place, its number, what it says and whether it can be seen
/// and used.
pub proof fn candidates_are_described_as_they_are(
    e: ElementModel,
    rank: int,
    s: Seq<ElementModel>,
    policy: Seq<char>,
)
    ensures
        ({
            let r = candidate_json(e, rank, s, policy);
            &&& json::member(r, "rank"@) == Some(json::number(rank))
            &&& json::member(r, "index"@) == Some(json::number(e.index as int))
            &&& json::member(r, "text"@) == Some(JsonModel::Text(e.text))
            &&& json::member(r, "role"@) == Some(JsonModel::Text(semantics::role_of(e)))
            &&& json::member(r, "label"@) == Some(JsonModel::Text(semantics::label_of(e)))
            &&& json::member(r, "testid"@) == Some(json::opt_text_model(semantics::test_id_of(e)))
            &&& json::member(r, "element_ref"@) == Some(json::opt_text_model(e.element_ref))
            &&& json::member(r, "snapshot_visible"@) == Some(
                JsonModel::Bool(semantics::visible_bbox(e.bounding_box)),
            )
            &&& json::member(r, "enabled"@) == Some(JsonModel::Bool(!semantics::disabled(e)))
            &&& json::member(r, "ranking_hints"@) matches Some(hints)
            &&& json::member(hints, "ordered_by"@) == Some(JsonModel::Text(policy))
            &&& json::member(hints, "unique_anchors"@) == Some(anchors_json(e, s))
        }),
{
    reveal_strlit("rank");
    reveal_strlit("index");
    reveal_strlit("tag");
    reveal_strlit("text");
    reveal_strlit("role");
    reveal_strlit("label");
    reveal_strlit("testid");
    reveal_strlit("element_ref");
    reveal_strlit("snapshot_visible");
    reveal_strlit("enabled");
    reveal_strlit("ranking_hints");
    assert("rank"@.len() != "index"@.len());
    assert("rank"@.len() != "tag"@.len());
    assert("rank"@[0] != "text"@[0]);
    assert("rank"@[1] != "role"@[1]);
    assert("rank"@.len() != "label"@.len());
    assert("rank"@.len() != "testid"@.len());
    assert("rank"@.len() != "element_ref"@.len());
    assert("rank"@.len() != "snapshot_visible"@.len());
    assert("rank"@.len() != "enabled"@.len());
    assert("rank"@.len() != "ranking_hints"@.len());
    assert("index"@.len() != "tag"@.len());
    assert("index"@.len() != "text"@.len());
    assert("index"@.len() != "role"@.len());
    assert("index"@[0] != "label"@[0]);
    assert("index"@.len() != "testid"@.len());
    assert("index"@.len() != "element_ref"@.len());
    assert("index"@.len() != "snapshot_visible"@.len());
    assert("index"@.len() != "enabled"@.len());
    assert("index"@.len() != "ranking_hints"@.len());
    assert("tag"@.len() != "text"@.len());
    assert("tag"@.len() != "role"@.len());
    assert("tag"@.len() != "label"@.len());
    assert("tag"@.len() != "testid"@.len());
    assert("tag"@.len() != "element_ref"@.len());
    assert("tag"@.len() != "snapshot_visible"@.len());
    assert("tag"@.len() != "enabled"@.len());
    assert("tag"@.len() != "ranking_hints"@.len());
    assert("text"@[0] != "role"@[0]);
    assert("text"@.len() != "label"@.len());
    assert("text"@.len() != "testid"@.len());
    assert("text"@.len() != "element_ref"@.len());
    assert("text"@.len() != "snapshot_visible"@.len());
    assert("text"@.len() != "enabled"@.len());
    assert("text"@.len() != "ranking_hints"@.len());
    assert("role"@.len() != "label"@.len());
    assert("role"@.len() != "testid"@.len());
    assert("role"@.len() != "element_ref"@.len());
    assert("role"@.len() != "snapshot_visible"@.len());
    assert("role"@.len() != "enabled"@.len());
    assert("role"@.len() != "ranking_hints"@.len());
    assert("label"@.len() != "testid"@.len());
    assert("label"@.len() != "element_ref"@.len());
    assert("label"@.len() != "snapshot_visible"@.len());
    assert("label"@.len() != "enabled"@.len());
    assert("label"@.len() != "ranking_hints"@.len());
    assert("testid"@.len() != "element_ref"@.len());
    assert("testid"@.len() != "snapshot_visible"@.len());
    assert("testid"@.len() != "enabled"@.len());
    assert("testid"@.len() != "ranking_hints"@.len());
    assert("element_ref"@.len() != "snapshot_visible"@.len());
    assert("element_ref"@.len() != "enabled"@.len());
    assert("element_ref"@.len() != "ranking_hints"@.len());
    assert("snapshot_visible"@.len() != "enabled"@.len());
    assert("snapshot_visible"@.len() != "ranking_hints"@.len());
    assert("enabled"@.len() != "ranking_hints"@.len());
    reveal_strlit("ordered_by");
    reveal_strlit("unique_anchors");
    assert("ordered_by"@.len() != "unique_anchors"@.len());
}

/// Several matches are described from the first on, each at its place, and no more than
/// five of them.
pub proof fn the_first_candidates_are_described(s: Seq<ElementModel>, policy: Seq<char>)
    ensures
        ({
            let r = candidates_json(s, policy, shown(s));
            &&& r.len() <= 5 && r.len() <= s.len()
            &&& s.len() <= 5 ==> r.len() == s.len()
            &&& s.len() > 5 ==> r.len() == 5
            &&& forall|i: int|
                0 <= i < r.len() ==> #[trigger] r[i] == candidate_json(s[i], i, s, policy)
        }),
{
}

/// Showing only what can be seen is advised exactly where it was not asked for and would
/// leave one match.
pub proof fn visibility_is_advised_where_it_helps(args: JsonModel, s: Seq<ElementModel>)
    ensures
        ({
            let plain =
                "Refine the locator, or use --first, --last, or --nth to select a single match"@;
            ambiguity_advice(args, s) == plain <==> locator::flag_member(args, "visible"@)
                || visible_count(s) != 1
        }),
        visible_count(s) == super::ranking::visible(s).len(),
{
    let more =
        ". `--visible` would keep only the single candidate with an authoritative visible bounding box"@;
    reveal_strlit(
        ". `--visible` would keep only the single candidate with an authoritative visible bounding box",
    );
    let plain =
        "Refine the locator, or use --first, --last, or --nth to select a single match"@;
    assert((plain + more).len() != plain.len());
    visible_count_is_a_length(s);
}

proof fn visible_count_is_a_length(s: Seq<ElementModel>)
    ensures
        visible_count(s) == super::ranking::visible(s).len(),
    decreases s.len(),
{
    if s.len() > 0 {
        visible_count_is_a_length(s.drop_last());
    }
}

/// A value that stands once is offered, unless five others are.
pub proof fn all_single_values_are_offered(values: Seq<Seq<char>>, v: Seq<char>)
    requires
        count_of(values, v) == 1,
        unique_values(values).len() < 5,
    ensures
        unique_values(values).contains(v),
{
    values_are_counted_one_by_one(values, v, v);
    single_values_are_kept(values, values, v);
    let once = once_among(values, values);
    text::lex_sorted_is_a_sort(once);
    broadcast use vstd::seq_lib::group_to_multiset_ensures;

    assert(once.to_multiset().count(v) > 0);
    assert(text::lex_sorted(once).to_multiset().count(v) > 0);
}

proof fn single_values_are_kept(values: Seq<Seq<char>>, all: Seq<Seq<char>>, v: Seq<char>)
    requires
        count_of(all, v) == 1,
        values.contains(v),
    ensures
        once_among(values, all).contains(v),
    decreases values.len(),
{
    let front = values.drop_last();
    let rest = once_among(front, all);
    let done = once_among(values, all);
    if values.last() == v {
        assert(done[done.len() - 1] == v);
    } else {
        let i = choose|i: int| 0 <= i < values.len() && values[i] == v;
        assert(front[i] == v);
        single_values_are_kept(front, all, v);
        let j = choose|j: int| 0 <= j < rest.len() && rest[j] == v;
        assert(done[j] == v);
    }
}

/// The fields that single an element out are shown each in its own place, and null where
/// they do not.
pub proof fn anchors_are_shown_by_field(e: ElementModel, s: Seq<ElementModel>)
    ensures
        ({
            let r = anchors_json(e, s);
            &&& json::member(r, "label"@) == Some(
                json::opt_text_model(
                    unique_field(
                        field_values(s, CandidateField::Label),
                        semantics::label_of(e),
                    ),
                ),
            )
            &&& json::member(r, "role"@) == Some(
                json::opt_text_model(
                    unique_field(field_values(s, CandidateField::Role), semantics::role_of(e)),
                ),
            )
            &&& json::member(r, "testid"@) == Some(JsonModel::Null) || (semantics::test_id_of(e)
                matches Some(id) && json::member(r, "testid"@) == Some(JsonModel::Text(id)))
            &&& semantics::test_id_of(e) matches Some(id) ==> (json::member(r, "testid"@) == Some(
                JsonModel::Text(id),
            ) <==> unique_field(field_values(s, CandidateField::TestId), id) is Some)
        }),
{
    reveal_strlit("label");
    reveal_strlit("role");
    reveal_strlit("testid");
    reveal_strlit("text");
    assert("label"@.len() != "role"@.len());
    assert("label"@.len() != "testid"@.len());
    assert("label"@.len() != "text"@.len());
    assert("role"@.len() != "testid"@.len());
    assert("role"@[0] != "text"@[0]);
    assert("testid"@.len() != "text"@.len());
}

/// The values that single out a match are offered each under its own field.
pub proof fn hints_are_offered_by_field(s: Seq<ElementModel>)
    ensures
        ({
            let r = hints_json(s);
            &&& json::member(r, "labels"@) == Some(
                json::texts_model(unique_values(field_values(s, CandidateField::Label))),
            )
            &&& json::member(r, "roles"@) == Some(
                json::texts_model(unique_values(field_values(s, CandidateField::Role))),
            )
            &&& json::member(r, "testids"@) == Some(
                json::texts_model(unique_values(field_values(s, CandidateField::TestId))),
            )
            &&& json::member(r, "texts"@) == Some(
                json::texts_model(unique_values(field_values(s, CandidateField::Text))),
            )
        }),
{
    reveal_strlit("labels");
    reveal_strlit("roles");
    reveal_strlit("testids");
    reveal_strlit("texts");
    assert("labels"@.len() != "roles"@.len());
    assert("labels"@.len() != "testids"@.len());
    assert("labels"@.len() != "texts"@.len());
    assert("roles"@.len() != "testids"@.len());
    assert("roles"@[0] != "texts"@[0]);
    assert("testids"@.len() != "texts"@.len());
}

/// A request is told by the one locator that it gives: by its reference under either name,
/// by another text, and else by its number.
pub proof fn requests_are_told_by_their_locator(args: JsonModel)
    ensures
        ({
            let r = locator_json_of(args);
            let given = |key: Seq<char>| json::text_member(args, key);
            let no_ref = given("element_ref"@) is None && given("ref"@) is None;
            &&& given("element_ref"@) matches Some(x) ==> json::member(r, "ref"@) == Some(
                JsonModel::Text(x),
            )
            &&& given("element_ref"@) is None ==> (given("ref"@) matches Some(x) ==> json::member(
                r,
                "ref"@,
            ) == Some(JsonModel::Text(x)))
            &&& no_ref ==> (given("selector"@) matches Some(x) ==> json::member(r, "selector"@)
                == Some(JsonModel::Text(x)))
            &&& no_ref && given("selector"@) is None ==> (given("target_text"@) matches Some(x)
                ==> json::member(r, "target_text"@) == Some(JsonModel::Text(x)))
            &&& no_ref && given("selector"@) is None && given("target_text"@) is None ==> (given(
                "role"@,
            ) matches Some(x) ==> json::member(r, "role"@) == Some(JsonModel::Text(x)))
            &&& no_ref && given("selector"@) is None && given("target_text"@) is None && given(
                "role"@,
            ) is None ==> (given("label"@) matches Some(x) ==> json::member(r, "label"@) == Some(
                JsonModel::Text(x),
            ))
            &&& no_ref && given("selector"@) is None && given("target_text"@) is None && given(
                "role"@,
            ) is None && given("label"@) is None ==> (given("testid"@) matches Some(x)
                ==> json::member(r, "testid"@) == Some(JsonModel::Text(x)))
        }),
{
}

/// Selections are told apart by how they are spelled.
pub proof fn selections_are_told_apart(a: Option<LocatorSelection>, b: Option<LocatorSelection>)
    ensures
        opt_selection(a) == opt_selection(b) <==> a == b,
{
    reveal_strlit("first");
    reveal_strlit("last");
    reveal_strlit("nth");
    assert("first"@.len() != "last"@.len());
    assert("first"@.len() != "nth"@.len());
    assert("last"@.len() != "nth"@.len());
    let x = opt_selection(a);
    let y = opt_selection(b);
    if x == y {
        assert(json::member(x, "first"@) == json::member(y, "first"@));
        assert(json::member(x, "last"@) == json::member(y, "last"@));
        assert(json::member(x, "nth"@) == json::member(y, "nth"@));
    }
}

/// The selection that an error repeats is the one that the request gives: the first before
/// the last, and the last before a number.
pub proof fn repeated_selections_are_the_requested(args: JsonModel)
    ensures
        locator::flag_member(args, "first"@) ==> json::member(requested_selection(args), "first"@)
            == Some(JsonModel::Bool(true)),
        !locator::flag_member(args, "first"@) && locator::flag_member(args, "last"@)
            ==> json::member(requested_selection(args), "last"@) == Some(JsonModel::Bool(true)),
        !locator::flag_member(args, "first"@) && !locator::flag_member(args, "last"@) ==> forall|
            n: u64,
        |
            json::member(args, "nth"@) == Some(#[trigger] json::number(n as int)) ==> json::member(
                requested_selection(args),
                "nth"@,
            ) == Some(json::number(n as int)),
        !locator::flag_member(args, "first"@) && !locator::flag_member(args, "last"@)
            && json::member(args, "nth"@) is None ==> requested_selection(args) == JsonModel::Null,
{
}

/// What is once among all stands among the listed, and only what is once among all does.
pub proof fn single_values_stand_once(
    values: Seq<Seq<char>>,
    all: Seq<Seq<char>>,
    v: Seq<char>,
)
    ensures
        once_among(values, all).contains(v) <==> values.contains(v) && count_of(all, v) == 1,
        once_among(values, all).len() <= values.len(),
    decreases values.len(),
{
    if values.len() > 0 {
        let front = values.drop_last();
        single_values_stand_once(front, all, v);
        let rest = once_among(front, all);
        assert(values =~= front.push(values.last()));
        if values.contains(v) {
            let i = choose|i: int| 0 <= i < values.len() && values[i] == v;
            if i < front.len() {
                assert(front[i] == v);
            }
        }
        if front.contains(v) {
            let i = choose|i: int| 0 <= i < front.len() && front[i] == v;
            assert(values[i] == v);
        }
        if count_of(all, values.last()) == 1 {
            let grown = rest.push(values.last());
            if rest.contains(v) {
                let i = choose|i: int| 0 <= i < rest.len() && rest[i] == v;
                assert(grown[i] == v);
            }
            if v == values.last() {
                assert(grown[rest.len() as int] == v);
            }
            if grown.contains(v) {
                let i = choose|i: int| 0 <= i < grown.len() && grown[i] == v;
                if i < rest.len() {
                    assert(rest[i] == v);
                }
            }
        }
        assert(values[values.len() - 1] == values.last());
    }
}

/// An ambiguous locator is told with its candidates and the order they stand in.
pub proof fn ambiguities_are_told(
    command_name: Seq<char>,
    args: JsonModel,
    s: Seq<ElementModel>,
)
    ensures
        ({
            &&& ambiguous(command_name, args, s) matches error::ErrorModel::Domain(e)
            &&& e.code == ErrorCode::InvalidInput
            &&& e.context matches Some(c)
            &&& json::member(c, "locator"@) == Some(locator_json_of(args))
            &&& json::member(c, "ordering_policy"@) == Some(JsonModel::Text(ordering_policy(args)))
            &&& json::member(c, "candidates"@) == Some(
                JsonModel::Array(candidates_json(s, ordering_policy(args), shown(s))),
            )
            &&& json::member(c, "selection"@) == Some(requested_selection(args))
            &&& json::member(c, "disambiguation_hints"@) == Some(hints_json(s))
        }),
{
    reveal_strlit("locator");
    reveal_strlit("ordering_policy");
    reveal_strlit("candidates");
    reveal_strlit("disambiguation_hints");
    reveal_strlit("selection");
    assert("locator"@.len() != "ordering_policy"@.len());
    assert("locator"@.len() != "candidates"@.len());
    assert("locator"@.len() != "disambiguation_hints"@.len());
    assert("locator"@.len() != "selection"@.len());
    assert("ordering_policy"@.len() != "candidates"@.len());
    assert("ordering_policy"@.len() != "disambiguation_hints"@.len());
    assert("ordering_policy"@.len() != "selection"@.len());
    assert("candidates"@.len() != "disambiguation_hints"@.len());
    assert("candidates"@.len() != "selection"@.len());
    assert("disambiguation_hints"@.len() != "selection"@.len());
}

} // verus!
