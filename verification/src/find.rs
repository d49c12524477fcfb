//! Looking for elements without acting on them.

use vstd::prelude::*;
use crate::addressing::ResolvedElements;
use crate::element_semantics as semantics;
use crate::element_semantics::{accessible_label, semantic_role, test_id};
use crate::error::{self, ErrorCode, ErrorModel, RubError};
use crate::interaction::explain::target;
use crate::json::{self, Json, JsonModel, JsonObject, NumberModel};
use crate::locator::{self, CanonicalLocator, LocatorModel};
use crate::model::{self, Element, ElementModel};
use crate::text;

verus! {

/// A piece of page content that a locator matches.
#[derive(Debug)]
pub struct ContentFindMatch {
    pub tag_name: String,
    pub text: String,
    pub role: String,
    pub label: String,
    pub testid: Option<String>,
}

/// What a find request asks for.
#[derive(Debug)]
pub enum FindPlan {
    /// Interactive elements of a snapshot.
    Snapshot { locator: Option<CanonicalLocator>, limit: Option<u64> },
    /// Content of the page itself.
    Content { anchor: CanonicalLocator, limit: Option<u64> },
}

/// What a find request asks for, over texts.
#[verifier::ext_equal]
pub enum FindPlanModel {
    Snapshot(Option<LocatorModel>, Option<u64>),
    Content(LocatorModel, Option<u64>),
}

impl View for FindPlan {
    type V = FindPlanModel;

    open spec fn view(&self) -> FindPlanModel {
        match self {
            FindPlan::Snapshot { locator, limit } => FindPlanModel::Snapshot(
                locator::opt_locator(*locator),
                *limit,
            ),
            FindPlan::Content { anchor, limit } => FindPlanModel::Content(anchor@, *limit),
        }
    }
}

/// Whether a locator can be matched on the page itself.
pub open spec fn live(l: LocatorModel) -> bool {
    !(l is Index) && !(l is Ref)
}

/// Lets a locator pass that can be matched on the page itself.
pub fn require_live_locator(
    locator: CanonicalLocator,
    context: Json,
    message: &str,
    suggestion: &str,
) -> (r: Result<CanonicalLocator, RubError>)
    ensures
        match r {
            Ok(l) => live(locator@) && l == locator,
            Err(e) => !live(locator@) && e@ == error::with_suggestion(
                ErrorCode::InvalidInput,
                message@,
                context@,
                suggestion@,
            ),
        },
{
    match locator {
        CanonicalLocator::Index { .. } | CanonicalLocator::Ref { .. } => Err(
            RubError::domain_with_context_and_suggestion(
                ErrorCode::InvalidInput,
                message,
                context,
                suggestion,
            ),
        ),
        _ => Ok(locator),
    }
}

pub open spec fn content_flag() -> Map<Seq<char>, JsonModel> {
    Map::<Seq<char>, JsonModel>::empty().insert("content"@, JsonModel::Bool(true))
}

/// The error for a content search in a snapshot.
pub open spec fn content_in_snapshot(snapshot_id: Seq<char>) -> ErrorModel {
    error::with_suggestion(
        ErrorCode::InvalidInput,
        "find --content requires a live DOM locator, not --snapshot"@,
        JsonModel::Object(
            content_flag().insert("snapshot_id"@, JsonModel::Text(snapshot_id)),
        ),
        "Drop --snapshot and use --selector, --target-text, --role, --label, or --testid for content-anchor discovery"@,
    )
}

/// The error for a content search without a locator for the page.
pub open spec fn content_without_locator() -> ErrorModel {
    error::with_suggestion(
        ErrorCode::InvalidInput,
        "find --content requires a selector, target_text, role, label, or testid locator"@,
        JsonModel::Object(content_flag()),
        "Provide --selector, --target-text, --role, --label, or --testid to search content anchors"@,
    )
}

/// What a find request asks for, or why it is refused.
pub open spec fn planned(args: JsonModel) -> Result<FindPlanModel, ErrorModel> {
    match locator::parsed(args) {
        Err(e) => Err(e),
        Ok(l) => if !locator::flag_member(args, "content"@) {
            Ok(FindPlanModel::Snapshot(l, json::uint_member(args, "limit"@)))
        } else if json::text_member(args, "snapshot_id"@) is Some {
            Err(content_in_snapshot(json::text_member(args, "snapshot_id"@)->0))
        } else if l is Some && live(l->0) {
            Ok(FindPlanModel::Content(l->0, json::uint_member(args, "limit"@)))
        } else {
            Err(content_without_locator())
        },
    }
}

pub open spec fn plan_result(r: Result<FindPlan, RubError>) -> Result<FindPlanModel, ErrorModel> {
    match r {
        Ok(p) => Ok(p@),
        Err(e) => Err(e@),
    }
}

/// Reads a find request.
pub fn plan_find(args: &Json) -> (r: Result<FindPlan, RubError>)
    ensures
        plan_result(r) == planned(args@),
{
    let locator = match locator::parse_canonical_locator(args) {
        Ok(l) => l,
        Err(e) => return Err(e),
    };
    let limit = args.get_uint("limit");
    if !locator::get_flag(args, "content") {
        return Ok(FindPlan::Snapshot { locator, limit });
    }
    if let Some(snapshot_id) = args.get_str("snapshot_id") {
        let context = JsonObject::new().with("content", Json::Bool(true)).with(
            "snapshot_id",
            json::text_value(snapshot_id),
        );
        return Err(
            RubError::domain_with_context_and_suggestion(
                ErrorCode::InvalidInput,
                "find --content requires a live DOM locator, not --snapshot",
                Json::Object(context),
                "Drop --snapshot and use --selector, --target-text, --role, --label, or --testid for content-anchor discovery",
            ),
        );
    }
    let context = Json::Object(JsonObject::new().with("content", Json::Bool(true)));
    match locator {
        Some(l) => match require_live_locator(
            l,
            context,
            "find --content requires a selector, target_text, role, label, or testid locator",
            "Provide --selector, --target-text, --role, --label, or --testid to search content anchors",
        ) {
            Ok(anchor) => Ok(FindPlan::Content { anchor, limit }),
            Err(e) => Err(e),
        },
        None => Err(
            RubError::domain_with_context_and_suggestion(
                ErrorCode::InvalidInput,
                "find --content requires a selector, target_text, role, label, or testid locator",
                context,
                "Provide --selector, --target-text, --role, --label, or --testid to search content anchors",
            ),
        ),
    }
}

/// What a find answer is about.
pub open spec fn subject_json(
    surface: Seq<char>,
    l: Option<LocatorModel>,
    frame_id: Option<Seq<char>>,
) -> JsonModel {
    JsonModel::Object(
        Map::<Seq<char>, JsonModel>::empty().insert(
            "kind"@,
            JsonModel::Text("find_query"@),
        ).insert("surface"@, JsonModel::Text(surface)).insert(
            "frame_id"@,
            json::opt_text_model(frame_id),
        ).insert(
            "locator"@,
            match l {
                Some(l) => JsonModel::Object(locator::canonical_members(l)),
                None => JsonModel::Null,
            },
        ),
    )
}

pub open spec fn opt_locator_ref(o: Option<&CanonicalLocator>) -> Option<LocatorModel> {
    match o {
        Some(l) => Some(l@),
        None => None,
    }
}

pub fn find_subject(
    surface: &str,
    locator: Option<&CanonicalLocator>,
    frame_id: Option<&str>,
) -> (r: Json)
    ensures
        r@ == subject_json(surface@, opt_locator_ref(locator), json::opt_str_text(frame_id)),
{
    let frame = match frame_id {
        Some(id) => json::text_value(id),
        None => Json::Null,
    };
    let locator = match locator {
        Some(l) => locator::canonical_locator_json(l),
        None => Json::Null,
    };
    Json::Object(
        JsonObject::new().with("kind", json::text_value("find_query")).with(
            "surface",
            json::text_value(surface),
        ).with("frame_id", frame).with("locator", locator),
    )
}

pub open spec fn payload(subject: JsonModel, result: JsonModel) -> JsonModel {
    JsonModel::Object(
        Map::<Seq<char>, JsonModel>::empty().insert("subject"@, subject).insert("result"@, result),
    )
}

pub fn find_payload(subject: Json, result: Json) -> (r: Json)
    ensures
        r@ == payload(subject@, result@),
{
    Json::Object(JsonObject::new().with("subject", subject).with("result", result))
}

/// How many of `n` matches a limit lets through.
pub open spec fn returned(n: nat, limit: Option<u64>) -> int {
    if limit is Some && limit->0 < n {
        limit->0 as int
    } else {
        n as int
    }
}

fn returned_count(n: usize, limit: Option<u64>) -> (r: usize)
    ensures
        r == returned(n as nat, limit),
        r <= n,
{
    match limit {
        Some(l) => if l < n as u64 {
            l as usize
        } else {
            n
        },
        None => n,
    }
}

/// How a match in a snapshot is described.
pub open spec fn match_json(e: ElementModel) -> JsonModel {
    let base = Map::<Seq<char>, JsonModel>::empty().insert(
        "index"@,
        JsonModel::Number(NumberModel::Int(e.index as int)),
    ).insert("tag"@, JsonModel::Text(target::tag_name(e.tag))).insert(
        "text"@,
        JsonModel::Text(e.text),
    ).insert("role"@, JsonModel::Text(semantics::role_of(e))).insert(
        "label"@,
        JsonModel::Text(semantics::label_of(e)),
    );
    JsonModel::Object(
        locator::text_if(
            locator::text_if(base, "element_ref"@, e.element_ref),
            "testid"@,
            semantics::test_id_of(e),
        ),
    )
}

fn match_value(e: &Element) -> (r: Json)
    ensures
        r@ == match_json(e@),
{
    let role = semantic_role(e);
    let label = accessible_label(e);
    let mut o = JsonObject::new().with("index", json::uint_value(e.index as u64)).with(
        "tag",
        json::text_value(target::tag_str(e.tag)),
    ).with("text", json::text_value(e.text.as_str())).with(
        "role",
        json::text_value(role.as_str()),
    ).with("label", json::text_value(label.as_str()));
    if let Some(element_ref) = &e.element_ref {
        o.insert("element_ref", json::text_value(element_ref.as_str()));
    }
    if let Some(id) = test_id(e) {
        o.insert("testid", json::text_value(id));
    }
    Json::Object(o)
}

/// How a match in the page is described.
pub open spec fn content_match_json(m: ContentFindMatch) -> JsonModel {
    let base = Map::<Seq<char>, JsonModel>::empty().insert(
        "tag_name"@,
        JsonModel::Text(m.tag_name@),
    ).insert("text"@, JsonModel::Text(m.text@)).insert("role"@, JsonModel::Text(m.role@)).insert(
        "label"@,
        JsonModel::Text(m.label@),
    );
    JsonModel::Object(locator::text_if(base, "testid"@, text::opt_text(m.testid)))
}

fn content_match_value(m: &ContentFindMatch) -> (r: Json)
    ensures
        r@ == content_match_json(*m),
{
    let mut o = JsonObject::new().with("tag_name", json::text_value(m.tag_name.as_str())).with(
        "text",
        json::text_value(m.text.as_str()),
    ).with("role", json::text_value(m.role.as_str())).with(
        "label",
        json::text_value(m.label.as_str()),
    );
    if let Some(id) = &m.testid {
        o.insert("testid", json::text_value(id.as_str()));
    }
    Json::Object(o)
}

/// What a find answer says of its matches.
pub open spec fn match_members(
    base: Map<Seq<char>, JsonModel>,
    total: nat,
    matches: Seq<JsonModel>,
) -> Map<Seq<char>, JsonModel> {
    base.insert("match_count"@, JsonModel::Number(NumberModel::Int(total as int))).insert(
        "returned_count"@,
        JsonModel::Number(NumberModel::Int(matches.len() as int)),
    ).insert("truncated"@, JsonModel::Bool(total > matches.len())).insert(
        "matches"@,
        JsonModel::Array(matches),
    )
}

fn match_object(base: JsonObject, total: usize, matches: Vec<Json>) -> (r: JsonObject)
    ensures
        r@ == match_members(base@, total as nat, json::items_model(matches@)),
{
    proof {
        json::items_model_len(matches@);
    }
    let count: usize = matches.len();
    base.with("match_count", json::uint_value(total as u64)).with(
        "returned_count",
        json::uint_value(count as u64),
    ).with("truncated", Json::Bool(total > count)).with("matches", Json::Array(matches))
}

/// The first `n` matches in a snapshot as they are described.
pub open spec fn matches_json(s: Seq<ElementModel>, n: int) -> Seq<JsonModel> {
    Seq::new(n as nat, |i: int| match_json(s[i]))
}

/// The first `n` matches in the page as they are described.
pub open spec fn content_matches_json(s: Seq<ContentFindMatch>, n: int) -> Seq<JsonModel> {
    Seq::new(n as nat, |i: int| content_match_json(s[i]))
}

/// The answer to a search in a snapshot.
pub open spec fn snapshot_answer(
    l: Option<LocatorModel>,
    limit: Option<u64>,
    s: Seq<ElementModel>,
    snapshot_id: Seq<char>,
) -> JsonModel {
    payload(
        subject_json("interactive_snapshot"@, l, None),
        JsonModel::Object(
            match_members(
                Map::<Seq<char>, JsonModel>::empty().insert(
                    "snapshot_id"@,
                    JsonModel::Text(snapshot_id),
                ),
                s.len(),
                matches_json(s, returned(s.len(), limit)),
            ),
        ),
    )
}

/// Answers a search in a snapshot.
pub fn cmd_find(
    locator: Option<&CanonicalLocator>,
    limit: Option<u64>,
    resolved: &ResolvedElements,
) -> (r: Json)
    ensures
        r@ == snapshot_answer(
            opt_locator_ref(locator),
            limit,
            model::element_models(resolved.elements@),
            resolved.snapshot_id@,
        ),
{
    let ghost s = model::element_models(resolved.elements@);
    let total: usize = resolved.elements.len();
    let n = returned_count(total, limit);
    let mut matches: Vec<Json> = Vec::new();
    let mut i: usize = 0;
    assert(json::items_model(matches@) =~= matches_json(s, 0));
    while i < n
        invariant
            i <= n <= resolved.elements@.len(),
            s == model::element_models(resolved.elements@),
            json::items_model(matches@) == matches_json(s, i as int),
        decreases n - i,
    {
        let item = match_value(&resolved.elements[i]);
        let ghost before = matches@;
        matches.push(item);
        proof {
            assert(matches@.drop_last() =~= before);
            assert(matches_json(s, i + 1) =~= matches_json(s, i as int).push(
                match_json(s[i as int]),
            ));
        }
        i += 1;
    }
    let base = JsonObject::new().with(
        "snapshot_id",
        json::text_value(resolved.snapshot_id.as_str()),
    );
    find_payload(
        find_subject("interactive_snapshot", locator, None),
        Json::Object(match_object(base, total, matches)),
    )
}

/// The error for a content search that matches nothing.
pub open spec fn no_content(l: LocatorModel) -> ErrorModel {
    error::with_suggestion(
        ErrorCode::ElementNotFound,
        "find --content did not resolve to any live DOM content anchor"@,
        JsonModel::Object(
            content_flag().insert("locator"@, JsonModel::Object(locator::canonical_members(l))),
        ),
        "Run 'rub observe' to see all interactive elements on the page, or broaden the locator. Add --first/--last/--nth if multiple matches are expected"@,
    )
}

/// The answer to a search in the page.
pub open spec fn content_answer(
    l: LocatorModel,
    limit: Option<u64>,
    frame_id: Option<Seq<char>>,
    s: Seq<ContentFindMatch>,
) -> JsonModel {
    payload(
        subject_json("content"@, Some(l), frame_id),
        JsonModel::Object(
            match_members(
                Map::<Seq<char>, JsonModel>::empty(),
                s.len(),
                content_matches_json(s, returned(s.len(), limit)),
            ),
        ),
    )
}

/// Answers a search in the page.
pub fn cmd_find_content(
    locator: &CanonicalLocator,
    limit: Option<u64>,
    frame_id: Option<&str>,
    content_matches: &Vec<ContentFindMatch>,
) -> (r: Result<Json, RubError>)
    ensures
        match r {
            Ok(j) => content_matches@.len() > 0 && j@ == content_answer(
                locator@,
                limit,
                json::opt_str_text(frame_id),
                content_matches@,
            ),
            Err(e) => content_matches@.len() == 0 && e@ == no_content(locator@),
        },
{
    let total: usize = content_matches.len();
    if total == 0 {
        let context = JsonObject::new().with("content", Json::Bool(true)).with(
            "locator",
            locator::canonical_locator_json(locator),
        );
        return Err(
            RubError::domain_with_context_and_suggestion(
                ErrorCode::ElementNotFound,
                "find --content did not resolve to any live DOM content anchor",
                Json::Object(context),
                "Run 'rub observe' to see all interactive elements on the page, or broaden the locator. Add --first/--last/--nth if multiple matches are expected",
            ),
        );
    }
    let n = returned_count(total, limit);
    let ghost s = content_matches@;
    let mut matches: Vec<Json> = Vec::new();
    let mut i: usize = 0;
    assert(json::items_model(matches@) =~= content_matches_json(s, 0));
    while i < n
        invariant
            i <= n <= content_matches@.len(),
            s == content_matches@,
            json::items_model(matches@) == content_matches_json(s, i as int),
        decreases n - i,
    {
        let item = content_match_value(&content_matches[i]);
        let ghost before = matches@;
        matches.push(item);
        proof {
            assert(matches@.drop_last() =~= before);
            assert(content_matches_json(s, i + 1) =~= content_matches_json(s, i as int).push(
                content_match_json(s[i as int]),
            ));
        }
        i += 1;
    }
    Ok(
        find_payload(
            find_subject("content", Some(locator), frame_id),
            Json::Object(match_object(JsonObject::new(), total, matches)),
        ),
    )
}

/// A find answer is cut short exactly where its limit is below the number of
/// matches, and never holds more than the limit.
pub proof fn truncation_is_reported(n: nat, limit: Option<u64>)
    ensures
        n > returned(n, limit) <==> limit is Some && limit->0 < n,
        limit is Some ==> returned(n, limit) <= limit->0,
{
}

/// Content of the page is searched exactly where a request asks for it with a
/// locator that the page can match and names no snapshot; a request that does not
/// ask for content searches a snapshot, with a locator or without one. The limit is
/// the one that the request gives.
pub proof fn content_is_searched_where_it_is_asked_for(args: JsonModel)
    requires
        locator::parsed(args) is Ok,
    ensures
        ({
            let l = locator::parsed(args)->Ok_0;
            let content = json::member(args, "content"@) == Some(JsonModel::Bool(true));
            let r = planned(args);
            &&& r matches Ok(FindPlanModel::Snapshot(of, limit)) ==> !content && of == l && limit
                == json::uint_member(args, "limit"@)
            &&& r matches Ok(FindPlanModel::Content(of, limit)) ==> content && l == Some(of)
                && !(of is Index) && !(of is Ref) && json::text_member(args, "snapshot_id"@) is None
                && limit == json::uint_member(args, "limit"@)
            &&& !content ==> r is Ok
            &&& content && json::text_member(args, "snapshot_id"@) is Some ==> r is Err
            &&& content && l is None ==> r is Err
            &&& content && l is Some && (l->0 is Index || l->0 is Ref) ==> r is Err
            &&& content && json::text_member(args, "snapshot_id"@) is None && l is Some && !(l->0
                is Index) && !(l->0 is Ref) ==> r is Ok
            &&& r matches Err(ErrorModel::Domain(e)) ==> e.code == ErrorCode::InvalidInput
        }),
{
}

/// A limit lets through as many matches as it says, or all where there are fewer.
pub proof fn limits_let_the_first_through(n: nat, limit: Option<u64>)
    ensures
        limit is None ==> returned(n, limit) == n,
        limit matches Some(k) ==> (k <= n ==> returned(n, limit) == k),
        limit matches Some(k) ==> (k >= n ==> returned(n, limit) == n),
{
}

proof fn member_names_differ()
    ensures
        "match_count"@ != "returned_count"@,
        "match_count"@ != "truncated"@,
        "match_count"@ != "matches"@,
        "match_count"@ != "snapshot_id"@,
        "returned_count"@ != "truncated"@,
        "returned_count"@ != "matches"@,
        "returned_count"@ != "snapshot_id"@,
        "truncated"@ != "matches"@,
        "truncated"@ != "snapshot_id"@,
        "matches"@ != "snapshot_id"@,
        "subject"@ != "result"@,
{
    reveal_strlit("match_count");
    reveal_strlit("returned_count");
    reveal_strlit("truncated");
    reveal_strlit("matches");
    reveal_strlit("snapshot_id");
    assert("match_count"@.len() != "returned_count"@.len());
    assert("match_count"@.len() != "truncated"@.len());
    assert("match_count"@.len() != "matches"@.len());
    assert("match_count"@[0] != "snapshot_id"@[0]);
    assert("returned_count"@.len() != "truncated"@.len());
    assert("returned_count"@.len() != "matches"@.len());
    assert("returned_count"@.len() != "snapshot_id"@.len());
    assert("truncated"@.len() != "matches"@.len());
    assert("truncated"@.len() != "snapshot_id"@.len());
    assert("matches"@.len() != "snapshot_id"@.len());
    reveal_strlit("subject");
    reveal_strlit("result");
    assert("subject"@.len() != "result"@.len());
}

/// An answer counts all matches, lists the first of them, as many as the limit lets
/// through, in their order, and says whether it left any out.
pub proof fn answers_list_the_first_matches(
    base: Map<Seq<char>, JsonModel>,
    total: nat,
    listed: Seq<JsonModel>,
    key: Seq<char>,
)
    ensures
        ({
            let r = JsonModel::Object(match_members(base, total, listed));
            &&& json::member(r, "match_count"@) == Some(json::number(total as int))
            &&& json::member(r, "returned_count"@) == Some(json::number(listed.len() as int))
            &&& json::member(r, "truncated"@) == Some(JsonModel::Bool(listed.len() < total))
            &&& json::member(r, "matches"@) == Some(JsonModel::Array(listed))
            &&& key != "match_count"@ && key != "returned_count"@ && key != "truncated"@ && key
                != "matches"@ ==> json::member(r, key) == json::member(
                JsonModel::Object(base),
                key,
            )
        }),
{
    member_names_differ();
}

/// The answer to a search in a snapshot describes the matches at the head of the list,
/// each in its place.
pub proof fn snapshot_matches_keep_their_places(
    l: Option<LocatorModel>,
    limit: Option<u64>,
    s: Seq<ElementModel>,
    snapshot_id: Seq<char>,
)
    ensures
        ({
            let answer = snapshot_answer(l, limit, s, snapshot_id);
            &&& json::member(answer, "result"@) matches Some(result)
            &&& json::member(result, "snapshot_id"@) == Some(JsonModel::Text(snapshot_id))
            &&& json::member(result, "match_count"@) == Some(json::number(s.len() as int))
            &&& json::member(result, "matches"@) matches Some(JsonModel::Array(listed))
            &&& listed.len() <= s.len()
            &&& listed.len() == s.len() || limit == Some(listed.len() as u64)
            &&& forall|i: int| 0 <= i < listed.len() ==> #[trigger] listed[i] == match_json(s[i])
            &&& json::member(result, "truncated"@) == Some(JsonModel::Bool(listed.len() < s.len()))
        }),
{
    member_names_differ();
}

/// The answer to a search in the page describes the matches at the head of the list,
/// each in its place.
pub proof fn content_matches_keep_their_places(
    l: LocatorModel,
    limit: Option<u64>,
    frame_id: Option<Seq<char>>,
    s: Seq<ContentFindMatch>,
)
    ensures
        ({
            let answer = content_answer(l, limit, frame_id, s);
            &&& json::member(answer, "result"@) matches Some(result)
            &&& json::member(result, "match_count"@) == Some(json::number(s.len() as int))
            &&& json::member(result, "matches"@) matches Some(JsonModel::Array(listed))
            &&& listed.len() <= s.len()
            &&& listed.len() == s.len() || limit == Some(listed.len() as u64)
            &&& forall|i: int|
                0 <= i < listed.len() ==> #[trigger] listed[i] == content_match_json(s[i])
            &&& json::member(result, "truncated"@) == Some(JsonModel::Bool(listed.len() < s.len()))
        }),
{
    member_names_differ();
}

/// A described match says the number, the text, the role and the label of its element,
/// and its reference and test identifier exactly where it has them.
pub proof fn matches_are_described_by_what_they_are(e: ElementModel)
    ensures
        ({
            let r = match_json(e);
            &&& json::member(r, "index"@) == Some(json::number(e.index as int))
            &&& json::member(r, "text"@) == Some(JsonModel::Text(e.text))
            &&& json::member(r, "role"@) == Some(JsonModel::Text(semantics::role_of(e)))
            &&& json::member(r, "label"@) == Some(JsonModel::Text(semantics::label_of(e)))
            &&& match e.element_ref {
                Some(x) => json::member(r, "element_ref"@) == Some(JsonModel::Text(x)),
                None => json::member(r, "element_ref"@) is None,
            }
            &&& match semantics::test_id_of(e) {
                Some(x) => json::member(r, "testid"@) == Some(JsonModel::Text(x)),
                None => json::member(r, "testid"@) is None,
            }
        }),
{
    reveal_strlit("index");
    reveal_strlit("tag");
    reveal_strlit("text");
    reveal_strlit("role");
    reveal_strlit("label");
    reveal_strlit("element_ref");
    reveal_strlit("testid");
    assert("index"@.len() != "tag"@.len());
    assert("index"@.len() != "text"@.len());
    assert("index"@.len() != "role"@.len());
    assert("index"@[0] != "label"@[0]);
    assert("index"@.len() != "element_ref"@.len());
    assert("index"@.len() != "testid"@.len());
    assert("tag"@.len() != "text"@.len());
    assert("tag"@.len() != "role"@.len());
    assert("tag"@.len() != "label"@.len());
    assert("tag"@.len() != "element_ref"@.len());
    assert("tag"@.len() != "testid"@.len());
    assert("text"@[0] != "role"@[0]);
    assert("text"@.len() != "label"@.len());
    assert("text"@.len() != "element_ref"@.len());
    assert("text"@.len() != "testid"@.len());
    assert("role"@.len() != "label"@.len());
    assert("role"@.len() != "element_ref"@.len());
    assert("role"@.len() != "testid"@.len());
    assert("label"@.len() != "element_ref"@.len());
    assert("label"@.len() != "testid"@.len());
    assert("element_ref"@.len() != "testid"@.len());
}

/// A find answer says where was searched and for what.
pub proof fn find_answers_say_what_was_searched(
    surface: Seq<char>,
    l: Option<LocatorModel>,
    frame_id: Option<Seq<char>>,
    result: JsonModel,
)
    ensures
        ({
            let subject = subject_json(surface, l, frame_id);
            &&& json::member(subject, "kind"@) == Some(JsonModel::Text("find_query"@))
            &&& json::member(subject, "surface"@) == Some(JsonModel::Text(surface))
            &&& json::member(subject, "frame_id"@) == Some(json::opt_text_model(frame_id))
            &&& l matches Some(own) ==> json::member(subject, "locator"@) == Some(
                JsonModel::Object(locator::canonical_members(own)),
            )
            &&& l is None ==> json::member(subject, "locator"@) == Some(JsonModel::Null)
            &&& json::member(payload(subject, result), "subject"@) == Some(subject)
            &&& json::member(payload(subject, result), "result"@) == Some(result)
        }),
{
    reveal_strlit("kind");
    reveal_strlit("surface");
    reveal_strlit("frame_id");
    reveal_strlit("locator");
    assert("kind"@.len() != "surface"@.len());
    assert("kind"@.len() != "frame_id"@.len());
    assert("kind"@.len() != "locator"@.len());
    assert("surface"@.len() != "frame_id"@.len());
    assert("surface"@[0] != "locator"@[0]);
    assert("frame_id"@.len() != "locator"@.len());
    reveal_strlit("subject");
    reveal_strlit("result");
    assert("subject"@.len() != "result"@.len());
}

/// A content search that cannot be made, or that finds nothing, says so.
pub proof fn content_searches_fail_with_their_reason(snapshot_id: Seq<char>, l: LocatorModel)
    ensures
        ({
            &&& content_in_snapshot(snapshot_id) matches ErrorModel::Domain(e)
            &&& e.code == ErrorCode::InvalidInput
            &&& e.context matches Some(c)
            &&& json::member(c, "content"@) == Some(JsonModel::Bool(true))
            &&& json::member(c, "snapshot_id"@) == Some(JsonModel::Text(snapshot_id))
        }),
        ({
            &&& content_without_locator() matches ErrorModel::Domain(e)
            &&& e.code == ErrorCode::InvalidInput
            &&& e.context matches Some(c)
            &&& json::member(c, "content"@) == Some(JsonModel::Bool(true))
        }),
        ({
            &&& no_content(l) matches ErrorModel::Domain(e)
            &&& e.code == ErrorCode::ElementNotFound
            &&& e.context matches Some(c)
            &&& json::member(c, "content"@) == Some(JsonModel::Bool(true))
            &&& json::member(c, "locator"@) == Some(
                JsonModel::Object(locator::canonical_members(l)),
            )
        }),
{
    reveal_strlit("content");
    reveal_strlit("snapshot_id");
    assert("content"@.len() != "snapshot_id"@.len());
    reveal_strlit("content");
    reveal_strlit("locator");
    assert("content"@[0] != "locator"@[0]);
}

/// Only a locator that the page itself can match goes to the page: any but a number and a
/// reference.
pub proof fn numbers_and_references_stay_off_the_page(
    l: CanonicalLocator,
    context: Json,
    message: &str,
    suggestion: &str,
    r: Result<CanonicalLocator, RubError>,
)
    requires
        call_ensures(require_live_locator, (l, context, message, suggestion), r),
    ensures
        r is Ok <==> !(l@ is Index) && !(l@ is Ref),
        r matches Ok(same) ==> same == l,
        r matches Err(e) ==> (e@ matches ErrorModel::Domain(x) && x.code == ErrorCode::InvalidInput
            && x.message == message@ && x.context == Some(context@) && x.suggestion == suggestion@),
{
}

} // verus!
