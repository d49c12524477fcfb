//! Matching elements by what they say and what they are.

use vstd::prelude::*;
use crate::element_semantics as semantics;
use crate::element_semantics::{accessible_label, semantic_role, test_id};
use crate::error::{self, ErrorCode, RubError};
use crate::json::{self, Json, JsonModel, JsonObject};
use crate::locator::{CanonicalLocator, LocatorModel};
use crate::model::{self, Element, ElementModel, Snapshot};
use crate::text;
use super::ranking;

verus! {

/// A text as locators compare it: its words with one space between them, in
/// lower case.
pub open spec fn normalized(s: Seq<char>) -> Seq<char> {
    text::lowercase(text::joined(text::words(s), " "@))
}

pub fn normalize_locator_text(value: &str) -> (r: String)
    ensures
        r@ == normalized(value@),
{
    let words = text::split_whitespace(value);
    let spaced = text::join(&words, " ");
    text::to_lowercase(spaced.as_str())
}

/// The normal form of ASCII text is its own normal form. It has no capital
/// letter, and no whitespace but single spaces between words.
pub proof fn normal_form_is_normal(s: Seq<char>)
    requires
        text::ascii(s),
    ensures
        normalized(normalized(s)) == normalized(s),
        forall|i: int|
            0 <= i < normalized(s).len() ==> !('A' <= #[trigger] normalized(s)[i] <= 'Z'),
        text::single_spaced(normalized(s)),
{
    let parts = text::words(s);
    let line = text::joined(parts, " "@);
    let n = text::ascii_lowered(line);
    text::spaced_words_are_ascii(s);
    text::lowered_is_lower(line);
    assert(normalized(s) == n);
    text::words_are_words(s);
    text::joined_words_are_single_spaced(parts);
    text::words_of_joined(parts);
    text::words_lowered(line);
    text::joined_lowered(parts);
    assert(text::joined(text::words(n), " "@) == n);
}

/// Neither the case of ASCII letters nor whitespace matters to the normal form
/// of ASCII text: texts whose words agree up to case have the same one.
pub proof fn case_and_blanks_do_not_matter(a: Seq<char>, b: Seq<char>)
    requires
        text::ascii(a),
        text::words(a).len() == text::words(b).len(),
        forall|i: int|
            0 <= i < text::words(a).len() ==> text::same_ignoring_ascii_case(
                #[trigger] text::words(a)[i],
                text::words(b)[i],
            ),
    ensures
        normalized(a) == normalized(b),
{
    let x = text::words(a);
    let y = text::words(b);
    assert forall|i: int| 0 <= i < x.len() implies text::ascii_lowered(#[trigger] x[i])
        == text::ascii_lowered(y[i]) by {
        text::lowered_ignores_case(x[i], y[i]);
    }
    assert(text::parts_lowered(x) =~= text::parts_lowered(y));
    text::joined_lowered(x);
    text::joined_lowered(y);
    text::spaced_words_are_ascii(a);
    text::lowered_is_lower(text::joined(x, " "@));
    text::lowered_is_lower(text::joined(y, " "@));
}

/// ASCII texts that differ in the case of their letters alone have the same
/// normal form.
pub proof fn case_does_not_matter(a: Seq<char>, b: Seq<char>)
    requires
        text::ascii(a),
        text::same_ignoring_ascii_case(a, b),
    ensures
        normalized(a) == normalized(b),
{
    text::lowered_ignores_case(a, b);
    text::words_lowered(a);
    text::words_lowered(b);
    let x = text::words(a);
    let y = text::words(b);
    assert(text::parts_lowered(x).len() == text::parts_lowered(y).len());
    assert forall|i: int| 0 <= i < x.len() implies text::same_ignoring_ascii_case(
        #[trigger] x[i],
        y[i],
    ) by {
        assert(text::parts_lowered(x)[i] == text::parts_lowered(y)[i]);
        text::lowered_ignores_case(x[i], y[i]);
    }
    case_and_blanks_do_not_matter(a, b);
}

/// How much whitespace stands between words, and of which kind, does not matter
/// to the normal form, nor does whitespace at the ends.
pub proof fn blanks_do_not_matter(
    x: Seq<char>,
    y: Seq<char>,
    between: Seq<char>,
    other: Seq<char>,
    around: Seq<char>,
)
    requires
        text::blank(between),
        between.len() > 0,
        text::blank(other),
        other.len() > 0,
        text::blank(around),
    ensures
        normalized(x + between + y) == normalized(x + other + y),
        normalized(around + x) == normalized(x),
        normalized(x + around) == normalized(x),
{
    let empty = Seq::<char>::empty();
    text::words_around_blanks(x, between, y);
    text::words_around_blanks(x, other, y);
    text::words_around_blanks(empty, around, x);
    text::words_around_blanks(x, around, empty);
    assert(empty + around + x =~= around + x);
    assert(x + around + empty =~= x + around);
    assert(text::trim_start(empty).len() == 0);
    assert(text::words(empty) =~= seq![]);
    assert(text::words(empty) + text::words(x) =~= text::words(x));
    assert(text::words(x) + text::words(empty) =~= text::words(x));
}

/// How an element is compared with a query.
#[derive(Clone, Copy, Debug, PartialEq, Eq, Structural)]
pub enum MatchRule {
    TextIs,
    TextContains,
    RoleIs,
    LabelIs,
    LabelContains,
    TestIdIs,
}

/// The text is the query, or contains it, once normalized.
pub open spec fn hits(candidate: Seq<char>, query: Seq<char>, exact: bool) -> bool {
    if exact {
        normalized(candidate) == query
    } else {
        text::occurs(normalized(candidate), query)
    }
}

fn is_hit(candidate: &str, query: &str, exact: bool) -> (r: bool)
    ensures
        r == hits(candidate@, query@, exact),
{
    let normalized = normalize_locator_text(candidate);
    if exact {
        text::str_eq(normalized.as_str(), query)
    } else {
        text::contains(normalized.as_str(), query)
    }
}

pub open spec fn attribute_hits(
    e: ElementModel,
    key: Seq<char>,
    query: Seq<char>,
    exact: bool,
) -> bool {
    match e.attributes.get(key) {
        Some(value) => hits(value, query, exact),
        None => false,
    }
}

fn is_attribute_hit(e: &Element, key: &str, query: &str, exact: bool) -> (r: bool)
    ensures
        r == attribute_hits(e@, key@, query@, exact),
{
    match e.attributes.get(key) {
        Some(value) => is_hit(value, query, exact),
        None => false,
    }
}

/// The element says the query: in its text, unless that is blank, or in one of
/// its labelling attributes.
pub open spec fn says(e: ElementModel, query: Seq<char>, exact: bool) -> bool {
    ||| text::trimmed(e.text).len() > 0 && hits(e.text, query, exact)
    ||| attribute_hits(e, "aria-label"@, query, exact)
    ||| attribute_hits(e, "placeholder"@, query, exact)
    ||| attribute_hits(e, "title"@, query, exact)
    ||| attribute_hits(e, "alt"@, query, exact)
    ||| attribute_hits(e, "value"@, query, exact)
    ||| attribute_hits(e, "name"@, query, exact)
}

pub fn element_matches_text(element: &Element, query: &str, exact: bool) -> (r: bool)
    ensures
        r == says(element@, query@, exact),
{
    if !text::trim(element.text.as_str()).is_empty() && is_hit(
        element.text.as_str(),
        query,
        exact,
    ) {
        return true;
    }
    is_attribute_hit(element, "aria-label", query, exact) || is_attribute_hit(
        element,
        "placeholder",
        query,
        exact,
    ) || is_attribute_hit(element, "title", query, exact) || is_attribute_hit(
        element,
        "alt",
        query,
        exact,
    ) || is_attribute_hit(element, "value", query, exact) || is_attribute_hit(
        element,
        "name",
        query,
        exact,
    )
}

/// The element matches a normalized query by a rule.
pub open spec fn matches_rule(e: ElementModel, rule: MatchRule, query: Seq<char>) -> bool {
    match rule {
        MatchRule::TextIs => says(e, query, true),
        MatchRule::TextContains => says(e, query, false),
        MatchRule::RoleIs => normalized(semantics::role_of(e)) == query,
        MatchRule::LabelIs => normalized(semantics::label_of(e)) == query,
        MatchRule::LabelContains => semantics::label_of(e).len() > 0 && text::occurs(
            normalized(semantics::label_of(e)),
            query,
        ),
        MatchRule::TestIdIs => match semantics::test_id_of(e) {
            Some(id) => normalized(id) == query,
            None => false,
        },
    }
}

pub fn element_matches(element: &Element, rule: MatchRule, query: &str) -> (r: bool)
    ensures
        r == matches_rule(element@, rule, query@),
{
    match rule {
        MatchRule::TextIs => element_matches_text(element, query, true),
        MatchRule::TextContains => element_matches_text(element, query, false),
        MatchRule::RoleIs => is_hit(semantic_role(element).as_str(), query, true),
        MatchRule::LabelIs => is_hit(accessible_label(element).as_str(), query, true),
        MatchRule::LabelContains => {
            let label = accessible_label(element);
            !label.as_str().is_empty() && is_hit(label.as_str(), query, false)
        },
        MatchRule::TestIdIs => match test_id(element) {
            Some(id) => is_hit(id, query, true),
            None => false,
        },
    }
}

/// The elements that match, as they stand.
pub open spec fn selected(s: Seq<ElementModel>, rule: MatchRule, query: Seq<char>) -> Seq<
    ElementModel,
>
    decreases s.len(),
{
    if s.len() == 0 {
        s
    } else {
        let front = selected(s.drop_last(), rule, query);
        if matches_rule(s.last(), rule, query) {
            front.push(s.last())
        } else {
            front
        }
    }
}

/// The elements that match, by their numbers.
pub open spec fn found(s: Seq<ElementModel>, rule: MatchRule, query: Seq<char>) -> Seq<
    ElementModel,
> {
    ranking::ranked(selected(s, rule, query), false)
}

fn find_elements(elements: &Vec<Element>, rule: MatchRule, query: &str) -> (r: Vec<Element>)
    ensures
        model::element_models(r@) == found(model::element_models(elements@), rule, query@),
{
    let ghost all = model::element_models(elements@);
    let mut out: Vec<Element> = Vec::new();
    let mut i: usize = 0;
    assert(model::element_models(out@) =~= selected(all.take(0), rule, query@));
    while i < elements.len()
        invariant
            i <= elements@.len(),
            all == model::element_models(elements@),
            model::element_models(out@) == selected(all.take(i as int), rule, query@),
        decreases elements@.len() - i,
    {
        assert(all.take(i + 1).drop_last() =~= all.take(i as int));
        if element_matches(&elements[i], rule, query) {
            let ghost before = out@;
            let e = elements[i].clone();
            out.push(e);
            assert(model::element_models(out@) =~= model::element_models(before).push(e@));
        }
        i += 1;
    }
    assert(all.take(i as int) =~= all);
    ranking::rank_elements(out, false)
}

/// The error for a query that nothing matches.
pub open spec fn unmatched(
    what: Seq<char>,
    key: Seq<char>,
    query: Seq<char>,
    suggestion: Seq<char>,
) -> error::ErrorModel {
    error::with_suggestion(
        ErrorCode::ElementNotFound,
        "No interactive snapshot element matched "@ + what + " '"@ + query + "'"@,
        json::object1(key, JsonModel::Text(query)),
        suggestion,
    )
}

fn unmatched_error(what: &str, key: &str, query: &str, suggestion: &str) -> (r: RubError)
    ensures
        r@ == unmatched(what@, key@, query@, suggestion@),
{
    let message = text::cat5(
        "No interactive snapshot element matched ",
        what,
        " '",
        query,
        "'",
    );
    RubError::domain_with_context_and_suggestion(
        ErrorCode::ElementNotFound,
        message.as_str(),
        Json::Object(JsonObject::new().with(key, json::text_value(query))),
        suggestion,
    )
}

/// The outcome of a search: the elements found, or that there are none.
pub open spec fn search_outcome(
    found: Seq<ElementModel>,
    error: error::ErrorModel,
    r: Result<Vec<Element>, RubError>,
) -> bool {
    if found.len() > 0 {
        r is Ok && model::element_models(r->Ok_0@) == found
    } else {
        error::err_model(r) == Some(error)
    }
}

/// What says the query exactly; where nothing does, what contains it.
pub open spec fn by_text(s: Seq<ElementModel>, query: Seq<char>) -> Seq<ElementModel> {
    let exact = found(s, MatchRule::TextIs, normalized(query));
    if exact.len() > 0 {
        exact
    } else {
        found(s, MatchRule::TextContains, normalized(query))
    }
}

pub open spec fn no_text(query: Seq<char>) -> error::ErrorModel {
    unmatched(
        "text"@,
        "target_text"@,
        query,
        "Run 'rub observe' to see all interactive elements, or use --selector for content-level matching"@,
    )
}

pub fn resolve_elements_by_text(snapshot: &Snapshot, query: &str) -> (r: Result<
    Vec<Element>,
    RubError,
>)
    ensures
        search_outcome(
            by_text(model::element_models(snapshot.elements@), query@),
            no_text(query@),
            r,
        ),
{
    let normalized_query = normalize_locator_text(query);
    let exact = find_elements(&snapshot.elements, MatchRule::TextIs, normalized_query.as_str());
    assert(model::element_models(exact@).len() == exact@.len());
    if exact.len() > 0 {
        return Ok(exact);
    }
    let contains = find_elements(
        &snapshot.elements,
        MatchRule::TextContains,
        normalized_query.as_str(),
    );
    assert(model::element_models(contains@).len() == contains@.len());
    if contains.len() > 0 {
        return Ok(contains);
    }
    Err(
        unmatched_error(
            "text",
            "target_text",
            query,
            "Run 'rub observe' to see all interactive elements, or use --selector for content-level matching",
        ),
    )
}

pub open spec fn by_role(s: Seq<ElementModel>, query: Seq<char>) -> Seq<ElementModel> {
    found(s, MatchRule::RoleIs, normalized(query))
}

pub open spec fn no_role(query: Seq<char>) -> error::ErrorModel {
    unmatched(
        "role"@,
        "role"@,
        query,
        "Run 'rub observe' to see all interactive elements and their roles"@,
    )
}

pub fn resolve_elements_by_role(snapshot: &Snapshot, query: &str) -> (r: Result<
    Vec<Element>,
    RubError,
>)
    ensures
        search_outcome(
            by_role(model::element_models(snapshot.elements@), query@),
            no_role(query@),
            r,
        ),
{
    let normalized_query = normalize_locator_text(query);
    let matches = find_elements(&snapshot.elements, MatchRule::RoleIs, normalized_query.as_str());
    assert(model::element_models(matches@).len() == matches@.len());
    if matches.len() > 0 {
        return Ok(matches);
    }
    Err(
        unmatched_error(
            "role",
            "role",
            query,
            "Run 'rub observe' to see all interactive elements and their roles",
        ),
    )
}

/// What has the label exactly; where nothing has, what contains it.
pub open spec fn by_label(s: Seq<ElementModel>, query: Seq<char>) -> Seq<ElementModel> {
    let exact = found(s, MatchRule::LabelIs, normalized(query));
    if exact.len() > 0 {
        exact
    } else {
        found(s, MatchRule::LabelContains, normalized(query))
    }
}

pub open spec fn no_label(query: Seq<char>) -> error::ErrorModel {
    unmatched(
        "label"@,
        "label"@,
        query,
        "Run 'rub observe' to see all interactive elements and their labels"@,
    )
}

pub fn resolve_elements_by_label(snapshot: &Snapshot, query: &str) -> (r: Result<
    Vec<Element>,
    RubError,
>)
    ensures
        search_outcome(
            by_label(model::element_models(snapshot.elements@), query@),
            no_label(query@),
            r,
        ),
{
    let normalized_query = normalize_locator_text(query);
    let exact = find_elements(&snapshot.elements, MatchRule::LabelIs, normalized_query.as_str());
    assert(model::element_models(exact@).len() == exact@.len());
    if exact.len() > 0 {
        return Ok(exact);
    }
    let contains = find_elements(
        &snapshot.elements,
        MatchRule::LabelContains,
        normalized_query.as_str(),
    );
    assert(model::element_models(contains@).len() == contains@.len());
    if contains.len() > 0 {
        return Ok(contains);
    }
    Err(
        unmatched_error(
            "label",
            "label",
            query,
            "Run 'rub observe' to see all interactive elements and their labels",
        ),
    )
}

pub open spec fn by_testid(s: Seq<ElementModel>, query: Seq<char>) -> Seq<ElementModel> {
    found(s, MatchRule::TestIdIs, normalized(query))
}

pub open spec fn no_testid(query: Seq<char>) -> error::ErrorModel {
    unmatched(
        "test id"@,
        "testid"@,
        query,
        "Run 'rub observe' to see all interactive elements and their test IDs"@,
    )
}

pub fn resolve_elements_by_testid(snapshot: &Snapshot, query: &str) -> (r: Result<
    Vec<Element>,
    RubError,
>)
    ensures
        search_outcome(
            by_testid(model::element_models(snapshot.elements@), query@),
            no_testid(query@),
            r,
        ),
{
    let normalized_query = normalize_locator_text(query);
    let matches = find_elements(
        &snapshot.elements,
        MatchRule::TestIdIs,
        normalized_query.as_str(),
    );
    assert(model::element_models(matches@).len() == matches@.len());
    if matches.len() > 0 {
        return Ok(matches);
    }
    Err(
        unmatched_error(
            "test id",
            "testid",
            query,
            "Run 'rub observe' to see all interactive elements and their test IDs",
        ),
    )
}

/// Every element matches.
pub open spec fn all_match(s: Seq<ElementModel>, rule: MatchRule, query: Seq<char>) -> bool {
    forall|i: int| 0 <= i < s.len() ==> matches_rule(#[trigger] s[i], rule, query)
}

fn check_all_match(elements: &Vec<Element>, rule: MatchRule, query: &str) -> (r: bool)
    ensures
        r == all_match(model::element_models(elements@), rule, query@),
{
    let ghost all = model::element_models(elements@);
    let mut i: usize = 0;
    while i < elements.len()
        invariant
            i <= elements@.len(),
            all == model::element_models(elements@),
            forall|j: int| 0 <= j < i ==> matches_rule(#[trigger] all[j], rule, query@),
        decreases elements@.len() - i,
    {
        if !element_matches(&elements[i], rule, query) {
            assert(!matches_rule(all[i as int], rule, query@));
            return false;
        }
        i += 1;
    }
    true
}

/// Remembered elements are still what the locator looks for.
pub open spec fn still_valid(l: LocatorModel, s: Seq<ElementModel>) -> bool {
    match l {
        LocatorModel::Index(index) => s.len() == 1 && s[0].index == index,
        LocatorModel::Ref(element_ref) => s.len() == 1 && s[0].element_ref == Some(element_ref),
        LocatorModel::Selector(_, _) => false,
        LocatorModel::TargetText(query, _) => all_match(s, MatchRule::TextIs, normalized(query))
            || all_match(s, MatchRule::TextContains, normalized(query)),
        LocatorModel::Role(query, _) => all_match(s, MatchRule::RoleIs, normalized(query)),
        LocatorModel::Label(query, _) => all_match(s, MatchRule::LabelContains, normalized(query)),
        LocatorModel::TestId(query, _) => all_match(s, MatchRule::TestIdIs, normalized(query)),
    }
}

pub fn validate_memoized_elements(locator: &CanonicalLocator, elements: &Vec<Element>) -> (r: bool)
    ensures
        r == still_valid(locator@, model::element_models(elements@)),
{
    assert(elements@.len() > 0 ==> model::element_models(elements@)[0] == elements@[0]@);
    match locator {
        CanonicalLocator::Index { index } => elements.len() == 1 && elements[0].index == *index,
        CanonicalLocator::Ref { element_ref } => elements.len() == 1
            && match &elements[0].element_ref {
            Some(r) => text::str_eq(r.as_str(), element_ref.as_str()),
            None => false,
        },
        CanonicalLocator::Selector { .. } => false,
        CanonicalLocator::TargetText { text: query, .. } => {
            let query = normalize_locator_text(query.as_str());
            check_all_match(elements, MatchRule::TextIs, query.as_str()) || check_all_match(
                elements,
                MatchRule::TextContains,
                query.as_str(),
            )
        },
        CanonicalLocator::Role { role, .. } => {
            let query = normalize_locator_text(role.as_str());
            check_all_match(elements, MatchRule::RoleIs, query.as_str())
        },
        CanonicalLocator::Label { label, .. } => {
            let query = normalize_locator_text(label.as_str());
            check_all_match(elements, MatchRule::LabelContains, query.as_str())
        },
        CanonicalLocator::TestId { testid, .. } => {
            let query = normalize_locator_text(testid.as_str());
            check_all_match(elements, MatchRule::TestIdIs, query.as_str())
        },
    }
}

proof fn selected_members(s: Seq<ElementModel>, rule: MatchRule, query: Seq<char>)
    ensures
        forall|e: ElementModel| #[trigger]
            selected(s, rule, query).contains(e) <==> s.contains(e) && matches_rule(e, rule, query),
    decreases s.len(),
{
    if s.len() > 0 {
        let front = s.drop_last();
        selected_members(front, rule, query);
        let kept = selected(front, rule, query);
        assert forall|e: ElementModel| #[trigger]
            selected(s, rule, query).contains(e) <==> s.contains(e) && matches_rule(
                e,
                rule,
                query,
            ) by {
            if s.contains(e) && e != s.last() {
                let i = choose|i: int| 0 <= i < s.len() && s[i] == e;
                assert(front[i] == e);
            }
            if front.contains(e) {
                let i = choose|i: int| 0 <= i < front.len() && front[i] == e;
                assert(s[i] == e);
            }
            if kept.contains(e) {
                let i = choose|i: int| 0 <= i < kept.len() && kept[i] == e;
                assert(selected(s, rule, query)[i] == e);
            }
            if e == s.last() {
                assert(s[s.len() - 1] == e);
                if matches_rule(e, rule, query) {
                    assert(selected(s, rule, query)[kept.len() as int] == e);
                }
            }
            if selected(s, rule, query).contains(e) {
                let i = choose|i: int|
                    0 <= i < selected(s, rule, query).len() && selected(s, rule, query)[i] == e;
                if i < kept.len() {
                    assert(kept[i] == e);
                }
            }
        }
    }
}

/// A search finds an element exactly when it stands on the page and matches,
/// and lists what it finds by the elements' numbers.
pub proof fn found_is_what_matches(s: Seq<ElementModel>, rule: MatchRule, query: Seq<char>)
    ensures
        forall|e: ElementModel| #[trigger]
            found(s, rule, query).contains(e) <==> s.contains(e) && matches_rule(e, rule, query),
        ranking::in_order(found(s, rule, query), false),
{
    selected_members(s, rule, query);
    ranking::ranked_members(selected(s, rule, query), false);
    ranking::ranked_is_a_stable_sort(selected(s, rule, query), false);
}

/// A text is hit exactly where it is the query once both are normal; without exactness
/// it is enough that it holds the query.
pub proof fn texts_are_hit_by_what_they_hold(candidate: Seq<char>, query: Seq<char>)
    ensures
        hits(candidate, query, true) <==> normalized(candidate) == query,
        hits(candidate, query, false) <==> exists|p: Seq<char>, q: Seq<char>|
            normalized(candidate) == #[trigger] (p + query + q),
        hits(candidate, query, true) ==> hits(candidate, query, false),
{
    text::occurring_texts_stand_within(normalized(candidate), query);
    if normalized(candidate) == query {
        let none = Seq::<char>::empty();
        assert(none + query + none =~= query);
    }
}

/// An element says a query in its text, where that is not blank, or in one of the
/// attributes that label it, and nowhere else.
pub proof fn elements_say_what_they_show(e: ElementModel, query: Seq<char>, exact: bool)
    ensures
        ({
            let keys = seq![
                "aria-label"@,
                "placeholder"@,
                "title"@,
                "alt"@,
                "value"@,
                "name"@,
            ];
            says(e, query, exact) <==> (!text::blank(e.text) && hits(e.text, query, exact)) || (
            exists|i: int|
                0 <= i < keys.len() && e.attributes.dom().contains(#[trigger] keys[i]) && hits(
                    e.attributes[keys[i]],
                    query,
                    exact,
                ))
        }),
{
    text::blank_texts_trim_to_nothing(e.text);
    let keys = seq!["aria-label"@, "placeholder"@, "title"@, "alt"@, "value"@, "name"@];
    assert(keys[0] == "aria-label"@ && keys[1] == "placeholder"@ && keys[2] == "title"@ && keys[3]
        == "alt"@ && keys[4] == "value"@ && keys[5] == "name"@);
}

/// A search by text or by label lists what matches exactly where anything does, and only
/// else what holds the query; it lists all of it and nothing else.
pub proof fn exact_matches_go_first(s: Seq<ElementModel>, query: Seq<char>)
    ensures
        ({
            let q = normalized(query);
            let texts = exists|e: ElementModel| #[trigger] s.contains(e) && says(e, q, true);
            let labels = exists|e: ElementModel| #[trigger]
                s.contains(e) && normalized(semantics::label_of(e)) == q;
            &&& forall|e: ElementModel| #[trigger]
                by_text(s, query).contains(e) <==> s.contains(e) && says(e, q, texts)
            &&& forall|e: ElementModel| #[trigger]
                by_label(s, query).contains(e) <==> s.contains(e) && if labels {
                    normalized(semantics::label_of(e)) == q
                } else {
                    semantics::label_of(e).len() > 0 && text::occurs(
                        normalized(semantics::label_of(e)),
                        q,
                    )
                }
        }),
{
    let q = normalized(query);
    found_is_what_matches(s, MatchRule::TextIs, q);
    found_is_what_matches(s, MatchRule::TextContains, q);
    found_is_what_matches(s, MatchRule::LabelIs, q);
    found_is_what_matches(s, MatchRule::LabelContains, q);
    let exact_texts = found(s, MatchRule::TextIs, q);
    if exact_texts.len() > 0 {
        assert(exact_texts.contains(exact_texts[0]));
        assert(s.contains(exact_texts[0]));
    }
    if exists|e: ElementModel| #[trigger] s.contains(e) && says(e, q, true) {
        let e = choose|e: ElementModel| #[trigger] s.contains(e) && says(e, q, true);
        assert(exact_texts.contains(e));
    }
    let exact_labels = found(s, MatchRule::LabelIs, q);
    if exact_labels.len() > 0 {
        assert(exact_labels.contains(exact_labels[0]));
        assert(s.contains(exact_labels[0]));
    }
    if exists|e: ElementModel| #[trigger] s.contains(e) && normalized(semantics::label_of(e)) == q {
        let e = choose|e: ElementModel| #[trigger]
            s.contains(e) && normalized(semantics::label_of(e)) == q;
        assert(exact_labels.contains(e));
    }
}

/// A search by role or by test identifier lists the elements whose role or identifier is
/// the query up to normal form, all of them and nothing else.
pub proof fn roles_and_test_ids_are_matched_whole(s: Seq<ElementModel>, query: Seq<char>)
    ensures
        forall|e: ElementModel| #[trigger]
            by_role(s, query).contains(e) <==> s.contains(e) && normalized(semantics::role_of(e))
                == normalized(query),
        forall|e: ElementModel| #[trigger]
            by_testid(s, query).contains(e) <==> s.contains(e) && (semantics::test_id_of(e) matches
                Some(id) && normalized(id) == normalized(query)),
{
    found_is_what_matches(s, MatchRule::RoleIs, normalized(query));
    found_is_what_matches(s, MatchRule::TestIdIs, normalized(query));
}

/// Remembered elements stay valid only while they are still what the locator looks for:
/// the one element with the number or the reference, or elements that all match. What the
/// page matches by a selector is never remembered.
pub proof fn remembered_elements_must_still_match(l: LocatorModel, s: Seq<ElementModel>)
    ensures
        still_valid(l, s) ==> match l {
            LocatorModel::Index(index) => s.len() == 1 && s[0].index == index,
            LocatorModel::Ref(x) => s.len() == 1 && s[0].element_ref == Some(x),
            LocatorModel::Selector(_, _) => false,
            LocatorModel::TargetText(query, _) => forall|i: int|
                0 <= i < s.len() ==> says(#[trigger] s[i], normalized(query), false),
            LocatorModel::Role(query, _) => forall|i: int|
                0 <= i < s.len() ==> normalized(semantics::role_of(#[trigger] s[i])) == normalized(
                    query,
                ),
            LocatorModel::Label(query, _) => forall|i: int|
                0 <= i < s.len() ==> text::occurs(
                    normalized(semantics::label_of(#[trigger] s[i])),
                    normalized(query),
                ),
            LocatorModel::TestId(query, _) => forall|i: int|
                0 <= i < s.len() ==> (semantics::test_id_of(#[trigger] s[i]) matches Some(id)
                    && normalized(id) == normalized(query)),
        },
{
    if let LocatorModel::TargetText(query, _) = l {
        let q = normalized(query);
        if still_valid(l, s) {
            assert forall|i: int| 0 <= i < s.len() implies says(#[trigger] s[i], q, false) by {
                exactly_said_is_said(s[i], q);
            }
        }
    }
}

proof fn exactly_said_is_said(e: ElementModel, query: Seq<char>)
    ensures
        says(e, query, true) ==> says(e, query, false),
{
    texts_are_hit_by_what_they_hold(e.text, query);
    if e.attributes.dom().contains("aria-label"@) {
        texts_are_hit_by_what_they_hold(e.attributes["aria-label"@], query);
    }
    if e.attributes.dom().contains("placeholder"@) {
        texts_are_hit_by_what_they_hold(e.attributes["placeholder"@], query);
    }
    if e.attributes.dom().contains("title"@) {
        texts_are_hit_by_what_they_hold(e.attributes["title"@], query);
    }
    if e.attributes.dom().contains("alt"@) {
        texts_are_hit_by_what_they_hold(e.attributes["alt"@], query);
    }
    if e.attributes.dom().contains("value"@) {
        texts_are_hit_by_what_they_hold(e.attributes["value"@], query);
    }
    if e.attributes.dom().contains("name"@) {
        texts_are_hit_by_what_they_hold(e.attributes["name"@], query);
    }
}

/// What a search finds is valid for the locator that it was found by.
pub proof fn found_elements_are_valid(
    s: Seq<ElementModel>,
    query: Seq<char>,
    selection: Option<crate::locator::LocatorSelection>,
)
    ensures
        still_valid(LocatorModel::TargetText(query, selection), by_text(s, query)),
        still_valid(LocatorModel::Role(query, selection), by_role(s, query)),
        still_valid(LocatorModel::TestId(query, selection), by_testid(s, query)),
{
    let q = normalized(query);
    all_found_match(s, MatchRule::TextIs, q);
    all_found_match(s, MatchRule::TextContains, q);
    all_found_match(s, MatchRule::RoleIs, q);
    all_found_match(s, MatchRule::TestIdIs, q);
}

proof fn all_found_match(s: Seq<ElementModel>, rule: MatchRule, query: Seq<char>)
    ensures
        all_match(found(s, rule, query), rule, query),
{
    found_is_what_matches(s, rule, query);
    let all = found(s, rule, query);
    assert forall|i: int| 0 <= i < all.len() implies matches_rule(
        #[trigger] all[i],
        rule,
        query,
    ) by {
        assert(all.contains(all[i]));
    }
}

/// A query that nothing matches is told under the name of what was asked for.
pub proof fn unmatched_queries_are_told(query: Seq<char>)
    ensures
        ({
            &&& no_text(query) matches error::ErrorModel::Domain(e)
            &&& e.code == ErrorCode::ElementNotFound
            &&& e.context matches Some(c)
            &&& json::member(c, "target_text"@) == Some(JsonModel::Text(query))
        }),
        ({
            &&& no_role(query) matches error::ErrorModel::Domain(e)
            &&& e.code == ErrorCode::ElementNotFound
            &&& e.context matches Some(c)
            &&& json::member(c, "role"@) == Some(JsonModel::Text(query))
        }),
        ({
            &&& no_label(query) matches error::ErrorModel::Domain(e)
            &&& e.code == ErrorCode::ElementNotFound
            &&& e.context matches Some(c)
            &&& json::member(c, "label"@) == Some(JsonModel::Text(query))
        }),
        ({
            &&& no_testid(query) matches error::ErrorModel::Domain(e)
            &&& e.code == ErrorCode::ElementNotFound
            &&& e.context matches Some(c)
            &&& json::member(c, "testid"@) == Some(JsonModel::Text(query))
        }),
{
}

} // verus!
