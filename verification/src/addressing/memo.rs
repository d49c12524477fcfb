//! Remembering which elements a text locator found.

use vstd::prelude::*;
use crate::json::{self, Json, JsonModel, JsonObject, NumberModel};
use crate::json_text;
use crate::locator::{CanonicalLocator, LocatorModel};
use crate::locator;
use crate::model::{self, Element, ElementModel, Snapshot};
use crate::text;
use super::projection;
use super::ranking;
use super::semantic;
use super::semantic::{normalize_locator_text, validate_memoized_elements};

verus! {

/// How matches are narrowed down and ordered.
#[derive(Clone, Copy, Debug, PartialEq, Eq, Structural)]
pub struct LocatorRankingPolicy {
    pub visible: bool,
    pub prefer_enabled: bool,
    pub topmost: bool,
}

/// A locator with its ranking.
#[derive(Debug)]
pub struct ParsedLocator {
    pub locator: CanonicalLocator,
    pub ranking: LocatorRankingPolicy,
}

/// How a remembered element is found again.
#[derive(Debug)]
pub enum LocatorMemoTarget {
    ElementRef(String),
    Index(u32),
}

/// How a remembered element is found again, over texts.
pub enum TargetModel {
    ElementRef(Seq<char>),
    Index(u32),
}

impl View for LocatorMemoTarget {
    type V = TargetModel;

    open spec fn view(&self) -> TargetModel {
        match self {
            LocatorMemoTarget::ElementRef(s) => TargetModel::ElementRef(s@),
            LocatorMemoTarget::Index(n) => TargetModel::Index(*n),
        }
    }
}

pub open spec fn target_models(v: Seq<LocatorMemoTarget>) -> Seq<TargetModel> {
    v.map_values(|t: LocatorMemoTarget| t@)
}

/// Only what is looked for by its text is remembered.
pub fn locator_supports_memo(locator: &CanonicalLocator) -> (r: bool)
    ensures
        r == (locator@ is TargetText),
{
    matches!(locator, CanonicalLocator::TargetText { .. })
}

/// Only a complete and verified snapshot is remembered from.
pub open spec fn memo_snapshot(s: Snapshot) -> bool {
    s.projection.verified && !s.truncated
}

pub fn snapshot_supports_locator_memo(snapshot: &Snapshot) -> (r: bool)
    ensures
        r == memo_snapshot(*snapshot),
{
    snapshot.projection.verified && !snapshot.truncated
}

pub open spec fn ranking_json(r: LocatorRankingPolicy) -> JsonModel {
    JsonModel::Object(
        Map::<Seq<char>, JsonModel>::empty().insert("visible"@, JsonModel::Bool(r.visible)).insert(
            "prefer_enabled"@,
            JsonModel::Bool(r.prefer_enabled),
        ).insert("topmost"@, JsonModel::Bool(r.topmost)),
    )
}

pub fn ranking_value(r: LocatorRankingPolicy) -> (j: Json)
    ensures
        j@ == ranking_json(r),
{
    Json::Object(
        JsonObject::new().with("visible", Json::Bool(r.visible)).with(
            "prefer_enabled",
            Json::Bool(r.prefer_enabled),
        ).with("topmost", Json::Bool(r.topmost)),
    )
}

/// All that decides what a text locator finds on a page.
pub open spec fn memo_value(s: Snapshot, query: Seq<char>, p: ParsedLocator) -> JsonModel {
    JsonModel::Object(
        Map::<Seq<char>, JsonModel>::empty().insert("url"@, JsonModel::Text(s.url@)).insert(
            "dom_epoch"@,
            json::number(s.dom_epoch as int),
        ).insert(
            "scroll"@,
            JsonModel::Object(
                Map::<Seq<char>, JsonModel>::empty().insert(
                    "x"@,
                    JsonModel::Number(NumberModel::Float(s.scroll.x@)),
                ).insert("y"@, JsonModel::Number(NumberModel::Float(s.scroll.y@))).insert(
                    "at_bottom"@,
                    JsonModel::Bool(s.scroll.at_bottom),
                ),
            ),
        ).insert("frame_id"@, JsonModel::Text(s.frame_context.frame_id@)).insert(
            "frame_lineage"@,
            json::texts_model(text::texts(s.frame_lineage@)),
        ).insert("total_count"@, json::number(s.total_count as int)).insert(
            "truncated"@,
            JsonModel::Bool(s.truncated),
        ).insert("projection_verified"@, JsonModel::Bool(s.projection.verified)).insert(
            "js_traversal_count"@,
            json::number(s.projection.js_traversal_count as int),
        ).insert(
            "backend_traversal_count"@,
            json::number(s.projection.backend_traversal_count as int),
        ).insert("kind"@, JsonModel::Text("target_text"@)).insert(
            "value"@,
            JsonModel::Text(semantic::normalized(query)),
        ).insert("selection"@, projection::opt_selection(locator::selection_of(p.locator@))).insert(
            "ranking"@,
            ranking_json(p.ranking),
        ),
    )
}

/// The key under which a locator's matches are remembered, where they are. What
/// lies on top of what changes without a new snapshot, so that such matches are
/// not.
pub open spec fn memo_key_of(p: ParsedLocator, s: Snapshot) -> Option<Seq<char>> {
    match p.locator@ {
        LocatorModel::TargetText(query, _) => if p.ranking.topmost || !memo_snapshot(s) {
            None
        } else {
            Some(json_text::compact_text(memo_value(s, query, p)))
        },
        _ => None,
    }
}

impl ParsedLocator {
    /// The key under which the locator's matches are remembered.
    pub fn memo_key(&self, snapshot: &Snapshot) -> (r: Option<String>)
        ensures
            text::opt_text(r) == memo_key_of(*self, *snapshot),
    {
        if self.ranking.topmost || !snapshot_supports_locator_memo(snapshot) {
            return None;
        }
        match &self.locator {
            CanonicalLocator::TargetText { text: query, .. } => {
                let scroll = JsonObject::new().with(
                    "x",
                    json::float_value(snapshot.scroll.x.as_str()),
                ).with("y", json::float_value(snapshot.scroll.y.as_str())).with(
                    "at_bottom",
                    Json::Bool(snapshot.scroll.at_bottom),
                );
                let value = normalize_locator_text(query.as_str());
                let key = JsonObject::new().with(
                    "url",
                    json::text_value(snapshot.url.as_str()),
                ).with("dom_epoch", json::uint_value(snapshot.dom_epoch)).with(
                    "scroll",
                    Json::Object(scroll),
                ).with(
                    "frame_id",
                    json::text_value(snapshot.frame_context.frame_id.as_str()),
                ).with("frame_lineage", json::texts_value(&snapshot.frame_lineage)).with(
                    "total_count",
                    json::uint_value(snapshot.total_count as u64),
                ).with("truncated", Json::Bool(snapshot.truncated)).with(
                    "projection_verified",
                    Json::Bool(snapshot.projection.verified),
                ).with(
                    "js_traversal_count",
                    json::uint_value(snapshot.projection.js_traversal_count as u64),
                ).with(
                    "backend_traversal_count",
                    json::uint_value(snapshot.projection.backend_traversal_count as u64),
                ).with("kind", json::text_value("target_text")).with(
                    "value",
                    json::text_value(value.as_str()),
                ).with(
                    "selection",
                    projection::opt_selection_context(self.locator.selection()),
                ).with("ranking", ranking_value(self.ranking));
                Some(json_text::to_compact_text(&Json::Object(key)))
            },
            _ => None,
        }
    }

    /// Whether the locator speaks of what only the accessibility tree knows.
    pub fn requires_a11y_snapshot(&self) -> (r: bool)
        ensures
            r == (self.locator@ is Role || self.locator@ is Label),
    {
        self.locator.requires_a11y_snapshot()
    }
}

/// How elements are found again: by their references where they have them.
pub open spec fn target_of(e: ElementModel) -> TargetModel {
    match e.element_ref {
        Some(r) => TargetModel::ElementRef(r),
        None => TargetModel::Index(e.index),
    }
}

pub fn memo_targets(elements: &Vec<Element>) -> (r: Vec<LocatorMemoTarget>)
    ensures
        target_models(r@) == model::element_models(elements@).map_values(
            |e: ElementModel| target_of(e),
        ),
{
    let mut out: Vec<LocatorMemoTarget> = Vec::new();
    let ghost all = model::element_models(elements@).map_values(|e: ElementModel| target_of(e));
    let mut i: usize = 0;
    while i < elements.len()
        invariant
            i <= elements@.len(),
            all == model::element_models(elements@).map_values(|e: ElementModel| target_of(e)),
            target_models(out@) =~= all.take(i as int),
        decreases elements@.len() - i,
    {
        let target = match &elements[i].element_ref {
            Some(r) => LocatorMemoTarget::ElementRef(r.clone()),
            None => LocatorMemoTarget::Index(elements[i].index),
        };
        let ghost before = target_models(out@);
        out.push(target);
        assert(target_models(out@) =~= before.push(target@));
        assert(all[i as int] == target@);
        i += 1;
    }
    assert(all.take(i as int) =~= all);
    out
}

/// The last element with a reference.
pub open spec fn last_with_ref(s: Seq<ElementModel>, r: Seq<char>) -> Option<ElementModel>
    decreases s.len(),
{
    if s.len() == 0 {
        None
    } else if s.last().element_ref == Some(r) {
        Some(s.last())
    } else {
        last_with_ref(s.drop_last(), r)
    }
}

/// The element that a target means on a page.
pub open spec fn lookup(s: Seq<ElementModel>, t: TargetModel) -> Option<ElementModel> {
    match t {
        TargetModel::ElementRef(r) => last_with_ref(s, r),
        TargetModel::Index(n) => if n < s.len() && s[n as int].index == n {
            Some(s[n as int])
        } else {
            None
        },
    }
}

/// An element with the number is among those given.
pub open spec fn has_index(s: Seq<ElementModel>, index: u32) -> bool {
    exists|i: int| 0 <= i < s.len() && (#[trigger] s[i]).index == index
}

/// The elements that the targets mean, where each means one and no two the
/// same.
pub open spec fn gathered(s: Seq<ElementModel>, targets: Seq<TargetModel>) -> Option<
    Seq<ElementModel>,
>
    decreases targets.len(),
{
    if targets.len() == 0 {
        Some(seq![])
    } else {
        match (gathered(s, targets.drop_last()), lookup(s, targets.last())) {
            (Some(front), Some(e)) => if has_index(front, e.index) {
                None
            } else {
                Some(front.push(e))
            },
            _ => None,
        }
    }
}

/// The remembered elements on a page, by their numbers; nothing where they are
/// not all there or no longer what the locator looks for.
pub open spec fn rehydrated(
    s: Seq<ElementModel>,
    l: LocatorModel,
    targets: Seq<TargetModel>,
) -> Option<Seq<ElementModel>> {
    if targets.len() == 0 {
        None
    } else {
        match gathered(s, targets) {
            Some(found) => if semantic::still_valid(l, ranking::ranked(found, false)) {
                Some(ranking::ranked(found, false))
            } else {
                None
            },
            None => None,
        }
    }
}

/// How much work finding remembered elements again took.
#[derive(Clone, Copy, Debug, PartialEq, Eq, Structural)]
pub struct MemoRehydrateMetrics {
    pub element_ref_lookups: u64,
    pub element_ref_index_build_steps: u64,
}

impl Default for MemoRehydrateMetrics {
    fn default() -> (r: MemoRehydrateMetrics)
        ensures
            r.element_ref_lookups == 0 && r.element_ref_index_build_steps == 0,
    {
        MemoRehydrateMetrics { element_ref_lookups: 0, element_ref_index_build_steps: 0 }
    }
}

/// The work counted so far.
pub fn memo_rehydrate_metrics_snapshot(metrics: &MemoRehydrateMetrics) -> (r: MemoRehydrateMetrics)
    ensures
        r == *metrics,
{
    *metrics
}

/// Starts counting anew.
pub fn reset_memo_rehydrate_metrics(metrics: &mut MemoRehydrateMetrics)
    ensures
        *final(metrics) == (MemoRehydrateMetrics {
            element_ref_lookups: 0,
            element_ref_index_build_steps: 0,
        }),
{
    *metrics = MemoRehydrateMetrics::default();
}

/// A count that stays at the largest number.
pub open spec fn counted(n: int) -> u64 {
    if n <= u64::MAX {
        n as u64
    } else {
        u64::MAX
    }
}

/// How many targets are looked at: up to the first that is not found or is
/// found twice.
pub open spec fn visited(s: Seq<ElementModel>, targets: Seq<TargetModel>) -> int
    decreases targets.len(),
{
    if targets.len() == 0 {
        0
    } else if gathered(s, targets.drop_last()) is Some {
        targets.len() as int
    } else {
        visited(s, targets.drop_last())
    }
}

/// How many of the targets are references.
pub open spec fn refs_in(targets: Seq<TargetModel>) -> int
    decreases targets.len(),
{
    if targets.len() == 0 {
        0
    } else {
        refs_in(targets.drop_last()) + (if targets.last() is ElementRef {
            1int
        } else {
            0int
        })
    }
}

/// The work of finding targets again: one lookup for each reference looked at,
/// and one step for each element where there is a reference at all.
pub open spec fn work(
    before: MemoRehydrateMetrics,
    s: Seq<ElementModel>,
    targets: Seq<TargetModel>,
) -> MemoRehydrateMetrics {
    MemoRehydrateMetrics {
        element_ref_lookups: counted(
            before.element_ref_lookups + refs_in(targets.take(visited(s, targets))),
        ),
        element_ref_index_build_steps: if refs_in(targets) > 0 {
            counted(before.element_ref_index_build_steps + s.len())
        } else {
            before.element_ref_index_build_steps
        },
    }
}

proof fn gathered_prefix(s: Seq<ElementModel>, targets: Seq<TargetModel>, k: int)
    requires
        0 <= k <= targets.len(),
        gathered(s, targets.take(k)) is None,
    ensures
        gathered(s, targets) is None,
    decreases targets.len(),
{
    if k == targets.len() {
        assert(targets.take(k) =~= targets);
    } else {
        assert(targets.drop_last().take(k) =~= targets.take(k));
        gathered_prefix(s, targets.drop_last(), k);
    }
}

proof fn visited_at_failure(s: Seq<ElementModel>, targets: Seq<TargetModel>, k: int)
    requires
        0 <= k < targets.len(),
        gathered(s, targets.take(k)) is Some,
        gathered(s, targets.take(k + 1)) is None,
    ensures
        visited(s, targets) == k + 1,
    decreases targets.len(),
{
    let front = targets.drop_last();
    if k + 1 == targets.len() {
        assert(front =~= targets.take(k));
    } else {
        assert(front.take(k) =~= targets.take(k));
        assert(front.take(k + 1) =~= targets.take(k + 1));
        gathered_prefix(s, front, k + 1);
        visited_at_failure(s, front, k);
    }
}

proof fn refs_in_bounds(targets: Seq<TargetModel>, k: int)
    requires
        0 <= k <= targets.len(),
    ensures
        0 <= refs_in(targets.take(k)) <= refs_in(targets),
        refs_in(targets) <= targets.len(),
    decreases targets.len(),
{
    if targets.len() == 0 {
        assert(targets.take(k) =~= targets);
    } else if k == targets.len() {
        assert(targets.take(k) =~= targets);
        refs_in_bounds(targets.drop_last(), 0);
    } else {
        assert(targets.drop_last().take(k) =~= targets.take(k));
        refs_in_bounds(targets.drop_last(), k);
    }
}

fn has_ref_target(targets: &Vec<LocatorMemoTarget>) -> (r: bool)
    ensures
        r == (refs_in(target_models(targets@)) > 0),
{
    let ghost all = target_models(targets@);
    let mut i: usize = 0;
    while i < targets.len()
        invariant
            i <= targets@.len(),
            all == target_models(targets@),
            refs_in(all.take(i as int)) == 0,
        decreases targets@.len() - i,
    {
        assert(all.take(i + 1).drop_last() =~= all.take(i as int));
        if matches!(targets[i], LocatorMemoTarget::ElementRef(_)) {
            proof {
                refs_in_bounds(all, i + 1);
            }
            return true;
        }
        i += 1;
    }
    assert(all.take(i as int) =~= all);
    false
}

pub open spec fn opt_element(o: Option<&Element>) -> Option<ElementModel> {
    match o {
        Some(e) => Some(e@),
        None => None,
    }
}

fn find_element_by_ref<'a>(elements: &'a Vec<Element>, element_ref: &str) -> (r: Option<
    &'a Element,
>)
    ensures
        opt_element(r) == last_with_ref(model::element_models(elements@), element_ref@),
{
    let ghost all = model::element_models(elements@);
    let mut i: usize = elements.len();
    assert(all.take(i as int) =~= all);
    while i > 0
        invariant
            i <= elements@.len(),
            all == model::element_models(elements@),
            last_with_ref(all, element_ref@) == last_with_ref(all.take(i as int), element_ref@),
        decreases i,
    {
        assert(all.take(i as int).drop_last() =~= all.take(i - 1));
        assert(all.take(i as int).last() == elements@[i - 1]@);
        i -= 1;
        if let Some(r) = &elements[i].element_ref {
            if text::str_eq(r.as_str(), element_ref) {
                return Some(&elements[i]);
            }
        }
    }
    None
}

fn lookup_target<'a>(elements: &'a Vec<Element>, target: &LocatorMemoTarget) -> (r: Option<
    &'a Element,
>)
    ensures
        opt_element(r) == lookup(model::element_models(elements@), target@),
{
    match target {
        LocatorMemoTarget::ElementRef(r) => find_element_by_ref(elements, r.as_str()),
        LocatorMemoTarget::Index(n) => {
            if (*n as usize) < elements.len() && elements[*n as usize].index == *n {
                assert(model::element_models(elements@)[*n as int] == elements@[*n as int]@);
                Some(&elements[*n as usize])
            } else {
                None
            }
        },
    }
}

fn contains_index(elements: &Vec<Element>, index: u32) -> (r: bool)
    ensures
        r == has_index(model::element_models(elements@), index),
{
    let ghost all = model::element_models(elements@);
    let mut i: usize = 0;
    while i < elements.len()
        invariant
            i <= elements@.len(),
            all == model::element_models(elements@),
            forall|j: int| 0 <= j < i ==> (#[trigger] all[j]).index != index,
        decreases elements@.len() - i,
    {
        if elements[i].index == index {
            assert(all[i as int].index == index);
            return true;
        }
        i += 1;
    }
    false
}

fn count_one(n: u64) -> (r: u64)
    ensures
        r == counted(n + 1),
{
    if n < u64::MAX {
        n + 1
    } else {
        n
    }
}

/// What an optional list of elements is.
pub open spec fn opt_elements(o: Option<Vec<Element>>) -> Option<Seq<ElementModel>> {
    match o {
        Some(v) => Some(model::element_models(v@)),
        None => None,
    }
}

fn gather_elements(
    elements: &Vec<Element>,
    targets: &Vec<LocatorMemoTarget>,
    metrics: &mut MemoRehydrateMetrics,
) -> (r: Option<Vec<Element>>)
    ensures
        opt_elements(r) == gathered(
            model::element_models(elements@),
            target_models(targets@),
        ),
        final(metrics).element_ref_index_build_steps == old(metrics).element_ref_index_build_steps,
        final(metrics).element_ref_lookups == counted(
            old(metrics).element_ref_lookups + refs_in(
                target_models(targets@).take(
                    visited(model::element_models(elements@), target_models(targets@)),
                ),
            ),
        ),
{
    let ghost s = model::element_models(elements@);
    let ghost all = target_models(targets@);
    let mut found: Vec<Element> = Vec::new();
    let mut i: usize = 0;
    assert(model::element_models(found@) =~= seq![]);
    while i < targets.len()
        invariant
            i <= targets@.len(),
            s == model::element_models(elements@),
            all == target_models(targets@),
            gathered(s, all.take(i as int)) == Some(model::element_models(found@)),
            metrics.element_ref_index_build_steps == old(metrics).element_ref_index_build_steps,
            metrics.element_ref_lookups == counted(
                old(metrics).element_ref_lookups + refs_in(all.take(i as int)),
            ),
        decreases targets@.len() - i,
    {
        let target = &targets[i];
        proof {
            assert(all.take(i + 1).drop_last() =~= all.take(i as int));
            assert(all.take(i + 1).last() == target@);
            refs_in_bounds(all, i as int);
        }
        if matches!(target, LocatorMemoTarget::ElementRef(_)) {
            metrics.element_ref_lookups = count_one(metrics.element_ref_lookups);
        }
        match lookup_target(elements, target) {
            Some(e) => {
                if contains_index(&found, e.index) {
                    proof {
                        gathered_prefix(s, all, i + 1);
                        visited_at_failure(s, all, i as int);
                    }
                    return None;
                }
                let ghost before = model::element_models(found@);
                let e = e.clone();
                found.push(e);
                assert(model::element_models(found@) =~= before.push(e@));
            },
            None => {
                proof {
                    gathered_prefix(s, all, i + 1);
                    visited_at_failure(s, all, i as int);
                }
                return None;
            },
        }
        i += 1;
    }
    proof {
        assert(all.take(i as int) =~= all);
        if all.len() > 0 {
            assert(gathered(s, all.drop_last()) is Some);
        }
        assert(visited(s, all) == all.len());
    }
    Some(found)
}

/// Finds remembered elements on a page again.
pub fn rehydrate_memoized_elements(
    snapshot: &Snapshot,
    locator: &CanonicalLocator,
    targets: &Vec<LocatorMemoTarget>,
    metrics: &mut MemoRehydrateMetrics,
) -> (r: Option<Vec<Element>>)
    ensures
        opt_elements(r) == rehydrated(
            model::element_models(snapshot.elements@),
            locator@,
            target_models(targets@),
        ),
        *final(metrics) == (if targets@.len() == 0 {
            *old(metrics)
        } else {
            work(
                *old(metrics),
                model::element_models(snapshot.elements@),
                target_models(targets@),
            )
        }),
{
    if targets.len() == 0 {
        return None;
    }
    if has_ref_target(targets) {
        let steps: u64 = snapshot.elements.len() as u64;
        metrics.element_ref_index_build_steps =
            if steps <= u64::MAX - metrics.element_ref_index_build_steps {
                metrics.element_ref_index_build_steps + steps
            } else {
                u64::MAX
            };
    }
    match gather_elements(&snapshot.elements, targets, metrics) {
        Some(found) => {
            let elements = ranking::rank_elements(found, false);
            if validate_memoized_elements(locator, &elements) {
                Some(elements)
            } else {
                None
            }
        },
        None => None,
    }
}

/// No two elements have one number.
pub open spec fn distinct_indices(s: Seq<ElementModel>) -> bool {
    forall|i: int, j: int|
        0 <= i < j < s.len() ==> (#[trigger] s[i]).index != (#[trigger] s[j]).index
}

/// A page whose elements can be told apart: by their numbers, by their
/// references, and, without a reference, by standing at their number's place.
pub open spec fn addressable(s: Seq<ElementModel>) -> bool {
    &&& distinct_indices(s)
    &&& forall|i: int, j: int|
        0 <= i < j < s.len() && (#[trigger] s[i]).element_ref is Some ==> s[i].element_ref != (
        #[trigger] s[j]).element_ref
    &&& forall|i: int| 0 <= i < s.len() && (#[trigger] s[i]).element_ref is None ==> s[i].index == i
}

proof fn last_with_ref_of(s: Seq<ElementModel>, n: int, i: int)
    requires
        addressable(s),
        0 <= i < n <= s.len(),
        s[i].element_ref is Some,
    ensures
        last_with_ref(s.take(n), s[i].element_ref->0) == Some(s[i]),
    decreases n,
{
    let t = s.take(n);
    assert(t.last() == s[n - 1]);
    if n - 1 > i {
        assert(s[i].element_ref != s[n - 1].element_ref);
        assert(t.drop_last() =~= s.take(n - 1));
        last_with_ref_of(s, n - 1, i);
    }
}

proof fn lookup_of_target(s: Seq<ElementModel>, e: ElementModel)
    requires
        addressable(s),
        s.contains(e),
    ensures
        lookup(s, target_of(e)) == Some(e),
{
    let i = choose|i: int| 0 <= i < s.len() && s[i] == e;
    if e.element_ref is Some {
        last_with_ref_of(s, s.len() as int, i);
        assert(s.take(s.len() as int) =~= s);
    } else {
        assert(s[i].index == i);
    }
}

proof fn insert_ranked_indices(s: Seq<ElementModel>, e: ElementModel)
    requires
        distinct_indices(s),
        !has_index(s, e.index),
    ensures
        distinct_indices(ranking::insert_ranked(s, e, false)),
        forall|x: u32| #[trigger]
            has_index(ranking::insert_ranked(s, e, false), x) <==> has_index(s, x) || x == e.index,
    decreases s.len(),
{
    let r = ranking::insert_ranked(s, e, false);
    if s.len() == 0 || ranking::rank(s.last(), false) <= ranking::rank(e, false) {
        assert forall|x: u32| #[trigger] has_index(r, x) <==> has_index(s, x) || x == e.index by {
            indices_of_push(s, e, x);
        }
        assert forall|i: int, j: int| 0 <= i < j < r.len() implies (#[trigger] r[i]).index != (
        #[trigger] r[j]).index by {
            if j == s.len() {
                assert(s[i].index != e.index);
            }
        }
    } else {
        let front = s.drop_last();
        assert(distinct_indices(front)) by {
            assert forall|i: int, j: int| 0 <= i < j < front.len() implies (
            #[trigger] front[i]).index != (#[trigger] front[j]).index by {
                assert(front[i] == s[i] && front[j] == s[j]);
            }
        }
        assert(!has_index(front, e.index)) by {
            indices_of_push(front, s.last(), e.index);
            assert(front.push(s.last()) =~= s);
        }
        insert_ranked_indices(front, e);
        let inner = ranking::insert_ranked(front, e, false);
        assert(!has_index(front, s.last().index)) by {
            if has_index(front, s.last().index) {
                let i = choose|i: int|
                    0 <= i < front.len() && (#[trigger] front[i]).index == s.last().index;
                assert(s[i].index != s[s.len() - 1].index);
            }
        }
        assert(s.last().index != e.index) by {
            assert(s[s.len() - 1].index != e.index);
        }
        assert(!has_index(inner, s.last().index));
        assert forall|x: u32| #[trigger] has_index(r, x) <==> has_index(s, x) || x == e.index by {
            indices_of_push(inner, s.last(), x);
            indices_of_push(front, s.last(), x);
            assert(front.push(s.last()) =~= s);
        }
        assert forall|i: int, j: int| 0 <= i < j < r.len() implies (#[trigger] r[i]).index != (
        #[trigger] r[j]).index by {
            if j == inner.len() {
                assert(inner[i].index != s.last().index);
            } else {
                assert(r[i] == inner[i] && r[j] == inner[j]);
            }
        }
    }
}

proof fn indices_of_push(s: Seq<ElementModel>, e: ElementModel, x: u32)
    ensures
        has_index(s.push(e), x) <==> has_index(s, x) || x == e.index,
{
    let t = s.push(e);
    if has_index(s, x) {
        let i = choose|i: int| 0 <= i < s.len() && (#[trigger] s[i]).index == x;
        assert(t[i].index == x);
    }
    if x == e.index {
        assert(t[s.len() as int].index == x);
    }
    if has_index(t, x) {
        let i = choose|i: int| 0 <= i < t.len() && (#[trigger] t[i]).index == x;
        if i < s.len() {
            assert(s[i].index == x);
        }
    }
}

proof fn ranked_indices(s: Seq<ElementModel>)
    requires
        distinct_indices(s),
    ensures
        distinct_indices(ranking::ranked(s, false)),
        forall|x: u32| #[trigger] has_index(ranking::ranked(s, false), x) <==> has_index(s, x),
    decreases s.len(),
{
    if s.len() > 0 {
        let front = s.drop_last();
        assert(distinct_indices(front)) by {
            assert forall|i: int, j: int| 0 <= i < j < front.len() implies (
            #[trigger] front[i]).index != (#[trigger] front[j]).index by {
                assert(front[i] == s[i] && front[j] == s[j]);
            }
        }
        ranked_indices(front);
        assert(!has_index(front, s.last().index)) by {
            if has_index(front, s.last().index) {
                let i = choose|i: int|
                    0 <= i < front.len() && (#[trigger] front[i]).index == s.last().index;
                assert(s[i].index != s[s.len() - 1].index);
            }
        }
        insert_ranked_indices(ranking::ranked(front, false), s.last());
        assert forall|x: u32| #[trigger]
            has_index(ranking::ranked(s, false), x) <==> has_index(s, x) by {
            indices_of_push(front, s.last(), x);
            assert(front.push(s.last()) =~= s);
        }
    }
}

proof fn selected_indices(s: Seq<ElementModel>, rule: semantic::MatchRule, query: Seq<char>)
    requires
        distinct_indices(s),
    ensures
        distinct_indices(semantic::selected(s, rule, query)),
        forall|x: u32| #[trigger]
            has_index(semantic::selected(s, rule, query), x) ==> has_index(s, x),
    decreases s.len(),
{
    if s.len() > 0 {
        let front = s.drop_last();
        assert(distinct_indices(front)) by {
            assert forall|i: int, j: int| 0 <= i < j < front.len() implies (
            #[trigger] front[i]).index != (#[trigger] front[j]).index by {
                assert(front[i] == s[i] && front[j] == s[j]);
            }
        }
        selected_indices(front, rule, query);
        let kept = semantic::selected(front, rule, query);
        let all = semantic::selected(s, rule, query);
        assert(front.push(s.last()) =~= s);
        assert(!has_index(front, s.last().index)) by {
            if has_index(front, s.last().index) {
                let i = choose|i: int|
                    0 <= i < front.len() && (#[trigger] front[i]).index == s.last().index;
                assert(s[i].index != s[s.len() - 1].index);
            }
        }
        assert forall|x: u32| #[trigger] has_index(all, x) implies has_index(s, x) by {
            indices_of_push(front, s.last(), x);
            indices_of_push(kept, s.last(), x);
        }
        assert forall|i: int, j: int| 0 <= i < j < all.len() implies (#[trigger] all[i]).index != (
        #[trigger] all[j]).index by {
            if j < kept.len() {
                assert(all[i] == kept[i] && all[j] == kept[j]);
            } else {
                assert(has_index(kept, kept[i].index));
                assert(!has_index(kept, s.last().index));
            }
        }
    }
}

proof fn gathered_of_targets(s: Seq<ElementModel>, found: Seq<ElementModel>)
    requires
        addressable(s),
        distinct_indices(found),
        forall|i: int| 0 <= i < found.len() ==> s.contains(#[trigger] found[i]),
    ensures
        gathered(s, found.map_values(|e: ElementModel| target_of(e))) == Some(found),
    decreases found.len(),
{
    let targets = found.map_values(|e: ElementModel| target_of(e));
    if found.len() > 0 {
        let front = found.drop_last();
        assert(distinct_indices(front)) by {
            assert forall|i: int, j: int| 0 <= i < j < front.len() implies (
            #[trigger] front[i]).index != (#[trigger] front[j]).index by {
                assert(front[i] == found[i] && front[j] == found[j]);
            }
        }
        assert forall|i: int| 0 <= i < front.len() implies s.contains(#[trigger] front[i]) by {
            assert(front[i] == found[i]);
        }
        gathered_of_targets(s, front);
        assert(targets.drop_last() =~= front.map_values(|e: ElementModel| target_of(e)));
        assert(s.contains(found[found.len() - 1]));
        lookup_of_target(s, found.last());
        assert(!has_index(front, found.last().index)) by {
            if has_index(front, found.last().index) {
                let i = choose|i: int|
                    0 <= i < front.len() && (#[trigger] front[i]).index == found.last().index;
                assert(found[i].index != found[found.len() - 1].index);
            }
        }
        assert(front.push(found.last()) =~= found);
    } else {
        assert(targets =~= seq![]);
        assert(found =~= seq![]);
    }
}

/// What a text locator found on a page, remembered and looked for on the same
/// page, is found again, the same elements in the same order.
pub proof fn memo_round_trip(
    s: Seq<ElementModel>,
    query: Seq<char>,
    selection: Option<locator::LocatorSelection>,
)
    requires
        addressable(s),
        semantic::by_text(s, query).len() > 0,
    ensures
        rehydrated(
            s,
            LocatorModel::TargetText(query, selection),
            semantic::by_text(s, query).map_values(|e: ElementModel| target_of(e)),
        ) == Some(semantic::by_text(s, query)),
{
    let q = semantic::normalized(query);
    let exact = semantic::found(s, semantic::MatchRule::TextIs, q);
    let rule = if exact.len() > 0 {
        semantic::MatchRule::TextIs
    } else {
        semantic::MatchRule::TextContains
    };
    let found = semantic::found(s, rule, q);
    assert(found == semantic::by_text(s, query));
    semantic::found_is_what_matches(s, rule, q);
    selected_indices(s, rule, q);
    ranked_indices(semantic::selected(s, rule, q));
    assert forall|i: int| 0 <= i < found.len() implies s.contains(#[trigger] found[i]) by {
        assert(found.contains(found[i]));
    }
    gathered_of_targets(s, found);
    ranking::ranked_of_ordered(found, false);
    assert(semantic::all_match(found, rule, q)) by {
        assert forall|i: int| 0 <= i < found.len() implies semantic::matches_rule(
            #[trigger] found[i],
            rule,
            q,
        ) by {
            assert(found.contains(found[i]));
        }
    }
    let targets = found.map_values(|e: ElementModel| target_of(e));
    assert(targets.len() == found.len());
}

/// What a locator and its ranking are, over texts.
pub open spec fn parsed_model(p: ParsedLocator) -> (LocatorModel, LocatorRankingPolicy) {
    (p.locator@, p.ranking)
}

/// The remembered elements that stand for the matches of a locator.
pub open spec fn restored(
    p: ParsedLocator,
    s: Snapshot,
    remembered: Option<Seq<TargetModel>>,
) -> Option<Seq<ElementModel>> {
    if memo_key_of(p, s) is Some && remembered is Some {
        rehydrated(model::element_models(s.elements@), p.locator@, remembered->0)
    } else {
        None
    }
}

/// The work of restoring the matches of a locator.
pub open spec fn restore_work(
    before: MemoRehydrateMetrics,
    p: ParsedLocator,
    s: Snapshot,
    remembered: Option<Seq<TargetModel>>,
) -> MemoRehydrateMetrics {
    if memo_key_of(p, s) is Some && remembered is Some && remembered->0.len() > 0 {
        work(before, model::element_models(s.elements@), remembered->0)
    } else {
        before
    }
}

pub open spec fn opt_targets(o: Option<&Vec<LocatorMemoTarget>>) -> Option<Seq<TargetModel>> {
    match o {
        Some(v) => Some(target_models(v@)),
        None => None,
    }
}

/// The matches of a locator, from what is remembered under its key.
pub fn restore_memoized_elements(
    snapshot: &Snapshot,
    locator: &ParsedLocator,
    remembered: Option<&Vec<LocatorMemoTarget>>,
    metrics: &mut MemoRehydrateMetrics,
) -> (r: Option<Vec<Element>>)
    ensures
        opt_elements(r) == restored(*locator, *snapshot, opt_targets(remembered)),
        *final(metrics) == restore_work(
            *old(metrics),
            *locator,
            *snapshot,
            opt_targets(remembered),
        ),
{
    if locator.memo_key(snapshot).is_none() {
        return None;
    }
    match remembered {
        Some(targets) => rehydrate_memoized_elements(snapshot, &locator.locator, targets, metrics),
        None => None,
    }
}

/// What to remember of the matches of a locator, over texts.
pub open spec fn recorded(p: ParsedLocator, s: Snapshot, found: Seq<ElementModel>) -> Option<
    (Seq<char>, Seq<TargetModel>),
> {
    if memo_key_of(p, s) is Some && found.len() > 0 {
        Some((memo_key_of(p, s)->0, found.map_values(|e: ElementModel| target_of(e))))
    } else {
        None
    }
}

pub open spec fn record_model(o: Option<(String, Vec<LocatorMemoTarget>)>) -> Option<
    (Seq<char>, Seq<TargetModel>),
> {
    match o {
        Some((key, targets)) => Some((key@, target_models(targets@))),
        None => None,
    }
}

/// What to remember of the matches of a locator: the key and how to find the
/// elements again. Nothing where the locator has no key or found nothing.
pub fn record_memoized_elements(
    snapshot: &Snapshot,
    locator: &ParsedLocator,
    elements: &Vec<Element>,
) -> (r: Option<(String, Vec<LocatorMemoTarget>)>)
    ensures
        record_model(r) == recorded(*locator, *snapshot, model::element_models(elements@)),
{
    let key = match locator.memo_key(snapshot) {
        Some(key) => key,
        None => return None,
    };
    let targets = memo_targets(elements);
    assert(target_models(targets@).len() == elements@.len());
    if targets.len() == 0 {
        return None;
    }
    Some((key, targets))
}

/// Matches are remembered exactly for a text locator that does not ask for what lies on
/// top, on a snapshot that is complete and verified.
pub proof fn memos_need_a_whole_snapshot(p: ParsedLocator, s: Snapshot)
    ensures
        memo_key_of(p, s) is Some <==> p.locator@ is TargetText && !p.ranking.topmost
            && s.projection.verified && !s.truncated,
{
}

/// Nothing that decides what a text locator finds is left out of what its matches are
/// remembered under: where two such values agree, so do the page, its scroll position, its
/// frame, its size and how it was read, the query up to normal form, the selection and the
/// ranking.
pub proof fn memos_tell_pages_and_queries_apart(
    s: Snapshot,
    query: Seq<char>,
    p: ParsedLocator,
    s2: Snapshot,
    query2: Seq<char>,
    p2: ParsedLocator,
)
    requires
        memo_value(s, query, p) == memo_value(s2, query2, p2),
    ensures
        s.url@ == s2.url@,
        s.dom_epoch == s2.dom_epoch,
        s.scroll.x@ == s2.scroll.x@,
        s.scroll.y@ == s2.scroll.y@,
        s.scroll.at_bottom == s2.scroll.at_bottom,
        s.frame_context.frame_id@ == s2.frame_context.frame_id@,
        s.total_count == s2.total_count,
        s.truncated == s2.truncated,
        s.projection.verified == s2.projection.verified,
        s.projection.js_traversal_count == s2.projection.js_traversal_count,
        s.projection.backend_traversal_count == s2.projection.backend_traversal_count,
        semantic::normalized(query) == semantic::normalized(query2),
        projection::opt_selection(locator::selection_of(p.locator@)) == projection::opt_selection(
            locator::selection_of(p2.locator@),
        ),
        p.ranking == p2.ranking,
{
    let a = memo_value(s, query, p);
    let b = memo_value(s2, query2, p2);
    reveal_strlit("url");
    reveal_strlit("dom_epoch");
    reveal_strlit("scroll");
    reveal_strlit("frame_id");
    reveal_strlit("frame_lineage");
    reveal_strlit("total_count");
    reveal_strlit("truncated");
    reveal_strlit("projection_verified");
    reveal_strlit("js_traversal_count");
    reveal_strlit("backend_traversal_count");
    reveal_strlit("kind");
    reveal_strlit("value");
    reveal_strlit("selection");
    reveal_strlit("ranking");
    assert("url"@.len() != "dom_epoch"@.len());
    assert("url"@.len() != "scroll"@.len());
    assert("url"@.len() != "frame_id"@.len());
    assert("url"@.len() != "frame_lineage"@.len());
    assert("url"@.len() != "total_count"@.len());
    assert("url"@.len() != "truncated"@.len());
    assert("url"@.len() != "projection_verified"@.len());
    assert("url"@.len() != "js_traversal_count"@.len());
    assert("url"@.len() != "backend_traversal_count"@.len());
    assert("url"@.len() != "kind"@.len());
    assert("url"@.len() != "value"@.len());
    assert("url"@.len() != "selection"@.len());
    assert("url"@.len() != "ranking"@.len());
    assert("dom_epoch"@.len() != "scroll"@.len());
    assert("dom_epoch"@.len() != "frame_id"@.len());
    assert("dom_epoch"@.len() != "frame_lineage"@.len());
    assert("dom_epoch"@.len() != "total_count"@.len());
    assert("dom_epoch"@[0] != "truncated"@[0]);
    assert("dom_epoch"@.len() != "projection_verified"@.len());
    assert("dom_epoch"@.len() != "js_traversal_count"@.len());
    assert("dom_epoch"@.len() != "backend_traversal_count"@.len());
    assert("dom_epoch"@.len() != "kind"@.len());
    assert("dom_epoch"@.len() != "value"@.len());
    assert("dom_epoch"@[0] != "selection"@[0]);
    assert("dom_epoch"@.len() != "ranking"@.len());
    assert("scroll"@.len() != "frame_id"@.len());
    assert("scroll"@.len() != "frame_lineage"@.len());
    assert("scroll"@.len() != "total_count"@.len());
    assert("scroll"@.len() != "truncated"@.len());
    assert("scroll"@.len() != "projection_verified"@.len());
    assert("scroll"@.len() != "js_traversal_count"@.len());
    assert("scroll"@.len() != "backend_traversal_count"@.len());
    assert("scroll"@.len() != "kind"@.len());
    assert("scroll"@.len() != "value"@.len());
    assert("scroll"@.len() != "selection"@.len());
    assert("scroll"@.len() != "ranking"@.len());
    assert("frame_id"@.len() != "frame_lineage"@.len());
    assert("frame_id"@.len() != "total_count"@.len());
    assert("frame_id"@.len() != "truncated"@.len());
    assert("frame_id"@.len() != "projection_verified"@.len());
    assert("frame_id"@.len() != "js_traversal_count"@.len());
    assert("frame_id"@.len() != "backend_traversal_count"@.len());
    assert("frame_id"@.len() != "kind"@.len());
    assert("frame_id"@.len() != "value"@.len());
    assert("frame_id"@.len() != "selection"@.len());
    assert("frame_id"@.len() != "ranking"@.len());
    assert("frame_lineage"@.len() != "total_count"@.len());
    assert("frame_lineage"@.len() != "truncated"@.len());
    assert("frame_lineage"@.len() != "projection_verified"@.len());
    assert("frame_lineage"@.len() != "js_traversal_count"@.len());
    assert("frame_lineage"@.len() != "backend_traversal_count"@.len());
    assert("frame_lineage"@.len() != "kind"@.len());
    assert("frame_lineage"@.len() != "value"@.len());
    assert("frame_lineage"@.len() != "selection"@.len());
    assert("frame_lineage"@.len() != "ranking"@.len());
    assert("total_count"@.len() != "truncated"@.len());
    assert("total_count"@.len() != "projection_verified"@.len());
    assert("total_count"@.len() != "js_traversal_count"@.len());
    assert("total_count"@.len() != "backend_traversal_count"@.len());
    assert("total_count"@.len() != "kind"@.len());
    assert("total_count"@.len() != "value"@.len());
    assert("total_count"@.len() != "selection"@.len());
    assert("total_count"@.len() != "ranking"@.len());
    assert("truncated"@.len() != "projection_verified"@.len());
    assert("truncated"@.len() != "js_traversal_count"@.len());
    assert("truncated"@.len() != "backend_traversal_count"@.len());
    assert("truncated"@.len() != "kind"@.len());
    assert("truncated"@.len() != "value"@.len());
    assert("truncated"@[0] != "selection"@[0]);
    assert("truncated"@.len() != "ranking"@.len());
    assert("projection_verified"@.len() != "js_traversal_count"@.len());
    assert("projection_verified"@.len() != "backend_traversal_count"@.len());
    assert("projection_verified"@.len() != "kind"@.len());
    assert("projection_verified"@.len() != "value"@.len());
    assert("projection_verified"@.len() != "selection"@.len());
    assert("projection_verified"@.len() != "ranking"@.len());
    assert("js_traversal_count"@.len() != "backend_traversal_count"@.len());
    assert("js_traversal_count"@.len() != "kind"@.len());
    assert("js_traversal_count"@.len() != "value"@.len());
    assert("js_traversal_count"@.len() != "selection"@.len());
    assert("js_traversal_count"@.len() != "ranking"@.len());
    assert("backend_traversal_count"@.len() != "kind"@.len());
    assert("backend_traversal_count"@.len() != "value"@.len());
    assert("backend_traversal_count"@.len() != "selection"@.len());
    assert("backend_traversal_count"@.len() != "ranking"@.len());
    assert("kind"@.len() != "value"@.len());
    assert("kind"@.len() != "selection"@.len());
    assert("kind"@.len() != "ranking"@.len());
    assert("value"@.len() != "selection"@.len());
    assert("value"@.len() != "ranking"@.len());
    assert("selection"@.len() != "ranking"@.len());
    reveal_strlit("x");
    reveal_strlit("y");
    reveal_strlit("at_bottom");
    assert("x"@[0] != "y"@[0]);
    assert("x"@.len() != "at_bottom"@.len());
    assert("y"@.len() != "at_bottom"@.len());
    reveal_strlit("visible");
    reveal_strlit("prefer_enabled");
    reveal_strlit("topmost");
    assert("visible"@.len() != "prefer_enabled"@.len());
    assert("visible"@[0] != "topmost"@[0]);
    assert("prefer_enabled"@.len() != "topmost"@.len());
    assert(json::member(a, "url"@) == json::member(b, "url"@));
    assert(json::member(a, "dom_epoch"@) == json::member(b, "dom_epoch"@));
    assert(json::member(a, "frame_id"@) == json::member(b, "frame_id"@));
    assert(json::member(a, "total_count"@) == json::member(b, "total_count"@));
    assert(json::member(a, "truncated"@) == json::member(b, "truncated"@));
    assert(json::member(a, "projection_verified"@) == json::member(b, "projection_verified"@));
    assert(json::member(a, "js_traversal_count"@) == json::member(b, "js_traversal_count"@));
    assert(json::member(a, "backend_traversal_count"@) == json::member(
        b,
        "backend_traversal_count"@,
    ));
    assert(json::member(a, "value"@) == json::member(b, "value"@));
    assert(json::member(a, "selection"@) == json::member(b, "selection"@));
    let x = json::member(a, "scroll"@)->0;
    let y = json::member(b, "scroll"@)->0;
    assert(x == y);
    assert(json::member(x, "x"@) == json::member(y, "x"@));
    assert(json::member(x, "y"@) == json::member(y, "y"@));
    assert(json::member(x, "at_bottom"@) == json::member(y, "at_bottom"@));
    let u = json::member(a, "ranking"@)->0;
    let v = json::member(b, "ranking"@)->0;
    assert(u == v);
    assert(json::member(u, "visible"@) == json::member(v, "visible"@));
    assert(json::member(u, "prefer_enabled"@) == json::member(v, "prefer_enabled"@));
    assert(json::member(u, "topmost"@) == json::member(v, "topmost"@));
}

/// A target means the last element with its reference, or the element at its number that
/// has that number; nothing else.
pub proof fn targets_mean_one_element(s: Seq<ElementModel>, r: Seq<char>, n: u32)
    ensures
        match lookup(s, TargetModel::ElementRef(r)) {
            Some(e) => exists|i: int| #![trigger s[i]]
                0 <= i < s.len() && s[i] == e && e.element_ref == Some(r) && forall|j: int|
                    i < j < s.len() ==> (#[trigger] s[j]).element_ref != Some(r),
            None => forall|i: int| 0 <= i < s.len() ==> (#[trigger] s[i]).element_ref != Some(r),
        },
        match lookup(s, TargetModel::Index(n)) {
            Some(e) => n < s.len() && s[n as int] == e && e.index == n,
            None => n < s.len() ==> s[n as int].index != n,
        },
    decreases s.len(),
{
    if s.len() > 0 {
        if s.last().element_ref == Some(r) {
            assert(s[s.len() - 1] == s.last());
        } else {
            let front = s.drop_last();
            targets_mean_one_element(front, r, n);
            match last_with_ref(front, r) {
                Some(e) => {
                    let i = choose|i: int| #![trigger front[i]]
                        0 <= i < front.len() && front[i] == e && e.element_ref == Some(r)
                            && forall|j: int|
                            i < j < front.len() ==> (#[trigger] front[j]).element_ref != Some(r);
                    assert(s[i] == e);
                    assert forall|j: int| i < j < s.len() implies (#[trigger] s[j]).element_ref
                        != Some(r) by {
                        if j < front.len() {
                            assert(front[j] == s[j]);
                        }
                    }
                },
                None => {
                    assert forall|j: int| 0 <= j < s.len() implies (#[trigger] s[j]).element_ref
                        != Some(r) by {
                        if j < front.len() {
                            assert(front[j] == s[j]);
                        }
                    }
                },
            }
        }
    }
}

/// Remembered elements are gathered one for one, in the order of the targets, each the one
/// that its target means, and no two with one number.
pub proof fn targets_are_gathered_one_for_one(
    s: Seq<ElementModel>,
    targets: Seq<TargetModel>,
)
    ensures
        match gathered(s, targets) {
            Some(found) => found.len() == targets.len() && distinct_indices(found) && forall|i: int|
                0 <= i < targets.len() ==> lookup(s, #[trigger] targets[i]) == Some(found[i]),
            None => (exists|i: int| #![trigger targets[i]]
                0 <= i < targets.len() && lookup(s, targets[i]) is None) || (exists|i: int, j: int|
                #![trigger targets[i], targets[j]]
                0 <= i < j < targets.len() && lookup(s, targets[i]) is Some && lookup(s, targets[j])
                    is Some && lookup(s, targets[i])->0.index == lookup(s, targets[j])->0.index),
        },
    decreases targets.len(),
{
    if targets.len() > 0 {
        let front = targets.drop_last();
        let n = targets.len() - 1;
        targets_are_gathered_one_for_one(s, front);
        match gathered(s, front) {
            Some(found) => {
                assert forall|i: int| 0 <= i < n implies lookup(s, #[trigger] targets[i]) == Some(
                    found[i],
                ) by {
                    assert(front[i] == targets[i]);
                }
                assert(targets[n] == targets.last());
                if lookup(s, targets.last()) is Some {
                    let e = lookup(s, targets.last())->0;
                    if has_index(found, e.index) {
                        let i = choose|i: int|
                            0 <= i < found.len() && (#[trigger] found[i]).index == e.index;
                        assert(lookup(s, targets[i]) == Some(found[i]));
                    } else {
                        let all = found.push(e);
                        assert forall|i: int, j: int| 0 <= i < j < all.len() implies (
                        #[trigger] all[i]).index != (#[trigger] all[j]).index by {
                            assert(all[i] == found[i]);
                        }
                    }
                }
            },
            None => {
                if exists|i: int| #![trigger front[i]]
                    0 <= i < front.len() && lookup(s, front[i]) is None {
                    let i = choose|i: int| #![trigger front[i]]
                        0 <= i < front.len() && lookup(s, front[i]) is None;
                    assert(targets[i] == front[i]);
                } else {
                    let (i, j) = choose|i: int, j: int|
                        #![trigger front[i], front[j]]
                        0 <= i < j < front.len() && lookup(s, front[i]) is Some && lookup(
                            s,
                            front[j],
                        ) is Some && lookup(s, front[i])->0.index == lookup(s, front[j])->0.index;
                    assert(targets[i] == front[i] && targets[j] == front[j]);
                }
            },
        }
    }
}

/// Remembered elements come back by their numbers and only while they are valid; where
/// nothing is remembered, nothing comes back.
pub proof fn restored_elements_are_valid_and_in_order(
    s: Seq<ElementModel>,
    l: LocatorModel,
    targets: Seq<TargetModel>,
)
    ensures
        targets.len() == 0 ==> rehydrated(s, l, targets) is None,
        gathered(s, targets) is None ==> rehydrated(s, l, targets) is None,
        rehydrated(s, l, targets) matches Some(found) ==> {
            &&& semantic::still_valid(l, found)
            &&& found.len() == targets.len()
            &&& found.to_multiset() == gathered(s, targets)->0.to_multiset()
            &&& forall|i: int, j: int|
                0 <= i < j < found.len() ==> (#[trigger] found[i]).index <= (
                #[trigger] found[j]).index
        },
        targets.len() > 0 ==> (gathered(s, targets) matches Some(found) ==> (
        semantic::still_valid(l, ranking::ranked(found, false)) ==> rehydrated(s, l, targets)
            is Some)),
{
    targets_are_gathered_one_for_one(s, targets);
    if let Some(found) = gathered(s, targets) {
        ranking::ranked_is_a_stable_sort(found, false);
        let t = ranking::ranked(found, false);
        assert forall|i: int, j: int| 0 <= i < j < t.len() implies (#[trigger] t[i]).index <= (
        #[trigger] t[j]).index by {
            assert(ranking::rank(t[i], false) <= ranking::rank(t[j], false));
        }
    }
}

/// What was found is remembered exactly where it has a key and is not empty: under that
/// key, element for element, by reference where there is one and else by number.
pub proof fn found_elements_are_recorded_one_for_one(
    p: ParsedLocator,
    s: Snapshot,
    found: Seq<ElementModel>,
)
    ensures
        recorded(p, s, found) is Some <==> memo_key_of(p, s) is Some && found.len() > 0,
        recorded(p, s, found) matches Some(r) ==> {
            &&& Some(r.0) == memo_key_of(p, s)
            &&& r.1.len() == found.len()
            &&& forall|i: int|
                0 <= i < found.len() ==> #[trigger] r.1[i] == match found[i].element_ref {
                    Some(x) => TargetModel::ElementRef(x),
                    None => TargetModel::Index(found[i].index),
                }
        },
{
}

/// The work of finding targets again counts a lookup for each reference up to where the
/// search ends, and a step for each element where there is a reference at all.
pub proof fn work_is_counted_by_references(
    before: MemoRehydrateMetrics,
    s: Seq<ElementModel>,
    targets: Seq<TargetModel>,
    t: TargetModel,
)
    ensures
        refs_in(seq![]) == 0,
        t is ElementRef ==> refs_in(targets.push(t)) == refs_in(targets) + 1,
        t is Index ==> refs_in(targets.push(t)) == refs_in(targets),
        refs_in(targets) == 0 ==> work(before, s, targets).element_ref_index_build_steps
            == before.element_ref_index_build_steps,
        refs_in(targets) > 0 && before.element_ref_index_build_steps + s.len() <= u64::MAX
            ==> work(before, s, targets).element_ref_index_build_steps
            == before.element_ref_index_build_steps + s.len(),
        gathered(s, targets) is Some && before.element_ref_lookups + refs_in(targets) <= u64::MAX
            ==> work(before, s, targets).element_ref_lookups == before.element_ref_lookups
            + refs_in(targets),
{
    assert(targets.push(t).drop_last() =~= targets);
    if gathered(s, targets) is Some {
        assert(targets.len() > 0 ==> gathered(s, targets.drop_last()) is Some);
        assert(visited(s, targets) == targets.len());
        refs_are_targets(targets);
        assert(targets.take(targets.len() as int) =~= targets);
    }
}

proof fn refs_are_targets(targets: Seq<TargetModel>)
    ensures
        0 <= refs_in(targets) <= targets.len(),
    decreases targets.len(),
{
    if targets.len() > 0 {
        refs_are_targets(targets.drop_last());
    }
}

/// Nothing is looked up where nothing is remembered.
pub proof fn nothing_is_looked_up_without_a_memory(
    before: MemoRehydrateMetrics,
    p: ParsedLocator,
    s: Snapshot,
    remembered: Option<Seq<TargetModel>>,
)
    ensures
        remembered is None ==> restore_work(before, p, s, remembered) == before,
        memo_key_of(p, s) is None ==> restore_work(before, p, s, remembered) == before,
        remembered matches Some(targets) ==> (targets.len() > 0 && memo_key_of(p, s) is Some
            ==> restore_work(before, p, s, remembered) == work(
            before,
            model::element_models(s.elements@),
            targets,
        )),
{
}

} // verus!
