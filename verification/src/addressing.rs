//! Finding the elements that a request names.

pub mod memo;
pub mod projection;
pub mod ranking;
pub mod semantic;
pub mod snapshot;

use vstd::prelude::*;
use crate::element_semantics as semantics;
use crate::error::{self, ErrorCode, ErrorModel, RubError};
use crate::json::{self, Json, JsonModel, JsonObject};
use crate::locator::{self, CanonicalLocator, LocatorModel, LocatorSelection};
use crate::model::{self, Element, ElementModel, Snapshot};
use crate::text;
use self::memo::{LocatorMemoTarget, LocatorRankingPolicy, MemoRehydrateMetrics, ParsedLocator};

verus! {

/// The one element that a request names, and the snapshot that shows it.
#[derive(Debug)]
pub struct ResolvedElement {
    pub element: Element,
    pub snapshot_id: String,
}

/// The elements that a request names, and the snapshot that shows them.
#[derive(Debug)]
pub struct ResolvedElements {
    pub elements: Vec<Element>,
    pub snapshot_id: String,
}

/// The ranking that a request asks for.
pub open spec fn requested_ranking(args: JsonModel) -> LocatorRankingPolicy {
    LocatorRankingPolicy {
        visible: locator::flag_member(args, "visible"@),
        prefer_enabled: locator::flag_member(args, "prefer_enabled"@),
        topmost: locator::flag_member(args, "topmost"@),
    }
}

/// The locator of a request with its ranking.
pub open spec fn addressed(args: JsonModel) -> Result<
    (LocatorModel, LocatorRankingPolicy),
    ErrorModel,
> {
    match locator::parsed(args) {
        Ok(Some(l)) => Ok((l, requested_ranking(args))),
        Ok(None) => Err(
            error::plain(ErrorCode::InvalidInput, "Failed to parse element locator"@),
        ),
        Err(e) => Err(e),
    }
}

pub open spec fn parsed_result(r: Result<ParsedLocator, RubError>) -> Result<
    (LocatorModel, LocatorRankingPolicy),
    ErrorModel,
> {
    match r {
        Ok(p) => Ok(memo::parsed_model(p)),
        Err(e) => Err(e@),
    }
}

/// Reads the locator of a request that has to name elements.
pub fn parse_locator(args: &Json) -> (r: Result<ParsedLocator, RubError>)
    ensures
        parsed_result(r) == addressed(args@),
{
    let locator = match locator::parse_canonical_locator(args) {
        Ok(Some(l)) => l,
        Ok(None) => return Err(
            RubError::domain(ErrorCode::InvalidInput, "Failed to parse element locator"),
        ),
        Err(e) => return Err(e),
    };
    let ranking = LocatorRankingPolicy {
        visible: locator::get_flag(args, "visible"),
        prefer_enabled: locator::get_flag(args, "prefer_enabled"),
        topmost: locator::get_flag(args, "topmost"),
    };
    Ok(ParsedLocator { locator, ranking })
}

/// Where the matches of a locator come from: a snapshot, or the page, by a
/// selector.
#[derive(Debug)]
pub enum Candidates {
    Found(Vec<Element>),
    Probe(String),
}

/// Where the matches of a locator come from, over texts.
#[verifier::ext_equal]
pub enum CandidatesModel {
    Found(Seq<ElementModel>),
    Probe(Seq<char>),
}

impl View for Candidates {
    type V = CandidatesModel;

    open spec fn view(&self) -> CandidatesModel {
        match self {
            Candidates::Found(v) => CandidatesModel::Found(model::element_models(v@)),
            Candidates::Probe(s) => CandidatesModel::Probe(s@),
        }
    }
}

pub open spec fn candidates_result(r: Result<Candidates, RubError>) -> Result<
    CandidatesModel,
    ErrorModel,
> {
    match r {
        Ok(c) => Ok(c@),
        Err(e) => Err(e@),
    }
}

/// The first element with a number.
pub open spec fn with_index(s: Seq<ElementModel>, index: u32) -> Option<ElementModel>
    decreases s.len(),
{
    if s.len() == 0 {
        None
    } else {
        match with_index(s.drop_last(), index) {
            Some(e) => Some(e),
            None => if s.last().index == index {
                Some(s.last())
            } else {
                None
            },
        }
    }
}

/// The elements with a reference.
pub open spec fn with_ref(s: Seq<ElementModel>, element_ref: Seq<char>) -> Seq<ElementModel>
    decreases s.len(),
{
    if s.len() == 0 {
        seq![]
    } else {
        let front = with_ref(s.drop_last(), element_ref);
        if s.last().element_ref == Some(element_ref) {
            front.push(s.last())
        } else {
            front
        }
    }
}

/// The error for a reference into a snapshot whose references are not certain.
pub open spec fn uncertain_ref(s: Snapshot, element_ref: Seq<char>) -> ErrorModel {
    error::with_context(
        ErrorCode::StaleSnapshot,
        "Element refs of snapshot "@ + s.snapshot_id@ + " are not authoritative"@,
        JsonModel::Object(
            Map::<Seq<char>, JsonModel>::empty().insert(
                "snapshot_id"@,
                JsonModel::Text(s.snapshot_id@),
            ).insert("element_ref"@, JsonModel::Text(element_ref)).insert(
                "reason"@,
                JsonModel::Text("snapshot_ref_authority_unavailable"@),
            ),
        ),
    )
}

/// The matches, where there are any.
pub open spec fn matches_or(found: Seq<ElementModel>, e: ErrorModel) -> Result<
    CandidatesModel,
    ErrorModel,
> {
    if found.len() > 0 {
        Ok(CandidatesModel::Found(found))
    } else {
        Err(e)
    }
}

/// The matches of a locator in a snapshot.
pub open spec fn candidates(s: Snapshot, l: LocatorModel) -> Result<CandidatesModel, ErrorModel> {
    let elements = model::element_models(s.elements@);
    match l {
        LocatorModel::Index(index) => match with_index(elements, index) {
            Some(e) => Ok(CandidatesModel::Found(seq![e])),
            None => Err(
                error::plain(
                    ErrorCode::ElementNotFound,
                    "Element at index "@ + text::decimal(index as nat) + " not found"@,
                ),
            ),
        },
        LocatorModel::Ref(element_ref) => if s.projection.verified {
            Ok(CandidatesModel::Found(with_ref(elements, element_ref)))
        } else {
            Err(uncertain_ref(s, element_ref))
        },
        LocatorModel::Selector(css, _) => Ok(CandidatesModel::Probe(css)),
        LocatorModel::TargetText(query, _) => matches_or(
            semantic::by_text(elements, query),
            semantic::no_text(query),
        ),
        LocatorModel::Role(query, _) => matches_or(
            semantic::by_role(elements, query),
            semantic::no_role(query),
        ),
        LocatorModel::Label(query, _) => matches_or(
            semantic::by_label(elements, query),
            semantic::no_label(query),
        ),
        LocatorModel::TestId(query, _) => matches_or(
            semantic::by_testid(elements, query),
            semantic::no_testid(query),
        ),
    }
}

fn find_by_index(elements: &Vec<Element>, index: u32) -> (r: Option<&Element>)
    ensures
        memo::opt_element(r) == with_index(model::element_models(elements@), index),
{
    let ghost all = model::element_models(elements@);
    let mut i: usize = 0;
    while i < elements.len()
        invariant
            i <= elements@.len(),
            all == model::element_models(elements@),
            with_index(all.take(i as int), index) is None,
        decreases elements@.len() - i,
    {
        assert(all.take(i + 1).drop_last() =~= all.take(i as int));
        if elements[i].index == index {
            proof {
                with_index_prefix(all, index, i + 1);
            }
            return Some(&elements[i]);
        }
        i += 1;
    }
    assert(all.take(i as int) =~= all);
    None
}

proof fn with_index_prefix(s: Seq<ElementModel>, index: u32, k: int)
    requires
        0 <= k <= s.len(),
        with_index(s.take(k), index) is Some,
    ensures
        with_index(s, index) == with_index(s.take(k), index),
    decreases s.len(),
{
    if k == s.len() {
        assert(s.take(k) =~= s);
    } else {
        assert(s.drop_last().take(k) =~= s.take(k));
        with_index_prefix(s.drop_last(), index, k);
    }
}

fn find_by_ref(elements: &Vec<Element>, element_ref: &str) -> (r: Vec<Element>)
    ensures
        model::element_models(r@) == with_ref(model::element_models(elements@), element_ref@),
{
    let ghost all = model::element_models(elements@);
    let mut out: Vec<Element> = Vec::new();
    let mut i: usize = 0;
    assert(model::element_models(out@) =~= with_ref(all.take(0), element_ref@));
    while i < elements.len()
        invariant
            i <= elements@.len(),
            all == model::element_models(elements@),
            model::element_models(out@) == with_ref(all.take(i as int), element_ref@),
        decreases elements@.len() - i,
    {
        assert(all.take(i + 1).drop_last() =~= all.take(i as int));
        let hit = match &elements[i].element_ref {
            Some(r) => text::str_eq(r.as_str(), element_ref),
            None => false,
        };
        if hit {
            let ghost before = model::element_models(out@);
            let e = elements[i].clone();
            out.push(e);
            assert(model::element_models(out@) =~= before.push(e@));
        }
        i += 1;
    }
    assert(all.take(i as int) =~= all);
    out
}

fn found(r: Result<Vec<Element>, RubError>) -> (c: Result<Candidates, RubError>)
    ensures
        match r {
            Ok(v) => c is Ok && c->Ok_0@ == CandidatesModel::Found(model::element_models(v@)),
            Err(e) => c == Err::<Candidates, RubError>(e),
        },
{
    match r {
        Ok(v) => Ok(Candidates::Found(v)),
        Err(e) => Err(e),
    }
}

/// The matches of a locator in a snapshot. A selector is matched on the page
/// itself.
pub fn resolve_elements_against_locator(snapshot: &Snapshot, locator: &CanonicalLocator) -> (r:
    Result<Candidates, RubError>)
    ensures
        candidates_result(r) == candidates(*snapshot, locator@),
{
    match locator {
        CanonicalLocator::Index { index } => match find_by_index(&snapshot.elements, *index) {
            Some(e) => {
                let mut out: Vec<Element> = Vec::new();
                out.push(e.clone());
                assert(model::element_models(out@) =~= seq![e@]);
                Ok(Candidates::Found(out))
            },
            None => {
                let number = text::decimal_string(*index as u64);
                let message = text::cat3("Element at index ", number.as_str(), " not found");
                Err(RubError::domain(ErrorCode::ElementNotFound, message.as_str()))
            },
        },
        CanonicalLocator::Ref { element_ref } => {
            if snapshot.projection.verified {
                Ok(Candidates::Found(find_by_ref(&snapshot.elements, element_ref.as_str())))
            } else {
                let message = text::cat3(
                    "Element refs of snapshot ",
                    snapshot.snapshot_id.as_str(),
                    " are not authoritative",
                );
                let context = JsonObject::new().with(
                    "snapshot_id",
                    json::text_value(snapshot.snapshot_id.as_str()),
                ).with("element_ref", json::text_value(element_ref.as_str())).with(
                    "reason",
                    json::text_value("snapshot_ref_authority_unavailable"),
                );
                Err(
                    RubError::domain_with_context(
                        ErrorCode::StaleSnapshot,
                        message.as_str(),
                        Json::Object(context),
                    ),
                )
            }
        },
        CanonicalLocator::Selector { css, .. } => Ok(Candidates::Probe(css.clone())),
        CanonicalLocator::TargetText { text, .. } => found(
            semantic::resolve_elements_by_text(snapshot, text.as_str()),
        ),
        CanonicalLocator::Role { role, .. } => found(
            semantic::resolve_elements_by_role(snapshot, role.as_str()),
        ),
        CanonicalLocator::Label { label, .. } => found(
            semantic::resolve_elements_by_label(snapshot, label.as_str()),
        ),
        CanonicalLocator::TestId { testid, .. } => found(
            semantic::resolve_elements_by_testid(snapshot, testid.as_str()),
        ),
    }
}

/// The matches that a hit test on the page is asked about.
pub open spec fn before_hit_test(ranking: LocatorRankingPolicy, s: Seq<ElementModel>) -> Seq<
    ElementModel,
> {
    if ranking.visible {
        ranking::visible(s)
    } else {
        s
    }
}

/// Leaves out what need not be tested on the page.
pub fn apply_pre_hit_test_ranking(locator: &ParsedLocator, elements: Vec<Element>) -> (r: Vec<
    Element,
>)
    ensures
        model::element_models(r@) == before_hit_test(
            locator.ranking,
            model::element_models(elements@),
        ),
{
    if locator.ranking.visible {
        ranking::retain_visible(elements)
    } else {
        elements
    }
}

/// The match that a selection picks from ordered matches.
pub open spec fn picked(s: Seq<ElementModel>, selection: LocatorSelection) -> Option<
    ElementModel,
> {
    match selection {
        LocatorSelection::First => if s.len() > 0 {
            Some(s[0])
        } else {
            None
        },
        LocatorSelection::Last => if s.len() > 0 {
            Some(s.last())
        } else {
            None
        },
        LocatorSelection::Nth(n) => if n < s.len() {
            Some(s[n as int])
        } else {
            None
        },
    }
}

/// The error for a selection that picks no match.
pub open spec fn nothing_picked(
    args: JsonModel,
    ranking: LocatorRankingPolicy,
    selection: LocatorSelection,
) -> ErrorModel {
    error::with_context(
        ErrorCode::ElementNotFound,
        "Locator disambiguation selected an out-of-range match"@,
        JsonModel::Object(
            Map::<Seq<char>, JsonModel>::empty().insert(
                "locator"@,
                projection::locator_json_of(args),
            ).insert("ranking_policy"@, memo::ranking_json(ranking)).insert(
                "selection"@,
                projection::selection_json(selection),
            ),
        ),
    )
}

/// The matches of a locator after its ranking and selection.
pub open spec fn disambiguated(
    s: Seq<ElementModel>,
    p: (LocatorModel, LocatorRankingPolicy),
    args: JsonModel,
) -> Result<Seq<ElementModel>, ErrorModel> {
    let ranking = p.1;
    let kept = before_hit_test(ranking, s);
    match locator::selection_of(p.0) {
        None => if ranking.prefer_enabled {
            Ok(ranking::ranked(kept, true))
        } else {
            Ok(kept)
        },
        Some(selection) => if kept.len() == 0 {
            Ok(kept)
        } else {
            match picked(ranking::ranked(kept, ranking.prefer_enabled), selection) {
                Some(e) => Ok(seq![e]),
                None => Err(nothing_picked(args, ranking, selection)),
            }
        },
    }
}

pub open spec fn elements_result(r: Result<Vec<Element>, RubError>) -> Result<
    Seq<ElementModel>,
    ErrorModel,
> {
    match r {
        Ok(v) => Ok(model::element_models(v@)),
        Err(e) => Err(e@),
    }
}

fn pick(elements: &Vec<Element>, selection: LocatorSelection) -> (r: Option<&Element>)
    ensures
        memo::opt_element(r) == picked(model::element_models(elements@), selection),
{
    match selection {
        LocatorSelection::First => if elements.len() > 0 {
            Some(&elements[0])
        } else {
            None
        },
        LocatorSelection::Last => if elements.len() > 0 {
            Some(&elements[elements.len() - 1])
        } else {
            None
        },
        LocatorSelection::Nth(n) => if (n as usize) < elements.len() {
            Some(&elements[n as usize])
        } else {
            None
        },
    }
}

/// Applies the ranking and the selection of a locator to its matches.
pub fn apply_disambiguation(
    elements: Vec<Element>,
    locator: &ParsedLocator,
    args: &Json,
) -> (r: Result<Vec<Element>, RubError>)
    ensures
        elements_result(r) == disambiguated(
            model::element_models(elements@),
            memo::parsed_model(*locator),
            args@,
        ),
{
    let kept = apply_pre_hit_test_ranking(locator, elements);
    let selection = match locator.locator.selection() {
        Some(selection) => selection,
        None => {
            if locator.ranking.prefer_enabled {
                return Ok(ranking::rank_elements(kept, true));
            }
            return Ok(kept);
        },
    };
    assert(model::element_models(kept@).len() == kept@.len());
    if kept.len() == 0 {
        return Ok(kept);
    }
    let ordered = ranking::rank_elements(kept, locator.ranking.prefer_enabled);
    match pick(&ordered, selection) {
        Some(e) => {
            let mut out: Vec<Element> = Vec::new();
            out.push(e.clone());
            assert(model::element_models(out@) =~= seq![e@]);
            Ok(out)
        },
        None => {
            let context = JsonObject::new().with(
                "locator",
                projection::locator_context(args),
            ).with("ranking_policy", memo::ranking_value(locator.ranking)).with(
                "selection",
                projection::selection_context(selection),
            );
            Err(
                RubError::domain_with_context(
                    ErrorCode::ElementNotFound,
                    "Locator disambiguation selected an out-of-range match",
                    Json::Object(context),
                ),
            )
        },
    }
}

/// The error for a locator without a match.
pub open spec fn nothing_resolved(command_name: Seq<char>) -> ErrorModel {
    error::plain(
        ErrorCode::ElementNotFound,
        command_name + " did not resolve to any interactive snapshot element"@,
    )
}

fn nothing_resolved_error(command_name: &str) -> (r: RubError)
    ensures
        r@ == nothing_resolved(command_name@),
{
    let message = text::cat2(
        command_name,
        " did not resolve to any interactive snapshot element",
    );
    RubError::domain(ErrorCode::ElementNotFound, message.as_str())
}

/// What comes next on the way from a locator to its elements.
#[derive(Debug)]
pub enum ResolutionStep {
    /// Match the selector on the page.
    Probe(String),
    /// Keep those elements that a hit test on the page finds on top.
    HitTest(Vec<Element>),
    Done(ResolvedElements),
}

/// What comes next, over texts.
#[verifier::ext_equal]
pub enum StepModel {
    Probe(Seq<char>),
    HitTest(Seq<ElementModel>),
    Done(Seq<ElementModel>, Seq<char>),
}

impl View for ResolutionStep {
    type V = StepModel;

    open spec fn view(&self) -> StepModel {
        match self {
            ResolutionStep::Probe(s) => StepModel::Probe(s@),
            ResolutionStep::HitTest(v) => StepModel::HitTest(model::element_models(v@)),
            ResolutionStep::Done(r) => StepModel::Done(
                model::element_models(r.elements@),
                r.snapshot_id@,
            ),
        }
    }
}

pub open spec fn step_result(r: Result<ResolutionStep, RubError>) -> Result<
    StepModel,
    ErrorModel,
> {
    match r {
        Ok(s) => Ok(s@),
        Err(e) => Err(e@),
    }
}

/// What is resolved from the matches that stand after the hit test.
pub open spec fn settled(
    s: Seq<ElementModel>,
    p: (LocatorModel, LocatorRankingPolicy),
    args: JsonModel,
    snapshot_id: Seq<char>,
    command_name: Seq<char>,
) -> Result<StepModel, ErrorModel> {
    match disambiguated(s, p, args) {
        Ok(chosen) => if chosen.len() == 0 {
            Err(nothing_resolved(command_name))
        } else {
            Ok(StepModel::Done(chosen, snapshot_id))
        },
        Err(e) => Err(e),
    }
}

/// What comes after the matches of a locator.
pub open spec fn after_matches(
    s: Seq<ElementModel>,
    p: (LocatorModel, LocatorRankingPolicy),
    args: JsonModel,
    snapshot_id: Seq<char>,
    command_name: Seq<char>,
) -> Result<StepModel, ErrorModel> {
    if p.1.topmost {
        Ok(StepModel::HitTest(before_hit_test(p.1, s)))
    } else {
        settled(s, p, args, snapshot_id, command_name)
    }
}

/// What comes after the candidates of a locator.
pub open spec fn after_candidates(
    c: Result<CandidatesModel, ErrorModel>,
    p: (LocatorModel, LocatorRankingPolicy),
    args: JsonModel,
    snapshot_id: Seq<char>,
    command_name: Seq<char>,
) -> Result<StepModel, ErrorModel> {
    match c {
        Ok(CandidatesModel::Found(s)) => after_matches(s, p, args, snapshot_id, command_name),
        Ok(CandidatesModel::Probe(css)) => Ok(StepModel::Probe(css)),
        Err(e) => Err(e),
    }
}

/// Settles on elements once no question to the page is left.
pub fn settle_elements(
    elements: Vec<Element>,
    locator: &ParsedLocator,
    args: &Json,
    snapshot_id: &str,
    command_name: &str,
) -> (r: Result<ResolutionStep, RubError>)
    ensures
        step_result(r) == settled(
            model::element_models(elements@),
            memo::parsed_model(*locator),
            args@,
            snapshot_id@,
            command_name@,
        ),
{
    match apply_disambiguation(elements, locator, args) {
        Ok(chosen) => {
            assert(model::element_models(chosen@).len() == chosen@.len());
            if chosen.len() == 0 {
                return Err(nothing_resolved_error(command_name));
            }
            Ok(
                ResolutionStep::Done(
                    ResolvedElements { elements: chosen, snapshot_id: snapshot_id.to_owned() },
                ),
            )
        },
        Err(e) => Err(e),
    }
}

/// Goes on from the matches of a locator: to a hit test on the page, or to the
/// elements.
pub fn continue_with_matches(
    elements: Vec<Element>,
    locator: &ParsedLocator,
    args: &Json,
    snapshot_id: &str,
    command_name: &str,
) -> (r: Result<ResolutionStep, RubError>)
    ensures
        step_result(r) == after_matches(
            model::element_models(elements@),
            memo::parsed_model(*locator),
            args@,
            snapshot_id@,
            command_name@,
        ),
{
    if locator.ranking.topmost {
        Ok(ResolutionStep::HitTest(apply_pre_hit_test_ranking(locator, elements)))
    } else {
        settle_elements(elements, locator, args, snapshot_id, command_name)
    }
}

/// Starts on the way from a locator to its elements in a snapshot.
pub fn resolve_elements_against_snapshot(
    snapshot: &Snapshot,
    args: &Json,
    command_name: &str,
) -> (r: Result<ResolutionStep, RubError>)
    ensures
        step_result(r) == (match addressed(args@) {
            Ok(p) => after_candidates(
                candidates(*snapshot, p.0),
                p,
                args@,
                snapshot.snapshot_id@,
                command_name@,
            ),
            Err(e) => Err(e),
        }),
{
    let parsed = match parse_locator(args) {
        Ok(p) => p,
        Err(e) => return Err(e),
    };
    match resolve_elements_against_locator(snapshot, &parsed.locator) {
        Ok(Candidates::Found(elements)) => continue_with_matches(
            elements,
            &parsed,
            args,
            snapshot.snapshot_id.as_str(),
            command_name,
        ),
        Ok(Candidates::Probe(css)) => Ok(ResolutionStep::Probe(css)),
        Err(e) => Err(e),
    }
}

/// What comes next on the way to the elements of a request, and what to remember
/// of the matches of its locator.
#[derive(Debug)]
pub struct AddressingStep {
    pub record: Option<(String, Vec<LocatorMemoTarget>)>,
    pub step: Result<ResolutionStep, RubError>,
}

/// The step from matches that were found anew.
pub open spec fn newly_found(
    s: Seq<ElementModel>,
    p: ParsedLocator,
    snapshot: Snapshot,
    args: JsonModel,
    command_name: Seq<char>,
    r: AddressingStep,
) -> bool {
    &&& memo::record_model(r.record) == memo::recorded(p, snapshot, s)
    &&& step_result(r.step) == after_matches(
        s,
        memo::parsed_model(p),
        args,
        snapshot.snapshot_id@,
        command_name,
    )
}

/// Goes on from the matches that were found for a locator, and says what to
/// remember of them.
pub fn found_elements(
    elements: Vec<Element>,
    locator: &ParsedLocator,
    snapshot: &Snapshot,
    args: &Json,
    command_name: &str,
) -> (r: AddressingStep)
    ensures
        newly_found(
            model::element_models(elements@),
            *locator,
            *snapshot,
            args@,
            command_name@,
            r,
        ),
{
    let record = memo::record_memoized_elements(snapshot, locator, &elements);
    let step = continue_with_matches(
        elements,
        locator,
        args,
        snapshot.snapshot_id.as_str(),
        command_name,
    );
    AddressingStep { record, step }
}

/// Starts on the way from a request to its elements: from what is remembered of
/// the matches of its locator where that still holds, and else from the snapshot.
pub fn resolve_elements(
    snapshot: &Snapshot,
    locator: &ParsedLocator,
    remembered: Option<&Vec<LocatorMemoTarget>>,
    args: &Json,
    command_name: &str,
    metrics: &mut MemoRehydrateMetrics,
) -> (r: AddressingStep)
    ensures
        match memo::restored(*locator, *snapshot, memo::opt_targets(remembered)) {
            Some(s) => r.record is None && step_result(r.step) == after_matches(
                s,
                memo::parsed_model(*locator),
                args@,
                snapshot.snapshot_id@,
                command_name@,
            ),
            None => match candidates(*snapshot, locator.locator@) {
                Ok(CandidatesModel::Found(s)) => newly_found(
                    s,
                    *locator,
                    *snapshot,
                    args@,
                    command_name@,
                    r,
                ),
                Ok(CandidatesModel::Probe(css)) => r.record is None && step_result(r.step) == Ok::<
                    StepModel,
                    ErrorModel,
                >(StepModel::Probe(css)),
                Err(e) => r.record is None && step_result(r.step) == Err::<StepModel, ErrorModel>(
                    e,
                ),
            },
        },
        *final(metrics) == memo::restore_work(
            *old(metrics),
            *locator,
            *snapshot,
            memo::opt_targets(remembered),
        ),
{
    if let Some(elements) = memo::restore_memoized_elements(
        snapshot,
        locator,
        remembered,
        metrics,
    ) {
        let step = continue_with_matches(
            elements,
            locator,
            args,
            snapshot.snapshot_id.as_str(),
            command_name,
        );
        return AddressingStep { record: None, step };
    }
    match resolve_elements_against_locator(snapshot, &locator.locator) {
        Ok(Candidates::Found(elements)) => found_elements(
            elements,
            locator,
            snapshot,
            args,
            command_name,
        ),
        Ok(Candidates::Probe(css)) => AddressingStep {
            record: None,
            step: Ok(ResolutionStep::Probe(css)),
        },
        Err(e) => AddressingStep { record: None, step: Err(e) },
    }
}

/// What a command that needs one element makes of the elements of its locator.
pub open spec fn single(
    s: Seq<ElementModel>,
    args: JsonModel,
    command_name: Seq<char>,
) -> Result<ElementModel, ErrorModel> {
    if s.len() == 1 {
        Ok(s[0])
    } else if s.len() == 0 {
        Err(nothing_resolved(command_name))
    } else {
        Err(projection::ambiguous(command_name, args, s))
    }
}

/// The one element of a locator, for a command that needs one.
pub fn resolve_element(resolved: ResolvedElements, args: &Json, command_name: &str) -> (r: Result<
    ResolvedElement,
    RubError,
>)
    ensures
        match r {
            Ok(one) => single(model::element_models(resolved.elements@), args@, command_name@)
                == Ok::<ElementModel, ErrorModel>(one.element@) && one.snapshot_id@
                == resolved.snapshot_id@,
            Err(e) => single(model::element_models(resolved.elements@), args@, command_name@)
                == Err::<ElementModel, ErrorModel>(e@),
        },
{
    assert(model::element_models(resolved.elements@).len() == resolved.elements@.len());
    if resolved.elements.len() == 1 {
        Ok(
            ResolvedElement {
                element: resolved.elements[0].clone(),
                snapshot_id: resolved.snapshot_id,
            },
        )
    } else if resolved.elements.len() == 0 {
        Err(nothing_resolved_error(command_name))
    } else {
        Err(projection::ambiguous_locator_error(command_name, args, &resolved.elements))
    }
}

proof fn visible_members(s: Seq<ElementModel>)
    ensures
        forall|e: ElementModel| #[trigger] ranking::visible(s).contains(e) ==> s.contains(e),
    decreases s.len(),
{
    if s.len() > 0 {
        visible_members(s.drop_last());
        assert forall|e: ElementModel| #[trigger] ranking::visible(s).contains(e) implies
            s.contains(e) by {
            let v = ranking::visible(s);
            let front = ranking::visible(s.drop_last());
            let i = choose|i: int| 0 <= i < v.len() && v[i] == e;
            if i < front.len() {
                assert(front[i] == e);
                assert(front.contains(e));
                let j = choose|j: int| 0 <= j < s.drop_last().len() && s.drop_last()[j] == e;
                assert(s[j] == e);
            } else {
                assert(s[s.len() - 1] == e);
            }
        }
    }
}

/// Ranking and selection invent no element, and a selection leaves at most one.
pub proof fn disambiguation_only_narrows(
    s: Seq<ElementModel>,
    p: (LocatorModel, LocatorRankingPolicy),
    args: JsonModel,
)
    requires
        disambiguated(s, p, args) is Ok,
    ensures
        forall|e: ElementModel| #[trigger]
            disambiguated(s, p, args)->Ok_0.contains(e) ==> s.contains(e),
        locator::selection_of(p.0) is Some ==> disambiguated(s, p, args)->Ok_0.len() <= 1,
{
    let kept = before_hit_test(p.1, s);
    visible_members(s);
    ranking::ranked_members(kept, true);
    ranking::ranked_members(kept, p.1.prefer_enabled);
    assert forall|e: ElementModel| #[trigger]
        disambiguated(s, p, args)->Ok_0.contains(e) implies s.contains(e) by {
        if locator::selection_of(p.0) is Some && kept.len() > 0 {
            let ordered = ranking::ranked(kept, p.1.prefer_enabled);
            ranking::ranked_is_a_stable_sort(kept, p.1.prefer_enabled);
            let one = picked(ordered, locator::selection_of(p.0)->0)->0;
            assert(ordered.contains(one));
            assert(kept.contains(one));
            assert(disambiguated(s, p, args)->Ok_0 == seq![one]);
            assert(e == one);
        }
    }
}

/// With `prefer_enabled`, the first match is blocked only where every match is.
pub proof fn enabled_matches_come_first(
    s: Seq<ElementModel>,
    p: (LocatorModel, LocatorRankingPolicy),
    args: JsonModel,
)
    requires
        p.1.prefer_enabled,
        locator::selection_of(p.0) == Some(LocatorSelection::First),
        before_hit_test(p.1, s).len() > 0,
    ensures
        disambiguated(s, p, args) is Ok,
        disambiguated(s, p, args)->Ok_0.len() == 1,
        forall|e: ElementModel| #[trigger]
            before_hit_test(p.1, s).contains(e) ==> ranking::rank(
                disambiguated(s, p, args)->Ok_0[0],
                true,
            ) <= ranking::rank(e, true),
{
    let kept = before_hit_test(p.1, s);
    let ordered = ranking::ranked(kept, true);
    ranking::ranked_is_a_stable_sort(kept, true);
    ranking::ranked_members(kept, true);
    assert forall|e: ElementModel| #[trigger] kept.contains(e) implies ranking::rank(
        ordered[0],
        true,
    ) <= ranking::rank(e, true) by {
        assert(ordered.contains(e));
        let i = choose|i: int| 0 <= i < ordered.len() && ordered[i] == e;
        assert(ranking::in_order(ordered, true));
    }
}

proof fn visible_push(s: Seq<ElementModel>)
    ensures
        forall|i: int|
            0 <= i < ranking::visible(s).len() ==> crate::element_semantics::visible_bbox(
                (#[trigger] ranking::visible(s)[i]).bounding_box,
            ),
    decreases s.len(),
{
    if s.len() > 0 {
        visible_push(s.drop_last());
    }
}

/// With `visible`, only elements with an area on the page are asked about or
/// resolved.
pub proof fn visible_ranking_is_kept(
    s: Seq<ElementModel>,
    p: (LocatorModel, LocatorRankingPolicy),
    args: JsonModel,
)
    requires
        p.1.visible,
        disambiguated(s, p, args) is Ok,
    ensures
        forall|e: ElementModel| #[trigger]
            before_hit_test(p.1, s).contains(e) ==> crate::element_semantics::visible_bbox(
                e.bounding_box,
            ),
        forall|e: ElementModel| #[trigger]
            disambiguated(s, p, args)->Ok_0.contains(e)
                ==> crate::element_semantics::visible_bbox(e.bounding_box),
{
    let kept = before_hit_test(p.1, s);
    visible_push(s);
    assert forall|e: ElementModel| #[trigger]
        disambiguated(s, p, args)->Ok_0.contains(e) implies kept.contains(e) by {
        ranking::ranked_members(kept, true);
        ranking::ranked_members(kept, p.1.prefer_enabled);
        if locator::selection_of(p.0) is Some && kept.len() > 0 {
            let ordered = ranking::ranked(kept, p.1.prefer_enabled);
            ranking::ranked_is_a_stable_sort(kept, p.1.prefer_enabled);
            let one = picked(ordered, locator::selection_of(p.0)->0)->0;
            assert(ordered.contains(one));
            assert(disambiguated(s, p, args)->Ok_0 == seq![one]);
            assert(e == one);
        }
    }
}

/// Remembering changes no answer: the matches that a locator found in a
/// snapshot, remembered and looked for in that snapshot, are restored as they
/// were.
pub proof fn remembering_changes_no_answer(
    p: ParsedLocator,
    snapshot: Snapshot,
    found: Seq<ElementModel>,
)
    requires
        memo::addressable(model::element_models(snapshot.elements@)),
        candidates(snapshot, p.locator@) == Ok::<CandidatesModel, ErrorModel>(
            CandidatesModel::Found(found),
        ),
        memo::recorded(p, snapshot, found) is Some,
    ensures
        memo::restored(p, snapshot, Some((memo::recorded(p, snapshot, found)->0).1)) == Some(found),
{
    if let LocatorModel::TargetText(query, selection) = p.locator@ {
        memo::memo_round_trip(model::element_models(snapshot.elements@), query, selection);
    }
}

/// The first match is one that no other comes before, and the last one that no
/// other comes after. Matches go by their number; with `prefer_enabled` those that
/// are disabled or cannot be written to go behind the others.
pub proof fn first_and_last_are_the_ends_of_the_order(
    s: Seq<ElementModel>,
    p: (LocatorModel, LocatorRankingPolicy),
    args: JsonModel,
)
    requires
        before_hit_test(p.1, s).len() > 0,
        locator::selection_of(p.0) == Some(LocatorSelection::First) || locator::selection_of(p.0)
            == Some(LocatorSelection::Last),
    ensures
        ({
            let kept = before_hit_test(p.1, s);
            let r = disambiguated(s, p, args);
            &&& r matches Ok(chosen)
            &&& chosen.len() == 1
            &&& kept.contains(chosen[0])
            &&& forall|e: ElementModel| #[trigger]
                kept.contains(e) ==> {
                    let (low, high) = if locator::selection_of(p.0) == Some(
                        LocatorSelection::Last,
                    ) {
                        (e, chosen[0])
                    } else {
                        (chosen[0], e)
                    };
                    let blocked_low = p.1.prefer_enabled && (semantics::disabled(low)
                        || semantics::readonly(low));
                    let blocked_high = p.1.prefer_enabled && (semantics::disabled(high)
                        || semantics::readonly(high));
                    &&& blocked_low ==> blocked_high
                    &&& blocked_low == blocked_high ==> low.index <= high.index
                }
        }),
{
    let kept = before_hit_test(p.1, s);
    let demote = p.1.prefer_enabled;
    let ordered = ranking::ranked(kept, demote);
    ranking::ranked_is_a_stable_sort(kept, demote);
    ranking::ranked_members(kept, demote);
    let last = locator::selection_of(p.0) == Some(LocatorSelection::Last);
    let at = if last {
        ordered.len() - 1
    } else {
        0
    };
    let one = ordered[at];
    assert(ordered.contains(one));
    assert(disambiguated(s, p, args) == Ok::<Seq<ElementModel>, ErrorModel>(seq![one]));
    assert forall|e: ElementModel| #[trigger] kept.contains(e) implies {
        let (low, high) = if last {
            (e, one)
        } else {
            (one, e)
        };
        ranking::rank(low, demote) <= ranking::rank(high, demote)
    } by {
        assert(ordered.contains(e));
        let i = choose|i: int| 0 <= i < ordered.len() && ordered[i] == e;
        assert(ranking::in_order(ordered, demote));
        if i != at {
            assert(ranking::rank(ordered[i], demote) <= ranking::rank(ordered[at], demote)
                || ranking::rank(ordered[at], demote) <= ranking::rank(ordered[i], demote));
        }
    }
}

/// A numbered selection has exactly as many matches before it as its number says,
/// counted from zero: those that rank lower, and of those that rank alike the ones
/// that were found before it. A number that is not below the number of matches
/// picks nothing and is an error.
pub proof fn numbered_matches_have_that_many_before_them(
    s: Seq<ElementModel>,
    p: (LocatorModel, LocatorRankingPolicy),
    args: JsonModel,
    n: u32,
)
    requires
        locator::selection_of(p.0) == Some(LocatorSelection::Nth(n)),
        before_hit_test(p.1, s).len() > 0,
    ensures
        ({
            let kept = before_hit_test(p.1, s);
            let r = disambiguated(s, p, args);
            &&& r is Ok <==> n < kept.len()
            &&& r matches Err(ErrorModel::Domain(e)) ==> e.code == ErrorCode::ElementNotFound
            &&& r matches Ok(chosen) ==> {
                let one = chosen[0];
                let k = ranking::rank(one, p.1.prefer_enabled);
                let alike = ranking::at_rank(kept, p.1.prefer_enabled, k);
                let j = n - ranking::below(kept, p.1.prefer_enabled, k);
                &&& chosen.len() == 1
                &&& kept.contains(one)
                &&& 0 <= j < alike.len()
                &&& alike[j] == one
            }
        }),
{
    let kept = before_hit_test(p.1, s);
    ranking::ranked_is_a_stable_sort(kept, p.1.prefer_enabled);
    if n < kept.len() {
        ranking::places_count_what_comes_before(kept, p.1.prefer_enabled, n as int);
    }
}

/// The first match is the one numbered zero, and the last the one numbered one
/// less than there are matches.
pub proof fn first_and_last_are_numbered(s: Seq<ElementModel>, n: u32)
    ensures
        picked(s, LocatorSelection::First) == picked(s, LocatorSelection::Nth(0)),
        s.len() == n + 1 ==> picked(s, LocatorSelection::Last) == picked(
            s,
            LocatorSelection::Nth(n),
        ),
        picked(s, LocatorSelection::Nth(n)) is Some <==> n < s.len(),
{
}

/// Without a selection all matches are kept, each as often as it was found.
pub proof fn without_a_selection_all_matches_stay(
    s: Seq<ElementModel>,
    p: (LocatorModel, LocatorRankingPolicy),
    args: JsonModel,
)
    requires
        locator::selection_of(p.0) is None,
    ensures
        disambiguated(s, p, args) is Ok,
        disambiguated(s, p, args)->Ok_0.to_multiset() == before_hit_test(p.1, s).to_multiset(),
        !p.1.prefer_enabled ==> disambiguated(s, p, args)->Ok_0 == before_hit_test(p.1, s),
        !p.1.visible ==> before_hit_test(p.1, s) == s,
        !p.1.visible && !p.1.prefer_enabled ==> disambiguated(s, p, args)->Ok_0 == s,
        forall|e: ElementModel| #[trigger]
            before_hit_test(p.1, s).contains(e) <==> s.contains(e) && (p.1.visible
                ==> semantics::visible_bbox(e.bounding_box)),
{
    ranking::ranked_is_a_stable_sort(before_hit_test(p.1, s), true);
    visible_are_all_with_an_area(s);
}

proof fn visible_are_all_with_an_area(s: Seq<ElementModel>)
    ensures
        forall|e: ElementModel| #[trigger]
            ranking::visible(s).contains(e) <==> s.contains(e) && semantics::visible_bbox(
                e.bounding_box,
            ),
{
    visible_members(s);
    visible_push(s);
    assert forall|e: ElementModel| s.contains(e) && semantics::visible_bbox(
        e.bounding_box,
    ) implies #[trigger] ranking::visible(s).contains(e) by {
        let i = choose|i: int| 0 <= i < s.len() && s[i] == e;
        ranking::visible_keeps_what_has_an_area(s.take(i), seq![e]);
        ranking::visible_keeps_what_has_an_area(s.take(i) + seq![e], s.skip(i + 1));
        assert(s.take(i) + seq![e] + s.skip(i + 1) =~= s);
        let at = ranking::visible(s.take(i)).len() as int;
        assert(ranking::visible(s)[at] == e);
    }
}

/// A command that needs one element gets it exactly where there is one.
pub proof fn one_element_is_owed_to_one_match(
    s: Seq<ElementModel>,
    args: JsonModel,
    command_name: Seq<char>,
)
    ensures
        single(s, args, command_name) is Ok <==> s.len() == 1,
        s.len() == 1 ==> single(s, args, command_name)->Ok_0 == s[0],
        s.len() == 0 ==> (single(s, args, command_name) matches Err(ErrorModel::Domain(e))
            && e.code == ErrorCode::ElementNotFound),
        s.len() > 1 ==> (single(s, args, command_name) matches Err(ErrorModel::Domain(e))
            && e.code == ErrorCode::InvalidInput),
{
}

/// A number names the first element that has it, and no other.
pub proof fn numbers_name_their_first_element(s: Seq<ElementModel>, index: u32)
    ensures
        match with_index(s, index) {
            Some(e) => exists|i: int| #![trigger s[i]]
                0 <= i < s.len() && s[i] == e && e.index == index && forall|j: int|
                    0 <= j < i ==> (#[trigger] s[j]).index != index,
            None => forall|i: int| 0 <= i < s.len() ==> (#[trigger] s[i]).index != index,
        },
    decreases s.len(),
{
    if s.len() > 0 {
        let front = s.drop_last();
        numbers_name_their_first_element(front, index);
        match with_index(front, index) {
            Some(e) => {
                let i = choose|i: int| #![trigger front[i]]
                    0 <= i < front.len() && front[i] == e && e.index == index && forall|j: int|
                        0 <= j < i ==> (#[trigger] front[j]).index != index;
                assert(s[i] == e);
                assert forall|j: int| 0 <= j < i implies (#[trigger] s[j]).index != index by {
                    assert(front[j] == s[j]);
                }
            },
            None => {
                assert forall|j: int| 0 <= j < front.len() implies (#[trigger] s[j]).index
                    != index by {
                    assert(front[j] == s[j]);
                }
                assert(s[s.len() - 1] == s.last());
            },
        }
    }
}

/// A reference names all elements that have it and no other, in the order of the
/// snapshot.
pub proof fn references_name_all_their_elements(
    s: Seq<ElementModel>,
    t: Seq<ElementModel>,
    element_ref: Seq<char>,
)
    ensures
        with_ref(s + t, element_ref) == with_ref(s, element_ref) + with_ref(t, element_ref),
        forall|e: ElementModel| #[trigger]
            with_ref(seq![e], element_ref) == if e.element_ref == Some(element_ref) {
                seq![e]
            } else {
                seq![]
            },
    decreases t.len(),
{
    if t.len() == 0 {
        assert(s + t =~= s);
        assert(with_ref(s, element_ref) + with_ref(t, element_ref) =~= with_ref(s, element_ref));
    } else {
        references_name_all_their_elements(s, t.drop_last(), element_ref);
        assert((s + t).drop_last() =~= s + t.drop_last());
        assert((s + t).last() == t.last());
        assert(with_ref(s + t, element_ref) =~= with_ref(s, element_ref) + with_ref(
            t,
            element_ref,
        ));
    }
    assert forall|e: ElementModel| #[trigger]
        with_ref(seq![e], element_ref) == if e.element_ref == Some(element_ref) {
            seq![e]
        } else {
            seq![]
        } by {
        let none = Seq::<ElementModel>::empty();
        assert(seq![e].drop_last() =~= none);
        assert(with_ref(none, element_ref) =~= none);
        assert(with_ref(seq![e], element_ref) =~= if e.element_ref == Some(element_ref) {
            seq![e]
        } else {
            seq![]
        });
    }
}

/// A locator that resolves ends with at least one element, and one that names
/// none of the matches is answered by an error; with `topmost` nothing is settled
/// before the page was asked about the matches that remain.
pub proof fn resolving_ends_with_elements(
    s: Seq<ElementModel>,
    p: (LocatorModel, LocatorRankingPolicy),
    args: JsonModel,
    snapshot_id: Seq<char>,
    command_name: Seq<char>,
)
    ensures
        ({
            let r = after_matches(s, p, args, snapshot_id, command_name);
            &&& p.1.topmost ==> r == Ok::<StepModel, ErrorModel>(
                StepModel::HitTest(before_hit_test(p.1, s)),
            )
            &&& !p.1.topmost ==> match disambiguated(s, p, args) {
                Ok(chosen) => if chosen.len() > 0 {
                    r == Ok::<StepModel, ErrorModel>(StepModel::Done(chosen, snapshot_id))
                } else {
                    r matches Err(ErrorModel::Domain(e)) && e.code == ErrorCode::ElementNotFound
                },
                Err(e) => r == Err::<StepModel, ErrorModel>(e),
            }
        }),
{
}

/// What a locator is looked for by: a number names one element, a reference is
/// only looked for where the references are certain, a selector is left to the
/// page, and a locator that goes by meaning finds something or is an error.
pub proof fn locators_find_or_fail(snapshot: Snapshot, l: LocatorModel)
    ensures
        ({
            let r = candidates(snapshot, l);
            let all = model::element_models(snapshot.elements@);
            &&& l matches LocatorModel::Index(index) ==> match with_index(all, index) {
                Some(e) => r == Ok::<CandidatesModel, ErrorModel>(CandidatesModel::Found(seq![e])),
                None => r matches Err(ErrorModel::Domain(e)) && e.code
                    == ErrorCode::ElementNotFound,
            }
            &&& l matches LocatorModel::Ref(x) ==> if snapshot.projection.verified {
                r == Ok::<CandidatesModel, ErrorModel>(CandidatesModel::Found(with_ref(all, x)))
            } else {
                r matches Err(ErrorModel::Domain(e)) && e.code == ErrorCode::StaleSnapshot
            }
            &&& l matches LocatorModel::Selector(css, _) ==> r == Ok::<
                CandidatesModel,
                ErrorModel,
            >(CandidatesModel::Probe(css))
            &&& r matches Ok(CandidatesModel::Found(found)) ==> l is Ref || found.len() > 0
            &&& r matches Ok(CandidatesModel::Probe(_)) ==> l is Selector
        }),
{
}

/// The ranking of a request is the one that its flags ask for.
pub proof fn rankings_are_read_from_their_flags(args: JsonModel)
    ensures
        requested_ranking(args).visible <==> json::member(args, "visible"@) == Some(
            JsonModel::Bool(true),
        ),
        requested_ranking(args).prefer_enabled <==> json::member(args, "prefer_enabled"@) == Some(
            JsonModel::Bool(true),
        ),
        requested_ranking(args).topmost <==> json::member(args, "topmost"@) == Some(
            JsonModel::Bool(true),
        ),
{
}

/// A selection out of range, a locator without a match and a reference that is not certain
/// are told as such.
pub proof fn unresolved_locators_are_told(
    args: JsonModel,
    ranking: LocatorRankingPolicy,
    selection: LocatorSelection,
    command_name: Seq<char>,
    s: Snapshot,
    element_ref: Seq<char>,
)
    ensures
        ({
            &&& nothing_picked(args, ranking, selection) matches ErrorModel::Domain(e)
            &&& e.code == ErrorCode::ElementNotFound
            &&& e.context matches Some(c)
            &&& json::member(c, "locator"@) == Some(projection::locator_json_of(args))
            &&& json::member(c, "selection"@) == Some(projection::selection_json(selection))
            &&& json::member(c, "ranking_policy"@) == Some(memo::ranking_json(ranking))
        }),
        ({
            &&& uncertain_ref(s, element_ref) matches ErrorModel::Domain(e)
            &&& e.code == ErrorCode::StaleSnapshot
            &&& e.context matches Some(c)
            &&& json::member(c, "snapshot_id"@) == Some(JsonModel::Text(s.snapshot_id@))
            &&& json::member(c, "element_ref"@) == Some(JsonModel::Text(element_ref))
            &&& json::member(c, "reason"@) == Some(
                JsonModel::Text("snapshot_ref_authority_unavailable"@),
            )
        }),
        nothing_resolved(command_name) matches ErrorModel::Domain(e) && e.code
            == ErrorCode::ElementNotFound,
        ({
            let r = memo::ranking_json(ranking);
            &&& json::member(r, "visible"@) == Some(JsonModel::Bool(ranking.visible))
            &&& json::member(r, "prefer_enabled"@) == Some(JsonModel::Bool(ranking.prefer_enabled))
            &&& json::member(r, "topmost"@) == Some(JsonModel::Bool(ranking.topmost))
        }),
{
    reveal_strlit("locator");
    reveal_strlit("ranking_policy");
    reveal_strlit("selection");
    assert("locator"@.len() != "ranking_policy"@.len());
    assert("locator"@.len() != "selection"@.len());
    assert("ranking_policy"@.len() != "selection"@.len());
    reveal_strlit("snapshot_id");
    reveal_strlit("element_ref");
    reveal_strlit("reason");
    assert("snapshot_id"@[0] != "element_ref"@[0]);
    assert("snapshot_id"@.len() != "reason"@.len());
    assert("element_ref"@.len() != "reason"@.len());
    reveal_strlit("visible");
    reveal_strlit("prefer_enabled");
    reveal_strlit("topmost");
    assert("visible"@.len() != "prefer_enabled"@.len());
    assert("visible"@[0] != "topmost"@[0]);
    assert("prefer_enabled"@.len() != "topmost"@.len());
}

} // verus!
