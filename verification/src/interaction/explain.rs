//! Why an element can or cannot be acted on, and what to do about it.

pub mod hints;
pub mod probe;
pub mod target;

use vstd::prelude::*;
use crate::error::{self, EnvelopeModel, ErrorCode, ErrorEnvelope, ErrorModel, RubError};
use crate::json::{self, Json, JsonModel, JsonObject};
use crate::model::{
    Element,
    ElementModel,
    InterferenceKind,
    InterferenceRuntimeInfo,
    InterferenceRuntimeStatus,
    OverlayState,
    ReadinessInfo,
    ReadinessStatus,
    RouteStability,
};
use crate::text;

verus! {

/// Something that keeps a target from being acted on.
#[derive(Debug)]
pub struct BlockerDetail {
    pub code: String,
    pub surface: String,
    pub summary: String,
    pub recommended_command: Option<String>,
}

/// What a blocker says.
#[verifier::ext_equal]
pub struct BlockerModel {
    pub code: Seq<char>,
    pub surface: Seq<char>,
    pub summary: Seq<char>,
    pub recommended_command: Option<Seq<char>>,
}

impl View for BlockerDetail {
    type V = BlockerModel;

    open spec fn view(&self) -> BlockerModel {
        BlockerModel {
            code: self.code@,
            surface: self.surface@,
            summary: self.summary@,
            recommended_command: text::opt_text(self.recommended_command),
        }
    }
}

pub open spec fn blocker_models(v: Seq<BlockerDetail>) -> Seq<BlockerModel> {
    v.map_values(|b: BlockerDetail| b@)
}

/// Whether a target can be acted on, and what stands against it.
#[derive(Debug)]
pub struct InteractabilityAssessment {
    pub likely_interactable: bool,
    pub blockers: Vec<String>,
    pub blocker_details: Vec<BlockerDetail>,
    pub summary: String,
    pub next_safe_actions: Vec<String>,
}

/// What an assessment says.
#[verifier::ext_equal]
pub struct AssessmentModel {
    pub likely_interactable: bool,
    pub blockers: Seq<Seq<char>>,
    pub blocker_details: Seq<BlockerModel>,
    pub summary: Seq<char>,
    pub next_safe_actions: Seq<Seq<char>>,
}

impl View for InteractabilityAssessment {
    type V = AssessmentModel;

    open spec fn view(&self) -> AssessmentModel {
        AssessmentModel {
            likely_interactable: self.likely_interactable,
            blockers: text::texts(self.blockers@),
            blocker_details: blocker_models(self.blocker_details@),
            summary: self.summary@,
            next_safe_actions: text::texts(self.next_safe_actions@),
        }
    }
}

/// The name of a kind of interference.
pub open spec fn kind_name(kind: InterferenceKind) -> Seq<char> {
    match kind {
        InterferenceKind::InterstitialNavigation => "interstitial_navigation"@,
        InterferenceKind::PopupHijack => "popup_hijack"@,
        InterferenceKind::OverlayInterference => "overlay_interference"@,
        InterferenceKind::ThirdPartyNoise => "third_party_noise"@,
        InterferenceKind::HumanVerificationRequired => "human_verification_required"@,
        InterferenceKind::UnknownNavigationDrift => "unknown_navigation_drift"@,
    }
}

pub fn interactability_interference_kind_name(kind: InterferenceKind) -> (r: &'static str)
    ensures
        r@ == kind_name(kind),
{
    match kind {
        InterferenceKind::InterstitialNavigation => "interstitial_navigation",
        InterferenceKind::PopupHijack => "popup_hijack",
        InterferenceKind::OverlayInterference => "overlay_interference",
        InterferenceKind::ThirdPartyNoise => "third_party_noise",
        InterferenceKind::HumanVerificationRequired => "human_verification_required",
        InterferenceKind::UnknownNavigationDrift => "unknown_navigation_drift",
    }
}

pub open spec fn blocker(
    code: Seq<char>,
    surface: Seq<char>,
    summary: Seq<char>,
    command: Option<Seq<char>>,
) -> BlockerModel {
    BlockerModel { code, surface, summary, recommended_command: command }
}

pub fn interactability_blocker_detail(
    code: &str,
    surface: &str,
    summary: &str,
    recommended_command: Option<&str>,
) -> (r: BlockerDetail)
    ensures
        r@ == blocker(code@, surface@, summary@, json::opt_str_text(recommended_command)),
{
    BlockerDetail {
        code: code.to_owned(),
        surface: surface.to_owned(),
        summary: summary.to_owned(),
        recommended_command: match recommended_command {
            Some(command) => Some(command.to_owned()),
            None => None,
        },
    }
}

/// `blockers`, with one more at the end where `found` holds.
pub open spec fn blocker_if(
    blockers: Seq<BlockerModel>,
    found: bool,
    one: BlockerModel,
) -> Seq<BlockerModel> {
    if found {
        blockers.push(one)
    } else {
        blockers
    }
}

/// The command that deals with a kind of interference.
pub open spec fn interference_command(kind: InterferenceKind) -> Seq<char> {
    match kind {
        InterferenceKind::OverlayInterference => "rub interference recover"@,
        InterferenceKind::HumanVerificationRequired => "rub handoff start"@,
        _ => "rub runtime interference"@,
    }
}

pub open spec fn interference_blocker(kind: InterferenceKind) -> BlockerModel {
    blocker(
        "interference:"@ + kind_name(kind),
        "runtime.interference"@,
        "Current runtime interference suggests this target is blocked by "@ + kind_name(kind)
            + "."@,
        Some(interference_command(kind)),
    )
}

/// What on the element itself keeps it from being acted on.
pub open spec fn element_blockers(element: ElementModel) -> Seq<BlockerModel> {
    let b = blocker_if(
        seq![],
        target::disabled(element),
        blocker(
            "disabled_element"@,
            "interactive_snapshot"@,
            "Target is explicitly disabled in the authoritative snapshot."@,
            None,
        ),
    );
    blocker_if(
        b,
        target::aria_disabled(element),
        blocker(
            "aria_disabled"@,
            "interactive_snapshot"@,
            "Target is marked aria-disabled in the authoritative snapshot."@,
            None,
        ),
    )
}

/// `blockers` followed by what the page's readiness says against acting.
pub open spec fn readiness_blockers(
    blockers: Seq<BlockerModel>,
    readiness: ReadinessInfo,
) -> Seq<BlockerModel> {
    let b = blocker_if(
        blockers,
        readiness.overlay_state != OverlayState::Absent,
        blocker(
            "overlay_present"@,
            "runtime.readiness"@,
            "Readiness reports an overlay-related blocker on the page."@,
            Some("rub runtime readiness"@),
        ),
    );
    let b = blocker_if(
        b,
        readiness.route_stability == RouteStability::Transitioning,
        blocker(
            "route_transitioning"@,
            "runtime.readiness"@,
            "The page is still transitioning, so actuation timing is not yet stable."@,
            Some("rub runtime readiness"@),
        ),
    );
    let b = blocker_if(
        b,
        readiness.loading_present,
        blocker(
            "loading_present"@,
            "runtime.readiness"@,
            "Readiness still reports active loading indicators on the page."@,
            Some("rub runtime readiness"@),
        ),
    );
    let b = blocker_if(
        b,
        readiness.skeleton_present,
        blocker(
            "skeleton_present"@,
            "runtime.readiness"@,
            "Skeleton placeholders are still present, so the actionable surface may not be final."@,
            Some("rub runtime readiness"@),
        ),
    );
    blocker_if(
        b,
        readiness.status == ReadinessStatus::Degraded,
        blocker(
            "readiness_degraded"@,
            "runtime.readiness"@,
            "The readiness surface is degraded, so live blocker projection is not fully authoritative."@,
            Some("rub runtime readiness"@),
        ),
    )
}

/// `blockers` followed by what interferes with automation.
pub open spec fn interference_blockers(
    blockers: Seq<BlockerModel>,
    interference: InterferenceRuntimeInfo,
) -> Seq<BlockerModel> {
    let b = match interference.current_interference {
        Some(current) => blockers.push(interference_blocker(current.kind)),
        None => blockers,
    };
    let b = blocker_if(
        b,
        interference.handoff_required,
        blocker(
            "handoff_required"@,
            "runtime.interference"@,
            "The runtime currently requires a human-verification handoff before automation can continue."@,
            Some("rub handoff start"@),
        ),
    );
    blocker_if(
        b,
        interference.status == InterferenceRuntimeStatus::Degraded,
        blocker(
            "interference_degraded"@,
            "runtime.interference"@,
            "The interference surface is degraded, so blocker recovery advice may be incomplete."@,
            Some("rub runtime interference"@),
        ),
    )
}

/// All that keeps a target from being acted on.
pub open spec fn blockers_of(
    element: ElementModel,
    readiness: ReadinessInfo,
    interference: InterferenceRuntimeInfo,
) -> Seq<BlockerModel> {
    interference_blockers(readiness_blockers(element_blockers(element), readiness), interference)
}

fn push_blocker_if(
    blockers: &mut Vec<BlockerDetail>,
    found: bool,
    code: &str,
    surface: &str,
    summary: &str,
    command: Option<&str>,
)
    ensures
        blocker_models(final(blockers)@) == blocker_if(
            blocker_models(old(blockers)@),
            found,
            blocker(code@, surface@, summary@, json::opt_str_text(command)),
        ),
{
    if found {
        let one = interactability_blocker_detail(code, surface, summary, command);
        blockers.push(one);
        assert(blocker_models(blockers@) =~= blocker_models(old(blockers)@).push(one@));
    }
}

fn push_readiness_blockers(blockers: &mut Vec<BlockerDetail>, readiness: &ReadinessInfo)
    ensures
        blocker_models(final(blockers)@) == readiness_blockers(
            blocker_models(old(blockers)@),
            *readiness,
        ),
{
    push_blocker_if(
        blockers,
        !matches!(readiness.overlay_state, OverlayState::Absent),
        "overlay_present",
        "runtime.readiness",
        "Readiness reports an overlay-related blocker on the page.",
        Some("rub runtime readiness"),
    );
    push_blocker_if(
        blockers,
        matches!(readiness.route_stability, RouteStability::Transitioning),
        "route_transitioning",
        "runtime.readiness",
        "The page is still transitioning, so actuation timing is not yet stable.",
        Some("rub runtime readiness"),
    );
    push_blocker_if(
        blockers,
        readiness.loading_present,
        "loading_present",
        "runtime.readiness",
        "Readiness still reports active loading indicators on the page.",
        Some("rub runtime readiness"),
    );
    push_blocker_if(
        blockers,
        readiness.skeleton_present,
        "skeleton_present",
        "runtime.readiness",
        "Skeleton placeholders are still present, so the actionable surface may not be final.",
        Some("rub runtime readiness"),
    );
    push_blocker_if(
        blockers,
        matches!(readiness.status, ReadinessStatus::Degraded),
        "readiness_degraded",
        "runtime.readiness",
        "The readiness surface is degraded, so live blocker projection is not fully authoritative.",
        Some("rub runtime readiness"),
    );
}

fn push_interference_blockers(
    blockers: &mut Vec<BlockerDetail>,
    interference: &InterferenceRuntimeInfo,
)
    ensures
        blocker_models(final(blockers)@) == interference_blockers(
            blocker_models(old(blockers)@),
            *interference,
        ),
{
    if let Some(current) = &interference.current_interference {
        let name = interactability_interference_kind_name(current.kind);
        let code = text::cat2("interference:", name);
        let summary = text::cat3(
            "Current runtime interference suggests this target is blocked by ",
            name,
            ".",
        );
        let command = match current.kind {
            InterferenceKind::OverlayInterference => "rub interference recover",
            InterferenceKind::HumanVerificationRequired => "rub handoff start",
            _ => "rub runtime interference",
        };
        push_blocker_if(
            blockers,
            true,
            code.as_str(),
            "runtime.interference",
            summary.as_str(),
            Some(command),
        );
    }
    push_blocker_if(
        blockers,
        interference.handoff_required,
        "handoff_required",
        "runtime.interference",
        "The runtime currently requires a human-verification handoff before automation can continue.",
        Some("rub handoff start"),
    );
    push_blocker_if(
        blockers,
        matches!(interference.status, InterferenceRuntimeStatus::Degraded),
        "interference_degraded",
        "runtime.interference",
        "The interference surface is degraded, so blocker recovery advice may be incomplete.",
        Some("rub runtime interference"),
    );
}

/// All that keeps a target from being acted on: what is on the element first,
/// then what its page is going through.
pub fn interactability_blocker_details(
    element: &Element,
    readiness: &ReadinessInfo,
    interference: &InterferenceRuntimeInfo,
) -> (r: Vec<BlockerDetail>)
    ensures
        blocker_models(r@) == blockers_of(element@, *readiness, *interference),
{
    let mut details: Vec<BlockerDetail> = Vec::new();
    assert(blocker_models(details@) =~= seq![]);
    push_blocker_if(
        &mut details,
        target::is_disabled(element),
        "disabled_element",
        "interactive_snapshot",
        "Target is explicitly disabled in the authoritative snapshot.",
        None,
    );
    push_blocker_if(
        &mut details,
        target::is_aria_disabled(element),
        "aria_disabled",
        "interactive_snapshot",
        "Target is marked aria-disabled in the authoritative snapshot.",
        None,
    );
    push_readiness_blockers(&mut details, readiness);
    push_interference_blockers(&mut details, interference);
    details
}

/// The assessment in one sentence: the gravest blocker, the target's own first.
pub open spec fn summary_of(
    likely_interactable: bool,
    readiness: ReadinessInfo,
    interference: InterferenceRuntimeInfo,
    element: ElementModel,
) -> Seq<char> {
    if likely_interactable {
        "No authoritative disabled-state or ambient blocker is currently projected for this target."@
    } else if target::disabled(element) {
        "Target is explicitly disabled in the authoritative snapshot."@
    } else if target::aria_disabled(element) {
        "Target is marked aria-disabled in the authoritative snapshot."@
    } else if interference.current_interference is Some {
        "Current runtime interference suggests this target is blocked by "@ + kind_name(
            interference.current_interference->0.kind,
        ) + "."@
    } else if readiness.overlay_state != OverlayState::Absent {
        "Readiness reports an overlay-related blocker on the page."@
    } else if readiness.route_stability == RouteStability::Transitioning {
        "Readiness reports that the page is still transitioning."@
    } else {
        "Interactability is not yet safe because the authoritative runtime still reports blocker signals."@
    }
}

pub fn interactability_summary(
    likely_interactable: bool,
    readiness: &ReadinessInfo,
    interference: &InterferenceRuntimeInfo,
    element: &Element,
) -> (r: String)
    ensures
        r@ == summary_of(likely_interactable, *readiness, *interference, element@),
{
    if likely_interactable {
        return "No authoritative disabled-state or ambient blocker is currently projected for this target.".to_owned();
    }
    if target::is_disabled(element) {
        return "Target is explicitly disabled in the authoritative snapshot.".to_owned();
    }
    if target::is_aria_disabled(element) {
        return "Target is marked aria-disabled in the authoritative snapshot.".to_owned();
    }
    if let Some(current) = &interference.current_interference {
        return text::cat3(
            "Current runtime interference suggests this target is blocked by ",
            interactability_interference_kind_name(current.kind),
            ".",
        );
    }
    if !matches!(readiness.overlay_state, OverlayState::Absent) {
        return "Readiness reports an overlay-related blocker on the page.".to_owned();
    }
    if matches!(readiness.route_stability, RouteStability::Transitioning) {
        return "Readiness reports that the page is still transitioning.".to_owned();
    }
    "Interactability is not yet safe because the authoritative runtime still reports blocker signals.".to_owned()
}

pub open spec fn action_if(actions: Seq<Seq<char>>, found: bool, action: Seq<char>) -> Seq<
    Seq<char>,
> {
    if found {
        actions.push(action)
    } else {
        actions
    }
}

/// What can safely be done next, in the order in which to try it.
pub open spec fn next_actions_of(
    likely_interactable: bool,
    readiness: ReadinessInfo,
    interference: InterferenceRuntimeInfo,
    element: ElementModel,
) -> Seq<Seq<char>> {
    if likely_interactable {
        seq![
            "Try the intended interaction directly; there are no current runtime blockers."@,
            "If actuation still fails, compare with `rub explain locator ...` to confirm the exact target."@,
        ]
    } else {
        let kind = interference.current_interference;
        let a = action_if(
            seq![],
            target::disabled(element) || target::aria_disabled(element),
            "Wait for the control to become enabled, or choose a different actionable target."@,
        );
        let a = action_if(
            a,
            readiness.overlay_state != OverlayState::Absent,
            "Dismiss or accept the blocking overlay, then retry the interaction."@,
        );
        let a = action_if(
            a,
            readiness.overlay_state != OverlayState::Absent,
            "Run `rub runtime readiness` to inspect `overlay_state` and `blocking_signals` directly."@,
        );
        let a = action_if(
            a,
            kind is Some && kind->0.kind == InterferenceKind::OverlayInterference,
            "Run `rub interference recover` if you want the canonical overlay recovery path."@,
        );
        let a = action_if(
            a,
            kind is Some && kind->0.kind == InterferenceKind::HumanVerificationRequired,
            "Start a handoff if human verification is required before continuing."@,
        );
        let a = action_if(
            a,
            readiness.route_stability == RouteStability::Transitioning
                || readiness.loading_present || readiness.skeleton_present,
            "Wait for route/loading blockers to clear before retrying the interaction."@,
        );
        a.push(
            "Use `rub explain locator ...` if you still need to confirm that the intended candidate is the one being targeted."@,
        )
    }
}

fn push_action_if(actions: &mut Vec<String>, found: bool, action: &str)
    ensures
        text::texts(final(actions)@) == action_if(text::texts(old(actions)@), found, action@),
{
    if found {
        actions.push(action.to_owned());
        assert(text::texts(actions@) =~= text::texts(old(actions)@).push(action@));
    }
}

pub fn interactability_next_actions(
    likely_interactable: bool,
    readiness: &ReadinessInfo,
    interference: &InterferenceRuntimeInfo,
    element: &Element,
) -> (r: Vec<String>)
    ensures
        text::texts(r@) == next_actions_of(
            likely_interactable,
            *readiness,
            *interference,
            element@,
        ),
{
    let mut actions: Vec<String> = Vec::new();
    assert(text::texts(actions@) =~= seq![]);
    if likely_interactable {
        push_action_if(
            &mut actions,
            true,
            "Try the intended interaction directly; there are no current runtime blockers.",
        );
        push_action_if(
            &mut actions,
            true,
            "If actuation still fails, compare with `rub explain locator ...` to confirm the exact target.",
        );
        assert(text::texts(actions@) =~= next_actions_of(
            likely_interactable,
            *readiness,
            *interference,
            element@,
        ));
        return actions;
    }
    push_action_if(
        &mut actions,
        target::is_disabled(element) || target::is_aria_disabled(element),
        "Wait for the control to become enabled, or choose a different actionable target.",
    );
    let overlay = !matches!(readiness.overlay_state, OverlayState::Absent);
    push_action_if(
        &mut actions,
        overlay,
        "Dismiss or accept the blocking overlay, then retry the interaction.",
    );
    push_action_if(
        &mut actions,
        overlay,
        "Run `rub runtime readiness` to inspect `overlay_state` and `blocking_signals` directly.",
    );
    let (by_overlay, by_human) = match &interference.current_interference {
        Some(current) => (
            matches!(current.kind, InterferenceKind::OverlayInterference),
            matches!(current.kind, InterferenceKind::HumanVerificationRequired),
        ),
        None => (false, false),
    };
    push_action_if(
        &mut actions,
        by_overlay,
        "Run `rub interference recover` if you want the canonical overlay recovery path.",
    );
    push_action_if(
        &mut actions,
        by_human,
        "Start a handoff if human verification is required before continuing.",
    );
    push_action_if(
        &mut actions,
        matches!(readiness.route_stability, RouteStability::Transitioning)
            || readiness.loading_present || readiness.skeleton_present,
        "Wait for route/loading blockers to clear before retrying the interaction.",
    );
    push_action_if(
        &mut actions,
        true,
        "Use `rub explain locator ...` if you still need to confirm that the intended candidate is the one being targeted.",
    );
    actions
}

pub open spec fn codes_of(blockers: Seq<BlockerModel>) -> Seq<Seq<char>> {
    blockers.map_values(|b: BlockerModel| b.code)
}

/// The assessment of a target.
pub open spec fn assessment_of(
    element: ElementModel,
    readiness: ReadinessInfo,
    interference: InterferenceRuntimeInfo,
) -> AssessmentModel {
    let blockers = blockers_of(element, readiness, interference);
    let free = blockers.len() == 0;
    AssessmentModel {
        likely_interactable: free,
        blockers: codes_of(blockers),
        blocker_details: blockers,
        summary: summary_of(free, readiness, interference, element),
        next_safe_actions: next_actions_of(free, readiness, interference, element),
    }
}

/// Whether a target can be acted on, and what stands against it.
pub fn interactability_assessment(
    element: &Element,
    readiness: &ReadinessInfo,
    interference: &InterferenceRuntimeInfo,
) -> (r: InteractabilityAssessment)
    ensures
        r@ == assessment_of(element@, *readiness, *interference),
{
    let blocker_details = interactability_blocker_details(element, readiness, interference);
    let mut blockers: Vec<String> = Vec::new();
    let mut i: usize = 0;
    while i < blocker_details.len()
        invariant
            i <= blocker_details@.len(),
            text::texts(blockers@) =~= codes_of(blocker_models(blocker_details@)).take(i as int),
        decreases blocker_details@.len() - i,
    {
        let code = blocker_details[i].code.clone();
        let ghost before = text::texts(blockers@);
        blockers.push(code);
        assert(text::texts(blockers@) =~= before.push(code@));
        i += 1;
    }
    let likely_interactable = blockers.len() == 0;
    let summary = interactability_summary(likely_interactable, readiness, interference, element);
    let next_safe_actions = interactability_next_actions(
        likely_interactable,
        readiness,
        interference,
        element,
    );
    assert(text::texts(blockers@) =~= codes_of(blocker_models(blocker_details@)));
    assert(blocker_models(blocker_details@).len() == blocker_details@.len());
    InteractabilityAssessment {
        likely_interactable,
        blockers,
        blocker_details,
        summary,
        next_safe_actions,
    }
}

/// The first command that a blocker recommends.
pub open spec fn first_command(blockers: Seq<BlockerModel>) -> Option<Seq<char>>
    decreases blockers.len(),
{
    if blockers.len() == 0 {
        None
    } else {
        match blockers[0].recommended_command {
            Some(command) => if command.len() > 0 {
                Some(command)
            } else {
                first_command(blockers.drop_first())
            },
            None => first_command(blockers.drop_first()),
        }
    }
}

fn first_recommended_command(details: &Vec<BlockerDetail>) -> (r: Option<&str>)
    ensures
        json::opt_str_text(r) == first_command(blocker_models(details@)),
{
    let ghost models = blocker_models(details@);
    let mut i: usize = 0;
    assert(models.skip(0) =~= models);
    while i < details.len()
        invariant
            i <= details@.len(),
            models == blocker_models(details@),
            first_command(models) == first_command(models.skip(i as int)),
        decreases details@.len() - i,
    {
        assert(models.skip(i as int).drop_first() =~= models.skip(i + 1));
        assert(models.skip(i as int)[0] == details@[i as int]@);
        if let Some(command) = &details[i].recommended_command {
            if !command.as_str().is_empty() {
                return Some(command.as_str());
            }
        }
        i += 1;
    }
    None
}

pub open spec fn explain_more() -> Seq<char> {
    "Use `rub explain interactability ...` for target-specific blocker details and next safe actions."@
}

/// The advice that an assessment gives for a failed interaction.
pub open spec fn guidance_of(assessment: AssessmentModel, request: JsonModel) -> Seq<Seq<char>> {
    let blockers = assessment.blocker_details;
    let wait = if hints::has_waitable(blockers) {
        hints::wait_command(request)
    } else {
        None
    };
    let g = match wait {
        Some(command) => seq![
            "Run `"@ + command
                + "` to wait for this target to become interactable before retrying."@,
        ],
        None => seq![],
    };
    let g = if hints::has_page_level(blockers) {
        g.push(
            "Run `rub explain blockers` to inspect the dominant page-level blocker in the current runtime."@,
        )
    } else {
        match first_command(blockers) {
            Some(command) => g.push(
                "If you need the canonical blocker surface, run `"@ + command + "`."@,
            ),
            None => g,
        }
    };
    if assessment.next_safe_actions.len() > 0 {
        g.push(assessment.next_safe_actions[0])
    } else {
        g
    }
}

/// What to suggest after a failed interaction.
pub open spec fn suggestion_of(
    suggestion: Seq<char>,
    assessment: AssessmentModel,
    request: JsonModel,
) -> Seq<char> {
    let guidance = guidance_of(assessment, request);
    if guidance.len() == 0 {
        suggestion + " "@ + explain_more()
    } else {
        text::joined(guidance.push(explain_more()), " "@)
    }
}

pub fn interactability_error_suggestion(
    envelope: &ErrorEnvelope,
    assessment: &InteractabilityAssessment,
    locator_request: &Json,
) -> (r: String)
    ensures
        r@ == suggestion_of(envelope@.suggestion, assessment@, locator_request@),
{
    let mut guidance: Vec<String> = Vec::new();
    if hints::interactability_has_target_waitable_blocker(assessment) {
        if let Some(command) = hints::interactability_wait_command(locator_request) {
            let line = text::cat3(
                "Run `",
                command.as_str(),
                "` to wait for this target to become interactable before retrying.",
            );
            push_action_if(&mut guidance, true, line.as_str());
        }
    }
    proof {
        let wait = if hints::has_waitable(assessment@.blocker_details) {
            hints::wait_command(locator_request@)
        } else {
            None
        };
        match wait {
            Some(command) => assert(text::texts(guidance@) =~= seq![
                "Run `"@ + command
                    + "` to wait for this target to become interactable before retrying."@,
            ]),
            None => assert(text::texts(guidance@) =~= seq![]),
        }
    }
    if hints::interactability_has_page_level_blocker(assessment) {
        push_action_if(
            &mut guidance,
            true,
            "Run `rub explain blockers` to inspect the dominant page-level blocker in the current runtime.",
        );
    } else if let Some(command) = first_recommended_command(&assessment.blocker_details) {
        let line = text::cat3("If you need the canonical blocker surface, run `", command, "`.");
        push_action_if(&mut guidance, true, line.as_str());
    }
    if assessment.next_safe_actions.len() > 0 {
        push_action_if(&mut guidance, true, assessment.next_safe_actions[0].as_str());
    }
    assert(text::texts(guidance@).len() == guidance@.len());
    if guidance.len() == 0 {
        text::cat3(
            envelope.suggestion.as_str(),
            " ",
            "Use `rub explain interactability ...` for target-specific blocker details and next safe actions.",
        )
    } else {
        push_action_if(
            &mut guidance,
            true,
            "Use `rub explain interactability ...` for target-specific blocker details and next safe actions.",
        );
        text::join(&guidance, " ")
    }
}

pub open spec fn blocker_json(b: BlockerModel) -> JsonModel {
    JsonModel::Object(
        Map::<Seq<char>, JsonModel>::empty().insert("code"@, JsonModel::Text(b.code)).insert(
            "surface"@,
            JsonModel::Text(b.surface),
        ).insert("summary"@, JsonModel::Text(b.summary)).insert(
            "recommended_command"@,
            json::opt_text_model(b.recommended_command),
        ),
    )
}

pub open spec fn blockers_json(blockers: Seq<BlockerModel>) -> JsonModel {
    JsonModel::Array(blockers.map_values(|b: BlockerModel| blocker_json(b)))
}

/// The members of an assessment.
pub open spec fn assessment_members(a: AssessmentModel) -> Map<Seq<char>, JsonModel> {
    Map::<Seq<char>, JsonModel>::empty().insert(
        "likely_interactable"@,
        JsonModel::Bool(a.likely_interactable),
    ).insert("blockers"@, json::texts_model(a.blockers)).insert(
        "blocker_details"@,
        blockers_json(a.blocker_details),
    ).insert("summary"@, JsonModel::Text(a.summary)).insert(
        "next_safe_actions"@,
        json::texts_model(a.next_safe_actions),
    )
}

fn blocker_value(b: &BlockerDetail) -> (r: Json)
    ensures
        r@ == blocker_json(b@),
{
    Json::Object(
        JsonObject::new().with("code", json::text_value(b.code.as_str())).with(
            "surface",
            json::text_value(b.surface.as_str()),
        ).with("summary", json::text_value(b.summary.as_str())).with(
            "recommended_command",
            json::opt_text_value(&b.recommended_command),
        ),
    )
}

fn blocker_values(details: &Vec<BlockerDetail>) -> (r: Json)
    ensures
        r@ == blockers_json(blocker_models(details@)),
{
    let mut items: Vec<Json> = Vec::new();
    let ghost all = blocker_models(details@).map_values(|b: BlockerModel| blocker_json(b));
    let mut i: usize = 0;
    while i < details.len()
        invariant
            i <= details@.len(),
            all == blocker_models(details@).map_values(|b: BlockerModel| blocker_json(b)),
            json::items_model(items@) == all.take(i as int),
        decreases details@.len() - i,
    {
        let ghost before = items@;
        items.push(blocker_value(&details[i]));
        assert(items@.drop_last() =~= before);
        assert(all.take(i + 1) =~= all.take(i as int).push(all[i as int]));
        i += 1;
    }
    assert(all.take(i as int) =~= all);
    Json::Array(items)
}

impl InteractabilityAssessment {
    /// The assessment as a JSON object.
    pub fn to_object(&self) -> (r: JsonObject)
        ensures
            r@ == assessment_members(self@),
    {
        JsonObject::new().with("likely_interactable", Json::Bool(self.likely_interactable)).with(
            "blockers",
            json::texts_value(&self.blockers),
        ).with("blocker_details", blocker_values(&self.blocker_details)).with(
            "summary",
            json::text_value(self.summary.as_str()),
        ).with("next_safe_actions", json::texts_value(&self.next_safe_actions))
    }
}

/// The context of a failed interaction.
pub open spec fn error_context_of(
    upstream: Option<JsonModel>,
    command: Seq<char>,
    element: ElementModel,
    snapshot_id: Seq<char>,
    request: JsonModel,
    assessment: AssessmentModel,
) -> JsonModel {
    let members = Map::<Seq<char>, JsonModel>::empty().insert(
        "surface"@,
        JsonModel::Text("router.interaction.error_projection"@),
    ).insert("command"@, JsonModel::Text(command)).insert(
        "snapshot_id"@,
        JsonModel::Text(snapshot_id),
    ).insert("locator_request"@, request).insert("target"@, target::target_summary(element)).insert(
        "interactability"@,
        JsonModel::Object(assessment_members(assessment)),
    );
    JsonModel::Object(
        match upstream {
            Some(context) => members.insert("upstream_context"@, context),
            None => members,
        },
    )
}

pub fn interactability_error_context(
    upstream_context: Option<Json>,
    command: &str,
    element: &Element,
    snapshot_id: &str,
    locator_request: &Json,
    assessment: &InteractabilityAssessment,
) -> (r: Json)
    ensures
        r@ == error_context_of(
            error::opt_context(upstream_context),
            command@,
            element@,
            snapshot_id@,
            locator_request@,
            assessment@,
        ),
{
    let mut context = JsonObject::new().with(
        "surface",
        json::text_value("router.interaction.error_projection"),
    ).with("command", json::text_value(command)).with(
        "snapshot_id",
        json::text_value(snapshot_id),
    ).with("locator_request", locator_request.clone()).with(
        "target",
        target::interactability_target_summary(element),
    ).with("interactability", Json::Object(assessment.to_object()));
    if let Some(upstream) = upstream_context {
        context.insert("upstream_context", upstream);
    }
    Json::Object(context)
}

/// The error of a failed interaction: one that says why the target could not be
/// acted on, where that is what failed; any other stays as it is.
pub open spec fn enriched(
    envelope: EnvelopeModel,
    command: Seq<char>,
    element: ElementModel,
    snapshot_id: Seq<char>,
    request: JsonModel,
    readiness: ReadinessInfo,
    interference: InterferenceRuntimeInfo,
) -> EnvelopeModel {
    if envelope.code != ErrorCode::ElementNotInteractable {
        envelope
    } else {
        let assessment = assessment_of(element, readiness, interference);
        EnvelopeModel {
            code: envelope.code,
            message: envelope.message,
            suggestion: suggestion_of(envelope.suggestion, assessment, request),
            context: Some(
                error_context_of(
                    envelope.context,
                    command,
                    element,
                    snapshot_id,
                    request,
                    assessment,
                ),
            ),
        }
    }
}

/// Says in the error of a failed interaction why the target could not be acted
/// on.
pub fn enrich_interactability_error_envelope(
    envelope: ErrorEnvelope,
    command: &str,
    element: &Element,
    snapshot_id: &str,
    locator_request: &Json,
    readiness: &ReadinessInfo,
    interference: &InterferenceRuntimeInfo,
) -> (r: RubError)
    ensures
        r@ == ErrorModel::Domain(
            enriched(
                envelope@,
                command@,
                element@,
                snapshot_id@,
                locator_request@,
                *readiness,
                *interference,
            ),
        ),
{
    if !matches!(envelope.code, ErrorCode::ElementNotInteractable) {
        return RubError::Domain(envelope);
    }
    let assessment = interactability_assessment(element, readiness, interference);
    let suggestion = interactability_error_suggestion(&envelope, &assessment, locator_request);
    let context = interactability_error_context(
        envelope.context,
        command,
        element,
        snapshot_id,
        locator_request,
        &assessment,
    );
    RubError::Domain(
        ErrorEnvelope {
            code: envelope.code,
            message: envelope.message,
            suggestion,
            context: Some(context),
        },
    )
}

/// Whether the live page must be probed before a failed interaction is
/// answered: only for a target that could not be acted on.
pub fn interaction_error_needs_probe(error: &RubError) -> (r: bool)
    ensures
        r == (error::envelope_of(error@).code == ErrorCode::ElementNotInteractable),
{
    match error {
        RubError::Domain(envelope) => matches!(envelope.code, ErrorCode::ElementNotInteractable),
        RubError::Internal(_) => false,
    }
}

/// A target is likely to be interactable exactly when neither it nor its page
/// reports anything against acting.
pub proof fn interactable_iff_nothing_blocks(
    element: ElementModel,
    readiness: ReadinessInfo,
    interference: InterferenceRuntimeInfo,
)
    ensures
        assessment_of(element, readiness, interference).likely_interactable <==> {
            &&& !target::disabled(element)
            &&& !target::aria_disabled(element)
            &&& readiness.overlay_state == OverlayState::Absent
            &&& readiness.route_stability != RouteStability::Transitioning
            &&& !readiness.loading_present
            &&& !readiness.skeleton_present
            &&& readiness.status != ReadinessStatus::Degraded
            &&& interference.current_interference is None
            &&& !interference.handoff_required
            &&& interference.status != InterferenceRuntimeStatus::Degraded
        },
{
}

/// Saying why an interaction failed keeps its code and its message.
pub proof fn enrichment_keeps_the_error(
    envelope: EnvelopeModel,
    command: Seq<char>,
    element: ElementModel,
    snapshot_id: Seq<char>,
    request: JsonModel,
    readiness: ReadinessInfo,
    interference: InterferenceRuntimeInfo,
)
    ensures
        ({
            let after = enriched(
                envelope,
                command,
                element,
                snapshot_id,
                request,
                readiness,
                interference,
            );
            after.code == envelope.code && after.message == envelope.message
        }),
{
}

/// Whether a blocker of a code is among those that were found.
pub open spec fn blocks(blockers: Seq<BlockerModel>, code: Seq<char>) -> bool {
    exists|i: int| 0 <= i < blockers.len() && (#[trigger] blockers[i]).code == code
}

proof fn blocks_where_found(code: Seq<char>)
    ensures
        forall|blockers: Seq<BlockerModel>, found: bool, one: BlockerModel| #[trigger]
            blocks(blocker_if(blockers, found, one), code) <==> blocks(blockers, code) || (found
                && one.code == code),
        forall|blockers: Seq<BlockerModel>, one: BlockerModel| #[trigger]
            blocks(blockers.push(one), code) <==> blocks(blockers, code) || one.code == code,
        !blocks(Seq::<BlockerModel>::empty(), code),
{
    assert forall|blockers: Seq<BlockerModel>, one: BlockerModel| #[trigger]
        blocks(blockers.push(one), code) <==> blocks(blockers, code) || one.code == code by {
        let all = blockers.push(one);
        if blocks(blockers, code) {
            let i = choose|i: int| 0 <= i < blockers.len() && (#[trigger] blockers[i]).code == code;
            assert(all[i] == blockers[i]);
        }
        if one.code == code {
            assert(all[blockers.len() as int] == one);
        }
        if blocks(all, code) {
            let i = choose|i: int| 0 <= i < all.len() && (#[trigger] all[i]).code == code;
            if i < blockers.len() {
                assert(blockers[i] == all[i]);
            }
        }
    }
}

/// Each thing that keeps a target from being acted on is found exactly where it is: on the
/// element, in the readiness of its page, or in what interferes; and nothing else is found.
pub proof fn blockers_are_found_for_their_causes(
    element: ElementModel,
    readiness: ReadinessInfo,
    interference: InterferenceRuntimeInfo,
    code: Seq<char>,
)
    ensures
        blocks(blockers_of(element, readiness, interference), code) <==> {
            ||| target::disabled(element) && code == "disabled_element"@
            ||| target::aria_disabled(element) && code == "aria_disabled"@
            ||| readiness.overlay_state != OverlayState::Absent && code == "overlay_present"@
            ||| readiness.route_stability == RouteStability::Transitioning && code
                == "route_transitioning"@
            ||| readiness.loading_present && code == "loading_present"@
            ||| readiness.skeleton_present && code == "skeleton_present"@
            ||| readiness.status == ReadinessStatus::Degraded && code == "readiness_degraded"@
            ||| interference.current_interference is Some && code == "interference:"@ + kind_name(
                interference.current_interference->0.kind,
            )
            ||| interference.handoff_required && code == "handoff_required"@
            ||| interference.status == InterferenceRuntimeStatus::Degraded && code
                == "interference_degraded"@
        },
{
    blocks_where_found(code);
    let own = element_blockers(element);
    let ready = readiness_blockers(own, readiness);
    assert(blocks(own, code) <==> (target::disabled(element) && code == "disabled_element"@) || (
    target::aria_disabled(element) && code == "aria_disabled"@));
    readiness_blocks(own, readiness, code);
    interference_blocks(ready, interference, code);
}

proof fn readiness_blocks(blockers: Seq<BlockerModel>, readiness: ReadinessInfo, code: Seq<char>)
    ensures
        blocks(readiness_blockers(blockers, readiness), code) <==> {
            ||| blocks(blockers, code)
            ||| readiness.overlay_state != OverlayState::Absent && code == "overlay_present"@
            ||| readiness.route_stability == RouteStability::Transitioning && code
                == "route_transitioning"@
            ||| readiness.loading_present && code == "loading_present"@
            ||| readiness.skeleton_present && code == "skeleton_present"@
            ||| readiness.status == ReadinessStatus::Degraded && code == "readiness_degraded"@
        },
{
    blocks_where_found(code);
}

proof fn interference_blocks(
    blockers: Seq<BlockerModel>,
    interference: InterferenceRuntimeInfo,
    code: Seq<char>,
)
    ensures
        blocks(interference_blockers(blockers, interference), code) <==> {
            ||| blocks(blockers, code)
            ||| interference.current_interference is Some && code == "interference:"@ + kind_name(
                interference.current_interference->0.kind,
            )
            ||| interference.handoff_required && code == "handoff_required"@
            ||| interference.status == InterferenceRuntimeStatus::Degraded && code
                == "interference_degraded"@
        },
{
    blocks_where_found(code);
}

/// What blocks a target is a matter of waiting for the target exactly where the target itself
/// is disabled.
pub proof fn disabled_targets_are_waited_for(
    element: ElementModel,
    readiness: ReadinessInfo,
    interference: InterferenceRuntimeInfo,
)
    ensures
        hints::has_waitable(blockers_of(element, readiness, interference)) <==> target::disabled(
            element,
        ) || target::aria_disabled(element),
{
    let all = blockers_of(element, readiness, interference);
    reveal_strlit("disabled_element");
    reveal_strlit("aria_disabled");
    reveal_strlit("overlay_present");
    reveal_strlit("route_transitioning");
    reveal_strlit("loading_present");
    reveal_strlit("skeleton_present");
    reveal_strlit("readiness_degraded");
    reveal_strlit("handoff_required");
    reveal_strlit("interference_degraded");
    assert("disabled_element"@.len() != "overlay_present"@.len());
    assert("disabled_element"@.len() != "route_transitioning"@.len());
    assert("disabled_element"@.len() != "loading_present"@.len());
    assert("disabled_element"@[0] != "skeleton_present"@[0]);
    assert("disabled_element"@.len() != "readiness_degraded"@.len());
    assert("disabled_element"@[0] != "handoff_required"@[0]);
    assert("disabled_element"@.len() != "interference_degraded"@.len());
    assert("aria_disabled"@.len() != "overlay_present"@.len());
    assert("aria_disabled"@.len() != "route_transitioning"@.len());
    assert("aria_disabled"@.len() != "loading_present"@.len());
    assert("aria_disabled"@.len() != "skeleton_present"@.len());
    assert("aria_disabled"@.len() != "readiness_degraded"@.len());
    assert("aria_disabled"@.len() != "handoff_required"@.len());
    assert("aria_disabled"@.len() != "interference_degraded"@.len());
    reveal_strlit("interference:");
    blockers_are_found_for_their_causes(element, readiness, interference, "disabled_element"@);
    blockers_are_found_for_their_causes(element, readiness, interference, "aria_disabled"@);
    if interference.current_interference is Some {
        let k = "interference:"@ + kind_name(interference.current_interference->0.kind);
        assert(k[0] == 'i');
        assert("disabled_element"@[0] == 'd');
        assert("aria_disabled"@[0] == 'a');
    }
    assert("disabled_element"@.len() != "aria_disabled"@.len());
    if hints::has_waitable(all) {
        let i = choose|i: int| 0 <= i < all.len() && hints::waitable(#[trigger] all[i]);
        if all[i].code == "disabled_element"@ {
            assert(blocks(all, "disabled_element"@));
        } else {
            assert(blocks(all, "aria_disabled"@));
        }
    }
    if target::disabled(element) {
        let i = choose|i: int|
            0 <= i < all.len() && (#[trigger] all[i]).code == "disabled_element"@;
        assert(hints::waitable(all[i]));
    }
    if target::aria_disabled(element) {
        let i = choose|i: int| 0 <= i < all.len() && (#[trigger] all[i]).code == "aria_disabled"@;
        assert(hints::waitable(all[i]));
    }
}

/// An assessment lists the code of each blocker beside its details, one for one, and speaks
/// of a free target exactly where there is none.
pub proof fn assessments_list_what_was_found(
    element: ElementModel,
    readiness: ReadinessInfo,
    interference: InterferenceRuntimeInfo,
)
    ensures
        ({
            let a = assessment_of(element, readiness, interference);
            &&& a.blockers.len() == a.blocker_details.len()
            &&& forall|i: int|
                0 <= i < a.blockers.len() ==> #[trigger] a.blockers[i] == a.blocker_details[i].code
            &&& a.likely_interactable <==> a.blockers.len() == 0
            &&& a.blocker_details == blockers_of(element, readiness, interference)
            &&& a.next_safe_actions.len() > 0
        }),
{
}

/// The sentence on a blocked target is that of the gravest blocker: the element's own
/// before what interferes, and that before the page.
pub proof fn summaries_tell_the_gravest_blocker(
    element: ElementModel,
    readiness: ReadinessInfo,
    interference: InterferenceRuntimeInfo,
)
    ensures
        ({
            let a = assessment_of(element, readiness, interference);
            let quiet = !target::disabled(element) && !target::aria_disabled(element);
            &&& target::disabled(element) || target::aria_disabled(element) ==> a.summary
                == a.blocker_details[0].summary
            &&& quiet ==> (interference.current_interference matches Some(current) ==> a.summary
                == interference_blocker(current.kind).summary)
            &&& quiet && interference.current_interference is None && readiness.overlay_state
                != OverlayState::Absent ==> a.summary == a.blocker_details[0].summary
        }),
{
}

/// The command that is recommended is the first that a blocker has.
pub proof fn first_commands_come_first(blockers: Seq<BlockerModel>)
    ensures
        match first_command(blockers) {
            Some(command) => command.len() > 0 && exists|i: int| #![trigger blockers[i]]
                0 <= i < blockers.len() && blockers[i].recommended_command == Some(command)
                    && forall|j: int|
                    0 <= j < i ==> {
                        let other = (#[trigger] blockers[j]).recommended_command;
                        other is None || other->0.len() == 0
                    },
            None => forall|j: int|
                0 <= j < blockers.len() ==> {
                    let other = (#[trigger] blockers[j]).recommended_command;
                    other is None || other->0.len() == 0
                },
        },
    decreases blockers.len(),
{
    if blockers.len() > 0 {
        let here = blockers[0].recommended_command;
        if here is Some && here->0.len() > 0 {
            assert(blockers[0].recommended_command == Some(here->0));
        } else {
            let rest = blockers.drop_first();
            first_commands_come_first(rest);
            match first_command(rest) {
                Some(command) => {
                    let i = choose|i: int| #![trigger rest[i]]
                        0 <= i < rest.len() && rest[i].recommended_command == Some(command)
                            && forall|j: int|
                            0 <= j < i ==> {
                                let other = (#[trigger] rest[j]).recommended_command;
                                other is None || other->0.len() == 0
                            };
                    assert(blockers[i + 1] == rest[i]);
                    assert forall|j: int| 0 <= j < i + 1 implies ({
                        let other = (#[trigger] blockers[j]).recommended_command;
                        other is None || other->0.len() == 0
                    }) by {
                        if j > 0 {
                            assert(rest[j - 1] == blockers[j]);
                        }
                    }
                },
                None => {
                    assert forall|j: int| 0 <= j < blockers.len() implies ({
                        let other = (#[trigger] blockers[j]).recommended_command;
                        other is None || other->0.len() == 0
                    }) by {
                        if j > 0 {
                            assert(rest[j - 1] == blockers[j]);
                        }
                    }
                },
            }
        }
    }
}

/// What to do next about a blocked target is told for each thing that blocks it, and for
/// nothing else; a free target is told to be tried.
pub proof fn next_actions_follow_the_blockers(
    readiness: ReadinessInfo,
    interference: InterferenceRuntimeInfo,
    element: ElementModel,
    action: Seq<char>,
)
    ensures
        next_actions_of(true, readiness, interference, element).len() == 2,
        next_actions_of(false, readiness, interference, element).contains(action) <==> {
            ||| (target::disabled(element) || target::aria_disabled(element)) && action
                == "Wait for the control to become enabled, or choose a different actionable target."@
            ||| readiness.overlay_state != OverlayState::Absent && (action
                == "Dismiss or accept the blocking overlay, then retry the interaction."@ || action
                == "Run `rub runtime readiness` to inspect `overlay_state` and `blocking_signals` directly."@)
            ||| (interference.current_interference matches Some(current) && current.kind
                == InterferenceKind::OverlayInterference) && action
                == "Run `rub interference recover` if you want the canonical overlay recovery path."@
            ||| (interference.current_interference matches Some(current) && current.kind
                == InterferenceKind::HumanVerificationRequired) && action
                == "Start a handoff if human verification is required before continuing."@
            ||| (readiness.route_stability == RouteStability::Transitioning
                || readiness.loading_present || readiness.skeleton_present) && action
                == "Wait for route/loading blockers to clear before retrying the interaction."@
            ||| action
                == "Use `rub explain locator ...` if you still need to confirm that the intended candidate is the one being targeted."@
        },
{
    assert forall|actions: Seq<Seq<char>>, one: Seq<char>| #[trigger]
        actions.push(one).contains(action) <==> actions.contains(action) || one == action by {
        let all = actions.push(one);
        if actions.contains(action) {
            let i = choose|i: int| 0 <= i < actions.len() && actions[i] == action;
            assert(all[i] == action);
        }
        if one == action {
            assert(all[actions.len() as int] == action);
        }
        if all.contains(action) {
            let i = choose|i: int| 0 <= i < all.len() && all[i] == action;
            if i < actions.len() {
                assert(actions[i] == action);
            }
        }
    }
    assert(!Seq::<Seq<char>>::empty().contains(action));
    assert(next_actions_of(true, readiness, interference, element).len() == 2);
}

/// A failed interaction is answered with its own suggestion and where to look further where
/// there is nothing to advise; else with the advice, in its order, and where to look further
/// behind it.
pub proof fn suggestions_end_with_where_to_look(
    suggestion: Seq<char>,
    assessment: AssessmentModel,
    request: JsonModel,
)
    ensures
        ({
            let g = guidance_of(assessment, request);
            let r = suggestion_of(suggestion, assessment, request);
            &&& g.len() == 0 ==> r == suggestion + " "@ + explain_more()
            &&& g.len() > 0 ==> r == text::joined(g, " "@) + " "@ + explain_more()
        }),
{
    let g = guidance_of(assessment, request);
    if g.len() > 0 {
        assert(g.push(explain_more()).drop_last() =~= g);
    }
}

/// Waiting is advised exactly where the target itself is what is not ready and a command
/// line can name it, and then first; what to do next is told last.
pub proof fn waiting_is_advised_for_waitable_targets(
    assessment: AssessmentModel,
    request: JsonModel,
)
    ensures
        ({
            let g = guidance_of(assessment, request);
            let wait = hints::wait_command(request);
            let waits = hints::has_waitable(assessment.blocker_details) && wait is Some;
            let looks = hints::has_page_level(assessment.blocker_details) || first_command(
                assessment.blocker_details,
            ) is Some;
            &&& waits ==> g.len() > 0 && g[0] == "Run `"@ + wait->0
                + "` to wait for this target to become interactable before retrying."@
            &&& assessment.next_safe_actions.len() > 0 ==> g.len() > 0 && g.last()
                == assessment.next_safe_actions[0]
            &&& g.len() == (if waits {
                1int
            } else {
                0int
            }) + (if looks {
                1int
            } else {
                0int
            }) + if assessment.next_safe_actions.len() > 0 {
                1int
            } else {
                0int
            }
        }),
{
}

/// Only an error that says a target cannot be acted on is explained, and its explanation
/// holds the command, the snapshot, the request and the assessment, and what the error said
/// before under a name of its own.
pub proof fn only_blocked_targets_are_explained(
    envelope: EnvelopeModel,
    command: Seq<char>,
    element: ElementModel,
    snapshot_id: Seq<char>,
    request: JsonModel,
    readiness: ReadinessInfo,
    interference: InterferenceRuntimeInfo,
)
    ensures
        ({
            let r = enriched(
                envelope,
                command,
                element,
                snapshot_id,
                request,
                readiness,
                interference,
            );
            &&& envelope.code != ErrorCode::ElementNotInteractable ==> r == envelope
            &&& envelope.code == ErrorCode::ElementNotInteractable ==> {
                &&& r.context matches Some(context)
                &&& json::member(context, "command"@) == Some(JsonModel::Text(command))
                &&& json::member(context, "snapshot_id"@) == Some(JsonModel::Text(snapshot_id))
                &&& json::member(context, "locator_request"@) == Some(request)
                &&& json::member(context, "target"@) == Some(target::target_summary(element))
                &&& json::member(context, "interactability"@) == Some(
                    JsonModel::Object(
                        assessment_members(assessment_of(element, readiness, interference)),
                    ),
                )
                &&& json::member(context, "upstream_context"@) == envelope.context
            }
        }),
{
    reveal_strlit("surface");
    reveal_strlit("command");
    reveal_strlit("snapshot_id");
    reveal_strlit("locator_request");
    reveal_strlit("target");
    reveal_strlit("interactability");
    reveal_strlit("upstream_context");
    assert("surface"@[0] != "command"@[0]);
    assert("surface"@.len() != "snapshot_id"@.len());
    assert("surface"@.len() != "locator_request"@.len());
    assert("surface"@.len() != "target"@.len());
    assert("surface"@.len() != "interactability"@.len());
    assert("surface"@.len() != "upstream_context"@.len());
    assert("command"@.len() != "snapshot_id"@.len());
    assert("command"@.len() != "locator_request"@.len());
    assert("command"@.len() != "target"@.len());
    assert("command"@.len() != "interactability"@.len());
    assert("command"@.len() != "upstream_context"@.len());
    assert("snapshot_id"@.len() != "locator_request"@.len());
    assert("snapshot_id"@.len() != "target"@.len());
    assert("snapshot_id"@.len() != "interactability"@.len());
    assert("snapshot_id"@.len() != "upstream_context"@.len());
    assert("locator_request"@.len() != "target"@.len());
    assert("locator_request"@[0] != "interactability"@[0]);
    assert("locator_request"@.len() != "upstream_context"@.len());
    assert("target"@.len() != "interactability"@.len());
    assert("target"@.len() != "upstream_context"@.len());
    assert("interactability"@.len() != "upstream_context"@.len());
}

/// An assessment is shown with its verdict, its sentence, what blocks and what to do next,
/// each in its own place, and each blocker with its own details.
pub proof fn assessments_are_shown_as_they_are(a: AssessmentModel)
    ensures
        ({
            let r = JsonModel::Object(assessment_members(a));
            &&& json::member(r, "likely_interactable"@) == Some(
                JsonModel::Bool(a.likely_interactable),
            )
            &&& json::member(r, "blockers"@) == Some(json::texts_model(a.blockers))
            &&& json::member(r, "summary"@) == Some(JsonModel::Text(a.summary))
            &&& json::member(r, "next_safe_actions"@) == Some(
                json::texts_model(a.next_safe_actions),
            )
            &&& json::member(r, "blocker_details"@) matches Some(JsonModel::Array(shown))
            &&& shown.len() == a.blocker_details.len()
            &&& forall|i: int|
                0 <= i < shown.len() ==> {
                    let one = #[trigger] shown[i];
                    let b = a.blocker_details[i];
                    &&& json::member(one, "code"@) == Some(JsonModel::Text(b.code))
                    &&& json::member(one, "surface"@) == Some(JsonModel::Text(b.surface))
                    &&& json::member(one, "summary"@) == Some(JsonModel::Text(b.summary))
                    &&& json::member(one, "recommended_command"@) == Some(
                        json::opt_text_model(b.recommended_command),
                    )
                }
        }),
{
    reveal_strlit("likely_interactable");
    reveal_strlit("blockers");
    reveal_strlit("blocker_details");
    reveal_strlit("summary");
    reveal_strlit("next_safe_actions");
    assert("likely_interactable"@.len() != "blockers"@.len());
    assert("likely_interactable"@.len() != "blocker_details"@.len());
    assert("likely_interactable"@.len() != "summary"@.len());
    assert("likely_interactable"@.len() != "next_safe_actions"@.len());
    assert("blockers"@.len() != "blocker_details"@.len());
    assert("blockers"@.len() != "summary"@.len());
    assert("blockers"@.len() != "next_safe_actions"@.len());
    assert("blocker_details"@.len() != "summary"@.len());
    assert("blocker_details"@.len() != "next_safe_actions"@.len());
    assert("summary"@.len() != "next_safe_actions"@.len());
    reveal_strlit("code");
    reveal_strlit("surface");
    reveal_strlit("recommended_command");
    assert("code"@.len() != "surface"@.len());
    assert("code"@.len() != "recommended_command"@.len());
    assert("surface"@.len() != "recommended_command"@.len());
    assert("summary"@.len() != "code"@.len());
    assert("summary"@[1] != "surface"@[1] || "summary"@[2] != "surface"@[2]);
    assert("summary"@.len() != "recommended_command"@.len());
}

/// Kinds of interference go by different names.
pub proof fn interference_kinds_are_told_apart(a: InterferenceKind, b: InterferenceKind)
    ensures
        kind_name(a) == kind_name(b) <==> a == b,
{
    reveal_strlit("interstitial_navigation");
    reveal_strlit("popup_hijack");
    reveal_strlit("overlay_interference");
    reveal_strlit("third_party_noise");
    reveal_strlit("human_verification_required");
    reveal_strlit("unknown_navigation_drift");
    assert("interstitial_navigation"@.len() != "popup_hijack"@.len());
    assert("interstitial_navigation"@.len() != "overlay_interference"@.len());
    assert("interstitial_navigation"@.len() != "third_party_noise"@.len());
    assert("interstitial_navigation"@.len() != "human_verification_required"@.len());
    assert("interstitial_navigation"@.len() != "unknown_navigation_drift"@.len());
    assert("popup_hijack"@.len() != "overlay_interference"@.len());
    assert("popup_hijack"@.len() != "third_party_noise"@.len());
    assert("popup_hijack"@.len() != "human_verification_required"@.len());
    assert("popup_hijack"@.len() != "unknown_navigation_drift"@.len());
    assert("overlay_interference"@.len() != "third_party_noise"@.len());
    assert("overlay_interference"@.len() != "human_verification_required"@.len());
    assert("overlay_interference"@.len() != "unknown_navigation_drift"@.len());
    assert("third_party_noise"@.len() != "human_verification_required"@.len());
    assert("third_party_noise"@.len() != "unknown_navigation_drift"@.len());
    assert("human_verification_required"@.len() != "unknown_navigation_drift"@.len());
}

/// What blocks a target is a matter of its page exactly where the page's readiness or what
/// interferes says something against acting.
pub proof fn pages_block_where_they_say_so(
    element: ElementModel,
    readiness: ReadinessInfo,
    interference: InterferenceRuntimeInfo,
)
    ensures
        hints::has_page_level(blockers_of(element, readiness, interference)) <==> {
            ||| readiness.overlay_state != OverlayState::Absent
            ||| readiness.route_stability == RouteStability::Transitioning
            ||| readiness.loading_present
            ||| readiness.skeleton_present
            ||| readiness.status == ReadinessStatus::Degraded
            ||| interference.current_interference is Some
            ||| interference.handoff_required
            ||| interference.status == InterferenceRuntimeStatus::Degraded
        },
{
    reveal_strlit("interactive_snapshot");
    reveal_strlit("runtime.readiness");
    reveal_strlit("runtime.interference");
    assert("interactive_snapshot"@.len() != "runtime.readiness"@.len());
    assert("interactive_snapshot"@[0] != "runtime.interference"@[0]);
    assert("runtime.readiness"@.len() != "runtime.interference"@.len());
    assert forall|blockers: Seq<BlockerModel>, one: BlockerModel| #[trigger]
        hints::has_page_level(blockers.push(one)) <==> hints::has_page_level(blockers)
            || hints::page_level(one) by {
        let all = blockers.push(one);
        if hints::has_page_level(blockers) {
            let i = choose|i: int|
                0 <= i < blockers.len() && hints::page_level(#[trigger] blockers[i]);
            assert(all[i] == blockers[i]);
        }
        if hints::page_level(one) {
            assert(all[blockers.len() as int] == one);
        }
        if hints::has_page_level(all) {
            let i = choose|i: int| 0 <= i < all.len() && hints::page_level(#[trigger] all[i]);
            if i < blockers.len() {
                assert(blockers[i] == all[i]);
            }
        }
    }
    assert(!hints::has_page_level(Seq::<BlockerModel>::empty()));
    let own = element_blockers(element);
    assert(!hints::has_page_level(own));
    let ready = readiness_blockers(own, readiness);
    assert(hints::has_page_level(ready) <==> readiness.overlay_state != OverlayState::Absent
        || readiness.route_stability == RouteStability::Transitioning || readiness.loading_present
        || readiness.skeleton_present || readiness.status == ReadinessStatus::Degraded);
}

/// Each kind of interference has its command: overlays are recovered from, people are handed
/// to, and the rest is looked at.
pub proof fn interference_has_its_command(kind: InterferenceKind)
    ensures
        ({
            let b = interference_blocker(kind);
            &&& b.code == "interference:"@ + kind_name(kind)
            &&& b.surface == "runtime.interference"@
            &&& kind == InterferenceKind::OverlayInterference ==> b.recommended_command == Some(
                "rub interference recover"@,
            )
            &&& kind == InterferenceKind::HumanVerificationRequired ==> b.recommended_command
                == Some("rub handoff start"@)
            &&& kind != InterferenceKind::OverlayInterference && kind
                != InterferenceKind::HumanVerificationRequired ==> b.recommended_command == Some(
                "rub runtime interference"@,
            )
        }),
{
}

/// The sentence on a target names the gravest cause: its own state before interference, and
/// interference before the page.
pub proof fn summaries_name_the_gravest_cause(
    readiness: ReadinessInfo,
    interference: InterferenceRuntimeInfo,
    element: ElementModel,
)
    ensures
        ({
            let s = summary_of(false, readiness, interference, element);
            let own = target::disabled(element) || target::aria_disabled(element);
            &&& target::disabled(element) ==> s
                == "Target is explicitly disabled in the authoritative snapshot."@
            &&& !target::disabled(element) && target::aria_disabled(element) ==> s
                == "Target is marked aria-disabled in the authoritative snapshot."@
            &&& !own ==> (interference.current_interference matches Some(current) ==> s
                == "Current runtime interference suggests this target is blocked by "@ + kind_name(
                current.kind,
            ) + "."@)
            &&& !own && interference.current_interference is None && readiness.overlay_state
                != OverlayState::Absent ==> s
                == "Readiness reports an overlay-related blocker on the page."@
        }),
        summary_of(true, readiness, interference, element)
            == "No authoritative disabled-state or ambient blocker is currently projected for this target."@,
{
}

/// The next actions name what is in the way, and end with a look at the locator.
pub proof fn next_actions_go_by_the_causes(
    readiness: ReadinessInfo,
    interference: InterferenceRuntimeInfo,
    element: ElementModel,
)
    ensures
        ({
            let a = next_actions_of(false, readiness, interference, element);
            &&& a.len() >= 1
            &&& a.last()
                == "Use `rub explain locator ...` if you still need to confirm that the intended candidate is the one being targeted."@
            &&& target::disabled(element) || target::aria_disabled(element) ==> a.len() >= 2 && a[0]
                == "Wait for the control to become enabled, or choose a different actionable target."@
            &&& !target::disabled(element) && !target::aria_disabled(element)
                && readiness.overlay_state != OverlayState::Absent ==> a.len() >= 3 && a[0]
                == "Dismiss or accept the blocking overlay, then retry the interaction."@
        }),
        next_actions_of(true, readiness, interference, element).len() == 2,
{
}

/// A blocker is shown with its code, its surface, its sentence and its command.
pub proof fn blockers_are_shown_as_they_are(b: BlockerModel)
    ensures
        ({
            let j = blocker_json(b);
            &&& json::member(j, "code"@) == Some(JsonModel::Text(b.code))
            &&& json::member(j, "surface"@) == Some(JsonModel::Text(b.surface))
            &&& json::member(j, "summary"@) == Some(JsonModel::Text(b.summary))
            &&& json::member(j, "recommended_command"@) == Some(
                json::opt_text_model(b.recommended_command),
            )
        }),
{
    reveal_strlit("code");
    reveal_strlit("surface");
    reveal_strlit("summary");
    reveal_strlit("recommended_command");
    assert("code"@.len() != "surface"@.len());
    assert("code"@.len() != "summary"@.len());
    assert("code"@.len() != "recommended_command"@.len());
    assert("surface"@[2] != "summary"@[2]);
    assert("surface"@.len() != "recommended_command"@.len());
    assert("summary"@.len() != "recommended_command"@.len());
}

/// The context of a failed interaction shows the command, the target and the assessment, and
/// keeps what was known before.
pub proof fn failure_contexts_show_target_and_assessment(
    upstream: Option<JsonModel>,
    command: Seq<char>,
    element: ElementModel,
    snapshot_id: Seq<char>,
    request: JsonModel,
    assessment: AssessmentModel,
)
    ensures
        ({
            let j = error_context_of(
                upstream,
                command,
                element,
                snapshot_id,
                request,
                assessment,
            );
            &&& json::member(j, "command"@) == Some(JsonModel::Text(command))
            &&& json::member(j, "snapshot_id"@) == Some(JsonModel::Text(snapshot_id))
            &&& json::member(j, "locator_request"@) == Some(request)
            &&& json::member(j, "target"@) == Some(target::target_summary(element))
            &&& json::member(j, "interactability"@) == Some(
                JsonModel::Object(assessment_members(assessment)),
            )
            &&& json::member(j, "upstream_context"@) == upstream
        }),
{
    reveal_strlit("surface");
    reveal_strlit("command");
    reveal_strlit("snapshot_id");
    reveal_strlit("locator_request");
    reveal_strlit("target");
    reveal_strlit("interactability");
    reveal_strlit("upstream_context");
    assert("surface"@[0] != "command"@[0]);
    assert("surface"@.len() != "snapshot_id"@.len());
    assert("surface"@.len() != "locator_request"@.len());
    assert("surface"@.len() != "target"@.len());
    assert("surface"@.len() != "interactability"@.len());
    assert("surface"@.len() != "upstream_context"@.len());
    assert("command"@.len() != "snapshot_id"@.len());
    assert("command"@.len() != "locator_request"@.len());
    assert("command"@.len() != "target"@.len());
    assert("command"@.len() != "interactability"@.len());
    assert("command"@.len() != "upstream_context"@.len());
    assert("snapshot_id"@.len() != "locator_request"@.len());
    assert("snapshot_id"@.len() != "target"@.len());
    assert("snapshot_id"@.len() != "interactability"@.len());
    assert("snapshot_id"@.len() != "upstream_context"@.len());
    assert("locator_request"@.len() != "target"@.len());
    assert("locator_request"@[0] != "interactability"@[0]);
    assert("locator_request"@.len() != "upstream_context"@.len());
    assert("target"@.len() != "interactability"@.len());
    assert("target"@.len() != "upstream_context"@.len());
    assert("interactability"@.len() != "upstream_context"@.len());
}

/// Each kind of interference goes by its own name.
pub proof fn interference_goes_by_its_names(x: InterferenceKind)
    ensures
        x == InterferenceKind::InterstitialNavigation <==> kind_name(x) == "interstitial_navigation"@,
        x == InterferenceKind::PopupHijack <==> kind_name(x) == "popup_hijack"@,
        x == InterferenceKind::OverlayInterference <==> kind_name(x) == "overlay_interference"@,
        x == InterferenceKind::ThirdPartyNoise <==> kind_name(x) == "third_party_noise"@,
        x == InterferenceKind::HumanVerificationRequired <==> kind_name(x) == "human_verification_required"@,
        x == InterferenceKind::UnknownNavigationDrift <==> kind_name(x) == "unknown_navigation_drift"@,
{
    reveal_strlit("interstitial_navigation");
    reveal_strlit("popup_hijack");
    reveal_strlit("overlay_interference");
    reveal_strlit("third_party_noise");
    reveal_strlit("human_verification_required");
    reveal_strlit("unknown_navigation_drift");
    assert("interstitial_navigation"@.len() != "popup_hijack"@.len());
    assert("interstitial_navigation"@.len() != "overlay_interference"@.len());
    assert("interstitial_navigation"@.len() != "third_party_noise"@.len());
    assert("interstitial_navigation"@.len() != "human_verification_required"@.len());
    assert("interstitial_navigation"@.len() != "unknown_navigation_drift"@.len());
    assert("popup_hijack"@.len() != "overlay_interference"@.len());
    assert("popup_hijack"@.len() != "third_party_noise"@.len());
    assert("popup_hijack"@.len() != "human_verification_required"@.len());
    assert("popup_hijack"@.len() != "unknown_navigation_drift"@.len());
    assert("overlay_interference"@.len() != "third_party_noise"@.len());
    assert("overlay_interference"@.len() != "human_verification_required"@.len());
    assert("overlay_interference"@.len() != "unknown_navigation_drift"@.len());
    assert("third_party_noise"@.len() != "human_verification_required"@.len());
    assert("third_party_noise"@.len() != "unknown_navigation_drift"@.len());
    assert("human_verification_required"@.len() != "unknown_navigation_drift"@.len());
}

} // verus!
