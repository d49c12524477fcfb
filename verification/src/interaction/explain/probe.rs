//! The answer to the question whether a target can be acted on.

use vstd::prelude::*;
use crate::json::{self, Json, JsonModel, JsonObject};
use crate::model::{
    Element,
    ElementModel,
    InterferenceObservation,
    InterferenceRuntimeInfo,
    InterferenceRuntimeStatus,
    OverlayState,
    ReadinessInfo,
    ReadinessStatus,
    RouteStability,
};
use crate::text;
use super::hints::{self, CommandHint, HintModel};
use super::target;
use super::{
    interactability_assessment,
    interactability_interference_kind_name,
    InteractabilityAssessment,
};

verus! {

pub open spec fn hint_json(h: HintModel) -> JsonModel {
    JsonModel::Object(
        Map::<Seq<char>, JsonModel>::empty().insert("command"@, JsonModel::Text(h.command)).insert(
            "reason"@,
            JsonModel::Text(h.reason),
        ),
    )
}

pub open spec fn hints_json(hints: Seq<HintModel>) -> JsonModel {
    JsonModel::Array(hints.map_values(|h: HintModel| hint_json(h)))
}

fn hint_value(h: &CommandHint) -> (r: Json)
    ensures
        r@ == hint_json(h@),
{
    Json::Object(
        JsonObject::new().with("command", json::text_value(h.command.as_str())).with(
            "reason",
            json::text_value(h.reason.as_str()),
        ),
    )
}

fn hint_values(hints: &Vec<CommandHint>) -> (r: Json)
    ensures
        r@ == hints_json(hints::hint_models(hints@)),
{
    let mut items: Vec<Json> = Vec::new();
    let ghost all = hints::hint_models(hints@).map_values(|h: HintModel| hint_json(h));
    let mut i: usize = 0;
    while i < hints.len()
        invariant
            i <= hints@.len(),
            all == hints::hint_models(hints@).map_values(|h: HintModel| hint_json(h)),
            json::items_model(items@) == all.take(i as int),
        decreases hints@.len() - i,
    {
        let ghost before = items@;
        items.push(hint_value(&hints[i]));
        assert(items@.drop_last() =~= before);
        assert(all.take(i + 1) =~= all.take(i as int).push(all[i as int]));
        i += 1;
    }
    assert(all.take(i as int) =~= all);
    Json::Array(items)
}

pub open spec fn readiness_status_name(s: ReadinessStatus) -> Seq<char> {
    match s {
        ReadinessStatus::Inactive => "inactive"@,
        ReadinessStatus::Active => "active"@,
        ReadinessStatus::Degraded => "degraded"@,
    }
}

pub open spec fn route_stability_name(s: RouteStability) -> Seq<char> {
    match s {
        RouteStability::Unknown => "unknown"@,
        RouteStability::Stable => "stable"@,
        RouteStability::Transitioning => "transitioning"@,
    }
}

pub open spec fn overlay_name(s: OverlayState) -> Seq<char> {
    match s {
        OverlayState::Absent => "none"@,
        OverlayState::Development => "development"@,
        OverlayState::UserBlocking => "user_blocking"@,
    }
}

pub open spec fn interference_status_name(s: InterferenceRuntimeStatus) -> Seq<char> {
    match s {
        InterferenceRuntimeStatus::Inactive => "inactive"@,
        InterferenceRuntimeStatus::Active => "active"@,
        InterferenceRuntimeStatus::Degraded => "degraded"@,
    }
}

/// What a readiness report says to a client.
pub open spec fn readiness_json(r: ReadinessInfo) -> JsonModel {
    JsonModel::Object(
        Map::<Seq<char>, JsonModel>::empty().insert(
            "status"@,
            JsonModel::Text(readiness_status_name(r.status)),
        ).insert(
            "route_stability"@,
            JsonModel::Text(route_stability_name(r.route_stability)),
        ).insert("loading_present"@, JsonModel::Bool(r.loading_present)).insert(
            "skeleton_present"@,
            JsonModel::Bool(r.skeleton_present),
        ).insert("overlay_state"@, JsonModel::Text(overlay_name(r.overlay_state))).insert(
            "blocking_signals"@,
            json::texts_model(text::texts(r.blocking_signals@)),
        ).insert("degraded_reason"@, json::opt_text_model(text::opt_text(r.degraded_reason))),
    )
}

fn readiness_value(r: &ReadinessInfo) -> (j: Json)
    ensures
        j@ == readiness_json(*r),
{
    let status = match r.status {
        ReadinessStatus::Inactive => "inactive",
        ReadinessStatus::Active => "active",
        ReadinessStatus::Degraded => "degraded",
    };
    let route_stability = match r.route_stability {
        RouteStability::Unknown => "unknown",
        RouteStability::Stable => "stable",
        RouteStability::Transitioning => "transitioning",
    };
    let overlay_state = match r.overlay_state {
        OverlayState::Absent => "none",
        OverlayState::Development => "development",
        OverlayState::UserBlocking => "user_blocking",
    };
    Json::Object(
        JsonObject::new().with("status", json::text_value(status)).with(
            "route_stability",
            json::text_value(route_stability),
        ).with("loading_present", Json::Bool(r.loading_present)).with(
            "skeleton_present",
            Json::Bool(r.skeleton_present),
        ).with("overlay_state", json::text_value(overlay_state)).with(
            "blocking_signals",
            json::texts_value(&r.blocking_signals),
        ).with("degraded_reason", json::opt_text_value(&r.degraded_reason)),
    )
}

/// What an observed interference says; `null` where there is none.
pub open spec fn observation_json(o: Option<InterferenceObservation>) -> JsonModel {
    match o {
        Some(o) => JsonModel::Object(
            Map::<Seq<char>, JsonModel>::empty().insert(
                "kind"@,
                JsonModel::Text(super::kind_name(o.kind)),
            ).insert("summary"@, JsonModel::Text(o.summary@)).insert(
                "current_url"@,
                json::opt_text_model(text::opt_text(o.current_url)),
            ).insert("primary_url"@, json::opt_text_model(text::opt_text(o.primary_url))),
        ),
        None => JsonModel::Null,
    }
}

fn observation_value(o: &Option<InterferenceObservation>) -> (r: Json)
    ensures
        r@ == observation_json(*o),
{
    match o {
        Some(o) => Json::Object(
            JsonObject::new().with(
                "kind",
                json::text_value(interactability_interference_kind_name(o.kind)),
            ).with("summary", json::text_value(o.summary.as_str())).with(
                "current_url",
                json::opt_text_value(&o.current_url),
            ).with("primary_url", json::opt_text_value(&o.primary_url)),
        ),
        None => Json::Null,
    }
}

/// What the interference runtime says to a client.
pub open spec fn interference_json(i: InterferenceRuntimeInfo) -> JsonModel {
    JsonModel::Object(
        Map::<Seq<char>, JsonModel>::empty().insert(
            "status"@,
            JsonModel::Text(interference_status_name(i.status)),
        ).insert("current_interference"@, observation_json(i.current_interference)).insert(
            "handoff_required"@,
            JsonModel::Bool(i.handoff_required),
        ).insert("degraded_reason"@, json::opt_text_model(text::opt_text(i.degraded_reason))),
    )
}

fn interference_value(i: &InterferenceRuntimeInfo) -> (r: Json)
    ensures
        r@ == interference_json(*i),
{
    let status = match i.status {
        InterferenceRuntimeStatus::Inactive => "inactive",
        InterferenceRuntimeStatus::Active => "active",
        InterferenceRuntimeStatus::Degraded => "degraded",
    };
    Json::Object(
        JsonObject::new().with("status", json::text_value(status)).with(
            "current_interference",
            observation_value(&i.current_interference),
        ).with("handoff_required", Json::Bool(i.handoff_required)).with(
            "degraded_reason",
            json::opt_text_value(&i.degraded_reason),
        ),
    )
}

/// An assessment with the command lines that lead on from it.
pub open spec fn assessment_payload(
    element: ElementModel,
    request: JsonModel,
    assessment: super::AssessmentModel,
) -> JsonModel {
    JsonModel::Object(
        super::assessment_members(assessment).insert(
            "next_command_hints"@,
            hints_json(
                hints::next_command_hints(element.tag, assessment.blocker_details, request),
            ),
        ),
    )
}

pub fn interactability_assessment_payload(
    element: &Element,
    locator_request: &Json,
    assessment: &InteractabilityAssessment,
) -> (r: Json)
    ensures
        r@ == assessment_payload(element@, locator_request@, assessment@),
{
    let hints = hints::interactability_next_command_hints(element, assessment, locator_request);
    Json::Object(assessment.to_object().with("next_command_hints", hint_values(&hints)))
}

/// The whole answer of a probe.
pub open spec fn probe_payload(
    element: ElementModel,
    snapshot_id: Seq<char>,
    request: JsonModel,
    readiness: ReadinessInfo,
    interference: InterferenceRuntimeInfo,
) -> JsonModel {
    let subject = JsonModel::Object(
        Map::<Seq<char>, JsonModel>::empty().insert(
            "kind"@,
            JsonModel::Text("interactability_explain"@),
        ).insert("surface"@, JsonModel::Text("interactive_snapshot"@)).insert(
            "snapshot_id"@,
            JsonModel::Text(snapshot_id),
        ).insert("locator_request"@, request),
    );
    let hit_test = JsonModel::Object(
        Map::<Seq<char>, JsonModel>::empty().insert("status"@, JsonModel::Text("not_probed"@)).insert(
            "detail"@,
            JsonModel::Text("first_slice_uses_snapshot_target_and_runtime_blockers_only"@),
        ),
    );
    let result = JsonModel::Object(
        Map::<Seq<char>, JsonModel>::empty().insert("target"@, target::target_summary(element)).insert(
            "hit_test"@,
            hit_test,
        ).insert("top_blocking_element"@, JsonModel::Null).insert(
            "readiness"@,
            readiness_json(readiness),
        ).insert("interference"@, interference_json(interference)).insert(
            "assessment"@,
            assessment_payload(
                element,
                request,
                super::assessment_of(element, readiness, interference),
            ),
        ),
    );
    JsonModel::Object(
        Map::<Seq<char>, JsonModel>::empty().insert("subject"@, subject).insert("result"@, result),
    )
}

/// Answers whether a target can be acted on.
pub fn interactability_probe_payload(
    element: &Element,
    snapshot_id: &str,
    locator_request: &Json,
    readiness: &ReadinessInfo,
    interference: &InterferenceRuntimeInfo,
) -> (r: Json)
    ensures
        r@ == probe_payload(
            element@,
            snapshot_id@,
            locator_request@,
            *readiness,
            *interference,
        ),
{
    let assessment = interactability_assessment(element, readiness, interference);
    let subject = Json::Object(
        JsonObject::new().with("kind", json::text_value("interactability_explain")).with(
            "surface",
            json::text_value("interactive_snapshot"),
        ).with("snapshot_id", json::text_value(snapshot_id)).with(
            "locator_request",
            locator_request.clone(),
        ),
    );
    let hit_test = Json::Object(
        JsonObject::new().with("status", json::text_value("not_probed")).with(
            "detail",
            json::text_value("first_slice_uses_snapshot_target_and_runtime_blockers_only"),
        ),
    );
    let result = Json::Object(
        JsonObject::new().with("target", target::interactability_target_summary(element)).with(
            "hit_test",
            hit_test,
        ).with("top_blocking_element", Json::Null).with(
            "readiness",
            readiness_value(readiness),
        ).with("interference", interference_value(interference)).with(
            "assessment",
            interactability_assessment_payload(element, locator_request, &assessment),
        ),
    );
    Json::Object(JsonObject::new().with("subject", subject).with("result", result))
}

/// What stands against acting is shown each in its own place: the readiness of the page, and
/// what interferes with it.
pub proof fn runtime_states_are_shown_as_they_are(
    r: ReadinessInfo,
    i: InterferenceRuntimeInfo,
)
    ensures
        ({
            let j = readiness_json(r);
            &&& json::member(j, "status"@) == Some(JsonModel::Text(readiness_status_name(r.status)))
            &&& json::member(j, "route_stability"@) == Some(
                JsonModel::Text(route_stability_name(r.route_stability)),
            )
            &&& json::member(j, "loading_present"@) == Some(JsonModel::Bool(r.loading_present))
            &&& json::member(j, "skeleton_present"@) == Some(JsonModel::Bool(r.skeleton_present))
            &&& json::member(j, "overlay_state"@) == Some(
                JsonModel::Text(overlay_name(r.overlay_state)),
            )
            &&& json::member(j, "degraded_reason"@) == Some(
                json::opt_text_model(text::opt_text(r.degraded_reason)),
            )
        }),
        ({
            let j = interference_json(i);
            &&& json::member(j, "status"@) == Some(
                JsonModel::Text(interference_status_name(i.status)),
            )
            &&& json::member(j, "current_interference"@) == Some(
                observation_json(i.current_interference),
            )
            &&& json::member(j, "handoff_required"@) == Some(JsonModel::Bool(i.handoff_required))
            &&& json::member(j, "degraded_reason"@) == Some(
                json::opt_text_model(text::opt_text(i.degraded_reason)),
            )
        }),
        i.current_interference is None <==> observation_json(i.current_interference)
            == JsonModel::Null,
{
    reveal_strlit("status");
    reveal_strlit("route_stability");
    reveal_strlit("loading_present");
    reveal_strlit("skeleton_present");
    reveal_strlit("overlay_state");
    reveal_strlit("blocking_signals");
    reveal_strlit("degraded_reason");
    reveal_strlit("current_interference");
    reveal_strlit("handoff_required");
    assert("status"@.len() != "route_stability"@.len());
    assert("status"@.len() != "loading_present"@.len());
    assert("status"@.len() != "skeleton_present"@.len());
    assert("status"@.len() != "overlay_state"@.len());
    assert("status"@.len() != "blocking_signals"@.len());
    assert("status"@.len() != "degraded_reason"@.len());
    assert("status"@.len() != "current_interference"@.len());
    assert("status"@.len() != "handoff_required"@.len());
    assert("route_stability"@[0] != "loading_present"@[0]);
    assert("route_stability"@.len() != "skeleton_present"@.len());
    assert("route_stability"@.len() != "overlay_state"@.len());
    assert("route_stability"@.len() != "blocking_signals"@.len());
    assert("route_stability"@[0] != "degraded_reason"@[0]);
    assert("route_stability"@.len() != "current_interference"@.len());
    assert("route_stability"@.len() != "handoff_required"@.len());
    assert("loading_present"@.len() != "skeleton_present"@.len());
    assert("loading_present"@.len() != "overlay_state"@.len());
    assert("loading_present"@.len() != "blocking_signals"@.len());
    assert("loading_present"@[0] != "degraded_reason"@[0]);
    assert("loading_present"@.len() != "current_interference"@.len());
    assert("loading_present"@.len() != "handoff_required"@.len());
    assert("skeleton_present"@.len() != "overlay_state"@.len());
    assert("skeleton_present"@[0] != "blocking_signals"@[0]);
    assert("skeleton_present"@.len() != "degraded_reason"@.len());
    assert("skeleton_present"@.len() != "current_interference"@.len());
    assert("skeleton_present"@[0] != "handoff_required"@[0]);
    assert("overlay_state"@.len() != "blocking_signals"@.len());
    assert("overlay_state"@.len() != "degraded_reason"@.len());
    assert("overlay_state"@.len() != "current_interference"@.len());
    assert("overlay_state"@.len() != "handoff_required"@.len());
    assert("blocking_signals"@.len() != "degraded_reason"@.len());
    assert("blocking_signals"@.len() != "current_interference"@.len());
    assert("blocking_signals"@[0] != "handoff_required"@[0]);
    assert("degraded_reason"@.len() != "current_interference"@.len());
    assert("degraded_reason"@.len() != "handoff_required"@.len());
    assert("current_interference"@.len() != "handoff_required"@.len());
}

/// A probe answers with the assessment of the target, with the command lines that lead on
/// from it, and with what it was asked.
pub proof fn probes_answer_with_the_assessment(
    element: ElementModel,
    snapshot_id: Seq<char>,
    request: JsonModel,
    readiness: ReadinessInfo,
    interference: InterferenceRuntimeInfo,
)
    ensures
        ({
            let r = probe_payload(element, snapshot_id, request, readiness, interference);
            let a = super::assessment_of(element, readiness, interference);
            &&& json::member(r, "subject"@) matches Some(subject)
            &&& json::member(subject, "snapshot_id"@) == Some(JsonModel::Text(snapshot_id))
            &&& json::member(subject, "locator_request"@) == Some(request)
            &&& json::member(r, "result"@) matches Some(result)
            &&& json::member(result, "target"@) == Some(target::target_summary(element))
            &&& json::member(result, "readiness"@) == Some(readiness_json(readiness))
            &&& json::member(result, "interference"@) == Some(interference_json(interference))
            &&& json::member(result, "assessment"@) matches Some(shown)
            &&& json::member(shown, "likely_interactable"@) == Some(
                JsonModel::Bool(a.likely_interactable),
            )
            &&& json::member(shown, "next_command_hints"@) == Some(
                hints_json(hints::next_command_hints(element.tag, a.blocker_details, request)),
            )
        }),
{
    reveal_strlit("subject");
    reveal_strlit("result");
    assert("subject"@.len() != "result"@.len());
    reveal_strlit("kind");
    reveal_strlit("surface");
    reveal_strlit("snapshot_id");
    reveal_strlit("locator_request");
    assert("kind"@.len() != "surface"@.len());
    assert("kind"@.len() != "snapshot_id"@.len());
    assert("kind"@.len() != "locator_request"@.len());
    assert("surface"@.len() != "snapshot_id"@.len());
    assert("surface"@.len() != "locator_request"@.len());
    assert("snapshot_id"@.len() != "locator_request"@.len());
    reveal_strlit("target");
    reveal_strlit("hit_test");
    reveal_strlit("top_blocking_element");
    reveal_strlit("readiness");
    reveal_strlit("interference");
    reveal_strlit("assessment");
    assert("target"@.len() != "hit_test"@.len());
    assert("target"@.len() != "top_blocking_element"@.len());
    assert("target"@.len() != "readiness"@.len());
    assert("target"@.len() != "interference"@.len());
    assert("target"@.len() != "assessment"@.len());
    assert("hit_test"@.len() != "top_blocking_element"@.len());
    assert("hit_test"@.len() != "readiness"@.len());
    assert("hit_test"@.len() != "interference"@.len());
    assert("hit_test"@.len() != "assessment"@.len());
    assert("top_blocking_element"@.len() != "readiness"@.len());
    assert("top_blocking_element"@.len() != "interference"@.len());
    assert("top_blocking_element"@.len() != "assessment"@.len());
    assert("readiness"@.len() != "interference"@.len());
    assert("readiness"@.len() != "assessment"@.len());
    assert("interference"@.len() != "assessment"@.len());
    reveal_strlit("likely_interactable");
    reveal_strlit("blockers");
    reveal_strlit("blocker_details");
    reveal_strlit("summary");
    reveal_strlit("next_safe_actions");
    reveal_strlit("next_command_hints");
    assert("likely_interactable"@.len() != "blockers"@.len());
    assert("likely_interactable"@.len() != "blocker_details"@.len());
    assert("likely_interactable"@.len() != "summary"@.len());
    assert("likely_interactable"@.len() != "next_safe_actions"@.len());
    assert("likely_interactable"@.len() != "next_command_hints"@.len());
    assert("blockers"@.len() != "blocker_details"@.len());
    assert("blockers"@.len() != "summary"@.len());
    assert("blockers"@.len() != "next_safe_actions"@.len());
    assert("blockers"@.len() != "next_command_hints"@.len());
    assert("blocker_details"@.len() != "summary"@.len());
    assert("blocker_details"@.len() != "next_safe_actions"@.len());
    assert("blocker_details"@.len() != "next_command_hints"@.len());
    assert("summary"@.len() != "next_safe_actions"@.len());
    assert("summary"@.len() != "next_command_hints"@.len());
    assert("next_safe_actions"@.len() != "next_command_hints"@.len());
}

/// Each status of readiness goes by its own name.
pub proof fn readiness_goes_by_its_names(x: ReadinessStatus)
    ensures
        x == ReadinessStatus::Inactive <==> readiness_status_name(x) == "inactive"@,
        x == ReadinessStatus::Active <==> readiness_status_name(x) == "active"@,
        x == ReadinessStatus::Degraded <==> readiness_status_name(x) == "degraded"@,
{
    reveal_strlit("inactive");
    reveal_strlit("active");
    reveal_strlit("degraded");
    assert("inactive"@.len() != "active"@.len());
    assert("inactive"@[0] != "degraded"@[0]);
    assert("active"@.len() != "degraded"@.len());
}

/// Each stability of a route goes by its own name.
pub proof fn routes_go_by_their_names(x: RouteStability)
    ensures
        x == RouteStability::Unknown <==> route_stability_name(x) == "unknown"@,
        x == RouteStability::Stable <==> route_stability_name(x) == "stable"@,
        x == RouteStability::Transitioning <==> route_stability_name(x) == "transitioning"@,
{
    reveal_strlit("unknown");
    reveal_strlit("stable");
    reveal_strlit("transitioning");
    assert("unknown"@.len() != "stable"@.len());
    assert("unknown"@.len() != "transitioning"@.len());
    assert("stable"@.len() != "transitioning"@.len());
}

/// Each kind of overlay goes by its own name, and none by that.
pub proof fn overlays_go_by_their_names(x: OverlayState)
    ensures
        x == OverlayState::Absent <==> overlay_name(x) == "none"@,
        x == OverlayState::Development <==> overlay_name(x) == "development"@,
        x == OverlayState::UserBlocking <==> overlay_name(x) == "user_blocking"@,
{
    reveal_strlit("none");
    reveal_strlit("development");
    reveal_strlit("user_blocking");
    assert("none"@.len() != "development"@.len());
    assert("none"@.len() != "user_blocking"@.len());
    assert("development"@.len() != "user_blocking"@.len());
}

/// Each status of the interference runtime goes by its own name.
pub proof fn interference_statuses_go_by_their_names(x: InterferenceRuntimeStatus)
    ensures
        x == InterferenceRuntimeStatus::Inactive <==> interference_status_name(x) == "inactive"@,
        x == InterferenceRuntimeStatus::Active <==> interference_status_name(x) == "active"@,
        x == InterferenceRuntimeStatus::Degraded <==> interference_status_name(x) == "degraded"@,
{
    reveal_strlit("inactive");
    reveal_strlit("active");
    reveal_strlit("degraded");
    assert("inactive"@.len() != "active"@.len());
    assert("inactive"@[0] != "degraded"@[0]);
    assert("active"@.len() != "degraded"@.len());
}

} // verus!
