//! What an interaction request leads to: where it acts, and what is answered.

use vstd::prelude::*;
use crate::artifacts;
use crate::error::{self, ErrorCode, RubError};
use crate::json::{self, Json, JsonModel, JsonObject};
use crate::model::InterferenceRuntimeStatus;
use crate::text;
use super::args::{
    click_gesture_name,
    requested_click_gesture,
    ClickArgs,
    ClickGesture,
    TextEntryArgs,
};
use super::args;

verus! {

/// Where a click goes.
#[derive(Clone, Copy, Debug, PartialEq, Eq, Structural)]
pub enum ClickPlan {
    /// To the point that the request names.
    Point { gesture: ClickGesture },
    /// To the element that the request names.
    Element { gesture: ClickGesture },
}

/// The plan follows from the arguments and their gesture.
pub open spec fn click_plan(click: ClickArgs, gesture: ClickGesture) -> ClickPlan {
    match click.xy {
        Some(_) => ClickPlan::Point { gesture },
        None => ClickPlan::Element { gesture },
    }
}

/// Decides where a click goes; a point wins over an element.
pub fn plan_click(click: &ClickArgs) -> (r: Result<ClickPlan, RubError>)
    ensures
        match r {
            Ok(plan) => exists|g: ClickGesture|
                args::gesture_outcome(text::opt_text(click.gesture), Ok(g)) && plan
                    == #[trigger] click_plan(*click, g),
            Err(e) => args::gesture_outcome(text::opt_text(click.gesture), Err(e)),
        },
{
    let name = match &click.gesture {
        Some(name) => Some(name.as_str()),
        None => None,
    };
    match requested_click_gesture(name) {
        Ok(gesture) => {
            let plan = match &click.xy {
                Some(_) => ClickPlan::Point { gesture },
                None => ClickPlan::Element { gesture },
            };
            assert(plan == click_plan(*click, gesture));
            Ok(plan)
        },
        Err(e) => Err(e),
    }
}

/// Where typed text goes.
#[derive(Clone, Copy, Debug, PartialEq, Eq, Structural)]
pub enum TextEntryPlan {
    /// Into the element that the request names.
    Element,
    /// To what has the focus in the selected frame.
    Focus,
}

pub open spec fn clear_without_target() -> error::ErrorModel {
    error::plain(
        ErrorCode::InvalidInput,
        "`type --clear` requires a target locator or index in the current baseline"@,
    )
}

/// Decides where typed text goes. What has the focus cannot be cleared first.
pub fn plan_text_entry(entry: &TextEntryArgs) -> (r: Result<TextEntryPlan, RubError>)
    ensures
        if entry.locator.requested() {
            r == Ok::<TextEntryPlan, RubError>(TextEntryPlan::Element)
        } else if entry.clear {
            error::err_model(r) == Some(clear_without_target())
        } else {
            r == Ok::<TextEntryPlan, RubError>(TextEntryPlan::Focus)
        },
{
    if entry.locator.is_requested() {
        Ok(TextEntryPlan::Element)
    } else if entry.clear {
        Err(
            RubError::domain(
                ErrorCode::InvalidInput,
                "`type --clear` requires a target locator or index in the current baseline",
            ),
        )
    } else {
        Ok(TextEntryPlan::Focus)
    }
}

/// The result of a click.
pub fn click_result(gesture: ClickGesture) -> (r: Json)
    ensures
        r@ == JsonModel::Object(
            Map::<Seq<char>, JsonModel>::empty().insert(
                "gesture"@,
                JsonModel::Text(args::gesture_name(gesture)),
            ).insert("dialog_dismissed"@, JsonModel::Null),
        ),
{
    Json::Object(
        JsonObject::new().with("gesture", json::text_value(click_gesture_name(gesture))).with(
            "dialog_dismissed",
            Json::Null,
        ),
    )
}

/// The result of typed text.
pub fn text_entry_result(entry: &TextEntryArgs) -> (r: Json)
    ensures
        r@ == JsonModel::Object(
            Map::<Seq<char>, JsonModel>::empty().insert(
                "text"@,
                JsonModel::Text(entry.text@),
            ).insert("clear"@, JsonModel::Bool(entry.clear)),
        ),
{
    Json::Object(
        JsonObject::new().with("text", json::text_value(entry.text.as_str())).with(
            "clear",
            Json::Bool(entry.clear),
        ),
    )
}

/// The result of sent keys.
pub fn keys_result(keys: &str) -> (r: Json)
    ensures
        r@ == json::object1("keys"@, JsonModel::Text(keys@)),
{
    Json::Object(JsonObject::new().with("keys", json::text_value(keys)))
}

/// The result of an upload: the path, marked as one that the client named.
pub fn upload_result(path: &str) -> (r: Json)
    ensures
        r@ == artifacts::marked(
            json::object1("path"@, JsonModel::Text(path@)),
            "path_state"@,
            artifacts::path_state(
                "input_path_reference"@,
                "router.upload.input_path"@,
                "upload_command_request"@,
                "external_input_file"@,
            ),
        ),
{
    let mut result = Json::Object(JsonObject::new().with("path", json::text_value(path)));
    artifacts::annotate_path_reference_state(
        &mut result,
        "router.upload.input_path",
        "upload_command_request",
        "external_input_file",
    );
    result
}

/// The result of a chosen option.
pub fn select_result(selected_value: &str, selected_text: &str) -> (r: Json)
    ensures
        r@ == JsonModel::Object(
            Map::<Seq<char>, JsonModel>::empty().insert(
                "value"@,
                JsonModel::Text(selected_value@),
            ).insert("text"@, JsonModel::Text(selected_text@)),
        ),
{
    Json::Object(
        JsonObject::new().with("value", json::text_value(selected_value)).with(
            "text",
            json::text_value(selected_text),
        ),
    )
}

#[derive(Clone, Copy, Debug, PartialEq, Eq, Structural)]
pub enum InteractionConfirmationStatus {
    Confirmed,
    Unconfirmed,
    Contradicted,
    Degraded,
}

#[derive(Clone, Copy, Debug, PartialEq, Eq, Structural)]
pub enum InteractionConfirmationKind {
    ContextChange,
    PageMutation,
    ValueApplied,
    ToggleState,
    FocusChange,
    HoverState,
    FilesAttached,
    DialogOpening,
}

/// What the browser saw of an interaction's effect.
#[derive(Clone, Copy, Debug, PartialEq, Eq, Structural)]
pub struct InteractionConfirmation {
    pub status: InteractionConfirmationStatus,
    pub kind: Option<InteractionConfirmationKind>,
}

/// Whether the page that an interaction led to becomes the one that later
/// interference is measured against: it does where nothing interferes and the
/// change of page was seen.
pub fn should_promote_primary_context(
    confirmation: Option<InteractionConfirmation>,
    interference_status: InterferenceRuntimeStatus,
) -> (r: bool)
    ensures
        r == (interference_status == InterferenceRuntimeStatus::Inactive && confirmation == Some(
            InteractionConfirmation {
                status: InteractionConfirmationStatus::Confirmed,
                kind: Some(InteractionConfirmationKind::ContextChange),
            },
        )),
{
    let idle = matches!(interference_status, InterferenceRuntimeStatus::Inactive);
    match confirmation {
        Some(c) => idle && matches!(c.status, InteractionConfirmationStatus::Confirmed) && matches!(
            c.kind,
            Some(InteractionConfirmationKind::ContextChange)
        ),
        None => false,
    }
}

/// How long the browser's events are waited for, in milliseconds.
pub const INTERACTION_BROWSER_EVENT_FENCE_TIMEOUT_MS: u64 = 250;

/// How long the browser's events must pause, in milliseconds.
pub const INTERACTION_BROWSER_EVENT_QUIET_PERIOD_MS: u64 = 20;

/// Whether a sample of the page can be used: only where no browser event was
/// committed while it was taken. Otherwise the position to wait from next.
pub fn next_observation_fence(fence_cursor: u64, current_cursor: u64) -> (r: Option<u64>)
    ensures
        r == (if current_cursor <= fence_cursor {
            None
        } else {
            Some(fence_cursor)
        }),
{
    if current_cursor <= fence_cursor {
        None
    } else {
        Some(fence_cursor)
    }
}

/// A click goes to its point exactly where it names one, and else to its element, with its
/// gesture either way.
pub proof fn points_win_over_elements(click: ClickArgs, gesture: ClickGesture)
    ensures
        click.xy is Some <==> click_plan(click, gesture) == (ClickPlan::Point { gesture }),
        click.xy is None <==> click_plan(click, gesture) == (ClickPlan::Element { gesture }),
{
}

/// Text goes to the element that is named, and without one to what has the focus; only an
/// element can be cleared.
pub proof fn text_goes_where_it_is_aimed(
    entry: TextEntryArgs,
    r: Result<TextEntryPlan, RubError>,
)
    requires
        call_ensures(plan_text_entry, (&entry,), r),
    ensures
        r == Ok::<TextEntryPlan, RubError>(TextEntryPlan::Element) <==> entry.locator.requested(),
        r == Ok::<TextEntryPlan, RubError>(TextEntryPlan::Focus) <==> !entry.locator.requested()
            && !entry.clear,
        r is Err <==> !entry.locator.requested() && entry.clear,
{
}

/// What was done is told with what it was done with.
pub proof fn results_tell_what_was_done(
    gesture: ClickGesture,
    entry: TextEntryArgs,
    keys: &str,
    path: &str,
    value: &str,
    label: &str,
    clicked: Json,
    entered: Json,
    pressed: Json,
    uploaded: Json,
    chosen: Json,
)
    requires
        call_ensures(click_result, (gesture,), clicked),
        call_ensures(text_entry_result, (&entry,), entered),
        call_ensures(keys_result, (keys,), pressed),
        call_ensures(upload_result, (path,), uploaded),
        call_ensures(select_result, (value, label), chosen),
    ensures
        json::member(clicked@, "gesture"@) == Some(JsonModel::Text(args::gesture_name(gesture))),
        json::member(entered@, "text"@) == Some(JsonModel::Text(entry.text@)),
        json::member(entered@, "clear"@) == Some(JsonModel::Bool(entry.clear)),
        json::member(pressed@, "keys"@) == Some(JsonModel::Text(keys@)),
        json::member(uploaded@, "path"@) == Some(JsonModel::Text(path@)),
        json::member(chosen@, "value"@) == Some(JsonModel::Text(value@)),
        json::member(chosen@, "text"@) == Some(JsonModel::Text(label@)),
{
    reveal_strlit("gesture");
    reveal_strlit("dialog_dismissed");
    assert("gesture"@.len() != "dialog_dismissed"@.len());
    reveal_strlit("text");
    reveal_strlit("clear");
    reveal_strlit("value");
    assert("text"@.len() != "clear"@.len());
    assert("text"@.len() != "value"@.len());
    assert("clear"@[0] != "value"@[0]);
    reveal_strlit("path");
    reveal_strlit("path_state");
    assert("path"@.len() != "path_state"@.len());
}

/// A context is taken over only where nothing interferes and a change of context was
/// confirmed; an observation is fenced off only where something came behind the fence.
pub proof fn confirmed_contexts_are_taken_over(
    confirmation: Option<InteractionConfirmation>,
    status: InterferenceRuntimeStatus,
    promoted: bool,
    fence_cursor: u64,
    current_cursor: u64,
    fence: Option<u64>,
)
    requires
        call_ensures(should_promote_primary_context, (confirmation, status), promoted),
        call_ensures(next_observation_fence, (fence_cursor, current_cursor), fence),
    ensures
        promoted <==> status == InterferenceRuntimeStatus::Inactive && (confirmation matches Some(c)
            && c.status == InteractionConfirmationStatus::Confirmed && c.kind == Some(
            InteractionConfirmationKind::ContextChange,
        )),
        fence is Some <==> current_cursor > fence_cursor,
        fence matches Some(f) ==> f == fence_cursor,
{
}

} // verus!
