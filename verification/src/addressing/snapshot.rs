//! Whether a remembered snapshot may still stand for the page.

use vstd::prelude::*;
use crate::error::{self, ErrorCode, RubError};
use crate::json::{self, Json, JsonModel, JsonObject};
use crate::model::Snapshot;
use crate::text;

verus! {

#[derive(Clone, Copy, Debug, PartialEq, Eq, Structural)]
pub enum FrameContextStatus {
    Unknown,
    Top,
    Child,
    Stale,
    Degraded,
}

/// What the session knows of its page at the moment.
#[derive(Debug)]
pub struct SnapshotAuthorityState {
    pub current_epoch: u64,
    /// The page of the snapshot changed and the change is not taken in yet.
    pub pending_external_dom_change: bool,
    pub frame_status: FrameContextStatus,
    pub current_frame_id: Option<String>,
}

/// The error for a snapshot that is not remembered.
pub open spec fn unknown_snapshot(snapshot_id: Seq<char>, current_epoch: u64) -> error::ErrorModel {
    error::with_context(
        ErrorCode::StaleSnapshot,
        "Snapshot "@ + snapshot_id + " is unknown or evicted"@,
        JsonModel::Object(
            Map::<Seq<char>, JsonModel>::empty().insert(
                "snapshot_id"@,
                JsonModel::Text(snapshot_id),
            ).insert("current_epoch"@, json::number(current_epoch as int)),
        ),
    )
}

pub fn unknown_snapshot_error(snapshot_id: &str, current_epoch: u64) -> (r: RubError)
    ensures
        r@ == unknown_snapshot(snapshot_id@, current_epoch),
{
    let message = text::cat3("Snapshot ", snapshot_id, " is unknown or evicted");
    let context = JsonObject::new().with("snapshot_id", json::text_value(snapshot_id)).with(
        "current_epoch",
        json::uint_value(current_epoch),
    );
    RubError::domain_with_context(
        ErrorCode::StaleSnapshot,
        message.as_str(),
        Json::Object(context),
    )
}

pub open spec fn epoch_drift(
    snapshot_id: Seq<char>,
    snapshot_epoch: u64,
    current_epoch: u64,
) -> error::ErrorModel {
    error::with_context(
        ErrorCode::StaleSnapshot,
        "Snapshot "@ + snapshot_id + " is stale: snapshot epoch "@ + text::decimal(
            snapshot_epoch as nat,
        ) + " != current epoch "@ + text::decimal(current_epoch as nat),
        JsonModel::Object(
            Map::<Seq<char>, JsonModel>::empty().insert(
                "snapshot_id"@,
                JsonModel::Text(snapshot_id),
            ).insert("snapshot_epoch"@, json::number(snapshot_epoch as int)).insert(
                "current_epoch"@,
                json::number(current_epoch as int),
            ),
        ),
    )
}

pub open spec fn pending_drift(
    snapshot_id: Seq<char>,
    target_id: Option<Seq<char>>,
) -> error::ErrorModel {
    error::with_context(
        ErrorCode::StaleSnapshot,
        "Snapshot "@ + snapshot_id
            + " cannot be reused because external DOM drift is pending for its authority target"@,
        JsonModel::Object(
            Map::<Seq<char>, JsonModel>::empty().insert(
                "snapshot_id"@,
                JsonModel::Text(snapshot_id),
            ).insert("authority_state"@, JsonModel::Text("pending_external_dom_change"@)).insert(
                "target_id"@,
                json::opt_text_model(target_id),
            ),
        ),
    )
}

pub open spec fn refused(
    snapshot_id: Seq<char>,
    why: Seq<char>,
    authority_state: Seq<char>,
) -> error::ErrorModel {
    error::with_context(
        ErrorCode::StaleSnapshot,
        "Snapshot "@ + snapshot_id + why,
        JsonModel::Object(
            Map::<Seq<char>, JsonModel>::empty().insert(
                "snapshot_id"@,
                JsonModel::Text(snapshot_id),
            ).insert("authority_state"@, JsonModel::Text(authority_state)),
        ),
    )
}

fn refused_error(snapshot_id: &str, why: &str, authority_state: &str) -> (r: RubError)
    ensures
        r@ == refused(snapshot_id@, why@, authority_state@),
{
    let message = text::cat3("Snapshot ", snapshot_id, why);
    let context = JsonObject::new().with("snapshot_id", json::text_value(snapshot_id)).with(
        "authority_state",
        json::text_value(authority_state),
    );
    RubError::domain_with_context(
        ErrorCode::StaleSnapshot,
        message.as_str(),
        Json::Object(context),
    )
}

/// Why a remembered snapshot may not stand for the page: the page is in another
/// epoch, a change of it is pending, or the snapshot shows another frame than
/// the one asked for, or, without a frame asked for, than the one selected.
pub open spec fn refusal(
    state: SnapshotAuthorityState,
    snapshot_id: Seq<char>,
    snapshot: Snapshot,
    requested_frame_id: Option<Seq<char>>,
) -> Option<error::ErrorModel> {
    if snapshot.dom_epoch != state.current_epoch {
        Some(epoch_drift(snapshot_id, snapshot.dom_epoch, state.current_epoch))
    } else if state.pending_external_dom_change {
        Some(pending_drift(snapshot_id, text::opt_text(snapshot.frame_context.target_id)))
    } else if requested_frame_id is Some {
        if requested_frame_id->0 == snapshot.frame_context.frame_id@ {
            None
        } else {
            Some(
                refused(
                    snapshot_id,
                    " cannot satisfy the explicit frame-scoped request"@,
                    "explicit_frame_scope_mismatch"@,
                ),
            )
        }
    } else if state.frame_status == FrameContextStatus::Stale {
        Some(
            refused(
                snapshot_id,
                " cannot be used because the selected frame context is stale"@,
                "selected_frame_context_stale"@,
            ),
        )
    } else if text::opt_text(state.current_frame_id) != Some(
        snapshot.frame_context.frame_id@,
    ) {
        Some(
            refused(
                snapshot_id,
                " cannot be used because the selected frame context changed after the snapshot was captured"@,
                "selected_frame_context_drifted"@,
            ),
        )
    } else {
        None
    }
}

/// Whether a remembered snapshot may still stand for the page.
pub fn ensure_cached_snapshot_authority(
    state: &SnapshotAuthorityState,
    snapshot_id: &str,
    snapshot: &Snapshot,
    requested_frame_id: Option<&str>,
) -> (r: Result<(), RubError>)
    ensures
        error::err_model(r) == refusal(
            *state,
            snapshot_id@,
            *snapshot,
            json::opt_str_text(requested_frame_id),
        ),
{
    if snapshot.dom_epoch != state.current_epoch {
        let snapshot_epoch = text::decimal_string(snapshot.dom_epoch);
        let current_epoch = text::decimal_string(state.current_epoch);
        let head = text::cat3("Snapshot ", snapshot_id, " is stale: snapshot epoch ");
        let message = text::cat2(
            text::cat3(head.as_str(), snapshot_epoch.as_str(), " != current epoch ").as_str(),
            current_epoch.as_str(),
        );
        let context = JsonObject::new().with("snapshot_id", json::text_value(snapshot_id)).with(
            "snapshot_epoch",
            json::uint_value(snapshot.dom_epoch),
        ).with("current_epoch", json::uint_value(state.current_epoch));
        return Err(
            RubError::domain_with_context(
                ErrorCode::StaleSnapshot,
                message.as_str(),
                Json::Object(context),
            ),
        );
    }
    if state.pending_external_dom_change {
        let message = text::cat3(
            "Snapshot ",
            snapshot_id,
            " cannot be reused because external DOM drift is pending for its authority target",
        );
        let context = JsonObject::new().with("snapshot_id", json::text_value(snapshot_id)).with(
            "authority_state",
            json::text_value("pending_external_dom_change"),
        ).with("target_id", json::opt_text_value(&snapshot.frame_context.target_id));
        return Err(
            RubError::domain_with_context(
                ErrorCode::StaleSnapshot,
                message.as_str(),
                Json::Object(context),
            ),
        );
    }
    if let Some(requested) = requested_frame_id {
        if text::str_eq(requested, snapshot.frame_context.frame_id.as_str()) {
            return Ok(());
        }
        return Err(
            refused_error(
                snapshot_id,
                " cannot satisfy the explicit frame-scoped request",
                "explicit_frame_scope_mismatch",
            ),
        );
    }
    if matches!(state.frame_status, FrameContextStatus::Stale) {
        return Err(
            refused_error(
                snapshot_id,
                " cannot be used because the selected frame context is stale",
                "selected_frame_context_stale",
            ),
        );
    }
    let same_frame = match &state.current_frame_id {
        Some(id) => text::str_eq(id.as_str(), snapshot.frame_context.frame_id.as_str()),
        None => false,
    };
    if !same_frame {
        return Err(
            refused_error(
                snapshot_id,
                " cannot be used because the selected frame context changed after the snapshot was captured",
                "selected_frame_context_drifted",
            ),
        );
    }
    Ok(())
}

/// The remembered snapshot, if there is one and it may still stand for the
/// page.
pub fn load_cached_snapshot<'a>(
    state: &SnapshotAuthorityState,
    cached: Option<&'a Snapshot>,
    snapshot_id: &str,
    requested_frame_id: Option<&str>,
) -> (r: Result<&'a Snapshot, RubError>)
    ensures
        match (cached, r) {
            (Some(snapshot), Ok(s)) => *s == *snapshot && refusal(
                *state,
                snapshot_id@,
                *snapshot,
                json::opt_str_text(requested_frame_id),
            ) is None,
            (Some(snapshot), Err(e)) => refusal(
                *state,
                snapshot_id@,
                *snapshot,
                json::opt_str_text(requested_frame_id),
            ) == Some(e@),
            (None, Ok(_)) => false,
            (None, Err(e)) => e@ == unknown_snapshot(snapshot_id@, state.current_epoch),
        },
{
    match cached {
        Some(snapshot) => match ensure_cached_snapshot_authority(
            state,
            snapshot_id,
            snapshot,
            requested_frame_id,
        ) {
            Ok(_) => Ok(snapshot),
            Err(e) => Err(e),
        },
        None => Err(unknown_snapshot_error(snapshot_id, state.current_epoch)),
    }
}

/// A snapshot stands for the page only in the page's own epoch, without a
/// pending change, and for the frame that it shows.
pub proof fn authority_is_fail_closed(
    state: SnapshotAuthorityState,
    snapshot_id: Seq<char>,
    snapshot: Snapshot,
    requested_frame_id: Option<Seq<char>>,
)
    requires
        refusal(state, snapshot_id, snapshot, requested_frame_id) is None,
    ensures
        snapshot.dom_epoch == state.current_epoch,
        !state.pending_external_dom_change,
        requested_frame_id is Some ==> requested_frame_id->0 == snapshot.frame_context.frame_id@,
        requested_frame_id is None ==> state.frame_status != FrameContextStatus::Stale
            && text::opt_text(state.current_frame_id) == Some(snapshot.frame_context.frame_id@),
{
}

/// Every refusal says that the snapshot is stale.
pub proof fn refusals_are_stale_snapshots(
    state: SnapshotAuthorityState,
    snapshot_id: Seq<char>,
    snapshot: Snapshot,
    requested_frame_id: Option<Seq<char>>,
)
    requires
        refusal(state, snapshot_id, snapshot, requested_frame_id) is Some,
    ensures
        error::envelope_of(
            refusal(state, snapshot_id, snapshot, requested_frame_id)->0,
        ).code == ErrorCode::StaleSnapshot,
{
}

/// A snapshot that is of the page's own epoch, without a pending change, and of the frame
/// that is asked for, or without one of the selected frame while that is not stale, is never
/// refused.
pub proof fn fitting_snapshots_are_not_refused(
    state: SnapshotAuthorityState,
    snapshot_id: Seq<char>,
    snapshot: Snapshot,
    requested_frame_id: Option<Seq<char>>,
)
    ensures
        refusal(state, snapshot_id, snapshot, requested_frame_id) is None <==> snapshot.dom_epoch
            == state.current_epoch && !state.pending_external_dom_change && match requested_frame_id {
            Some(id) => id == snapshot.frame_context.frame_id@,
            None => state.frame_status != FrameContextStatus::Stale && (state.current_frame_id
                matches Some(id) && id@ == snapshot.frame_context.frame_id@),
        },
{
}

/// A snapshot that is refused is stale, and is named with what made it so.
pub proof fn refused_snapshots_are_stale(
    snapshot_id: Seq<char>,
    snapshot_epoch: u64,
    current_epoch: u64,
    target_id: Option<Seq<char>>,
    why: Seq<char>,
    authority_state: Seq<char>,
)
    ensures
        ({
            &&& unknown_snapshot(snapshot_id, current_epoch) matches error::ErrorModel::Domain(e)
            &&& e.code == ErrorCode::StaleSnapshot
            &&& e.context matches Some(c)
            &&& json::member(c, "snapshot_id"@) == Some(JsonModel::Text(snapshot_id))
            &&& json::member(c, "current_epoch"@) == Some(json::number(current_epoch as int))
        }),
        ({
            &&& epoch_drift(snapshot_id, snapshot_epoch, current_epoch) matches error::ErrorModel::Domain(e)
            &&& e.code == ErrorCode::StaleSnapshot
            &&& e.context matches Some(c)
            &&& json::member(c, "snapshot_id"@) == Some(JsonModel::Text(snapshot_id))
            &&& json::member(c, "snapshot_epoch"@) == Some(json::number(snapshot_epoch as int))
            &&& json::member(c, "current_epoch"@) == Some(json::number(current_epoch as int))
        }),
        ({
            &&& pending_drift(snapshot_id, target_id) matches error::ErrorModel::Domain(e)
            &&& e.code == ErrorCode::StaleSnapshot
            &&& e.context matches Some(c)
            &&& json::member(c, "snapshot_id"@) == Some(JsonModel::Text(snapshot_id))
            &&& json::member(c, "target_id"@) == Some(json::opt_text_model(target_id))
            &&& json::member(c, "authority_state"@) == Some(
                JsonModel::Text("pending_external_dom_change"@),
            )
        }),
        ({
            &&& refused(snapshot_id, why, authority_state) matches error::ErrorModel::Domain(e)
            &&& e.code == ErrorCode::StaleSnapshot
            &&& e.context matches Some(c)
            &&& json::member(c, "snapshot_id"@) == Some(JsonModel::Text(snapshot_id))
            &&& json::member(c, "authority_state"@) == Some(JsonModel::Text(authority_state))
        }),
{
    reveal_strlit("snapshot_id");
    reveal_strlit("current_epoch");
    reveal_strlit("snapshot_epoch");
    reveal_strlit("authority_state");
    reveal_strlit("target_id");
    assert("snapshot_id"@.len() != "current_epoch"@.len());
    assert("snapshot_id"@.len() != "snapshot_epoch"@.len());
    assert("snapshot_id"@.len() != "authority_state"@.len());
    assert("snapshot_id"@.len() != "target_id"@.len());
    assert("current_epoch"@.len() != "snapshot_epoch"@.len());
    assert("current_epoch"@.len() != "authority_state"@.len());
    assert("current_epoch"@.len() != "target_id"@.len());
    assert("snapshot_epoch"@.len() != "authority_state"@.len());
    assert("snapshot_epoch"@.len() != "target_id"@.len());
    assert("authority_state"@.len() != "target_id"@.len());
}

/// A snapshot is used exactly where it is remembered and nothing speaks against it, and then
/// as it is.
pub proof fn snapshots_are_used_as_remembered(
    state: SnapshotAuthorityState,
    cached: Option<&Snapshot>,
    snapshot_id: &str,
    requested_frame_id: Option<&str>,
    r: Result<&Snapshot, RubError>,
)
    requires
        call_ensures(
            load_cached_snapshot,
            (&state, cached, snapshot_id, requested_frame_id),
            r,
        ),
    ensures
        cached is None ==> r is Err,
        cached matches Some(s) ==> (r is Ok <==> refusal(
            state,
            snapshot_id@,
            *s,
            json::opt_str_text(requested_frame_id),
        ) is None),
        cached matches Some(s) ==> (r matches Ok(used) ==> *used == *s),
{
}

} // verus!
