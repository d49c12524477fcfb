//! The history of a session as a client reads it.

use vstd::prelude::*;
use crate::json::{self, Json, JsonModel, JsonObject};
use crate::text;
use super::export::WorkflowExportProjection;

verus! {

/// Commands that the session remembers, and what it lost of them.
#[derive(Debug)]
pub struct CommandHistoryProjection {
    pub entries: Vec<Json>,
    pub oldest_retained_sequence: Option<u64>,
    pub newest_retained_sequence: Option<u64>,
    pub dropped_before_retention: u64,
    pub dropped_before_projection: u64,
}

pub open spec fn opt_number(n: Option<u64>) -> JsonModel {
    match n {
        Some(n) => json::number(n as int),
        None => JsonModel::Null,
    }
}

fn opt_number_value(n: Option<u64>) -> (r: Json)
    ensures
        r@ == opt_number(n),
{
    match n {
        Some(n) => json::uint_value(n),
        None => Json::Null,
    }
}

/// Which part of the history was asked for: a range, or the last commands.
pub open spec fn selection_json(last: u64, from: Option<u64>, to: Option<u64>) -> JsonModel {
    if from is Some || to is Some {
        JsonModel::Object(
            Map::<Seq<char>, JsonModel>::empty().insert("from"@, opt_number(from)).insert(
                "to"@,
                opt_number(to),
            ),
        )
    } else {
        json::object1("last"@, json::number(last as int))
    }
}

pub fn export_selection_json(last: u64, from: Option<u64>, to: Option<u64>) -> (r: Json)
    ensures
        r@ == selection_json(last, from, to),
{
    if from.is_some() || to.is_some() {
        Json::Object(
            JsonObject::new().with("from", opt_number_value(from)).with(
                "to",
                opt_number_value(to),
            ),
        )
    } else {
        Json::Object(JsonObject::new().with("last", json::uint_value(last)))
    }
}

pub open spec fn subject_json(last: u64, from: Option<u64>, to: Option<u64>) -> JsonModel {
    JsonModel::Object(
        Map::<Seq<char>, JsonModel>::empty().insert(
            "kind"@,
            JsonModel::Text("command_history"@),
        ).insert("selection"@, selection_json(last, from, to)),
    )
}

pub fn history_subject(last: u64, from: Option<u64>, to: Option<u64>) -> (r: Json)
    ensures
        r@ == subject_json(last, from, to),
{
    Json::Object(
        JsonObject::new().with("kind", json::text_value("command_history")).with(
            "selection",
            export_selection_json(last, from, to),
        ),
    )
}

/// Whether retention cut a selection short: it reaches back behind what is
/// retained.
pub open spec fn cut_by_retention(
    last: u64,
    from: Option<u64>,
    to: Option<u64>,
    dropped_before_retention: u64,
    oldest: Option<u64>,
    retained: nat,
) -> bool {
    if dropped_before_retention == 0 || oldest is None {
        false
    } else if from is Some || to is Some {
        (if from is Some {
            from->0
        } else {
            1u64
        }) < oldest->0
    } else {
        last > retained
    }
}

pub fn is_cut_by_retention(
    last: u64,
    from: Option<u64>,
    to: Option<u64>,
    dropped_before_retention: u64,
    oldest: Option<u64>,
    retained: usize,
) -> (r: bool)
    ensures
        r == cut_by_retention(
            last,
            from,
            to,
            dropped_before_retention,
            oldest,
            retained as nat,
        ),
{
    if dropped_before_retention == 0 {
        return false;
    }
    let oldest = match oldest {
        Some(n) => n,
        None => return false,
    };
    if from.is_some() || to.is_some() {
        let requested_start: u64 = match from {
            Some(n) => n,
            None => 1,
        };
        requested_start < oldest
    } else {
        last > retained as u64
    }
}

/// Whether commands that were never recorded are missing from a selection. A
/// range speaks of recorded commands alone.
pub open spec fn cut_by_projection(
    last: u64,
    from: Option<u64>,
    to: Option<u64>,
    dropped_before_projection: u64,
    retained: nat,
) -> bool {
    dropped_before_projection != 0 && from is None && to is None && last > retained
}

pub fn is_cut_by_projection(
    last: u64,
    from: Option<u64>,
    to: Option<u64>,
    dropped_before_projection: u64,
    retained: usize,
) -> (r: bool)
    ensures
        r == cut_by_projection(last, from, to, dropped_before_projection, retained as nat),
{
    if dropped_before_projection == 0 {
        return false;
    }
    if from.is_some() || to.is_some() {
        return false;
    }
    last > retained as u64
}

/// The reasons that hold.
pub open spec fn reasons(
    first: bool,
    first_name: Seq<char>,
    second: bool,
    second_name: Seq<char>,
) -> Seq<Seq<char>> {
    (if first {
        seq![first_name]
    } else {
        seq![]
    }) + (if second {
        seq![second_name]
    } else {
        seq![]
    })
}

fn reason_list(first: bool, first_name: &str, second: bool, second_name: &str) -> (r: Vec<String>)
    ensures
        text::texts(r@) == reasons(first, first_name@, second, second_name@),
{
    let mut out: Vec<String> = Vec::new();
    if first {
        out.push(first_name.to_owned());
    }
    if second {
        out.push(second_name.to_owned());
    }
    assert(text::texts(out@) =~= reasons(first, first_name@, second, second_name@));
    out
}

/// What a projection of the history is worth.
pub open spec fn state_members(
    surface: Seq<char>,
    authority: Seq<char>,
    lossy_reasons: Seq<Seq<char>>,
) -> Map<Seq<char>, JsonModel> {
    Map::<Seq<char>, JsonModel>::empty().insert("surface"@, JsonModel::Text(surface)).insert(
        "projection_kind"@,
        JsonModel::Text("bounded_post_commit_projection"@),
    ).insert("truth_level"@, JsonModel::Text("operator_projection"@)).insert(
        "projection_authority"@,
        JsonModel::Text(authority),
    ).insert("upstream_commit_truth"@, JsonModel::Text("daemon_response_committed"@)).insert(
        "control_role"@,
        JsonModel::Text("display_only"@),
    ).insert("durability"@, JsonModel::Text("best_effort"@)).insert(
        "lossy"@,
        JsonModel::Bool(lossy_reasons.len() > 0),
    ).insert("lossy_reasons"@, json::texts_model(lossy_reasons))
}

fn state_object(surface: &str, authority: &str, lossy_reasons: &Vec<String>) -> (r: JsonObject)
    ensures
        r@ == state_members(surface@, authority@, text::texts(lossy_reasons@)),
{
    assert(text::texts(lossy_reasons@).len() == lossy_reasons@.len());
    JsonObject::new().with("surface", json::text_value(surface)).with(
        "projection_kind",
        json::text_value("bounded_post_commit_projection"),
    ).with("truth_level", json::text_value("operator_projection")).with(
        "projection_authority",
        json::text_value(authority),
    ).with("upstream_commit_truth", json::text_value("daemon_response_committed")).with(
        "control_role",
        json::text_value("display_only"),
    ).with("durability", json::text_value("best_effort")).with(
        "lossy",
        Json::Bool(lossy_reasons.len() > 0),
    ).with("lossy_reasons", json::texts_value(lossy_reasons))
}

/// What is missing from a selection of the command history, and from the history
/// as a whole where retention dropped commands.
pub open spec fn history_losses(
    last: u64,
    from: Option<u64>,
    to: Option<u64>,
    p: CommandHistoryProjection,
) -> Seq<Seq<char>> {
    reasons(
        cut_by_projection(last, from, to, p.dropped_before_projection, p.entries@.len()),
        "dropped_before_projection"@,
        p.dropped_before_retention > 0,
        "dropped_before_retention"@,
    )
}

pub fn command_history_projection_state_json(
    last: u64,
    from: Option<u64>,
    to: Option<u64>,
    projection: &CommandHistoryProjection,
) -> (r: Json)
    ensures
        r@ == JsonModel::Object(
            state_members(
                "command_history"@,
                "session.history"@,
                history_losses(last, from, to, *projection),
            ),
        ),
{
    let lossy_reasons = reason_list(
        is_cut_by_projection(
            last,
            from,
            to,
            projection.dropped_before_projection,
            projection.entries.len(),
        ),
        "dropped_before_projection",
        projection.dropped_before_retention > 0,
        "dropped_before_retention",
    );
    Json::Object(state_object("command_history", "session.history", &lossy_reasons))
}

/// Which commands the history retains.
pub open spec fn retention_json(p: CommandHistoryProjection) -> JsonModel {
    JsonModel::Object(
        Map::<Seq<char>, JsonModel>::empty().insert(
            "oldest_retained_sequence"@,
            opt_number(p.oldest_retained_sequence),
        ).insert("newest_retained_sequence"@, opt_number(p.newest_retained_sequence)).insert(
            "dropped_before_retention"@,
            json::number(p.dropped_before_retention as int),
        ),
    )
}

pub fn command_history_retention_window_json(projection: &CommandHistoryProjection) -> (r: Json)
    ensures
        r@ == retention_json(*projection),
{
    Json::Object(
        JsonObject::new().with(
            "oldest_retained_sequence",
            opt_number_value(projection.oldest_retained_sequence),
        ).with(
            "newest_retained_sequence",
            opt_number_value(projection.newest_retained_sequence),
        ).with("dropped_before_retention", json::uint_value(projection.dropped_before_retention)),
    )
}

/// What is missing from an export.
pub open spec fn export_losses(p: WorkflowExportProjection) -> Seq<Seq<char>> {
    reasons(
        p.selection_dropped_before_projection,
        "dropped_before_projection"@,
        p.selection_truncated_by_retention,
        "retention_truncated"@,
    )
}

/// What an export is worth. Commands that were never recorded are counted even
/// where none of them is missing from the selection.
pub open spec fn export_state_json(p: WorkflowExportProjection) -> JsonModel {
    JsonModel::Object(
        state_members(
            "workflow_capture_export"@,
            "session.workflow_capture"@,
            export_losses(p),
        ).insert(
            "global_projection_drop_count"@,
            json::number(p.capture_dropped_before_projection as int),
        ),
    )
}

pub fn workflow_export_projection_state_json(projection: &WorkflowExportProjection) -> (r: Json)
    ensures
        r@ == export_state_json(*projection),
{
    let lossy_reasons = reason_list(
        projection.selection_dropped_before_projection,
        "dropped_before_projection",
        projection.selection_truncated_by_retention,
        "retention_truncated",
    );
    Json::Object(
        state_object(
            "workflow_capture_export",
            "session.workflow_capture",
            &lossy_reasons,
        ).with(
            "global_projection_drop_count",
            json::uint_value(projection.capture_dropped_before_projection),
        ),
    )
}

/// Which commands the capture behind an export retains.
pub open spec fn capture_window_json(p: WorkflowExportProjection) -> JsonModel {
    JsonModel::Object(
        Map::<Seq<char>, JsonModel>::empty().insert(
            "oldest_retained_sequence"@,
            opt_number(p.capture_oldest_retained_sequence),
        ).insert(
            "newest_retained_sequence"@,
            opt_number(p.capture_newest_retained_sequence),
        ).insert(
            "dropped_before_retention"@,
            json::number(p.capture_dropped_before_retention as int),
        ).insert(
            "dropped_before_projection"@,
            json::number(p.capture_dropped_before_projection as int),
        ).insert("truncated"@, JsonModel::Bool(!p.complete)),
    )
}

pub fn history_capture_window_json(projection: &WorkflowExportProjection) -> (r: Json)
    ensures
        r@ == capture_window_json(*projection),
{
    Json::Object(
        JsonObject::new().with(
            "oldest_retained_sequence",
            opt_number_value(projection.capture_oldest_retained_sequence),
        ).with(
            "newest_retained_sequence",
            opt_number_value(projection.capture_newest_retained_sequence),
        ).with(
            "dropped_before_retention",
            json::uint_value(projection.capture_dropped_before_retention),
        ).with(
            "dropped_before_projection",
            json::uint_value(projection.capture_dropped_before_projection),
        ).with("truncated", Json::Bool(!projection.complete)),
    )
}

/// Whatever is selected, a history that retention dropped commands of says so.
pub proof fn retention_loss_is_always_told(
    last: u64,
    from: Option<u64>,
    to: Option<u64>,
    p: CommandHistoryProjection,
)
    ensures
        history_losses(last, from, to, p).contains("dropped_before_retention"@)
            == (p.dropped_before_retention > 0),
{
    reveal_strlit("dropped_before_retention");
    reveal_strlit("dropped_before_projection");
    assert("dropped_before_retention"@.len() != "dropped_before_projection"@.len());
    let losses = history_losses(last, from, to, p);
    if p.dropped_before_retention > 0 {
        assert(losses[losses.len() - 1] == "dropped_before_retention"@);
    }
}

/// A range never misses commands that were not recorded, whatever was lost of
/// the history as a whole.
pub proof fn ranges_ignore_unrecorded_commands(
    last: u64,
    from: Option<u64>,
    to: Option<u64>,
    dropped: u64,
    retained: nat,
)
    requires
        from is Some || to is Some,
    ensures
        !cut_by_projection(last, from, to, dropped, retained),
{
}

/// While retention has dropped nothing, asking for no more of the last commands
/// than there are misses none.
pub proof fn full_windows_are_lossless(last: u64, p: CommandHistoryProjection)
    requires
        last <= p.entries@.len(),
        p.dropped_before_retention == 0,
    ensures
        history_losses(last, None, None, p) == Seq::<Seq<char>>::empty(),
{
    assert(history_losses(last, None, None, p) =~= Seq::<Seq<char>>::empty());
}

/// Retention cuts a selection short exactly where something was dropped and the selection
/// reaches behind the oldest command that is retained: a range by its first number, which
/// is one where none is given, and the last commands by asking for more than there are.
pub proof fn retention_cuts_what_reaches_behind_it(
    last: u64,
    from: Option<u64>,
    to: Option<u64>,
    dropped: u64,
    oldest: u64,
    retained: nat,
)
    ensures
        !cut_by_retention(last, from, to, 0, Some(oldest), retained),
        !cut_by_retention(last, from, to, dropped, None, retained),
        dropped > 0 && from is None && to is None ==> (cut_by_retention(
            last,
            from,
            to,
            dropped,
            Some(oldest),
            retained,
        ) <==> last > retained),
        dropped > 0 ==> (from matches Some(n) ==> (cut_by_retention(
            last,
            from,
            to,
            dropped,
            Some(oldest),
            retained,
        ) <==> n < oldest)),
        dropped > 0 && from is None && to is Some ==> (cut_by_retention(
            last,
            from,
            to,
            dropped,
            Some(oldest),
            retained,
        ) <==> 1 < oldest),
{
}

/// Commands that were never recorded are missing exactly from a selection of more of the
/// last commands than there are.
pub proof fn unrecorded_commands_are_missing_from_the_last(
    last: u64,
    dropped: u64,
    retained: nat,
)
    ensures
        cut_by_projection(last, None, None, dropped, retained) <==> dropped > 0 && last > retained,
{
}

/// The reasons for a loss are those that hold, the first before the second.
pub proof fn reasons_are_those_that_hold(
    first: bool,
    first_name: Seq<char>,
    second: bool,
    second_name: Seq<char>,
)
    requires
        first_name != second_name,
    ensures
        ({
            let r = reasons(first, first_name, second, second_name);
            &&& r.contains(first_name) <==> first
            &&& r.contains(second_name) <==> second
            &&& r.len() == (if first {
                1int
            } else {
                0int
            }) + if second {
                1int
            } else {
                0int
            }
            &&& first && second ==> r == seq![first_name, second_name]
        }),
{
    let r = reasons(first, first_name, second, second_name);
    if first {
        assert(r[0] == first_name);
    }
    if second {
        assert(r[r.len() - 1] == second_name);
    }
    if first && second {
        assert(r =~= seq![first_name, second_name]);
    }
}

/// A projection is called lossy exactly where there is a reason for a loss, and lists the
/// reasons.
pub proof fn losses_are_told_with_their_reasons(
    surface: Seq<char>,
    authority: Seq<char>,
    losses: Seq<Seq<char>>,
)
    ensures
        ({
            let r = JsonModel::Object(state_members(surface, authority, losses));
            &&& json::member(r, "lossy"@) == Some(JsonModel::Bool(losses.len() > 0))
            &&& json::member(r, "lossy_reasons"@) == Some(json::texts_model(losses))
            &&& json::member(r, "surface"@) == Some(JsonModel::Text(surface))
            &&& json::member(r, "projection_authority"@) == Some(JsonModel::Text(authority))
        }),
{
    reveal_strlit("surface");
    reveal_strlit("projection_kind");
    reveal_strlit("truth_level");
    reveal_strlit("projection_authority");
    reveal_strlit("upstream_commit_truth");
    reveal_strlit("control_role");
    reveal_strlit("durability");
    reveal_strlit("lossy");
    reveal_strlit("lossy_reasons");
    assert("surface"@.len() != "projection_kind"@.len());
    assert("surface"@.len() != "truth_level"@.len());
    assert("surface"@.len() != "projection_authority"@.len());
    assert("surface"@.len() != "upstream_commit_truth"@.len());
    assert("surface"@.len() != "control_role"@.len());
    assert("surface"@.len() != "durability"@.len());
    assert("surface"@.len() != "lossy"@.len());
    assert("surface"@.len() != "lossy_reasons"@.len());
    assert("projection_kind"@.len() != "truth_level"@.len());
    assert("projection_kind"@.len() != "projection_authority"@.len());
    assert("projection_kind"@.len() != "upstream_commit_truth"@.len());
    assert("projection_kind"@.len() != "control_role"@.len());
    assert("projection_kind"@.len() != "durability"@.len());
    assert("projection_kind"@.len() != "lossy"@.len());
    assert("projection_kind"@.len() != "lossy_reasons"@.len());
    assert("truth_level"@.len() != "projection_authority"@.len());
    assert("truth_level"@.len() != "upstream_commit_truth"@.len());
    assert("truth_level"@.len() != "control_role"@.len());
    assert("truth_level"@.len() != "durability"@.len());
    assert("truth_level"@.len() != "lossy"@.len());
    assert("truth_level"@.len() != "lossy_reasons"@.len());
    assert("projection_authority"@.len() != "upstream_commit_truth"@.len());
    assert("projection_authority"@.len() != "control_role"@.len());
    assert("projection_authority"@.len() != "durability"@.len());
    assert("projection_authority"@.len() != "lossy"@.len());
    assert("projection_authority"@.len() != "lossy_reasons"@.len());
    assert("upstream_commit_truth"@.len() != "control_role"@.len());
    assert("upstream_commit_truth"@.len() != "durability"@.len());
    assert("upstream_commit_truth"@.len() != "lossy"@.len());
    assert("upstream_commit_truth"@.len() != "lossy_reasons"@.len());
    assert("control_role"@.len() != "durability"@.len());
    assert("control_role"@.len() != "lossy"@.len());
    assert("control_role"@.len() != "lossy_reasons"@.len());
    assert("durability"@.len() != "lossy"@.len());
    assert("durability"@.len() != "lossy_reasons"@.len());
    assert("lossy"@.len() != "lossy_reasons"@.len());
}

/// A selection is told as a range exactly where one was asked for, with an open end as
/// null, and else as a number of the last commands.
pub proof fn selections_are_told_as_asked(last: u64, from: Option<u64>, to: Option<u64>)
    ensures
        ({
            let r = selection_json(last, from, to);
            if from is None && to is None {
                json::member(r, "last"@) == Some(json::number(last as int)) && json::member(
                    r,
                    "from"@,
                ) is None && json::member(r, "to"@) is None
            } else {
                json::member(r, "from"@) == Some(opt_number(from)) && json::member(r, "to"@) == Some(
                    opt_number(to),
                ) && json::member(r, "last"@) is None
            }
        }),
        opt_number(None) == JsonModel::Null,
        from matches Some(n) ==> opt_number(from) == json::number(n as int),
{
    reveal_strlit("last");
    reveal_strlit("from");
    reveal_strlit("to");
    assert("last"@[0] != "from"@[0]);
    assert("last"@.len() != "to"@.len());
    assert("from"@.len() != "to"@.len());
}

/// A retention window shows the oldest and the newest command that are retained, and how
/// many were dropped.
pub proof fn windows_show_their_ends(p: CommandHistoryProjection, e: WorkflowExportProjection)
    ensures
        json::member(retention_json(p), "oldest_retained_sequence"@) == Some(
            opt_number(p.oldest_retained_sequence),
        ),
        json::member(retention_json(p), "newest_retained_sequence"@) == Some(
            opt_number(p.newest_retained_sequence),
        ),
        json::member(retention_json(p), "dropped_before_retention"@) == Some(
            json::number(p.dropped_before_retention as int),
        ),
        json::member(capture_window_json(e), "oldest_retained_sequence"@) == Some(
            opt_number(e.capture_oldest_retained_sequence),
        ),
        json::member(capture_window_json(e), "newest_retained_sequence"@) == Some(
            opt_number(e.capture_newest_retained_sequence),
        ),
        json::member(capture_window_json(e), "dropped_before_retention"@) == Some(
            json::number(e.capture_dropped_before_retention as int),
        ),
        json::member(capture_window_json(e), "dropped_before_projection"@) == Some(
            json::number(e.capture_dropped_before_projection as int),
        ),
        json::member(capture_window_json(e), "truncated"@) == Some(JsonModel::Bool(!e.complete)),
{
    reveal_strlit("oldest_retained_sequence");
    reveal_strlit("newest_retained_sequence");
    reveal_strlit("dropped_before_retention");
    reveal_strlit("dropped_before_projection");
    reveal_strlit("truncated");
    assert("oldest_retained_sequence"@[0] != "newest_retained_sequence"@[0]);
    assert("oldest_retained_sequence"@[0] != "dropped_before_retention"@[0]);
    assert("oldest_retained_sequence"@.len() != "dropped_before_projection"@.len());
    assert("oldest_retained_sequence"@.len() != "truncated"@.len());
    assert("newest_retained_sequence"@[0] != "dropped_before_retention"@[0]);
    assert("newest_retained_sequence"@.len() != "dropped_before_projection"@.len());
    assert("newest_retained_sequence"@.len() != "truncated"@.len());
    assert("dropped_before_retention"@.len() != "dropped_before_projection"@.len());
    assert("dropped_before_retention"@.len() != "truncated"@.len());
    assert("dropped_before_projection"@.len() != "truncated"@.len());
}

/// An export says what is missing from its selection, and how many commands were never
/// recorded at all.
pub proof fn exports_say_what_is_missing(p: WorkflowExportProjection)
    ensures
        ({
            let j = export_state_json(p);
            let lossy = p.selection_dropped_before_projection || p.selection_truncated_by_retention;
            &&& json::member(j, "lossy"@) == Some(JsonModel::Bool(lossy))
            &&& json::member(j, "global_projection_drop_count"@) == Some(
                json::number(p.capture_dropped_before_projection as int),
            )
            &&& export_losses(p).contains("dropped_before_projection"@)
                <==> p.selection_dropped_before_projection
            &&& export_losses(p).contains("retention_truncated"@)
                <==> p.selection_truncated_by_retention
        }),
{
    reveal_strlit("dropped_before_projection");
    reveal_strlit("retention_truncated");
    assert("dropped_before_projection"@.len() != "retention_truncated"@.len());
    reveal_strlit("lossy");
    reveal_strlit("lossy_reasons");
    reveal_strlit("global_projection_drop_count");
    assert("lossy"@.len() != "lossy_reasons"@.len());
    assert("lossy"@.len() != "global_projection_drop_count"@.len());
    assert("lossy_reasons"@.len() != "global_projection_drop_count"@.len());
    let l = export_losses(p);
    if p.selection_dropped_before_projection {
        assert(l[0] == "dropped_before_projection"@);
    }
    if p.selection_truncated_by_retention {
        assert(l.last() == "retention_truncated"@);
        assert(l[l.len() - 1] == "retention_truncated"@);
    }
}

} // verus!
