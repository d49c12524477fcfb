//! Exporting the history as a workflow that can be replayed.

use vstd::prelude::*;
use crate::json::{self, Json, JsonModel, JsonObject};
use crate::json_text;
use crate::text;
use super::projection::{
    self,
    export_selection_json,
    history_capture_window_json,
    history_subject,
    is_cut_by_projection,
    is_cut_by_retention,
    workflow_export_projection_state_json,
};

verus! {

/// What a captured command is for a workflow.
#[derive(Clone, Copy, Debug, PartialEq, Eq, Structural)]
pub enum WorkflowCaptureClass {
    Workflow,
    Observation,
    Administrative,
}

/// Whether the answer to a captured command reached the client.
#[derive(Clone, Copy, Debug, PartialEq, Eq, Structural)]
pub enum WorkflowCaptureDeliveryState {
    Delivered,
    DeliveryFailedAfterCommit,
}

/// A captured command.
#[derive(Debug)]
pub struct WorkflowCaptureEntry {
    pub sequence: u64,
    pub request_id: String,
    pub command_id: Option<String>,
    pub command: String,
    pub args: Json,
    pub capture_class: WorkflowCaptureClass,
    pub delivery_state: WorkflowCaptureDeliveryState,
    pub workflow_allowed: bool,
}

/// Captured commands, and what was lost of them.
#[derive(Debug)]
pub struct WorkflowCaptureProjection {
    pub entries: Vec<WorkflowCaptureEntry>,
    pub oldest_retained_sequence: Option<u64>,
    pub newest_retained_sequence: Option<u64>,
    pub dropped_before_retention: u64,
    pub dropped_before_projection: u64,
}

/// A step of an exported workflow.
#[derive(Debug)]
pub struct WorkflowExportStep {
    pub command: String,
    pub args: Json,
    pub source: Json,
}

/// A step of an exported workflow, over models.
#[verifier::ext_equal]
pub struct StepModel {
    pub command: Seq<char>,
    pub args: JsonModel,
    pub source: JsonModel,
}

impl View for WorkflowExportStep {
    type V = StepModel;

    open spec fn view(&self) -> StepModel {
        StepModel { command: self.command@, args: self.args@, source: self.source@ }
    }
}

pub open spec fn step_models(v: Seq<WorkflowExportStep>) -> Seq<StepModel> {
    Seq::new(v.len(), |i: int| v[i]@)
}

/// An exported workflow.
#[derive(Debug)]
pub struct WorkflowExportProjection {
    pub steps: Vec<WorkflowExportStep>,
    pub source_count: usize,
    pub included_observation: bool,
    pub skipped_administrative: usize,
    pub skipped_observation: usize,
    pub skipped_ineligible: usize,
    pub complete: bool,
    pub selection_dropped_before_projection: bool,
    pub capture_oldest_retained_sequence: Option<u64>,
    pub capture_newest_retained_sequence: Option<u64>,
    pub capture_dropped_before_retention: u64,
    pub capture_dropped_before_projection: u64,
    pub selection_truncated_by_retention: bool,
}

pub open spec fn in_range(sequence: u64, from: Option<u64>, to: Option<u64>) -> bool {
    (from is Some ==> from->0 <= sequence) && (to is Some ==> sequence <= to->0)
}

pub fn matches_export_range(sequence: u64, from: Option<u64>, to: Option<u64>) -> (r: bool)
    ensures
        r == in_range(sequence, from, to),
{
    if let Some(from) = from {
        if sequence < from {
            return false;
        }
    }
    if let Some(to) = to {
        if sequence > to {
            return false;
        }
    }
    true
}

pub fn export_selection_is_truncated_by_retention(
    last: u64,
    from: Option<u64>,
    to: Option<u64>,
    projection: &WorkflowCaptureProjection,
) -> (r: bool)
    ensures
        r == projection::cut_by_retention(
            last,
            from,
            to,
            projection.dropped_before_retention,
            projection.oldest_retained_sequence,
            projection.entries@.len(),
        ),
{
    is_cut_by_retention(
        last,
        from,
        to,
        projection.dropped_before_retention,
        projection.oldest_retained_sequence,
        projection.entries.len(),
    )
}

pub fn export_selection_is_affected_by_projection_loss(
    last: u64,
    from: Option<u64>,
    to: Option<u64>,
    projection: &WorkflowCaptureProjection,
) -> (r: bool)
    ensures
        r == projection::cut_by_projection(
            last,
            from,
            to,
            projection.dropped_before_projection,
            projection.entries@.len(),
        ),
{
    is_cut_by_projection(
        last,
        from,
        to,
        projection.dropped_before_projection,
        projection.entries.len(),
    )
}

/// What becomes of a captured command in an export.
#[derive(Clone, Copy, Debug, PartialEq, Eq, Structural)]
pub enum ExportFate {
    OutOfRange,
    Administrative,
    Observation,
    Ineligible,
    Exported,
}

pub open spec fn fate(
    e: WorkflowCaptureEntry,
    from: Option<u64>,
    to: Option<u64>,
    include_observation: bool,
) -> ExportFate {
    if !in_range(e.sequence, from, to) {
        ExportFate::OutOfRange
    } else if e.capture_class == WorkflowCaptureClass::Administrative {
        ExportFate::Administrative
    } else if e.capture_class == WorkflowCaptureClass::Observation && !include_observation {
        ExportFate::Observation
    } else if !e.workflow_allowed {
        ExportFate::Ineligible
    } else {
        ExportFate::Exported
    }
}

fn fate_of(
    e: &WorkflowCaptureEntry,
    from: Option<u64>,
    to: Option<u64>,
    include_observation: bool,
) -> (r: ExportFate)
    ensures
        r == fate(*e, from, to, include_observation),
{
    if !matches_export_range(e.sequence, from, to) {
        return ExportFate::OutOfRange;
    }
    match e.capture_class {
        WorkflowCaptureClass::Administrative => return ExportFate::Administrative,
        WorkflowCaptureClass::Observation => {
            if !include_observation {
                return ExportFate::Observation;
            }
        },
        WorkflowCaptureClass::Workflow => {},
    }
    if !e.workflow_allowed {
        return ExportFate::Ineligible;
    }
    ExportFate::Exported
}

pub open spec fn class_name(c: WorkflowCaptureClass) -> Seq<char> {
    match c {
        WorkflowCaptureClass::Workflow => "workflow"@,
        WorkflowCaptureClass::Observation => "observation"@,
        WorkflowCaptureClass::Administrative => "administrative"@,
    }
}

fn class_str(c: WorkflowCaptureClass) -> (r: &'static str)
    ensures
        r@ == class_name(c),
{
    match c {
        WorkflowCaptureClass::Workflow => "workflow",
        WorkflowCaptureClass::Observation => "observation",
        WorkflowCaptureClass::Administrative => "administrative",
    }
}

pub open spec fn delivery_name(d: WorkflowCaptureDeliveryState) -> Seq<char> {
    match d {
        WorkflowCaptureDeliveryState::Delivered => "delivered"@,
        WorkflowCaptureDeliveryState::DeliveryFailedAfterCommit =>
            "delivery_failed_after_commit"@,
    }
}

fn delivery_str(d: WorkflowCaptureDeliveryState) -> (r: &'static str)
    ensures
        r@ == delivery_name(d),
{
    match d {
        WorkflowCaptureDeliveryState::Delivered => "delivered",
        WorkflowCaptureDeliveryState::DeliveryFailedAfterCommit => "delivery_failed_after_commit",
    }
}

/// The step for a captured command.
pub open spec fn step_of(e: WorkflowCaptureEntry) -> StepModel {
    StepModel {
        command: e.command@,
        args: e.args@,
        source: JsonModel::Object(
            Map::<Seq<char>, JsonModel>::empty().insert(
                "sequence"@,
                json::number(e.sequence as int),
            ).insert("request_id"@, JsonModel::Text(e.request_id@)).insert(
                "command_id"@,
                json::opt_text_model(text::opt_text(e.command_id)),
            ).insert("capture_class"@, JsonModel::Text(class_name(e.capture_class))).insert(
                "delivery_state"@,
                JsonModel::Text(delivery_name(e.delivery_state)),
            ),
        ),
    }
}

pub fn export_step(entry: &WorkflowCaptureEntry) -> (r: WorkflowExportStep)
    ensures
        r@ == step_of(*entry),
{
    let source = JsonObject::new().with("sequence", json::uint_value(entry.sequence)).with(
        "request_id",
        json::text_value(entry.request_id.as_str()),
    ).with("command_id", json::opt_text_value(&entry.command_id)).with(
        "capture_class",
        json::text_value(class_str(entry.capture_class)),
    ).with("delivery_state", json::text_value(delivery_str(entry.delivery_state)));
    WorkflowExportStep {
        command: entry.command.clone(),
        args: entry.args.clone(),
        source: Json::Object(source),
    }
}

/// The steps of an export: the exported commands in order.
pub open spec fn exported_steps(
    s: Seq<WorkflowCaptureEntry>,
    from: Option<u64>,
    to: Option<u64>,
    include_observation: bool,
) -> Seq<StepModel>
    decreases s.len(),
{
    if s.len() == 0 {
        seq![]
    } else {
        let front = exported_steps(s.drop_last(), from, to, include_observation);
        if fate(s.last(), from, to, include_observation) == ExportFate::Exported {
            front.push(step_of(s.last()))
        } else {
            front
        }
    }
}

/// How many captured commands meet a fate.
pub open spec fn with_fate(
    s: Seq<WorkflowCaptureEntry>,
    from: Option<u64>,
    to: Option<u64>,
    include_observation: bool,
    wanted: ExportFate,
) -> int
    decreases s.len(),
{
    if s.len() == 0 {
        0
    } else {
        with_fate(s.drop_last(), from, to, include_observation, wanted) + (if fate(
            s.last(),
            from,
            to,
            include_observation,
        ) == wanted {
            1int
        } else {
            0int
        })
    }
}

/// Whether an export is the one of a capture.
pub open spec fn export_of(
    p: WorkflowExportProjection,
    capture: WorkflowCaptureProjection,
    last: u64,
    from: Option<u64>,
    to: Option<u64>,
    include_observation: bool,
) -> bool {
    let s = capture.entries@;
    &&& step_models(p.steps@) == exported_steps(s, from, to, include_observation)
    &&& p.source_count == s.len()
    &&& p.included_observation == include_observation
    &&& p.skipped_administrative == with_fate(
        s,
        from,
        to,
        include_observation,
        ExportFate::Administrative,
    )
    &&& p.skipped_observation == with_fate(
        s,
        from,
        to,
        include_observation,
        ExportFate::Observation,
    )
    &&& p.skipped_ineligible == with_fate(
        s,
        from,
        to,
        include_observation,
        ExportFate::Ineligible,
    )
    &&& p.selection_truncated_by_retention == projection::cut_by_retention(
        last,
        from,
        to,
        capture.dropped_before_retention,
        capture.oldest_retained_sequence,
        s.len(),
    )
    &&& p.selection_dropped_before_projection == projection::cut_by_projection(
        last,
        from,
        to,
        capture.dropped_before_projection,
        s.len(),
    )
    &&& p.complete == (!p.selection_truncated_by_retention
        && !p.selection_dropped_before_projection)
    &&& p.capture_oldest_retained_sequence == capture.oldest_retained_sequence
    &&& p.capture_newest_retained_sequence == capture.newest_retained_sequence
    &&& p.capture_dropped_before_retention == capture.dropped_before_retention
    &&& p.capture_dropped_before_projection == capture.dropped_before_projection
}

/// Exports a capture: commands in range that are no administration, no
/// observation unless wanted, and allowed in a workflow.
pub fn build_export_projection(
    capture: &WorkflowCaptureProjection,
    last: u64,
    from: Option<u64>,
    to: Option<u64>,
    include_observation: bool,
) -> (r: WorkflowExportProjection)
    ensures
        export_of(r, *capture, last, from, to, include_observation),
{
    let selection_truncated_by_retention = export_selection_is_truncated_by_retention(
        last,
        from,
        to,
        capture,
    );
    let selection_dropped_before_projection = export_selection_is_affected_by_projection_loss(
        last,
        from,
        to,
        capture,
    );
    let ghost s = capture.entries@;
    let mut steps: Vec<WorkflowExportStep> = Vec::new();
    let mut skipped_administrative: usize = 0;
    let mut skipped_observation: usize = 0;
    let mut skipped_ineligible: usize = 0;
    let mut i: usize = 0;
    assert(step_models(steps@) =~= exported_steps(s.take(0), from, to, include_observation));
    while i < capture.entries.len()
        invariant
            i <= capture.entries@.len(),
            s == capture.entries@,
            step_models(steps@) == exported_steps(
                s.take(i as int),
                from,
                to,
                include_observation,
            ),
            skipped_administrative == with_fate(
                s.take(i as int),
                from,
                to,
                include_observation,
                ExportFate::Administrative,
            ),
            skipped_observation == with_fate(
                s.take(i as int),
                from,
                to,
                include_observation,
                ExportFate::Observation,
            ),
            skipped_ineligible == with_fate(
                s.take(i as int),
                from,
                to,
                include_observation,
                ExportFate::Ineligible,
            ),
            skipped_administrative <= i,
            skipped_observation <= i,
            skipped_ineligible <= i,
        decreases capture.entries@.len() - i,
    {
        assert(s.take(i + 1).drop_last() =~= s.take(i as int));
        let entry = &capture.entries[i];
        match fate_of(entry, from, to, include_observation) {
            ExportFate::OutOfRange => {},
            ExportFate::Administrative => {
                skipped_administrative += 1;
            },
            ExportFate::Observation => {
                skipped_observation += 1;
            },
            ExportFate::Ineligible => {
                skipped_ineligible += 1;
            },
            ExportFate::Exported => {
                let ghost before = step_models(steps@);
                let step = export_step(entry);
                steps.push(step);
                assert(step_models(steps@) =~= before.push(step@));
            },
        }
        i += 1;
    }
    assert(s.take(i as int) =~= s);
    WorkflowExportProjection {
        steps,
        source_count: capture.entries.len(),
        included_observation: include_observation,
        skipped_administrative,
        skipped_observation,
        skipped_ineligible,
        complete: !selection_truncated_by_retention && !selection_dropped_before_projection,
        selection_dropped_before_projection,
        capture_oldest_retained_sequence: capture.oldest_retained_sequence,
        capture_newest_retained_sequence: capture.newest_retained_sequence,
        capture_dropped_before_retention: capture.dropped_before_retention,
        capture_dropped_before_projection: capture.dropped_before_projection,
        selection_truncated_by_retention,
    }
}

/// Every captured command is exported, skipped for one reason, or out of range.
pub proof fn exports_account_for_every_command(
    s: Seq<WorkflowCaptureEntry>,
    from: Option<u64>,
    to: Option<u64>,
    include_observation: bool,
)
    ensures
        exported_steps(s, from, to, include_observation).len() + with_fate(
            s,
            from,
            to,
            include_observation,
            ExportFate::Administrative,
        ) + with_fate(s, from, to, include_observation, ExportFate::Observation) + with_fate(
            s,
            from,
            to,
            include_observation,
            ExportFate::Ineligible,
        ) + with_fate(s, from, to, include_observation, ExportFate::OutOfRange) == s.len(),
        with_fate(s, from, to, include_observation, ExportFate::OutOfRange) >= 0,
        with_fate(s, from, to, include_observation, ExportFate::Administrative) >= 0,
        with_fate(s, from, to, include_observation, ExportFate::Observation) >= 0,
        with_fate(s, from, to, include_observation, ExportFate::Ineligible) >= 0,
    decreases s.len(),
{
    if s.len() > 0 {
        exports_account_for_every_command(s.drop_last(), from, to, include_observation);
    }
}

/// With observations included none is skipped as one, and administration is
/// never exported.
pub proof fn included_observations_are_not_skipped(
    s: Seq<WorkflowCaptureEntry>,
    from: Option<u64>,
    to: Option<u64>,
)
    ensures
        with_fate(s, from, to, true, ExportFate::Observation) == 0,
    decreases s.len(),
{
    if s.len() > 0 {
        included_observations_are_not_skipped(s.drop_last(), from, to);
    }
}

/// A step that can be replayed.
pub open spec fn replayable_json(s: StepModel) -> JsonModel {
    JsonModel::Object(
        Map::<Seq<char>, JsonModel>::empty().insert(
            "command"@,
            JsonModel::Text(s.command),
        ).insert("args"@, s.args),
    )
}

/// A step with where it comes from.
pub open spec fn step_json(s: StepModel) -> JsonModel {
    JsonModel::Object(
        Map::<Seq<char>, JsonModel>::empty().insert(
            "command"@,
            JsonModel::Text(s.command),
        ).insert("args"@, s.args).insert("source"@, s.source),
    )
}

pub fn export_step_json(step: &WorkflowExportStep) -> (r: Json)
    ensures
        r@ == step_json(step@),
{
    Json::Object(
        JsonObject::new().with("command", json::text_value(step.command.as_str())).with(
            "args",
            step.args.clone(),
        ).with("source", step.source.clone()),
    )
}

pub fn replayable_export_step_json(step: &WorkflowExportStep) -> (r: Json)
    ensures
        r@ == replayable_json(step@),
{
    Json::Object(
        JsonObject::new().with("command", json::text_value(step.command.as_str())).with(
            "args",
            step.args.clone(),
        ),
    )
}

pub open spec fn steps_json(s: Seq<StepModel>, with_source: bool) -> JsonModel {
    JsonModel::Array(
        s.map_values(
            |m: StepModel|
                if with_source {
                    step_json(m)
                } else {
                    replayable_json(m)
                },
        ),
    )
}

fn steps_value(steps: &Vec<WorkflowExportStep>, with_source: bool) -> (r: Json)
    ensures
        r@ == steps_json(step_models(steps@), with_source),
{
    let ghost all = steps_json(step_models(steps@), with_source)->Array_0;
    let mut items: Vec<Json> = Vec::new();
    let mut i: usize = 0;
    assert(json::items_model(items@) =~= all.take(0));
    while i < steps.len()
        invariant
            i <= steps@.len(),
            all == steps_json(step_models(steps@), with_source)->Array_0,
            json::items_model(items@) == all.take(i as int),
        decreases steps@.len() - i,
    {
        let item = if with_source {
            export_step_json(&steps[i])
        } else {
            replayable_export_step_json(&steps[i])
        };
        let ghost before = items@;
        items.push(item);
        proof {
            assert(items@.drop_last() =~= before);
            assert(all.take(i + 1) =~= all.take(i as int).push(all[i as int]));
        }
        i += 1;
    }
    assert(all.take(i as int) =~= all);
    Json::Array(items)
}

/// What every export says beside its steps.
pub open spec fn export_members(
    base: Map<Seq<char>, JsonModel>,
    p: WorkflowExportProjection,
    last: u64,
    from: Option<u64>,
    to: Option<u64>,
) -> Map<Seq<char>, JsonModel> {
    base.insert("projection_state"@, projection::export_state_json(p)).insert(
        "selection"@,
        projection::selection_json(last, from, to),
    ).insert("complete"@, JsonModel::Bool(p.complete)).insert(
        "capture_window"@,
        projection::capture_window_json(p),
    ).insert("included_observation"@, JsonModel::Bool(p.included_observation)).insert(
        "source_count"@,
        json::number(p.source_count as int),
    ).insert(
        "skipped"@,
        JsonModel::Object(
            Map::<Seq<char>, JsonModel>::empty().insert(
                "administrative"@,
                json::number(p.skipped_administrative as int),
            ).insert("observation"@, json::number(p.skipped_observation as int)).insert(
                "ineligible"@,
                json::number(p.skipped_ineligible as int),
            ),
        ),
    )
}

fn export_object(
    base: JsonObject,
    p: &WorkflowExportProjection,
    last: u64,
    from: Option<u64>,
    to: Option<u64>,
) -> (r: JsonObject)
    ensures
        r@ == export_members(base@, *p, last, from, to),
{
    let skipped = JsonObject::new().with(
        "administrative",
        json::uint_value(p.skipped_administrative as u64),
    ).with("observation", json::uint_value(p.skipped_observation as u64)).with(
        "ineligible",
        json::uint_value(p.skipped_ineligible as u64),
    );
    base.with("projection_state", workflow_export_projection_state_json(p)).with(
        "selection",
        export_selection_json(last, from, to),
    ).with("complete", Json::Bool(p.complete)).with(
        "capture_window",
        history_capture_window_json(p),
    ).with("included_observation", Json::Bool(p.included_observation)).with(
        "source_count",
        json::uint_value(p.source_count as u64),
    ).with("skipped", Json::Object(skipped))
}

pub open spec fn export_payload(
    result: Map<Seq<char>, JsonModel>,
    last: u64,
    from: Option<u64>,
    to: Option<u64>,
) -> JsonModel {
    JsonModel::Object(
        Map::<Seq<char>, JsonModel>::empty().insert(
            "subject"@,
            projection::subject_json(last, from, to),
        ).insert("result"@, JsonModel::Object(result)),
    )
}

/// The answer with an export as steps for a pipe.
pub open spec fn pipe_json(
    p: WorkflowExportProjection,
    last: u64,
    from: Option<u64>,
    to: Option<u64>,
) -> JsonModel {
    export_payload(
        export_members(
            Map::<Seq<char>, JsonModel>::empty().insert(
                "format"@,
                JsonModel::Text("pipe"@),
            ).insert("entries"@, steps_json(step_models(p.steps@), true)).insert(
                "steps"@,
                steps_json(step_models(p.steps@), false),
            ),
            p,
            last,
            from,
            to,
        ),
        last,
        from,
        to,
    )
}

/// Answers with an export as steps for a pipe.
pub fn export_pipe_history(
    capture: &WorkflowCaptureProjection,
    last: u64,
    from: Option<u64>,
    to: Option<u64>,
    include_observation: bool,
) -> (r: Json)
    ensures
        exists|p: WorkflowExportProjection|
            #[trigger] export_of(p, *capture, last, from, to, include_observation) && r@
                == pipe_json(p, last, from, to),
{
    let p = build_export_projection(capture, last, from, to, include_observation);
    let base = JsonObject::new().with("format", json::text_value("pipe")).with(
        "entries",
        steps_value(&p.steps, true),
    ).with("steps", steps_value(&p.steps, false));
    let result = export_object(base, &p, last, from, to);
    let r = Json::Object(
        JsonObject::new().with("subject", history_subject(last, from, to)).with(
            "result",
            Json::Object(result),
        ),
    );
    assert(export_of(p, *capture, last, from, to, include_observation) && r@ == pipe_json(
        p,
        last,
        from,
        to,
    ));
    r
}

/// A script with one more line.
pub open spec fn with_line(script: Seq<char>, line: Seq<char>) -> Seq<char> {
    script + line + seq!['\n']
}

pub fn push_script_line(script: &mut String, line: &str)
    ensures
        final(script)@ == with_line(old(script)@, line@),
{
    let ghost before = script@;
    script.append(line);
    script.push('\n');
    assert(script@ =~= with_line(before, line@));
}

/// The comment on where a script comes from.
pub open spec fn source_line(p: WorkflowExportProjection) -> Seq<char> {
    "# Source commands: "@ + text::decimal(p.source_count as nat) + " ("@ + text::decimal(
        p.steps@.len(),
    ) + " exported, "@ + text::decimal(
        (p.skipped_administrative + p.skipped_observation + p.skipped_ineligible) as nat,
    ) + " skipped)"@
}

/// A shell script that replays an export, from the text of its pipeline.
pub open spec fn script_text(p: WorkflowExportProjection, pipeline: Seq<char>) -> Seq<char> {
    let head = with_line(
        with_line(
            with_line(
                with_line(Seq::empty(), "#!/usr/bin/env bash"@),
                "# rub workflow - exported from history"@,
            ),
            source_line(p),
        ),
        "set -euo pipefail"@,
    ).push('\n');
    let setup = with_line(
        with_line(
            with_line(
                with_line(head, "RUB=\"${RUB:-rub}\""@),
                "RUB_WORKFLOW_FILE=\"$(mktemp \"${TMPDIR:-/tmp}/rub-workflow.XXXXXX\")\""@,
            ),
            "cleanup() { rm -f \"$RUB_WORKFLOW_FILE\"; }"@,
        ),
        "trap cleanup EXIT"@,
    ).push('\n');
    with_line(
        with_line(
            with_line(
                with_line(setup, "cat >\"$RUB_WORKFLOW_FILE\" <<'RUB_PIPE_JSON'"@),
                pipeline,
            ),
            "RUB_PIPE_JSON"@,
        ),
        "\"$RUB\" pipe --file \"$RUB_WORKFLOW_FILE\""@,
    )
}

/// Writes the shell script around the text of a pipeline.
pub fn script_around(p: &WorkflowExportProjection, pipeline: &str) -> (r: String)
    requires
        p.skipped_administrative + p.skipped_observation + p.skipped_ineligible <= u64::MAX,
    ensures
        r@ == script_text(*p, pipeline@),
{
    let mut script = String::new();
    push_script_line(&mut script, "#!/usr/bin/env bash");
    push_script_line(&mut script, "# rub workflow - exported from history");
    let sources = text::decimal_string(p.source_count as u64);
    let exported = text::decimal_string(p.steps.len() as u64);
    let skipped_count: u64 = p.skipped_administrative as u64 + p.skipped_observation as u64
        + p.skipped_ineligible as u64;
    let skipped = text::decimal_string(skipped_count);
    let head = text::cat3("# Source commands: ", sources.as_str(), " (");
    let line = text::cat5(
        head.as_str(),
        exported.as_str(),
        " exported, ",
        skipped.as_str(),
        " skipped)",
    );
    push_script_line(&mut script, line.as_str());
    push_script_line(&mut script, "set -euo pipefail");
    script.push('\n');
    push_script_line(&mut script, "RUB=\"${RUB:-rub}\"");
    push_script_line(
        &mut script,
        "RUB_WORKFLOW_FILE=\"$(mktemp \"${TMPDIR:-/tmp}/rub-workflow.XXXXXX\")\"",
    );
    push_script_line(&mut script, "cleanup() { rm -f \"$RUB_WORKFLOW_FILE\"; }");
    push_script_line(&mut script, "trap cleanup EXIT");
    script.push('\n');
    push_script_line(&mut script, "cat >\"$RUB_WORKFLOW_FILE\" <<'RUB_PIPE_JSON'");
    push_script_line(&mut script, pipeline);
    push_script_line(&mut script, "RUB_PIPE_JSON");
    push_script_line(&mut script, "\"$RUB\" pipe --file \"$RUB_WORKFLOW_FILE\"");
    script
}

/// Writes the shell script that replays an export.
pub fn render_export_script(projection: &WorkflowExportProjection) -> (r: String)
    requires
        projection.skipped_administrative + projection.skipped_observation
            + projection.skipped_ineligible <= u64::MAX,
    ensures
        r@ == script_text(
            *projection,
            json_text::pretty_text(steps_json(step_models(projection.steps@), false)),
        ),
{
    let pipeline = steps_value(&projection.steps, false);
    let pipeline_json = json_text::to_pretty_text(&pipeline);
    script_around(projection, pipeline_json.as_str())
}

/// The answer with an export as a shell script.
pub open spec fn script_json(
    p: WorkflowExportProjection,
    last: u64,
    from: Option<u64>,
    to: Option<u64>,
) -> JsonModel {
    export_payload(
        export_members(
            Map::<Seq<char>, JsonModel>::empty().insert(
                "format"@,
                JsonModel::Text("script"@),
            ).insert(
                "export"@,
                JsonModel::Object(
                    Map::<Seq<char>, JsonModel>::empty().insert(
                        "kind"@,
                        JsonModel::Text("shell_script"@),
                    ).insert(
                        "content"@,
                        JsonModel::Text(
                            script_text(
                                p,
                                json_text::pretty_text(steps_json(step_models(p.steps@), false)),
                            ),
                        ),
                    ),
                ),
            ),
            p,
            last,
            from,
            to,
        ),
        last,
        from,
        to,
    )
}

/// Answers with an export as a shell script.
pub fn export_script_history(
    capture: &WorkflowCaptureProjection,
    last: u64,
    from: Option<u64>,
    to: Option<u64>,
    include_observation: bool,
) -> (r: Json)
    ensures
        exists|p: WorkflowExportProjection|
            #[trigger] export_of(p, *capture, last, from, to, include_observation) && r@
                == script_json(p, last, from, to),
{
    let p = build_export_projection(capture, last, from, to, include_observation);
    proof {
        exports_account_for_every_command(capture.entries@, from, to, include_observation);
        assert(p.source_count == capture.entries@.len());
    }
    let script = render_export_script(&p);
    let export = JsonObject::new().with("kind", json::text_value("shell_script")).with(
        "content",
        json::text_value(script.as_str()),
    );
    let base = JsonObject::new().with("format", json::text_value("script")).with(
        "export",
        Json::Object(export),
    );
    let result = export_object(base, &p, last, from, to);
    let r = Json::Object(
        JsonObject::new().with("subject", history_subject(last, from, to)).with(
            "result",
            Json::Object(result),
        ),
    );
    assert(export_of(p, *capture, last, from, to, include_observation) && r@ == script_json(
        p,
        last,
        from,
        to,
    ));
    r
}

/// A captured command is exported exactly where it is in range, is no administration, is no
/// observation unless observations are wanted, and is allowed in a workflow.
pub proof fn commands_are_exported_where_nothing_speaks_against_it(
    e: WorkflowCaptureEntry,
    from: Option<u64>,
    to: Option<u64>,
    include_observation: bool,
)
    ensures
        ({
            let f = fate(e, from, to, include_observation);
            let inside = (from matches Some(a) ==> a <= e.sequence) && (to matches Some(b)
                ==> e.sequence <= b);
            &&& f == ExportFate::Exported <==> inside && e.workflow_allowed && (e.capture_class
                == WorkflowCaptureClass::Workflow || (e.capture_class
                == WorkflowCaptureClass::Observation && include_observation))
            &&& f == ExportFate::OutOfRange <==> !inside
            &&& f == ExportFate::Administrative <==> inside && e.capture_class
                == WorkflowCaptureClass::Administrative
            &&& f == ExportFate::Observation <==> inside && e.capture_class
                == WorkflowCaptureClass::Observation && !include_observation
        }),
{
}

/// Exporting goes command by command: one that is exported adds its step behind the others,
/// and any other adds none and is counted under its own fate.
pub proof fn exports_go_command_by_command(
    s: Seq<WorkflowCaptureEntry>,
    e: WorkflowCaptureEntry,
    from: Option<u64>,
    to: Option<u64>,
    include_observation: bool,
    wanted: ExportFate,
)
    ensures
        exported_steps(seq![], from, to, include_observation).len() == 0,
        with_fate(seq![], from, to, include_observation, wanted) == 0,
        exported_steps(s.push(e), from, to, include_observation) == if fate(
            e,
            from,
            to,
            include_observation,
        ) == ExportFate::Exported {
            exported_steps(s, from, to, include_observation).push(step_of(e))
        } else {
            exported_steps(s, from, to, include_observation)
        },
        with_fate(s.push(e), from, to, include_observation, wanted) == with_fate(
            s,
            from,
            to,
            include_observation,
            wanted,
        ) + if fate(e, from, to, include_observation) == wanted {
            1int
        } else {
            0int
        },
{
    assert(s.push(e).drop_last() =~= s);
}

/// A step replays the command with its arguments, and says which command it comes from.
pub proof fn steps_replay_their_command(e: WorkflowCaptureEntry)
    ensures
        step_of(e).command == e.command@,
        step_of(e).args == e.args@,
        json::member(step_of(e).source, "sequence"@) == Some(json::number(e.sequence as int)),
        json::member(step_of(e).source, "request_id"@) == Some(JsonModel::Text(e.request_id@)),
        json::member(step_of(e).source, "command_id"@) == Some(
            json::opt_text_model(text::opt_text(e.command_id)),
        ),
        json::member(step_of(e).source, "capture_class"@) == Some(
            JsonModel::Text(class_name(e.capture_class)),
        ),
        json::member(step_of(e).source, "delivery_state"@) == Some(
            JsonModel::Text(delivery_name(e.delivery_state)),
        ),
{
    reveal_strlit("sequence");
    reveal_strlit("request_id");
    reveal_strlit("command_id");
    reveal_strlit("capture_class");
    reveal_strlit("delivery_state");
    assert("sequence"@.len() != "request_id"@.len());
    assert("sequence"@.len() != "command_id"@.len());
    assert("sequence"@.len() != "capture_class"@.len());
    assert("sequence"@.len() != "delivery_state"@.len());
    assert("request_id"@[0] != "command_id"@[0]);
    assert("request_id"@.len() != "capture_class"@.len());
    assert("request_id"@.len() != "delivery_state"@.len());
    assert("command_id"@.len() != "capture_class"@.len());
    assert("command_id"@.len() != "delivery_state"@.len());
    assert("capture_class"@.len() != "delivery_state"@.len());
}

/// Exported steps are shown one for one, each with its command and its arguments, and with
/// where it comes from exactly where that is wanted.
pub proof fn steps_are_shown_one_for_one(s: Seq<StepModel>, with_source: bool)
    ensures
        steps_json(s, with_source) matches JsonModel::Array(shown) && shown.len() == s.len()
            && forall|i: int|
            0 <= i < s.len() ==> {
                let one = #[trigger] shown[i];
                &&& json::member(one, "command"@) == Some(JsonModel::Text(s[i].command))
                &&& json::member(one, "args"@) == Some(s[i].args)
                &&& json::member(one, "source"@) == if with_source {
                    Some(s[i].source)
                } else {
                    None
                }
            },
{
    reveal_strlit("command");
    reveal_strlit("args");
    reveal_strlit("source");
    assert("command"@.len() != "args"@.len());
    assert("command"@.len() != "source"@.len());
    assert("args"@.len() != "source"@.len());
}

/// An export is complete exactly where neither retention nor a loss before recording cut its
/// selection short.
pub proof fn exports_are_complete_where_nothing_was_cut(
    p: WorkflowExportProjection,
    capture: WorkflowCaptureProjection,
    last: u64,
    from: Option<u64>,
    to: Option<u64>,
    include_observation: bool,
)
    requires
        export_of(p, capture, last, from, to, include_observation),
    ensures
        p.complete <==> !projection::cut_by_retention(
            last,
            from,
            to,
            capture.dropped_before_retention,
            capture.oldest_retained_sequence,
            capture.entries@.len(),
        ) && !projection::cut_by_projection(
            last,
            from,
            to,
            capture.dropped_before_projection,
            capture.entries@.len(),
        ),
        p.steps@.len() + p.skipped_administrative + p.skipped_observation + p.skipped_ineligible
            <= p.source_count,
        p.steps@.len() <= capture.entries@.len(),
{
    exports_account_for_every_command(capture.entries@, from, to, include_observation);
    assert(step_models(p.steps@).len() == p.steps@.len());
}

/// An export says beside its steps whether it is complete, how many commands it comes from,
/// and how many it skipped for each reason.
pub proof fn exports_count_what_they_skip(
    base: Map<Seq<char>, JsonModel>,
    p: WorkflowExportProjection,
    last: u64,
    from: Option<u64>,
    to: Option<u64>,
)
    ensures
        ({
            let r = JsonModel::Object(export_members(base, p, last, from, to));
            &&& json::member(r, "complete"@) == Some(JsonModel::Bool(p.complete))
            &&& json::member(r, "included_observation"@) == Some(
                JsonModel::Bool(p.included_observation),
            )
            &&& json::member(r, "source_count"@) == Some(json::number(p.source_count as int))
            &&& json::member(r, "selection"@) == Some(projection::selection_json(last, from, to))
            &&& json::member(r, "skipped"@) matches Some(skipped)
            &&& json::member(skipped, "administrative"@) == Some(
                json::number(p.skipped_administrative as int),
            )
            &&& json::member(skipped, "observation"@) == Some(
                json::number(p.skipped_observation as int),
            )
            &&& json::member(skipped, "ineligible"@) == Some(
                json::number(p.skipped_ineligible as int),
            )
        }),
{
    reveal_strlit("projection_state");
    reveal_strlit("selection");
    reveal_strlit("complete");
    reveal_strlit("capture_window");
    reveal_strlit("included_observation");
    reveal_strlit("source_count");
    reveal_strlit("skipped");
    assert("projection_state"@.len() != "selection"@.len());
    assert("projection_state"@.len() != "complete"@.len());
    assert("projection_state"@.len() != "capture_window"@.len());
    assert("projection_state"@.len() != "included_observation"@.len());
    assert("projection_state"@.len() != "source_count"@.len());
    assert("projection_state"@.len() != "skipped"@.len());
    assert("selection"@.len() != "complete"@.len());
    assert("selection"@.len() != "capture_window"@.len());
    assert("selection"@.len() != "included_observation"@.len());
    assert("selection"@.len() != "source_count"@.len());
    assert("selection"@.len() != "skipped"@.len());
    assert("complete"@.len() != "capture_window"@.len());
    assert("complete"@.len() != "included_observation"@.len());
    assert("complete"@.len() != "source_count"@.len());
    assert("complete"@.len() != "skipped"@.len());
    assert("capture_window"@.len() != "included_observation"@.len());
    assert("capture_window"@.len() != "source_count"@.len());
    assert("capture_window"@.len() != "skipped"@.len());
    assert("included_observation"@.len() != "source_count"@.len());
    assert("included_observation"@.len() != "skipped"@.len());
    assert("source_count"@.len() != "skipped"@.len());
    reveal_strlit("administrative");
    reveal_strlit("observation");
    reveal_strlit("ineligible");
    assert("administrative"@.len() != "observation"@.len());
    assert("administrative"@.len() != "ineligible"@.len());
    assert("observation"@.len() != "ineligible"@.len());
}

/// A script holds its pipeline on a line of its own between the marks of the file that it
/// writes, and ends by handing that file to the program.
pub proof fn scripts_hold_their_pipeline(p: WorkflowExportProjection, pipeline: Seq<char>)
    ensures
        exists|head: Seq<char>|
            script_text(p, pipeline) == #[trigger] (head + pipeline) + seq!['\n']
                + "RUB_PIPE_JSON"@ + seq!['\n'] + "\"$RUB\" pipe --file \"$RUB_WORKFLOW_FILE\""@
                + seq!['\n'],
        exists|tail: Seq<char>|
            script_text(p, pipeline) == #[trigger] ("#!/usr/bin/env bash"@ + seq!['\n'] + tail),
{
    let top = with_line(Seq::empty(), "#!/usr/bin/env bash"@);
    let head = with_line(
        with_line(
            with_line(top, "# rub workflow - exported from history"@),
            source_line(p),
        ),
        "set -euo pipefail"@,
    ).push('\n');
    let setup = with_line(
        with_line(
            with_line(
                with_line(head, "RUB=\"${RUB:-rub}\""@),
                "RUB_WORKFLOW_FILE=\"$(mktemp \"${TMPDIR:-/tmp}/rub-workflow.XXXXXX\")\""@,
            ),
            "cleanup() { rm -f \"$RUB_WORKFLOW_FILE\"; }"@,
        ),
        "trap cleanup EXIT"@,
    ).push('\n');
    let before = with_line(setup, "cat >\"$RUB_WORKFLOW_FILE\" <<'RUB_PIPE_JSON'"@);
    let whole = script_text(p, pipeline);
    assert(whole =~= (before + pipeline) + seq!['\n'] + "RUB_PIPE_JSON"@ + seq!['\n']
        + "\"$RUB\" pipe --file \"$RUB_WORKFLOW_FILE\""@ + seq!['\n']);
    let n = top.len() as int;
    assert(top =~= "#!/usr/bin/env bash"@ + seq!['\n']);
    assert(whole.take(n) =~= top);
    assert(whole =~= "#!/usr/bin/env bash"@ + seq!['\n'] + whole.skip(n));
}

/// A step is exported with its command and its arguments, and as an entry with its source.
pub proof fn steps_are_exported_as_they_are(s: StepModel)
    ensures
        json::member(replayable_json(s), "command"@) == Some(JsonModel::Text(s.command)),
        json::member(replayable_json(s), "args"@) == Some(s.args),
        json::member(replayable_json(s), "source"@) is None,
        json::member(step_json(s), "command"@) == Some(JsonModel::Text(s.command)),
        json::member(step_json(s), "args"@) == Some(s.args),
        json::member(step_json(s), "source"@) == Some(s.source),
{
    reveal_strlit("command");
    reveal_strlit("args");
    reveal_strlit("source");
    assert("command"@.len() != "args"@.len());
    assert("command"@.len() != "source"@.len());
    assert("args"@.len() != "source"@.len());
}

/// A line ends the script, with a line break behind it.
pub proof fn lines_end_with_a_break(script: Seq<char>, line: Seq<char>)
    ensures
        with_line(script, line).len() == script.len() + line.len() + 1,
        with_line(script, line).take(script.len() as int) == script,
        with_line(script, line).subrange(script.len() as int, script.len() as int + line.len())
            == line,
        with_line(script, line).last() == '\n',
{
    assert(with_line(script, line).take(script.len() as int) =~= script);
    assert(with_line(script, line).subrange(
        script.len() as int,
        script.len() as int + line.len(),
    ) =~= line);
}

/// A range holds what is neither before its start nor behind its end.
pub proof fn ranges_hold_what_is_between(n: u64, from: u64, to: u64)
    ensures
        in_range(n, Some(from), Some(to)) <==> from <= n <= to,
        in_range(n, Some(from), None) <==> from <= n,
        in_range(n, None, Some(to)) <==> n <= to,
        in_range(n, None, None),
{
}

/// An export is answered in the format that was asked for.
pub proof fn exports_are_answered_in_their_format(
    p: WorkflowExportProjection,
    last: u64,
    from: Option<u64>,
    to: Option<u64>,
)
    ensures
        json::member(pipe_json(p, last, from, to), "subject"@) == Some(
            projection::subject_json(last, from, to),
        ),
        json::member(script_json(p, last, from, to), "subject"@) == Some(
            projection::subject_json(last, from, to),
        ),
        json::member(pipe_json(p, last, from, to), "result"@) is Some,
        json::member(script_json(p, last, from, to), "result"@) is Some,
{
    reveal_strlit("subject");
    reveal_strlit("result");
    assert("subject"@.len() != "result"@.len());
}

/// Each class of commands goes by its own name.
pub proof fn classes_go_by_their_names(x: WorkflowCaptureClass)
    ensures
        x == WorkflowCaptureClass::Workflow <==> class_name(x) == "workflow"@,
        x == WorkflowCaptureClass::Observation <==> class_name(x) == "observation"@,
        x == WorkflowCaptureClass::Administrative <==> class_name(x) == "administrative"@,
{
    reveal_strlit("workflow");
    reveal_strlit("observation");
    reveal_strlit("administrative");
    assert("workflow"@.len() != "observation"@.len());
    assert("workflow"@.len() != "administrative"@.len());
    assert("observation"@.len() != "administrative"@.len());
}

} // verus!
