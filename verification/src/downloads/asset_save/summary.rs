//! What came of a batch of assets.

use vstd::prelude::*;
use crate::json::{self, Json, JsonModel, JsonObject, NumberModel};
use super::execute::{self, EntryModel, SavedAssetEntry};
use super::paths::{BulkAssetSaveOutputDirState, SavedAssetStatus, bulk_output_dir_state};

verus! {

/// What came of a batch of assets.
#[derive(Debug)]
pub struct BulkAssetSaveSummary {
    pub complete: bool,
    pub source_count: u32,
    pub attempted_count: u32,
    pub saved_count: u32,
    pub skipped_existing_count: u32,
    pub failed_count: u32,
    pub timed_out_count: u32,
    pub output_dir: String,
    pub output_dir_state: BulkAssetSaveOutputDirState,
}

/// How many reports have a status.
pub open spec fn with_status(s: Seq<EntryModel>, status: SavedAssetStatus) -> int
    decreases s.len(),
{
    if s.len() == 0 {
        0
    } else {
        with_status(s.drop_last(), status) + (if s.last().status == status {
            1int
        } else {
            0int
        })
    }
}

/// A count that fits in 32 bits.
pub open spec fn capped(n: int) -> u32 {
    if n > u32::MAX {
        u32::MAX
    } else {
        n as u32
    }
}

fn one_more(n: u32) -> (r: u32)
    ensures
        r == capped(n + 1),
{
    if n == u32::MAX {
        n
    } else {
        n + 1
    }
}

proof fn with_status_bounds(s: Seq<EntryModel>, status: SavedAssetStatus)
    ensures
        0 <= with_status(s, status) <= s.len(),
    decreases s.len(),
{
    if s.len() > 0 {
        with_status_bounds(s.drop_last(), status);
    }
}

/// Counts the reports of a batch by their status.
pub fn summarize_results(
    source_count: u32,
    attempted_count: u32,
    output_dir: &str,
    results: &Vec<SavedAssetEntry>,
) -> (r: BulkAssetSaveSummary)
    ensures
        r.source_count == source_count,
        r.attempted_count == attempted_count,
        ({
            let s = execute::entry_models(results@);
            &&& r.saved_count == capped(with_status(s, SavedAssetStatus::Saved))
            &&& r.skipped_existing_count == capped(
                with_status(s, SavedAssetStatus::SkippedExisting),
            )
            &&& r.failed_count == capped(with_status(s, SavedAssetStatus::Failed))
            &&& r.timed_out_count == capped(with_status(s, SavedAssetStatus::TimedOut))
            &&& r.complete == (with_status(s, SavedAssetStatus::TimedOut) == 0)
        }),
        r.output_dir@ == output_dir@,
        dir_state_json(r.output_dir_state) == batch_dir_json(),
{
    let ghost all = execute::entry_models(results@);
    let mut saved_count: u32 = 0;
    let mut skipped_existing_count: u32 = 0;
    let mut failed_count: u32 = 0;
    let mut timed_out_count: u32 = 0;
    let mut i: usize = 0;
    while i < results.len()
        invariant
            i <= results@.len(),
            all == execute::entry_models(results@),
            saved_count == capped(with_status(all.take(i as int), SavedAssetStatus::Saved)),
            skipped_existing_count == capped(
                with_status(all.take(i as int), SavedAssetStatus::SkippedExisting),
            ),
            failed_count == capped(with_status(all.take(i as int), SavedAssetStatus::Failed)),
            timed_out_count == capped(with_status(all.take(i as int), SavedAssetStatus::TimedOut)),
        decreases results@.len() - i,
    {
        proof {
            let done = all.take(i as int);
            assert(all.take(i + 1).drop_last() =~= done);
            assert(all.take(i + 1).last() == results@[i as int]@);
            with_status_bounds(done, SavedAssetStatus::Saved);
            with_status_bounds(done, SavedAssetStatus::SkippedExisting);
            with_status_bounds(done, SavedAssetStatus::Failed);
            with_status_bounds(done, SavedAssetStatus::TimedOut);
        }
        match results[i].status {
            SavedAssetStatus::Saved => {
                saved_count = one_more(saved_count);
            },
            SavedAssetStatus::SkippedExisting => {
                skipped_existing_count = one_more(skipped_existing_count);
            },
            SavedAssetStatus::Failed => {
                failed_count = one_more(failed_count);
            },
            SavedAssetStatus::TimedOut => {
                timed_out_count = one_more(timed_out_count);
            },
        }
        i += 1;
    }
    proof {
        assert(all.take(i as int) =~= all);
        with_status_bounds(all, SavedAssetStatus::TimedOut);
    }
    BulkAssetSaveSummary {
        complete: timed_out_count == 0,
        source_count,
        attempted_count,
        saved_count,
        skipped_existing_count,
        failed_count,
        timed_out_count,
        output_dir: output_dir.to_owned(),
        output_dir_state: bulk_output_dir_state(),
    }
}

/// Every report is counted under exactly one status.
pub proof fn counts_add_up(s: Seq<EntryModel>)
    ensures
        with_status(s, SavedAssetStatus::Saved) + with_status(
            s,
            SavedAssetStatus::SkippedExisting,
        ) + with_status(s, SavedAssetStatus::Failed) + with_status(s, SavedAssetStatus::TimedOut)
            == s.len(),
    decreases s.len(),
{
    if s.len() > 0 {
        counts_add_up(s.drop_last());
    }
}

pub open spec fn dir_state_json(s: BulkAssetSaveOutputDirState) -> JsonModel {
    JsonModel::Object(
        Map::<Seq<char>, JsonModel>::empty().insert(
            "path_kind"@,
            JsonModel::Text(s.path_kind@),
        ).insert("path_authority"@, JsonModel::Text(s.path_authority@)).insert(
            "upstream_truth"@,
            JsonModel::Text(s.upstream_truth@),
        ).insert("control_role"@, JsonModel::Text(s.control_role@)),
    )
}

/// What is known of the output directory of a batch.
pub open spec fn batch_dir_json() -> JsonModel {
    JsonModel::Object(
        Map::<Seq<char>, JsonModel>::empty().insert(
            "path_kind"@,
            JsonModel::Text("batch_output_directory"@),
        ).insert("path_authority"@, JsonModel::Text("router.download_save.output_dir"@)).insert(
            "upstream_truth"@,
            JsonModel::Text("download_save_batch_request"@),
        ).insert("control_role"@, JsonModel::Text("display_only"@)),
    )
}

fn dir_state_value(s: &BulkAssetSaveOutputDirState) -> (r: Json)
    ensures
        r@ == dir_state_json(*s),
{
    Json::Object(
        JsonObject::new().with("path_kind", json::text_value(s.path_kind.as_str())).with(
            "path_authority",
            json::text_value(s.path_authority.as_str()),
        ).with("upstream_truth", json::text_value(s.upstream_truth.as_str())).with(
            "control_role",
            json::text_value(s.control_role.as_str()),
        ),
    )
}

/// What is known of the output directory of a batch, as a client reads it.
pub fn bulk_output_dir_state_json() -> (r: Json)
    ensures
        r@ == batch_dir_json(),
{
    dir_state_value(&bulk_output_dir_state())
}

pub open spec fn count_json(n: u32) -> JsonModel {
    JsonModel::Number(NumberModel::Int(n as int))
}

/// The summary of a batch as a client reads it.
pub open spec fn summary_json(s: BulkAssetSaveSummary) -> JsonModel {
    JsonModel::Object(
        Map::<Seq<char>, JsonModel>::empty().insert("complete"@, JsonModel::Bool(s.complete)).insert(
            "source_count"@,
            count_json(s.source_count),
        ).insert("attempted_count"@, count_json(s.attempted_count)).insert(
            "saved_count"@,
            count_json(s.saved_count),
        ).insert("skipped_existing_count"@, count_json(s.skipped_existing_count)).insert(
            "failed_count"@,
            count_json(s.failed_count),
        ).insert("timed_out_count"@, count_json(s.timed_out_count)).insert(
            "output_dir"@,
            JsonModel::Text(s.output_dir@),
        ).insert("output_dir_state"@, dir_state_json(s.output_dir_state)),
    )
}

pub fn summary_json_value(s: &BulkAssetSaveSummary) -> (r: Json)
    ensures
        r@ == summary_json(*s),
{
    Json::Object(
        JsonObject::new().with("complete", Json::Bool(s.complete)).with(
            "source_count",
            json::uint_value(s.source_count as u64),
        ).with("attempted_count", json::uint_value(s.attempted_count as u64)).with(
            "saved_count",
            json::uint_value(s.saved_count as u64),
        ).with(
            "skipped_existing_count",
            json::uint_value(s.skipped_existing_count as u64),
        ).with("failed_count", json::uint_value(s.failed_count as u64)).with(
            "timed_out_count",
            json::uint_value(s.timed_out_count as u64),
        ).with("output_dir", json::text_value(s.output_dir.as_str())).with(
            "output_dir_state",
            dir_state_value(&s.output_dir_state),
        ),
    )
}

/// A report is counted under its own status and under no other, whatever stands before
/// it.
pub proof fn reports_count_under_their_own_status(
    s: Seq<EntryModel>,
    e: EntryModel,
    status: SavedAssetStatus,
)
    ensures
        with_status(seq![], status) == 0,
        e.status == status ==> with_status(s.push(e), status) == with_status(s, status) + 1,
        e.status != status ==> with_status(s.push(e), status) == with_status(s, status),
        with_status(s, status) == 0 <==> forall|i: int|
            0 <= i < s.len() ==> (#[trigger] s[i]).status != status,
    decreases s.len(),
{
    assert(s.push(e).drop_last() =~= s);
    if s.len() > 0 {
        let front = s.drop_last();
        reports_count_under_their_own_status(front, e, status);
        with_status_bounds(front, status);
        assert forall|i: int| 0 <= i < front.len() implies front[i] == #[trigger] s[i] by {}
        assert(s[s.len() - 1] == s.last());
        if with_status(s, status) == 0 {
            assert forall|i: int| 0 <= i < s.len() implies (#[trigger] s[i]).status != status by {
                if i < front.len() {
                    assert(front[i] == s[i]);
                }
            }
        }
        if forall|i: int| 0 <= i < s.len() ==> (#[trigger] s[i]).status != status {
            assert forall|i: int| 0 <= i < front.len() implies (#[trigger] front[i]).status
                != status by {
                assert(front[i] == s[i]);
            }
        }
    }
}

/// A summary shows each of its counts in its own place.
pub proof fn summaries_show_their_counts(s: BulkAssetSaveSummary)
    ensures
        ({
            let j = summary_json(s);
            &&& json::member(j, "complete"@) == Some(JsonModel::Bool(s.complete))
            &&& json::member(j, "source_count"@) == Some(json::number(s.source_count as int))
            &&& json::member(j, "attempted_count"@) == Some(json::number(s.attempted_count as int))
            &&& json::member(j, "saved_count"@) == Some(json::number(s.saved_count as int))
            &&& json::member(j, "skipped_existing_count"@) == Some(
                json::number(s.skipped_existing_count as int),
            )
            &&& json::member(j, "failed_count"@) == Some(json::number(s.failed_count as int))
            &&& json::member(j, "timed_out_count"@) == Some(json::number(s.timed_out_count as int))
            &&& json::member(j, "output_dir"@) == Some(JsonModel::Text(s.output_dir@))
        }),
{
    reveal_strlit("complete");
    reveal_strlit("source_count");
    reveal_strlit("attempted_count");
    reveal_strlit("saved_count");
    reveal_strlit("skipped_existing_count");
    reveal_strlit("failed_count");
    reveal_strlit("timed_out_count");
    reveal_strlit("output_dir");
    reveal_strlit("output_dir_state");
    assert("complete"@.len() != "source_count"@.len());
    assert("complete"@.len() != "attempted_count"@.len());
    assert("complete"@.len() != "saved_count"@.len());
    assert("complete"@.len() != "skipped_existing_count"@.len());
    assert("complete"@.len() != "failed_count"@.len());
    assert("complete"@.len() != "timed_out_count"@.len());
    assert("complete"@.len() != "output_dir"@.len());
    assert("complete"@.len() != "output_dir_state"@.len());
    assert("source_count"@.len() != "attempted_count"@.len());
    assert("source_count"@.len() != "saved_count"@.len());
    assert("source_count"@.len() != "skipped_existing_count"@.len());
    assert("source_count"@[0] != "failed_count"@[0]);
    assert("source_count"@.len() != "timed_out_count"@.len());
    assert("source_count"@.len() != "output_dir"@.len());
    assert("source_count"@.len() != "output_dir_state"@.len());
    assert("attempted_count"@.len() != "saved_count"@.len());
    assert("attempted_count"@.len() != "skipped_existing_count"@.len());
    assert("attempted_count"@.len() != "failed_count"@.len());
    assert("attempted_count"@[0] != "timed_out_count"@[0]);
    assert("attempted_count"@.len() != "output_dir"@.len());
    assert("attempted_count"@.len() != "output_dir_state"@.len());
    assert("saved_count"@.len() != "skipped_existing_count"@.len());
    assert("saved_count"@.len() != "failed_count"@.len());
    assert("saved_count"@.len() != "timed_out_count"@.len());
    assert("saved_count"@.len() != "output_dir"@.len());
    assert("saved_count"@.len() != "output_dir_state"@.len());
    assert("skipped_existing_count"@.len() != "failed_count"@.len());
    assert("skipped_existing_count"@.len() != "timed_out_count"@.len());
    assert("skipped_existing_count"@.len() != "output_dir"@.len());
    assert("skipped_existing_count"@.len() != "output_dir_state"@.len());
    assert("failed_count"@.len() != "timed_out_count"@.len());
    assert("failed_count"@.len() != "output_dir"@.len());
    assert("failed_count"@.len() != "output_dir_state"@.len());
    assert("timed_out_count"@.len() != "output_dir"@.len());
    assert("timed_out_count"@.len() != "output_dir_state"@.len());
    assert("output_dir"@.len() != "output_dir_state"@.len());
}

/// A count that fits is kept, and a larger one stands at the largest.
pub proof fn small_counts_are_kept(n: int)
    requires
        n >= 0,
    ensures
        n <= u32::MAX ==> capped(n) == n,
        n > u32::MAX ==> capped(n) == u32::MAX,
{
}

} // verus!
