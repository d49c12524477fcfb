//! Saving many assets to files.

pub mod execute;
pub mod paths;
pub mod request;
pub mod summary;

use vstd::prelude::*;
use crate::error::{self, ErrorCode, ErrorModel, RubError};
use crate::json::{self, Json, JsonModel, JsonObject, NumberModel};
use crate::text;
use self::execute::{EntryModel, SavedAssetEntry, timeout_entry};
use self::request::AssetSource;

verus! {

/// How many assets may be saved at once.
pub const MAX_SAVE_CONCURRENCY: u32 = 64;

/// How many assets are saved at once where the request does not say.
pub fn default_save_concurrency() -> (r: u32)
    ensures
        r == 6,
{
    6
}

/// How long saving may take where the request does not say, in milliseconds.
pub fn default_save_timeout_ms() -> (r: u64)
    ensures
        r == 30_000,
{
    30_000
}

/// What a client asks for.
#[derive(Debug)]
pub struct DownloadSaveArgs {
    pub file: String,
    pub output_dir: String,
    pub input_field: Option<String>,
    pub url_field: Option<String>,
    pub name_field: Option<String>,
    pub base_url: Option<String>,
    pub cookie_url: Option<String>,
    pub limit: Option<u32>,
    pub concurrency: u32,
    pub overwrite: bool,
    pub timeout_ms: u64,
}

/// A request to save assets that can be carried out.
#[derive(Debug)]
pub struct DownloadSaveRequest {
    pub file: String,
    pub output_dir: String,
    pub input_field: Option<String>,
    pub url_field: Option<String>,
    pub name_field: Option<String>,
    pub base_url: Option<String>,
    pub cookie_url: Option<String>,
    pub limit: Option<u32>,
    pub concurrency: u32,
    pub overwrite: bool,
    pub timeout_ms: u64,
}

/// Whether a request keeps everything that the client asked for.
pub open spec fn takes_over(args: DownloadSaveArgs, request: DownloadSaveRequest) -> bool {
    &&& request.file == args.file
    &&& request.output_dir == args.output_dir
    &&& request.input_field == args.input_field
    &&& request.url_field == args.url_field
    &&& request.name_field == args.name_field
    &&& request.base_url == args.base_url
    &&& request.cookie_url == args.cookie_url
    &&& request.limit == args.limit
    &&& request.concurrency == args.concurrency
    &&& request.overwrite == args.overwrite
    &&& request.timeout_ms == args.timeout_ms
}

/// Why a number of assets at once is refused.
pub open spec fn concurrency_error(concurrency: u32) -> Option<ErrorModel> {
    if concurrency == 0 {
        Some(
            error::plain(
                ErrorCode::InvalidInput,
                "download save --concurrency must be greater than 0"@,
            ),
        )
    } else if concurrency > MAX_SAVE_CONCURRENCY {
        Some(
            error::plain(
                ErrorCode::InvalidInput,
                "download save --concurrency must be at most "@ + text::decimal(
                    MAX_SAVE_CONCURRENCY as nat,
                ),
            ),
        )
    } else {
        None
    }
}

impl DownloadSaveRequest {
    /// Whether the request can be carried out.
    pub open spec fn wf(self) -> bool {
        0 < self.concurrency <= MAX_SAVE_CONCURRENCY
    }

    /// Accepts what a client asks for.
    pub fn try_from_args(args: DownloadSaveArgs) -> (r: Result<DownloadSaveRequest, RubError>)
        ensures
            match r {
                Ok(request) => concurrency_error(args.concurrency) is None && takes_over(
                    args,
                    request,
                ) && request.wf(),
                Err(e) => concurrency_error(args.concurrency) == Some(e@),
            },
    {
        let concurrency: u32 = args.concurrency;
        if concurrency == 0 {
            return Err(
                RubError::domain(
                    ErrorCode::InvalidInput,
                    "download save --concurrency must be greater than 0",
                ),
            );
        }
        if concurrency > MAX_SAVE_CONCURRENCY {
            let limit = text::decimal_string(MAX_SAVE_CONCURRENCY as u64);
            let message = text::cat2(
                "download save --concurrency must be at most ",
                limit.as_str(),
            );
            return Err(RubError::domain(ErrorCode::InvalidInput, message.as_str()));
        }
        Ok(
            DownloadSaveRequest {
                file: args.file,
                output_dir: args.output_dir,
                input_field: args.input_field,
                url_field: args.url_field,
                name_field: args.name_field,
                base_url: args.base_url,
                cookie_url: args.cookie_url,
                limit: args.limit,
                concurrency,
                overwrite: args.overwrite,
                timeout_ms: args.timeout_ms,
            },
        )
    }
}

/// The time that a batch has: what it asks for, within what it is given.
pub fn effective_timeout_ms(requested: u64, authoritative: u64) -> (r: u64)
    ensures
        r == (if requested <= authoritative {
            requested
        } else {
            authoritative
        }),
{
    if requested <= authoritative {
        requested
    } else {
        authoritative
    }
}

/// How far ahead the deadline of a batch lies: at least a millisecond.
pub fn deadline_budget_ms(effective: u64) -> (r: u64)
    ensures
        r == (if effective == 0 {
            1
        } else {
            effective
        }),
{
    if effective == 0 {
        1
    } else {
        effective
    }
}

impl DownloadSaveRequest {
    /// The request within the time that it is given.
    pub fn within(self, authoritative_timeout_ms: u64) -> (r: DownloadSaveRequest)
        ensures
            r == (DownloadSaveRequest {
                timeout_ms: if self.timeout_ms <= authoritative_timeout_ms {
                    self.timeout_ms
                } else {
                    authoritative_timeout_ms
                },
                ..self
            }),
    {
        let mut request = self;
        request.timeout_ms = effective_timeout_ms(request.timeout_ms, authoritative_timeout_ms);
        request
    }
}

/// The error for a batch that ran out of time before it could start saving.
pub open spec fn preparation_timeout(started: bool, timeout_ms: u64) -> ErrorModel {
    let reason = if started {
        "bulk_asset_save_prepare_timed_out"@
    } else {
        "bulk_asset_save_deadline_exceeded_before_prepare"@
    };
    error::with_context(
        ErrorCode::IpcTimeout,
        if started {
            "download save timed out while preparing asset sources"@
        } else {
            "download save timed out before asset preparation could begin"@
        },
        JsonModel::Object(
            Map::<Seq<char>, JsonModel>::empty().insert("reason"@, JsonModel::Text(reason)).insert(
                "timeout_ms"@,
                JsonModel::Number(NumberModel::Int(timeout_ms as int)),
            ),
        ),
    )
}

pub fn preparation_timeout_error(started: bool, timeout_ms: u64) -> (r: RubError)
    ensures
        r@ == preparation_timeout(started, timeout_ms),
{
    let reason = if started {
        "bulk_asset_save_prepare_timed_out"
    } else {
        "bulk_asset_save_deadline_exceeded_before_prepare"
    };
    let message = if started {
        "download save timed out while preparing asset sources"
    } else {
        "download save timed out before asset preparation could begin"
    };
    let context = JsonObject::new().with("reason", json::text_value(reason)).with(
        "timeout_ms",
        json::uint_value(timeout_ms),
    );
    RubError::domain_with_context(ErrorCode::IpcTimeout, message, Json::Object(context))
}

/// The error for an output directory that cannot be made.
pub fn output_dir_error(output_dir: &str, cause: &str) -> (r: RubError)
    ensures
        r@ == error::plain(
            ErrorCode::InvalidInput,
            "Failed to create asset output directory "@ + output_dir@ + ": "@ + cause@,
        ),
{
    let head = text::cat3("Failed to create asset output directory ", output_dir, ": ");
    let message = text::cat2(head.as_str(), cause);
    RubError::domain(ErrorCode::InvalidInput, message.as_str())
}

/// How many sources a batch has within its limit.
pub fn source_count(limit: Option<u32>, sources: usize) -> (r: u32)
    ensures
        r == (if limit is Some && limit->0 <= sources {
            limit->0
        } else {
            summary::capped(sources as int)
        }),
{
    let n: u32 = if sources > u32::MAX as usize {
        u32::MAX
    } else {
        sources as u32
    };
    match limit {
        Some(l) => if l <= n {
            l
        } else {
            n
        },
        None => n,
    }
}

/// A batch of assets that is being saved.
#[derive(Debug)]
pub struct SaveBatch {
    pub sources: Vec<AssetSource>,
    /// How many sources were taken up.
    pub next: usize,
    /// How many assets are being saved.
    pub inflight: usize,
    pub attempted: u32,
    pub concurrency: u32,
    pub results: Vec<SavedAssetEntry>,
}

/// What a batch does next.
#[derive(Debug)]
pub enum Dispatch {
    /// Start saving the source.
    Start(AssetSource),
    /// A source was given up for want of time; ask again.
    GivenUp,
    /// Wait until one of the assets is done.
    Await,
    Done,
}

/// What taking up the next source does to a batch.
pub open spec fn dispatched(
    before: SaveBatch,
    after: SaveBatch,
    deadline_passed: bool,
    r: Dispatch,
) -> bool {
    let room = before.inflight < before.concurrency && before.next
        < before.sources@.len();
    match r {
        Dispatch::Start(source) => room && !deadline_passed && source@
            == before.sources@[before.next as int]@ && after.next == before.next + 1
            && after.inflight == before.inflight + 1 && after.attempted
            == summary::capped(before.attempted + 1) && after.results@
            == before.results@,
        Dispatch::GivenUp => room && deadline_passed && after.next == before.next + 1
            && after.inflight == before.inflight && after.attempted == before.attempted
            && execute::entry_models(after.results@) == execute::entry_models(
            before.results@,
        ).push(
            execute::timed_out(
                before.sources@[before.next as int]@,
                None,
                "bulk_asset_save_deadline_exceeded"@,
            ),
        ),
        Dispatch::Await => !room && before.inflight > 0 && after == before,
        Dispatch::Done => !room && before.inflight == 0 && after == before
            && after.results@.len() == after.sources@.len(),
    }
}

impl SaveBatch {
    /// Every source that was taken up is being saved or has its report, and no
    /// more assets are being saved at once than allowed.
    pub open spec fn wf(self) -> bool {
        &&& 0 < self.concurrency
        &&& self.next <= self.sources@.len()
        &&& self.inflight <= self.concurrency
        &&& self.inflight + self.results@.len() == self.next
    }

    pub fn new(sources: Vec<AssetSource>, concurrency: u32) -> (r: SaveBatch)
        ensures
            r.wf(),
            r.sources == sources,
            r.next == 0,
            r.inflight == 0,
            r.attempted == 0,
            r.results@.len() == 0,
            r.concurrency == (if concurrency == 0 {
                1
            } else {
                concurrency
            }),
    {
        let at_once: u32 = if concurrency == 0 {
            1
        } else {
            concurrency
        };
        SaveBatch {
            sources,
            next: 0,
            inflight: 0,
            attempted: 0,
            concurrency: at_once,
            results: Vec::new(),
        }
    }

    /// Takes up the next source, where one is left and there is room for it;
    /// after the deadline the source is given up at once.
    pub fn dispatch(&mut self, deadline_passed: bool) -> (r: Dispatch)
        requires
            old(self).wf(),
        ensures
            final(self).wf(),
            final(self).sources == old(self).sources,
            final(self).concurrency == old(self).concurrency,
            dispatched(*old(self), *final(self), deadline_passed, r),
    {
        if self.inflight < self.concurrency as usize && self.next < self.sources.len() {
            let at: usize = self.next;
            self.next = at + 1;
            if deadline_passed {
                let entry = timeout_entry(
                    &self.sources[at],
                    None,
                    "bulk_asset_save_deadline_exceeded",
                );
                let ghost before = execute::entry_models(self.results@);
                self.results.push(entry);
                assert(execute::entry_models(self.results@) =~= before.push(entry@));
                return Dispatch::GivenUp;
            }
            if self.attempted < u32::MAX {
                self.attempted = self.attempted + 1;
            }
            self.inflight = self.inflight + 1;
            return Dispatch::Start(self.sources[at].clone());
        }
        if self.inflight > 0 {
            return Dispatch::Await;
        }
        Dispatch::Done
    }

    /// Takes in the report on an asset that was being saved.
    pub fn complete(&mut self, entry: SavedAssetEntry)
        requires
            old(self).wf(),
            old(self).inflight > 0,
        ensures
            final(self).wf(),
            final(self).sources == old(self).sources,
            final(self).concurrency == old(self).concurrency,
            final(self).next == old(self).next,
            final(self).attempted == old(self).attempted,
            final(self).inflight == old(self).inflight - 1,
            final(self).results@ == old(self).results@.push(entry),
    {
        self.results.push(entry);
        self.inflight = self.inflight - 1;
    }
}

/// A report in its place among ordered ones.
pub open spec fn insert_entry(s: Seq<EntryModel>, e: EntryModel) -> Seq<EntryModel>
    decreases s.len(),
{
    if s.len() == 0 || s.last().index <= e.index {
        s.push(e)
    } else {
        insert_entry(s.drop_last(), e).push(s.last())
    }
}

/// The reports in the order of their sources.
pub open spec fn in_source_order(s: Seq<EntryModel>) -> Seq<EntryModel>
    decreases s.len(),
{
    if s.len() == 0 {
        seq![]
    } else {
        insert_entry(in_source_order(s.drop_last()), s.last())
    }
}

fn place_entry(out: &mut Vec<SavedAssetEntry>, e: SavedAssetEntry)
    ensures
        execute::entry_models(final(out)@) == insert_entry(
            execute::entry_models(old(out)@),
            e@,
        ),
{
    let ghost all = execute::entry_models(out@);
    let mut at: usize = out.len();
    assert(all.take(at as int) =~= all);
    assert(insert_entry(all, e@) =~= insert_entry(all.take(at as int), e@) + all.skip(at as int));
    while at > 0 && out[at - 1].index > e.index
        invariant
            at <= out@.len(),
            out@ == old(out)@,
            all == execute::entry_models(out@),
            insert_entry(all, e@) == insert_entry(all.take(at as int), e@) + all.skip(at as int),
        decreases at,
    {
        proof {
            let front = all.take(at as int);
            assert(front.last() == out@[at - 1]@);
            assert(front.drop_last() =~= all.take(at - 1));
            assert(insert_entry(front, e@) == insert_entry(all.take(at - 1), e@).push(
                all[at - 1],
            ));
            assert(insert_entry(front, e@) + all.skip(at as int) =~= insert_entry(
                all.take(at - 1),
                e@,
            ) + all.skip(at - 1));
        }
        at -= 1;
    }
    proof {
        let front = all.take(at as int);
        if at > 0 {
            assert(front.last() == out@[at - 1]@);
        }
        assert(insert_entry(front, e@) == front.push(e@));
    }
    out.insert(at, e);
    assert(execute::entry_models(out@) =~= all.take(at as int).push(e@) + all.skip(at as int));
}

/// Puts the reports of a batch in the order of their sources.
pub fn sort_entries(results: Vec<SavedAssetEntry>) -> (r: Vec<SavedAssetEntry>)
    ensures
        execute::entry_models(r@) == in_source_order(execute::entry_models(results@)),
{
    let ghost all = execute::entry_models(results@);
    let mut rest = results;
    let mut out: Vec<SavedAssetEntry> = Vec::new();
    let ghost mut i: int = 0;
    assert(execute::entry_models(out@) =~= in_source_order(all.take(0)));
    assert(execute::entry_models(rest@) =~= all.skip(0));
    while rest.len() > 0
        invariant
            0 <= i <= all.len(),
            execute::entry_models(rest@) == all.skip(i),
            execute::entry_models(out@) == in_source_order(all.take(i)),
        decreases rest@.len(),
    {
        let ghost before = rest@;
        assert(execute::entry_models(before).len() == before.len());
        let e = rest.remove(0);
        proof {
            assert(e@ == execute::entry_models(before)[0]);
            assert(all.skip(i)[0] == all[i]);
            assert(all.take(i + 1).drop_last() =~= all.take(i));
            assert forall|j: int| 0 <= j < rest@.len() implies #[trigger] execute::entry_models(
                rest@,
            )[j] == all.skip(i + 1)[j] by {
                assert(rest@[j] == before[j + 1]);
                assert(execute::entry_models(before)[j + 1] == all.skip(i)[j + 1]);
            }
            assert(execute::entry_models(rest@) =~= all.skip(i + 1));
        }
        place_entry(&mut out, e);
        proof {
            i = i + 1;
        }
    }
    proof {
        assert(execute::entry_models(rest@).len() == 0);
        assert(all.take(i) =~= all);
    }
    out
}

proof fn insert_entry_sorts(s: Seq<EntryModel>, e: EntryModel)
    requires
        forall|i: int, j: int|
            0 <= i < j < s.len() ==> (#[trigger] s[i]).index <= (#[trigger] s[j]).index,
    ensures
        insert_entry(s, e).to_multiset() == s.to_multiset().insert(e),
        forall|i: int, j: int|
            0 <= i < j < insert_entry(s, e).len() ==> (#[trigger] insert_entry(s, e)[i]).index <= (
            #[trigger] insert_entry(s, e)[j]).index,
        forall|i: int|
            0 <= i < insert_entry(s, e).len() ==> (#[trigger] insert_entry(s, e)[i]).index
                <= e.index || s.len() > 0 && insert_entry(s, e)[i].index <= s.last().index,
    decreases s.len(),
{
    broadcast use vstd::seq_lib::group_to_multiset_ensures;

    if s.len() > 0 && s.last().index > e.index {
        let front = s.drop_last();
        insert_entry_sorts(front, e);
        assert(s =~= front.push(s.last()));
        let r = insert_entry(s, e);
        let rf = insert_entry(front, e);
        assert forall|i: int, j: int| 0 <= i < j < r.len() implies (#[trigger] r[i]).index <= (
        #[trigger] r[j]).index by {
            assert(r[i] == rf[i]);
            if j < rf.len() {
                assert(r[j] == rf[j]);
            } else if front.len() > 0 {
                assert(s[front.len() - 1].index <= s[s.len() - 1].index);
            }
        }
        assert(r.to_multiset() =~= s.to_multiset().insert(e));
    } else {
        assert(insert_entry(s, e) == s.push(e));
        assert forall|i: int, j: int| 0 <= i < j < s.push(e).len() implies (#[trigger] s.push(
            e,
        )[i]).index <= (#[trigger] s.push(e)[j]).index by {
            if j == s.len() && i < s.len() - 1 {
                assert(s[i].index <= s[s.len() - 1].index);
            }
        }
    }
}

/// Ordering the reports loses none and invents none, and they come in the order
/// of their sources.
pub proof fn ordered_reports_are_the_reports(s: Seq<EntryModel>)
    ensures
        in_source_order(s).to_multiset() == s.to_multiset(),
        forall|i: int, j: int|
            0 <= i < j < in_source_order(s).len() ==> (#[trigger] in_source_order(s)[i]).index <= (
            #[trigger] in_source_order(s)[j]).index,
    decreases s.len(),
{
    broadcast use vstd::seq_lib::group_to_multiset_ensures;

    if s.len() > 0 {
        ordered_reports_are_the_reports(s.drop_last());
        insert_entry_sorts(in_source_order(s.drop_last()), s.last());
        assert(s =~= s.drop_last().push(s.last()));
    }
}

/// What a batch was asked for, as a client reads it.
pub open spec fn subject_json(request: DownloadSaveRequest) -> JsonModel {
    JsonModel::Object(
        Map::<Seq<char>, JsonModel>::empty().insert(
            "kind"@,
            JsonModel::Text("bulk_asset_save"@),
        ).insert("output_dir"@, JsonModel::Text(request.output_dir@)).insert(
            "output_dir_state"@,
            summary::batch_dir_json(),
        ).insert("input_field"@, json::opt_text_model(text::opt_text(request.input_field))).insert(
            "url_field"@,
            json::opt_text_model(text::opt_text(request.url_field)),
        ).insert("name_field"@, json::opt_text_model(text::opt_text(request.name_field))).insert(
            "base_url"@,
            json::opt_text_model(text::opt_text(request.base_url)),
        ).insert("cookie_url"@, json::opt_text_model(text::opt_text(request.cookie_url))).insert(
            "limit"@,
            match request.limit {
                Some(l) => JsonModel::Number(NumberModel::Int(l as int)),
                None => JsonModel::Null,
            },
        ).insert(
            "concurrency"@,
            JsonModel::Number(NumberModel::Int(request.concurrency as int)),
        ).insert("overwrite"@, JsonModel::Bool(request.overwrite)),
    )
}

pub fn subject_projection(request: &DownloadSaveRequest) -> (r: Json)
    ensures
        r@ == subject_json(*request),
{
    let limit = match request.limit {
        Some(l) => json::uint_value(l as u64),
        None => Json::Null,
    };
    Json::Object(
        JsonObject::new().with("kind", json::text_value("bulk_asset_save")).with(
            "output_dir",
            json::text_value(request.output_dir.as_str()),
        ).with("output_dir_state", summary::bulk_output_dir_state_json()).with(
            "input_field",
            json::opt_text_value(&request.input_field),
        ).with("url_field", json::opt_text_value(&request.url_field)).with(
            "name_field",
            json::opt_text_value(&request.name_field),
        ).with("base_url", json::opt_text_value(&request.base_url)).with(
            "cookie_url",
            json::opt_text_value(&request.cookie_url),
        ).with("limit", limit).with(
            "concurrency",
            json::uint_value(request.concurrency as u64),
        ).with("overwrite", Json::Bool(request.overwrite)),
    )
}

/// The reports of a batch as a client reads them.
pub open spec fn entries_json(s: Seq<EntryModel>) -> Seq<JsonModel> {
    s.map_values(|e: EntryModel| execute::entry_json(e))
}

fn entries_value(entries: &Vec<SavedAssetEntry>) -> (r: Json)
    ensures
        r@ == JsonModel::Array(entries_json(execute::entry_models(entries@))),
{
    let ghost all = entries_json(execute::entry_models(entries@));
    let mut items: Vec<Json> = Vec::new();
    let mut i: usize = 0;
    assert(json::items_model(items@) =~= all.take(0));
    while i < entries.len()
        invariant
            i <= entries@.len(),
            all == entries_json(execute::entry_models(entries@)),
            json::items_model(items@) == all.take(i as int),
        decreases entries@.len() - i,
    {
        let item = execute::entry_json_value(&entries[i]);
        let ghost before = items@;
        items.push(item);
        proof {
            assert(items@.drop_last() =~= before);
            assert(all.take(i + 1) =~= all.take(i as int).push(all[i as int]));
        }
        i += 1;
    }
    assert(all.take(i as int) =~= all);
    Json::Array(items)
}

/// The answer to a batch.
pub fn batch_payload(
    request: &DownloadSaveRequest,
    source_count: u32,
    attempted_count: u32,
    results: Vec<SavedAssetEntry>,
) -> (r: Json)
    ensures
        exists|summary: summary::BulkAssetSaveSummary|
            #![trigger summary::summary_json(summary)]
            ({
                let ordered = in_source_order(execute::entry_models(results@));
                &&& summary_of(
                    summary,
                    source_count,
                    attempted_count,
                    request.output_dir@,
                    ordered,
                )
                &&& r@ == JsonModel::Object(
                    Map::<Seq<char>, JsonModel>::empty().insert(
                        "subject"@,
                        subject_json(*request),
                    ).insert(
                        "result"@,
                        JsonModel::Object(
                            Map::<Seq<char>, JsonModel>::empty().insert(
                                "summary"@,
                                summary::summary_json(summary),
                            ).insert("entries"@, JsonModel::Array(entries_json(ordered))),
                        ),
                    ),
                )
            }),
{
    let ordered = sort_entries(results);
    let summary = summary::summarize_results(
        source_count,
        attempted_count,
        request.output_dir.as_str(),
        &ordered,
    );
    let result = JsonObject::new().with("summary", summary::summary_json_value(&summary)).with(
        "entries",
        entries_value(&ordered),
    );
    let r = Json::Object(
        JsonObject::new().with("subject", subject_projection(request)).with(
            "result",
            Json::Object(result),
        ),
    );
    assert(summary_of(
        summary,
        source_count,
        attempted_count,
        request.output_dir@,
        execute::entry_models(ordered@),
    ));
    r
}

/// Whether a summary counts the reports of a batch.
pub open spec fn summary_of(
    s: summary::BulkAssetSaveSummary,
    source_count: u32,
    attempted_count: u32,
    output_dir: Seq<char>,
    entries: Seq<EntryModel>,
) -> bool {
    &&& s.source_count == source_count
    &&& s.attempted_count == attempted_count
    &&& s.saved_count == summary::capped(
        summary::with_status(entries, paths::SavedAssetStatus::Saved),
    )
    &&& s.skipped_existing_count == summary::capped(
        summary::with_status(entries, paths::SavedAssetStatus::SkippedExisting),
    )
    &&& s.failed_count == summary::capped(
        summary::with_status(entries, paths::SavedAssetStatus::Failed),
    )
    &&& s.timed_out_count == summary::capped(
        summary::with_status(entries, paths::SavedAssetStatus::TimedOut),
    )
    &&& s.complete == (summary::with_status(entries, paths::SavedAssetStatus::TimedOut) == 0)
    &&& s.output_dir@ == output_dir
    &&& summary::dir_state_json(s.output_dir_state) == summary::batch_dir_json()
}

/// Reports of one number stay in the order in which they came in.
pub proof fn reports_of_one_source_keep_their_order(s: Seq<EntryModel>, index: u32)
    ensures
        of_source(in_source_order(s), index) == of_source(s, index),
    decreases s.len(),
{
    if s.len() > 0 {
        let front = s.drop_last();
        reports_of_one_source_keep_their_order(front, index);
        insert_entry_is_stable(in_source_order(front), s.last(), index);
        of_source_push(in_source_order(front), s.last(), index);
    }
}

/// The reports on one source, in order.
pub open spec fn of_source(s: Seq<EntryModel>, index: u32) -> Seq<EntryModel>
    decreases s.len(),
{
    if s.len() == 0 {
        seq![]
    } else {
        let front = of_source(s.drop_last(), index);
        if s.last().index == index {
            front.push(s.last())
        } else {
            front
        }
    }
}

proof fn of_source_push(s: Seq<EntryModel>, e: EntryModel, index: u32)
    ensures
        of_source(s.push(e), index) == (if e.index == index {
            of_source(s, index).push(e)
        } else {
            of_source(s, index)
        }),
{
    assert(s.push(e).drop_last() =~= s);
}

proof fn insert_entry_is_stable(s: Seq<EntryModel>, e: EntryModel, index: u32)
    ensures
        of_source(insert_entry(s, e), index) == of_source(s.push(e), index),
    decreases s.len(),
{
    if s.len() > 0 && s.last().index > e.index {
        let front = s.drop_last();
        insert_entry_is_stable(front, e, index);
        of_source_push(s, e, index);
        of_source_push(front, e, index);
        of_source_push(front, s.last(), index);
        of_source_push(insert_entry(front, e), s.last(), index);
        assert(front.push(s.last()) =~= s);
    }
}

/// A number of assets at once is refused exactly where it is zero or over the largest
/// that is allowed.
pub proof fn concurrency_is_bounded(concurrency: u32)
    ensures
        concurrency_error(concurrency) is None <==> 1 <= concurrency <= 64,
        concurrency_error(concurrency) matches Some(ErrorModel::Domain(e)) ==> e.code
            == ErrorCode::InvalidInput,
        !(concurrency_error(concurrency) matches Some(ErrorModel::Internal(_))),
{
}

/// What a batch was asked for is shown each in its own place.
pub proof fn batch_subjects_show_the_request(request: DownloadSaveRequest)
    ensures
        ({
            let j = subject_json(request);
            &&& json::member(j, "output_dir"@) == Some(JsonModel::Text(request.output_dir@))
            &&& json::member(j, "input_field"@) == Some(
                json::opt_text_model(text::opt_text(request.input_field)),
            )
            &&& json::member(j, "url_field"@) == Some(
                json::opt_text_model(text::opt_text(request.url_field)),
            )
            &&& json::member(j, "name_field"@) == Some(
                json::opt_text_model(text::opt_text(request.name_field)),
            )
            &&& json::member(j, "base_url"@) == Some(
                json::opt_text_model(text::opt_text(request.base_url)),
            )
            &&& json::member(j, "cookie_url"@) == Some(
                json::opt_text_model(text::opt_text(request.cookie_url)),
            )
            &&& json::member(j, "concurrency"@) == Some(json::number(request.concurrency as int))
            &&& json::member(j, "overwrite"@) == Some(JsonModel::Bool(request.overwrite))
            &&& request.limit is None ==> json::member(j, "limit"@) == Some(JsonModel::Null)
            &&& request.limit matches Some(n) ==> json::member(j, "limit"@) == Some(
                json::number(n as int),
            )
        }),
{
    reveal_strlit("kind");
    reveal_strlit("output_dir");
    reveal_strlit("output_dir_state");
    reveal_strlit("input_field");
    reveal_strlit("url_field");
    reveal_strlit("name_field");
    reveal_strlit("base_url");
    reveal_strlit("cookie_url");
    reveal_strlit("limit");
    reveal_strlit("concurrency");
    reveal_strlit("overwrite");
    assert("kind"@.len() != "output_dir"@.len());
    assert("kind"@.len() != "output_dir_state"@.len());
    assert("kind"@.len() != "input_field"@.len());
    assert("kind"@.len() != "url_field"@.len());
    assert("kind"@.len() != "name_field"@.len());
    assert("kind"@.len() != "base_url"@.len());
    assert("kind"@.len() != "cookie_url"@.len());
    assert("kind"@.len() != "limit"@.len());
    assert("kind"@.len() != "concurrency"@.len());
    assert("kind"@.len() != "overwrite"@.len());
    assert("output_dir"@.len() != "output_dir_state"@.len());
    assert("output_dir"@.len() != "input_field"@.len());
    assert("output_dir"@.len() != "url_field"@.len());
    assert("output_dir"@[0] != "name_field"@[0]);
    assert("output_dir"@.len() != "base_url"@.len());
    assert("output_dir"@[0] != "cookie_url"@[0]);
    assert("output_dir"@.len() != "limit"@.len());
    assert("output_dir"@.len() != "concurrency"@.len());
    assert("output_dir"@.len() != "overwrite"@.len());
    assert("output_dir_state"@.len() != "input_field"@.len());
    assert("output_dir_state"@.len() != "url_field"@.len());
    assert("output_dir_state"@.len() != "name_field"@.len());
    assert("output_dir_state"@.len() != "base_url"@.len());
    assert("output_dir_state"@.len() != "cookie_url"@.len());
    assert("output_dir_state"@.len() != "limit"@.len());
    assert("output_dir_state"@.len() != "concurrency"@.len());
    assert("output_dir_state"@.len() != "overwrite"@.len());
    assert("input_field"@.len() != "url_field"@.len());
    assert("input_field"@.len() != "name_field"@.len());
    assert("input_field"@.len() != "base_url"@.len());
    assert("input_field"@.len() != "cookie_url"@.len());
    assert("input_field"@.len() != "limit"@.len());
    assert("input_field"@[0] != "concurrency"@[0]);
    assert("input_field"@.len() != "overwrite"@.len());
    assert("url_field"@.len() != "name_field"@.len());
    assert("url_field"@.len() != "base_url"@.len());
    assert("url_field"@.len() != "cookie_url"@.len());
    assert("url_field"@.len() != "limit"@.len());
    assert("url_field"@.len() != "concurrency"@.len());
    assert("url_field"@[0] != "overwrite"@[0]);
    assert("name_field"@.len() != "base_url"@.len());
    assert("name_field"@[0] != "cookie_url"@[0]);
    assert("name_field"@.len() != "limit"@.len());
    assert("name_field"@.len() != "concurrency"@.len());
    assert("name_field"@.len() != "overwrite"@.len());
    assert("base_url"@.len() != "cookie_url"@.len());
    assert("base_url"@.len() != "limit"@.len());
    assert("base_url"@.len() != "concurrency"@.len());
    assert("base_url"@.len() != "overwrite"@.len());
    assert("cookie_url"@.len() != "limit"@.len());
    assert("cookie_url"@.len() != "concurrency"@.len());
    assert("cookie_url"@.len() != "overwrite"@.len());
    assert("limit"@.len() != "concurrency"@.len());
    assert("limit"@.len() != "overwrite"@.len());
    assert("concurrency"@.len() != "overwrite"@.len());
}

/// A batch that ran out of time before it could save says whether it had begun.
pub proof fn late_batches_say_whether_they_began(started: bool, timeout_ms: u64)
    ensures
        ({
            &&& preparation_timeout(started, timeout_ms) matches ErrorModel::Domain(e)
            &&& e.code == ErrorCode::IpcTimeout
            &&& e.context matches Some(c)
            &&& json::member(c, "timeout_ms"@) == Some(json::number(timeout_ms as int))
            &&& json::member(c, "reason"@) == Some(
                JsonModel::Text(
                    if started {
                        "bulk_asset_save_prepare_timed_out"@
                    } else {
                        "bulk_asset_save_deadline_exceeded_before_prepare"@
                    },
                ),
            )
        }),
{
    reveal_strlit("reason");
    reveal_strlit("timeout_ms");
    assert("reason"@.len() != "timeout_ms"@.len());
}

/// A batch lasts no longer than it may, and nothing else of it changes; it counts no more
/// sources than there are, and no more than its limit.
pub proof fn batches_stay_within_their_limits(
    request: DownloadSaveRequest,
    timeout_ms: u64,
    within: DownloadSaveRequest,
    limit: Option<u32>,
    sources: usize,
    count: u32,
)
    requires
        call_ensures(DownloadSaveRequest::within, (request, timeout_ms), within),
        call_ensures(source_count, (limit, sources), count),
    ensures
        within.timeout_ms <= timeout_ms && within.timeout_ms <= request.timeout_ms,
        within.timeout_ms == timeout_ms || within.timeout_ms == request.timeout_ms,
        within.file == request.file && within.output_dir == request.output_dir
            && within.overwrite == request.overwrite && within.limit == request.limit
            && within.concurrency == request.concurrency && within.base_url == request.base_url
            && within.cookie_url == request.cookie_url && within.input_field == request.input_field
            && within.url_field == request.url_field && within.name_field == request.name_field,
        count <= sources,
        limit matches Some(n) ==> count <= n,
        limit is None && sources <= u32::MAX ==> count == sources,
        limit matches Some(n) ==> (n <= sources ==> count == n),
        limit matches Some(n) ==> (n > sources ==> count == sources),
{
}

/// The answer on a batch shows the request, the counts and every report in the order of the
/// sources.
pub proof fn batch_answers_show_every_report(
    request: DownloadSaveRequest,
    source_count: u32,
    attempted_count: u32,
    results: Vec<SavedAssetEntry>,
    r: Json,
)
    requires
        call_ensures(batch_payload, (&request, source_count, attempted_count, results), r),
    ensures
        json::member(r@, "subject"@) == Some(subject_json(request)),
        json::member(r@, "result"@) matches Some(shown) && (json::member(shown, "entries"@) matches
            Some(JsonModel::Array(entries)) && entries.len() == results@.len() && forall|i: int|
            0 <= i < entries.len() ==> #[trigger] entries[i] == execute::entry_json(
                in_source_order(execute::entry_models(results@))[i],
            )) && (json::member(shown, "summary"@) matches Some(counts) && json::member(
            counts,
            "source_count"@,
        ) == Some(json::number(source_count as int)) && json::member(counts, "attempted_count"@)
            == Some(json::number(attempted_count as int))),
{
    reveal_strlit("subject");
    reveal_strlit("result");
    assert("subject"@.len() != "result"@.len());
    reveal_strlit("summary");
    reveal_strlit("entries");
    assert("summary"@[0] != "entries"@[0]);
    let models = execute::entry_models(results@);
    ordered_reports_are_the_reports(models);
    models.to_multiset_ensures();
    in_source_order(models).to_multiset_ensures();
    let s = choose|s: summary::BulkAssetSaveSummary|
        #![trigger summary::summary_json(s)]
        summary_of(
            s,
            source_count,
            attempted_count,
            request.output_dir@,
            in_source_order(models),
        ) && r@ == JsonModel::Object(
            Map::<Seq<char>, JsonModel>::empty().insert("subject"@, subject_json(request)).insert(
                "result"@,
                JsonModel::Object(
                    Map::<Seq<char>, JsonModel>::empty().insert(
                        "summary"@,
                        summary::summary_json(s),
                    ).insert("entries"@, JsonModel::Array(entries_json(in_source_order(models)))),
                ),
            ),
        );
    summary::summaries_show_their_counts(s);
}

/// A batch takes up its sources one by one, in their order, as long as there is room and
/// time; after the deadline each is given up with a report, and the batch is done exactly
/// where every source has its report.
pub proof fn batches_take_up_their_sources_in_order(
    before: SaveBatch,
    after: SaveBatch,
    deadline_passed: bool,
    r: Dispatch,
)
    requires
        before.wf(),
        dispatched(before, after, deadline_passed, r),
    ensures
        r is Start || r is GivenUp <==> before.inflight < before.concurrency && before.next
            < before.sources@.len(),
        r is Start ==> !deadline_passed,
        r is GivenUp ==> deadline_passed && after.results@.len() == before.results@.len() + 1,
        r matches Dispatch::Start(source) ==> source@ == before.sources@[before.next as int]@
            && after.inflight == before.inflight + 1 && (before.attempted < u32::MAX
            ==> after.attempted == before.attempted + 1),
        r is Start || r is GivenUp ==> after.next == before.next + 1,
        r is Await ==> before.inflight > 0 && after == before,
        r is Done ==> before.inflight == 0 && before.next == before.sources@.len()
            && before.results@.len() == before.sources@.len() && after == before,
        r is GivenUp ==> (execute::entry_models(after.results@).last().status
            == paths::SavedAssetStatus::TimedOut && execute::entry_models(
            after.results@,
        ).last().index == before.sources@[before.next as int]@.index),
{
}

} // verus!
