//! Reading a list while scrolling through it, or until something shows up.

use vstd::prelude::*;
use crate::addressing::semantic;
use crate::error::{self, ErrorCode, ErrorModel, RubError};
use crate::json::{self, Json, JsonModel, JsonObject, NumberModel};
use crate::json_text;
use crate::text;
use super::spec::ExtractListWaitConfig;

verus! {

/// How a list is scanned.
#[derive(Debug)]
pub struct ExtractScanConfig {
    pub until_count: u32,
    pub dedupe_key: Option<String>,
    pub max_scrolls: u32,
    pub scroll_amount: u32,
    pub settle_ms: u64,
    pub stall_limit: u32,
}

impl ExtractScanConfig {
    pub open spec fn wf(self) -> bool {
        self.until_count > 0 && self.max_scrolls > 0 && self.scroll_amount > 0 && self.stall_limit
            > 0
    }
}

/// The text by which a value counts: a text as it is, and anything else as JSON.
pub open spec fn value_text(v: JsonModel) -> Seq<char> {
    match v {
        JsonModel::Text(s) => s,
        _ => json_text::compact_text(v),
    }
}

fn value_text_of(v: &Json) -> (r: String)
    ensures
        r@ == value_text(v@),
{
    match v {
        Json::Text(s) => s.clone(),
        _ => json_text::to_compact_text(v),
    }
}

/// An error of a row whose key is not usable.
pub open spec fn key_error(
    path: Seq<char>,
    what: Seq<char>,
    row_index: int,
    row: JsonModel,
) -> ErrorModel {
    error::with_context(
        ErrorCode::InvalidInput,
        "scan_key '"@ + path + what + text::decimal(row_index as nat),
        JsonModel::Object(
            Map::<Seq<char>, JsonModel>::empty().insert("scan_key"@, JsonModel::Text(path)).insert(
                "row_index"@,
                JsonModel::Number(NumberModel::Int(row_index)),
            ).insert("row"@, row),
        ),
    )
}

fn key_error_value(path: &str, what: &str, row_index: usize, row: &Json) -> (r: RubError)
    ensures
        r@ == key_error(path@, what@, row_index as int, row@),
{
    let number = text::decimal_string(row_index as u64);
    let head = text::cat3("scan_key '", path, what);
    let message = text::cat2(head.as_str(), number.as_str());
    let context = JsonObject::new().with("scan_key", json::text_value(path)).with(
        "row_index",
        json::uint_value(row_index as u64),
    ).with("row", row.clone());
    RubError::domain_with_context(
        ErrorCode::InvalidInput,
        message.as_str(),
        Json::Object(context),
    )
}

/// What tells a row from the others: the value at the key, or the whole row.
pub open spec fn fingerprint(
    row: JsonModel,
    dedupe_key: Option<Seq<char>>,
    row_index: int,
) -> Result<Seq<char>, ErrorModel> {
    match dedupe_key {
        Some(path) => match json::at_path(row, path) {
            None => Err(key_error(path, "' was missing from extracted row "@, row_index, row)),
            Some(v) => if text::trimmed(value_text(v)).len() == 0 {
                Err(key_error(path, "' resolved to an empty value in row "@, row_index, row))
            } else {
                Ok(value_text(v))
            },
        },
        None => Ok(json_text::compact_text(row)),
    }
}

pub open spec fn text_result(r: Result<String, RubError>) -> Result<Seq<char>, ErrorModel> {
    match r {
        Ok(s) => Ok(s@),
        Err(e) => Err(e@),
    }
}

pub fn row_fingerprint(row: &Json, dedupe_key: Option<&str>, row_index: usize) -> (r: Result<
    String,
    RubError,
>)
    ensures
        text_result(r) == fingerprint(row@, json::opt_str_text(dedupe_key), row_index as int),
{
    match dedupe_key {
        Some(path) => match json::lookup_json_path(row, path) {
            None => Err(
                key_error_value(path, "' was missing from extracted row ", row_index, row),
            ),
            Some(v) => {
                let found = value_text_of(v);
                if text::chars_of(text::trim(found.as_str())).len() == 0 {
                    return Err(
                        key_error_value(
                            path,
                            "' resolved to an empty value in row ",
                            row_index,
                            row,
                        ),
                    );
                }
                Ok(found)
            },
        },
        None => Ok(json_text::to_compact_text(row)),
    }
}

/// What tells the first `n` rows apart, or what is wrong with the first bad one.
pub open spec fn fingerprints(
    rows: Seq<JsonModel>,
    n: int,
    dedupe_key: Option<Seq<char>>,
) -> Result<Seq<Seq<char>>, ErrorModel>
    decreases n,
{
    if n <= 0 {
        Ok(seq![])
    } else {
        match fingerprints(rows, n - 1, dedupe_key) {
            Err(e) => Err(e),
            Ok(front) => match fingerprint(rows[n - 1], dedupe_key, n - 1) {
                Err(e) => Err(e),
                Ok(s) => Ok(front.push(s)),
            },
        }
    }
}

proof fn fingerprints_failed(
    rows: Seq<JsonModel>,
    k: int,
    n: int,
    dedupe_key: Option<Seq<char>>,
)
    requires
        0 <= k <= n,
        fingerprints(rows, k, dedupe_key) is Err,
    ensures
        fingerprints(rows, n, dedupe_key) == fingerprints(rows, k, dedupe_key),
    decreases n - k,
{
    if k < n {
        fingerprints_failed(rows, k, n - 1, dedupe_key);
    }
}

proof fn fingerprints_len(rows: Seq<JsonModel>, n: int, dedupe_key: Option<Seq<char>>)
    requires
        0 <= n,
        fingerprints(rows, n, dedupe_key) is Ok,
    ensures
        fingerprints(rows, n, dedupe_key)->Ok_0.len() == n,
    decreases n,
{
    if n > 0 {
        fingerprints_len(rows, n - 1, dedupe_key);
    }
}

fn fingerprints_of(rows: &Vec<Json>, dedupe_key: Option<&str>) -> (r: Result<
    Vec<String>,
    RubError,
>)
    ensures
        match r {
            Ok(v) => fingerprints(
                json::items_model(rows@),
                rows@.len() as int,
                json::opt_str_text(dedupe_key),
            ) == Ok::<Seq<Seq<char>>, ErrorModel>(text::texts(v@)),
            Err(e) => fingerprints(
                json::items_model(rows@),
                rows@.len() as int,
                json::opt_str_text(dedupe_key),
            ) == Err::<Seq<Seq<char>>, ErrorModel>(e@),
        },
{
    let ghost all = json::items_model(rows@);
    let ghost key = json::opt_str_text(dedupe_key);
    let mut out: Vec<String> = Vec::new();
    let mut i: usize = 0;
    assert(text::texts(out@) =~= seq![]);
    while i < rows.len()
        invariant
            i <= rows@.len(),
            all == json::items_model(rows@),
            key == json::opt_str_text(dedupe_key),
            fingerprints(all, i as int, key) == Ok::<Seq<Seq<char>>, ErrorModel>(
                text::texts(out@),
            ),
        decreases rows@.len() - i,
    {
        proof {
            json::items_model_at(rows@, i as int);
        }
        match row_fingerprint(&rows[i], dedupe_key, i) {
            Ok(s) => {
                let ghost before = text::texts(out@);
                out.push(s);
                assert(text::texts(out@) =~= before.push(s@));
            },
            Err(e) => {
                proof {
                    fingerprints_failed(all, i + 1, rows@.len() as int, key);
                }
                return Err(e);
            },
        }
        i += 1;
    }
    Ok(out)
}

/// Why a scan stopped.
#[derive(Clone, Copy, Debug, PartialEq, Eq, Structural)]
pub enum ScanStop {
    TargetReached,
    AtBottom,
    Stalled,
    MaxScrollsReached,
}

pub open spec fn stop_name(stop: ScanStop) -> Seq<char> {
    match stop {
        ScanStop::TargetReached => "target_reached"@,
        ScanStop::AtBottom => "at_bottom"@,
        ScanStop::Stalled => "stalled"@,
        ScanStop::MaxScrollsReached => "max_scrolls_reached"@,
    }
}

impl ScanStop {
    pub fn as_str(self) -> (r: &'static str)
        ensures
            r@ == stop_name(self),
    {
        match self {
            ScanStop::TargetReached => "target_reached",
            ScanStop::AtBottom => "at_bottom",
            ScanStop::Stalled => "stalled",
            ScanStop::MaxScrollsReached => "max_scrolls_reached",
        }
    }
}

/// What a scan does next.
#[derive(Clone, Copy, Debug, PartialEq, Eq, Structural)]
pub enum ScanStep {
    Stop(ScanStop),
    /// Scroll on, let the page settle, and read again.
    Scroll,
}

/// A scan of a list.
#[derive(Debug)]
pub struct ListScan {
    pub rows: Vec<Json>,
    pub seen: Vec<String>,
    pub pass_count: u32,
    pub scroll_count: u32,
    pub no_growth_passes: u32,
    pub bottom_hint: bool,
}

/// A scan of a list, over models.
#[verifier::ext_equal]
pub struct ScanModel {
    pub rows: Seq<JsonModel>,
    pub seen: Seq<Seq<char>>,
    pub pass_count: u32,
    pub scroll_count: u32,
    pub no_growth_passes: u32,
    pub bottom_hint: bool,
}

impl View for ListScan {
    type V = ScanModel;

    open spec fn view(&self) -> ScanModel {
        ScanModel {
            rows: json::items_model(self.rows@),
            seen: text::texts(self.seen@),
            pass_count: self.pass_count,
            scroll_count: self.scroll_count,
            no_growth_passes: self.no_growth_passes,
            bottom_hint: self.bottom_hint,
        }
    }
}

/// The rows and fingerprints after the first `n` rows of a batch: a row with a
/// fingerprint that was seen is left out.
pub open spec fn merged(
    rows: Seq<JsonModel>,
    seen: Seq<Seq<char>>,
    batch: Seq<JsonModel>,
    prints: Seq<Seq<char>>,
    n: int,
) -> (Seq<JsonModel>, Seq<Seq<char>>)
    decreases n,
{
    if n <= 0 {
        (rows, seen)
    } else {
        let front = merged(rows, seen, batch, prints, n - 1);
        if front.1.contains(prints[n - 1]) {
            front
        } else {
            (front.0.push(batch[n - 1]), front.1.push(prints[n - 1]))
        }
    }
}

/// One more, or the largest number.
pub open spec fn one_more(n: u32) -> u32 {
    if n == u32::MAX {
        n
    } else {
        (n + 1) as u32
    }
}

fn increment(n: u32) -> (r: u32)
    ensures
        r == one_more(n),
{
    if n == u32::MAX {
        n
    } else {
        n + 1
    }
}

/// What a scan is after a batch of rows, and what it does next.
pub open spec fn absorbed(
    m: ScanModel,
    config: ExtractScanConfig,
    batch: Seq<JsonModel>,
    prints: Seq<Seq<char>>,
) -> (ScanModel, ScanStep) {
    let all = merged(m.rows, m.seen, batch, prints, batch.len() as int);
    let grown = ScanModel {
        rows: all.0,
        seen: all.1,
        pass_count: one_more(m.pass_count),
        ..m
    };
    if all.0.len() >= config.until_count {
        (
            ScanModel { rows: all.0.take(config.until_count as int), ..grown },
            ScanStep::Stop(ScanStop::TargetReached),
        )
    } else {
        let new_rows = all.0.len() - m.rows.len();
        let counted = ScanModel {
            no_growth_passes: if new_rows == 0 {
                one_more(m.no_growth_passes)
            } else {
                0
            },
            bottom_hint: m.bottom_hint && new_rows == 0,
            ..grown
        };
        (
            counted,
            if counted.bottom_hint {
                ScanStep::Stop(ScanStop::AtBottom)
            } else if counted.no_growth_passes >= config.stall_limit {
                ScanStep::Stop(ScanStop::Stalled)
            } else if m.scroll_count >= config.max_scrolls {
                ScanStep::Stop(ScanStop::MaxScrollsReached)
            } else {
                ScanStep::Scroll
            },
        )
    }
}

fn was_seen(seen: &Vec<String>, print: &str) -> (r: bool)
    ensures
        r == text::texts(seen@).contains(print@),
{
    let ghost all = text::texts(seen@);
    let mut i: usize = 0;
    while i < seen.len()
        invariant
            i <= seen@.len(),
            all == text::texts(seen@),
            forall|j: int| 0 <= j < i ==> #[trigger] all[j] != print@,
        decreases seen@.len() - i,
    {
        assert(all[i as int] == seen@[i as int]@);
        if text::str_eq(seen[i].as_str(), print) {
            return true;
        }
        i += 1;
    }
    false
}

proof fn items_model_take(s: Seq<Json>, n: int)
    requires
        0 <= n <= s.len(),
    ensures
        json::items_model(s.take(n)) == json::items_model(s).take(n),
{
    json::items_model_len(s);
    json::items_model_len(s.take(n));
    assert forall|i: int| 0 <= i < n implies json::items_model(s.take(n))[i]
        == json::items_model(s).take(n)[i] by {
        json::items_model_at(s, i);
        json::items_model_at(s.take(n), i);
    }
    assert(json::items_model(s.take(n)) =~= json::items_model(s).take(n));
}

impl ListScan {
    pub fn new() -> (r: ListScan)
        ensures
            r@ == (ScanModel {
                rows: seq![],
                seen: seq![],
                pass_count: 0,
                scroll_count: 0,
                no_growth_passes: 0,
                bottom_hint: false,
            }),
    {
        let r = ListScan {
            rows: Vec::new(),
            seen: Vec::new(),
            pass_count: 0,
            scroll_count: 0,
            no_growth_passes: 0,
            bottom_hint: false,
        };
        assert(text::texts(r.seen@) =~= seq![]);
        r
    }

    fn merge(&mut self, batch: &Vec<Json>, prints: &Vec<String>)
        requires
            batch@.len() == prints@.len(),
        ensures
            ({
                let all = merged(
                    old(self)@.rows,
                    old(self)@.seen,
                    json::items_model(batch@),
                    text::texts(prints@),
                    batch@.len() as int,
                );
                final(self)@ == (ScanModel { rows: all.0, seen: all.1, ..old(self)@ })
            }),
    {
        let ghost rows = self@.rows;
        let ghost seen = self@.seen;
        let ghost items = json::items_model(batch@);
        let ghost marks = text::texts(prints@);
        let ghost start = self@;
        let mut i: usize = 0;
        while i < batch.len()
            invariant
                i <= batch@.len(),
                batch@.len() == prints@.len(),
                items == json::items_model(batch@),
                marks == text::texts(prints@),
                self@.rows == merged(rows, seen, items, marks, i as int).0,
                self@.seen == merged(rows, seen, items, marks, i as int).1,
                self@.pass_count == start.pass_count,
                self@.scroll_count == start.scroll_count,
                self@.no_growth_passes == start.no_growth_passes,
                self@.bottom_hint == start.bottom_hint,
            decreases batch@.len() - i,
        {
            proof {
                json::items_model_at(batch@, i as int);
                assert(marks[i as int] == prints@[i as int]@);
            }
            if !was_seen(&self.seen, prints[i].as_str()) {
                let ghost before_rows = self.rows@;
                let ghost before_seen = text::texts(self.seen@);
                let row = batch[i].clone();
                self.rows.push(row);
                let print = prints[i].clone();
                self.seen.push(print);
                proof {
                    assert(self.rows@.drop_last() =~= before_rows);
                    assert(text::texts(self.seen@) =~= before_seen.push(print@));
                }
            }
            i += 1;
        }
    }

    /// Takes in the rows of one reading of the list.
    pub fn absorb(&mut self, config: &ExtractScanConfig, batch: &Json) -> (r: Result<
        ScanStep,
        RubError,
    >)
        ensures
            match batch@ {
                JsonModel::Array(rows) => match fingerprints(
                    rows,
                    rows.len() as int,
                    text::opt_text(config.dedupe_key),
                ) {
                    Ok(prints) => r is Ok && (final(self)@, r->Ok_0) == absorbed(
                        old(self)@,
                        *config,
                        rows,
                        prints,
                    ),
                    Err(e) => error::err_model(r) == Some(e) && final(self)@ == old(self)@,
                },
                _ => error::err_model(r) == Some(
                    ErrorModel::Internal("collection scan expected array payload"@),
                ) && final(self)@ == old(self)@,
            },
    {
        let rows = match batch {
            Json::Array(rows) => rows,
            _ => return Err(
                RubError::Internal("collection scan expected array payload".to_owned()),
            ),
        };
        let key = match &config.dedupe_key {
            Some(k) => Some(k.as_str()),
            None => None,
        };
        proof {
            json::items_model_len(rows@);
        }
        let prints = match fingerprints_of(rows, key) {
            Ok(p) => p,
            Err(e) => return Err(e),
        };
        proof {
            fingerprints_len(
                json::items_model(rows@),
                rows@.len() as int,
                text::opt_text(config.dedupe_key),
            );
            assert(text::texts(prints@).len() == prints@.len());
            json::items_model_len(self.rows@);
        }
        let before: usize = self.rows.len();
        self.merge(rows, &prints);
        self.pass_count = increment(self.pass_count);
        proof {
            json::items_model_len(self.rows@);
            merged_grows(
                old(self)@.rows,
                old(self)@.seen,
                json::items_model(rows@),
                text::texts(prints@),
                rows@.len() as int,
            );
        }
        if self.rows.len() >= config.until_count as usize {
            proof {
                items_model_take(self.rows@, config.until_count as int);
            }
            self.rows.truncate(config.until_count as usize);
            return Ok(ScanStep::Stop(ScanStop::TargetReached));
        }
        if self.rows.len() == before {
            self.no_growth_passes = increment(self.no_growth_passes);
        } else {
            self.no_growth_passes = 0;
            self.bottom_hint = false;
        }
        if self.bottom_hint {
            return Ok(ScanStep::Stop(ScanStop::AtBottom));
        }
        if self.no_growth_passes >= config.stall_limit {
            return Ok(ScanStep::Stop(ScanStop::Stalled));
        }
        if self.scroll_count >= config.max_scrolls {
            return Ok(ScanStep::Stop(ScanStop::MaxScrollsReached));
        }
        Ok(ScanStep::Scroll)
    }

    /// Takes in where a scroll led.
    pub fn note_scroll(&mut self, at_bottom: bool)
        ensures
            final(self)@ == (ScanModel {
                scroll_count: one_more(old(self)@.scroll_count),
                bottom_hint: at_bottom,
                ..old(self)@
            }),
    {
        self.scroll_count = increment(self.scroll_count);
        self.bottom_hint = at_bottom;
    }
}

proof fn merged_grows(
    rows: Seq<JsonModel>,
    seen: Seq<Seq<char>>,
    batch: Seq<JsonModel>,
    prints: Seq<Seq<char>>,
    n: int,
)
    ensures
        merged(rows, seen, batch, prints, n).0.len() >= rows.len(),
        merged(rows, seen, batch, prints, n).0.len() - rows.len() == merged(
            rows,
            seen,
            batch,
            prints,
            n,
        ).1.len() - seen.len(),
    decreases n,
{
    if n > 0 {
        merged_grows(rows, seen, batch, prints, n - 1);
    }
}

proof fn merged_keeps_prints_distinct(
    rows: Seq<JsonModel>,
    seen: Seq<Seq<char>>,
    batch: Seq<JsonModel>,
    prints: Seq<Seq<char>>,
    n: int,
)
    requires
        seen.no_duplicates(),
    ensures
        merged(rows, seen, batch, prints, n).1.no_duplicates(),
    decreases n,
{
    if n > 0 {
        merged_keeps_prints_distinct(rows, seen, batch, prints, n - 1);
    }
}

/// Whether every row that a scan holds is there once.
pub open spec fn rows_are_unique(m: ScanModel) -> bool {
    m.seen.no_duplicates() && m.rows.len() == m.seen.len()
}

/// A scan that goes on holds one row for each fingerprint, and no fingerprint
/// twice.
pub proof fn scans_keep_rows_unique(
    m: ScanModel,
    config: ExtractScanConfig,
    batch: Seq<JsonModel>,
    prints: Seq<Seq<char>>,
)
    requires
        rows_are_unique(m),
    ensures
        absorbed(m, config, batch, prints).0.seen.no_duplicates(),
        absorbed(m, config, batch, prints).1 != ScanStep::Stop(ScanStop::TargetReached)
            ==> rows_are_unique(absorbed(m, config, batch, prints).0),
{
    merged_grows(m.rows, m.seen, batch, prints, batch.len() as int);
    merged_keeps_prints_distinct(m.rows, m.seen, batch, prints, batch.len() as int);
}

/// A scan scrolls on only below its limit of scrolls, below its limit of
/// readings without a new row, and short of its target; it reaches its target
/// with exactly as many rows as asked for.
pub proof fn scans_are_bounded(
    m: ScanModel,
    config: ExtractScanConfig,
    batch: Seq<JsonModel>,
    prints: Seq<Seq<char>>,
)
    ensures
        ({
            let (after, step) = absorbed(m, config, batch, prints);
            &&& step == ScanStep::Scroll ==> after.scroll_count < config.max_scrolls
                && after.no_growth_passes < config.stall_limit && after.rows.len()
                < config.until_count
            &&& step == ScanStep::Stop(ScanStop::TargetReached) ==> after.rows.len()
                == config.until_count
            &&& step != ScanStep::Stop(ScanStop::TargetReached) ==> after.rows.len()
                < config.until_count
        }),
{
}

/// What came of a scan, as a client reads it.
pub open spec fn scan_json(
    m: ScanModel,
    stop: ScanStop,
    config: ExtractScanConfig,
) -> JsonModel {
    JsonModel::Object(
        Map::<Seq<char>, JsonModel>::empty().insert(
            "complete"@,
            JsonModel::Bool(stop == ScanStop::TargetReached),
        ).insert("stop_reason"@, JsonModel::Text(stop_name(stop))).insert(
            "returned_count"@,
            JsonModel::Number(NumberModel::Int(m.rows.len() as int)),
        ).insert(
            "unique_count"@,
            JsonModel::Number(NumberModel::Int(m.seen.len() as int)),
        ).insert(
            "target_count"@,
            JsonModel::Number(NumberModel::Int(config.until_count as int)),
        ).insert("pass_count"@, JsonModel::Number(NumberModel::Int(m.pass_count as int))).insert(
            "scroll_count"@,
            JsonModel::Number(NumberModel::Int(m.scroll_count as int)),
        ).insert("scan_key"@, json::opt_text_model(text::opt_text(config.dedupe_key))),
    )
}

pub fn scan_value(scan: &ListScan, stop: ScanStop, config: &ExtractScanConfig) -> (r: Json)
    ensures
        r@ == scan_json(scan@, stop, *config),
{
    proof {
        json::items_model_len(scan.rows@);
        assert(text::texts(scan.seen@).len() == scan.seen@.len());
    }
    let complete = matches!(stop, ScanStop::TargetReached);
    Json::Object(
        JsonObject::new().with("complete", Json::Bool(complete)).with(
            "stop_reason",
            json::text_value(stop.as_str()),
        ).with("returned_count", json::uint_value(scan.rows.len() as u64)).with(
            "unique_count",
            json::uint_value(scan.seen.len() as u64),
        ).with("target_count", json::uint_value(config.until_count as u64)).with(
            "pass_count",
            json::uint_value(scan.pass_count as u64),
        ).with("scroll_count", json::uint_value(scan.scroll_count as u64)).with(
            "scan_key",
            json::opt_text_value(&config.dedupe_key),
        ),
    )
}

/// A text for comparison in a wait: one blank between words, in lower case.
pub open spec fn wait_text(s: Seq<char>) -> Seq<char> {
    text::lowercase(text::joined(text::words(s), " "@))
}

pub fn normalize_wait_text(value: &str) -> (r: String)
    ensures
        r@ == wait_text(value@),
{
    let words = text::split_whitespace(value);
    let line = text::join(&words, " ");
    text::to_lowercase(line.as_str())
}

/// Whether a row is what a wait looks for: the value at the path holds the text.
pub open spec fn row_awaited(row: JsonModel, field_path: Seq<char>, contains: Seq<char>) -> bool {
    match json::at_path(row, field_path) {
        Some(v) => wait_text(contains).len() > 0 && text::occurs(
            wait_text(value_text(v)),
            wait_text(contains),
        ),
        None => false,
    }
}

pub fn collection_row_matches_wait_probe(row: &Json, field_path: &str, contains: &str) -> (r: bool)
    ensures
        r == row_awaited(row@, field_path@, contains@),
{
    match json::lookup_json_path(row, field_path) {
        Some(v) => {
            let found = value_text_of(v);
            let haystack = normalize_wait_text(found.as_str());
            let needle = normalize_wait_text(contains);
            text::chars_of(needle.as_str()).len() > 0 && text::contains(
                haystack.as_str(),
                needle.as_str(),
            )
        },
        None => false,
    }
}

/// Texts with the same words are the same to a wait.
pub proof fn blanks_do_not_matter_to_a_wait(a: Seq<char>, b: Seq<char>)
    requires
        text::words(a) == text::words(b),
    ensures
        wait_text(a) == wait_text(b),
{
}

/// ASCII texts that differ in the case of their letters alone are the same to a
/// wait.
pub proof fn case_does_not_matter_to_a_wait(a: Seq<char>, b: Seq<char>)
    requires
        text::ascii(a),
        text::same_ignoring_ascii_case(a, b),
    ensures
        wait_text(a) == wait_text(b),
{
    semantic::case_does_not_matter(a, b);
}

/// The error for a wait that saw no such row.
pub open spec fn wait_timeout(
    collection_name: Seq<char>,
    wait: ExtractListWaitConfig,
    elapsed_ms: u64,
    item_count: int,
) -> ErrorModel {
    error::with_context(
        ErrorCode::WaitTimeout,
        "List wait timed out before any '"@ + collection_name + "' row matched "@ + wait.field_path@
            + " contains '"@ + wait.contains@ + "'"@,
        JsonModel::Object(
            Map::<Seq<char>, JsonModel>::empty().insert(
                "kind"@,
                JsonModel::Text("collection_extract"@),
            ).insert("collection"@, JsonModel::Text(collection_name)).insert(
                "field_path"@,
                JsonModel::Text(wait.field_path@),
            ).insert("contains"@, JsonModel::Text(wait.contains@)).insert(
                "elapsed_ms"@,
                JsonModel::Number(NumberModel::Int(elapsed_ms as int)),
            ).insert("item_count"@, JsonModel::Number(NumberModel::Int(item_count))),
        ),
    )
}

pub fn collection_wait_timeout_error(
    collection_name: &str,
    wait: &ExtractListWaitConfig,
    elapsed_ms: u64,
    item_count: usize,
) -> (r: RubError)
    ensures
        r@ == wait_timeout(collection_name@, *wait, elapsed_ms, item_count as int),
{
    let head = text::cat3(
        "List wait timed out before any '",
        collection_name,
        "' row matched ",
    );
    let message = text::cat5(
        head.as_str(),
        wait.field_path.as_str(),
        " contains '",
        wait.contains.as_str(),
        "'",
    );
    let context = JsonObject::new().with("kind", json::text_value("collection_extract")).with(
        "collection",
        json::text_value(collection_name),
    ).with("field_path", json::text_value(wait.field_path.as_str())).with(
        "contains",
        json::text_value(wait.contains.as_str()),
    ).with("elapsed_ms", json::uint_value(elapsed_ms)).with(
        "item_count",
        json::uint_value(item_count as u64),
    );
    RubError::domain_with_context(
        ErrorCode::WaitTimeout,
        message.as_str(),
        Json::Object(context),
    )
}

/// The first of the rows that a wait looks for.
pub open spec fn first_awaited(
    rows: Seq<JsonModel>,
    field_path: Seq<char>,
    contains: Seq<char>,
) -> Option<JsonModel>
    decreases rows.len(),
{
    if rows.len() == 0 {
        None
    } else {
        match first_awaited(rows.drop_last(), field_path, contains) {
            Some(row) => Some(row),
            None => if row_awaited(rows.last(), field_path, contains) {
                Some(rows.last())
            } else {
                None
            },
        }
    }
}

proof fn first_awaited_prefix(
    rows: Seq<JsonModel>,
    k: int,
    field_path: Seq<char>,
    contains: Seq<char>,
)
    requires
        0 <= k <= rows.len(),
        first_awaited(rows.take(k), field_path, contains) is Some,
    ensures
        first_awaited(rows, field_path, contains) == first_awaited(
            rows.take(k),
            field_path,
            contains,
        ),
    decreases rows.len(),
{
    if k == rows.len() {
        assert(rows.take(k) =~= rows);
    } else {
        assert(rows.drop_last().take(k) =~= rows.take(k));
        first_awaited_prefix(rows.drop_last(), k, field_path, contains);
    }
}

fn find_awaited<'a>(rows: &'a Vec<Json>, wait: &ExtractListWaitConfig) -> (r: Option<&'a Json>)
    ensures
        json::opt_model(r) == first_awaited(
            json::items_model(rows@),
            wait.field_path@,
            wait.contains@,
        ),
{
    let ghost all = json::items_model(rows@);
    proof {
        json::items_model_len(rows@);
    }
    let mut i: usize = 0;
    while i < rows.len()
        invariant
            i <= rows@.len(),
            all == json::items_model(rows@),
            all.len() == rows@.len(),
            first_awaited(all.take(i as int), wait.field_path@, wait.contains@) is None,
        decreases rows@.len() - i,
    {
        proof {
            json::items_model_at(rows@, i as int);
            assert(all.take(i + 1).drop_last() =~= all.take(i as int));
            assert(all.take(i + 1).last() == rows@[i as int]@);
        }
        if collection_row_matches_wait_probe(
            &rows[i],
            wait.field_path.as_str(),
            wait.contains.as_str(),
        ) {
            proof {
                first_awaited_prefix(all, i + 1, wait.field_path@, wait.contains@);
            }
            return Some(&rows[i]);
        }
        i += 1;
    }
    assert(all.take(i as int) =~= all);
    None
}

/// What a wait for a row does next.
#[derive(Debug)]
pub enum ListWaitStep {
    /// The row that was waited for.
    Matched(Json),
    /// Sleep a little, and read again.
    Sleep,
}

/// What a wait for a row does next, or why it fails.
pub open spec fn list_waited(
    batch: JsonModel,
    wait: ExtractListWaitConfig,
    collection_name: Seq<char>,
    elapsed_ms: u64,
) -> Result<Option<JsonModel>, ErrorModel> {
    match batch {
        JsonModel::Array(rows) => match first_awaited(rows, wait.field_path@, wait.contains@) {
            Some(row) => Ok(Some(row)),
            None => if elapsed_ms >= wait.timeout_ms {
                Err(wait_timeout(collection_name, wait, elapsed_ms, rows.len() as int))
            } else {
                Ok(None)
            },
        },
        _ => Err(ErrorModel::Internal("collection wait expected array payload"@)),
    }
}

pub open spec fn list_wait_result(r: Result<ListWaitStep, RubError>) -> Result<
    Option<JsonModel>,
    ErrorModel,
> {
    match r {
        Ok(ListWaitStep::Matched(row)) => Ok(Some(row@)),
        Ok(ListWaitStep::Sleep) => Ok(None),
        Err(e) => Err(e@),
    }
}

/// Looks at one reading of the list for the row that is waited for.
pub fn poll_collection_match(
    batch: &Json,
    wait: &ExtractListWaitConfig,
    collection_name: &str,
    elapsed_ms: u64,
) -> (r: Result<ListWaitStep, RubError>)
    ensures
        list_wait_result(r) == list_waited(batch@, *wait, collection_name@, elapsed_ms),
{
    let rows = match batch {
        Json::Array(rows) => rows,
        _ => return Err(
            RubError::Internal("collection wait expected array payload".to_owned()),
        ),
    };
    if let Some(row) = find_awaited(rows, wait) {
        return Ok(ListWaitStep::Matched(row.clone()));
    }
    if elapsed_ms >= wait.timeout_ms {
        proof {
            json::items_model_len(rows@);
        }
        return Err(
            collection_wait_timeout_error(collection_name, wait, elapsed_ms, rows.len()),
        );
    }
    Ok(ListWaitStep::Sleep)
}

proof fn merged_by_sight(
    rows: Seq<JsonModel>,
    seen: Seq<Seq<char>>,
    batch: Seq<JsonModel>,
    prints: Seq<Seq<char>>,
    n: int,
)
    requires
        0 <= n <= batch.len(),
        batch.len() == prints.len(),
    ensures
        ({
            let all = merged(rows, seen, batch, prints, n);
            &&& all.0.len() >= rows.len()
            &&& all.0.take(rows.len() as int) == rows
            &&& all.1.len() >= seen.len()
            &&& all.1.take(seen.len() as int) == seen
            &&& forall|i: int| 0 <= i < n ==> all.1.contains(#[trigger] prints[i])
            &&& forall|s: Seq<char>| #[trigger]
                all.1.contains(s) ==> seen.contains(s) || prints.take(n).contains(s)
            &&& all.0.len() == rows.len() <==> (forall|i: int|
                0 <= i < n ==> seen.contains(#[trigger] prints[i]))
        }),
    decreases n,
{
    let all = merged(rows, seen, batch, prints, n);
    if n <= 0 {
        assert(rows.take(rows.len() as int) =~= rows);
        assert(seen.take(seen.len() as int) =~= seen);
    } else {
        let front = merged(rows, seen, batch, prints, n - 1);
        merged_by_sight(rows, seen, batch, prints, n - 1);
        merged_grows(rows, seen, batch, prints, n - 1);
        assert(all.0.take(rows.len() as int) =~= front.0.take(rows.len() as int));
        assert(all.1.take(seen.len() as int) =~= front.1.take(seen.len() as int));
        if !front.1.contains(prints[n - 1]) {
            assert(all.1[front.1.len() as int] == prints[n - 1]);
        }
        assert forall|s: Seq<char>| #[trigger] front.1.contains(s) implies all.1.contains(s) by {
            let i = choose|i: int| 0 <= i < front.1.len() && front.1[i] == s;
            assert(all.1[i] == s);
        }
        assert forall|i: int| 0 <= i < n implies all.1.contains(#[trigger] prints[i]) by {}
        assert(prints.take(n)[n - 1] == prints[n - 1]);
        assert forall|s: Seq<char>| #[trigger] all.1.contains(s) implies seen.contains(s)
            || prints.take(n).contains(s) by {
            let i = choose|i: int| 0 <= i < all.1.len() && all.1[i] == s;
            if i < front.1.len() {
                assert(front.1[i] == s);
                assert(front.1.contains(s));
                if !seen.contains(s) {
                    let earlier = prints.take(n - 1);
                    let j = choose|j: int| 0 <= j < earlier.len() && earlier[j] == s;
                    assert(earlier[j] == prints[j]);
                    assert(prints.take(n)[j] == s);
                }
            }
        }
        assert forall|s: Seq<char>| #[trigger] seen.contains(s) implies front.1.contains(s) by {
            let i = choose|i: int| 0 <= i < seen.len() && seen[i] == s;
            assert(front.1.take(seen.len() as int)[i] == s);
            assert(front.1[i] == s);
        }
        if front.0.len() == rows.len() {
            assert(front.1 =~= front.1.take(seen.len() as int));
            assert(front.1 == seen);
        }
    }
}

/// A scan stops at the bottom only where its last scroll ended at the bottom and
/// the reading after it showed no row that was not seen before; and it stalls only
/// on a reading that showed none. A reading with a row that was not seen before
/// starts the count of readings without one anew, drops the sight of the bottom,
/// and, short of the target, scrolls on while scrolls are left.
pub proof fn scans_stop_for_a_reason(
    m: ScanModel,
    config: ExtractScanConfig,
    batch: Seq<JsonModel>,
    prints: Seq<Seq<char>>,
)
    requires
        config.wf(),
        batch.len() == prints.len(),
        m.rows.len() < config.until_count,
    ensures
        ({
            let (after, step) = absorbed(m, config, batch, prints);
            let grew = exists|i: int|
                0 <= i < batch.len() && !m.seen.contains(#[trigger] prints[i]);
            let idle = m.no_growth_passes + 1;
            &&& step == ScanStep::Stop(ScanStop::AtBottom) <==> !grew && m.bottom_hint
            &&& step == ScanStep::Stop(ScanStop::Stalled) ==> !grew && !m.bottom_hint && idle
                >= config.stall_limit
            &&& !grew ==> after.rows == m.rows && after.seen == m.seen && after.bottom_hint
                == m.bottom_hint && step != ScanStep::Stop(ScanStop::TargetReached)
            &&& !grew && !m.bottom_hint && idle >= config.stall_limit && idle <= u32::MAX
                ==> step == ScanStep::Stop(ScanStop::Stalled)
            &&& !grew && !m.bottom_hint && idle < config.stall_limit ==> after.no_growth_passes
                == idle && step == if m.scroll_count < config.max_scrolls {
                ScanStep::Scroll
            } else {
                ScanStep::Stop(ScanStop::MaxScrollsReached)
            }
            &&& grew ==> after.rows.len() > m.rows.len()
            &&& grew && after.rows.len() < config.until_count ==> after.no_growth_passes == 0
                && !after.bottom_hint && step == if m.scroll_count < config.max_scrolls {
                ScanStep::Scroll
            } else {
                ScanStep::Stop(ScanStop::MaxScrollsReached)
            }
            &&& step == ScanStep::Stop(ScanStop::TargetReached) <==> after.rows.len()
                == config.until_count
        }),
{
    let n = batch.len() as int;
    let all = merged(m.rows, m.seen, batch, prints, n);
    merged_by_sight(m.rows, m.seen, batch, prints, n);
    merged_grows(m.rows, m.seen, batch, prints, n);
    if all.0.len() == m.rows.len() {
        assert(all.0 =~= all.0.take(m.rows.len() as int));
        assert(all.1 =~= all.1.take(m.seen.len() as int));
    }
}

/// A reading keeps the rows that a scan has, in their places, counts as one pass
/// and as no scroll, and shows every fingerprint of its rows as seen.
pub proof fn readings_keep_what_was_read(
    m: ScanModel,
    config: ExtractScanConfig,
    batch: Seq<JsonModel>,
    prints: Seq<Seq<char>>,
)
    requires
        batch.len() == prints.len(),
        m.rows.len() <= config.until_count,
    ensures
        ({
            let after = absorbed(m, config, batch, prints).0;
            &&& after.rows.len() >= m.rows.len()
            &&& forall|i: int| 0 <= i < m.rows.len() ==> #[trigger] after.rows[i] == m.rows[i]
            &&& forall|i: int| 0 <= i < m.seen.len() ==> #[trigger] after.seen[i] == m.seen[i]
            &&& forall|i: int| 0 <= i < batch.len() ==> after.seen.contains(#[trigger] prints[i])
            &&& forall|s: Seq<char>| #[trigger]
                after.seen.contains(s) ==> m.seen.contains(s) || prints.contains(s)
            &&& m.pass_count < u32::MAX ==> after.pass_count == m.pass_count + 1
            &&& after.scroll_count == m.scroll_count
        }),
{
    let n = batch.len() as int;
    let after = absorbed(m, config, batch, prints).0;
    let all = merged(m.rows, m.seen, batch, prints, n);
    merged_by_sight(m.rows, m.seen, batch, prints, n);
    assert(prints.take(n) =~= prints);
    assert forall|i: int| 0 <= i < m.rows.len() implies #[trigger] after.rows[i] == m.rows[i] by {
        assert(all.0.take(m.rows.len() as int)[i] == all.0[i]);
    }
    assert forall|i: int| 0 <= i < m.seen.len() implies #[trigger] after.seen[i] == m.seen[i] by {
        assert(all.1.take(m.seen.len() as int)[i] == all.1[i]);
    }
}

/// Reading a list in two parts takes in what reading it in one does.
pub proof fn readings_can_be_split(
    rows: Seq<JsonModel>,
    seen: Seq<Seq<char>>,
    batch: Seq<JsonModel>,
    prints: Seq<Seq<char>>,
    more: Seq<JsonModel>,
    more_prints: Seq<Seq<char>>,
)
    requires
        batch.len() == prints.len(),
        more.len() == more_prints.len(),
    ensures
        ({
            let first = merged(rows, seen, batch, prints, batch.len() as int);
            merged(
                rows,
                seen,
                batch + more,
                prints + more_prints,
                (batch + more).len() as int,
            ) == merged(first.0, first.1, more, more_prints, more.len() as int)
        }),
{
    let k = batch.len() as int;
    let both = batch + more;
    let marks = prints + more_prints;
    merged_of_prefix(rows, seen, batch, prints, both, marks, k);
    merged_of_rest(rows, seen, both, marks, more, more_prints, k, more.len() as int);
    let first = merged(rows, seen, both, marks, k);
    assert(first == merged(rows, seen, batch, prints, k));
    assert(both.len() == k + more.len());
}

proof fn merged_of_prefix(
    rows: Seq<JsonModel>,
    seen: Seq<Seq<char>>,
    batch: Seq<JsonModel>,
    prints: Seq<Seq<char>>,
    both: Seq<JsonModel>,
    marks: Seq<Seq<char>>,
    n: int,
)
    requires
        0 <= n <= batch.len() <= both.len(),
        n <= prints.len() <= marks.len(),
        forall|i: int| 0 <= i < n ==> batch[i] == #[trigger] both[i] && prints[i] == marks[i],
    ensures
        merged(rows, seen, both, marks, n) == merged(rows, seen, batch, prints, n),
    decreases n,
{
    if n > 0 {
        merged_of_prefix(rows, seen, batch, prints, both, marks, n - 1);
        assert(batch[n - 1] == both[n - 1]);
    }
}

proof fn merged_of_rest(
    rows: Seq<JsonModel>,
    seen: Seq<Seq<char>>,
    both: Seq<JsonModel>,
    marks: Seq<Seq<char>>,
    more: Seq<JsonModel>,
    more_prints: Seq<Seq<char>>,
    k: int,
    n: int,
)
    requires
        0 <= k,
        0 <= n <= more.len(),
        more.len() == more_prints.len(),
        both.len() == marks.len() == k + more.len(),
        forall|i: int| 0 <= i < n ==> #[trigger] more[i] == both[k + i] && more_prints[i] == marks[k
            + i],
    ensures
        ({
            let first = merged(rows, seen, both, marks, k);
            merged(rows, seen, both, marks, k + n) == merged(
                first.0,
                first.1,
                more,
                more_prints,
                n,
            )
        }),
    decreases n,
{
    if n > 0 {
        merged_of_rest(rows, seen, both, marks, more, more_prints, k, n - 1);
        assert(more[n - 1] == both[k + n - 1]);
        assert(k + (n - 1) == (k + n) - 1);
    }
}

/// A row whose fingerprint was seen changes nothing; any other is put behind the
/// rows that are there.
pub proof fn a_row_is_added_where_it_is_new(
    rows: Seq<JsonModel>,
    seen: Seq<Seq<char>>,
    row: JsonModel,
    print: Seq<char>,
)
    ensures
        merged(rows, seen, seq![row], seq![print], 1) == if seen.contains(print) {
            (rows, seen)
        } else {
            (rows.push(row), seen.push(print))
        },
{
    reveal_with_fuel(merged, 2);
}

/// Each row of a list has the fingerprint that it has by itself, in the order of
/// the list; the first row without one fails the list.
pub proof fn fingerprints_go_row_by_row(
    rows: Seq<JsonModel>,
    n: int,
    dedupe_key: Option<Seq<char>>,
)
    requires
        0 <= n <= rows.len(),
    ensures
        match fingerprints(rows, n, dedupe_key) {
            Ok(prints) => prints.len() == n && forall|i: int|
                0 <= i < n ==> fingerprint(#[trigger] rows[i], dedupe_key, i) == Ok::<
                    Seq<char>,
                    ErrorModel,
                >(prints[i]),
            Err(e) => exists|k: int| #![trigger rows[k]]
                0 <= k < n && fingerprint(rows[k], dedupe_key, k) == Err::<Seq<char>, ErrorModel>(e)
                    && forall|i: int|
                    0 <= i < k ==> fingerprint(#[trigger] rows[i], dedupe_key, i) is Ok,
        },
    decreases n,
{
    if n > 0 {
        fingerprints_go_row_by_row(rows, n - 1, dedupe_key);
        if fingerprints(rows, n - 1, dedupe_key) is Ok {
            assert(rows[n - 1] == rows[n - 1]);
        }
    }
}

/// Rows with the same text at the key have the same fingerprint, whatever else
/// they hold; a row with nothing or only blanks at the key has none.
pub proof fn the_key_alone_tells_rows_apart(
    a: JsonModel,
    b: JsonModel,
    key: Seq<char>,
    i: int,
    j: int,
)
    ensures
        json::at_path(a, key) == json::at_path(b, key) && fingerprint(a, Some(key), i) is Ok
            ==> fingerprint(a, Some(key), i) == fingerprint(b, Some(key), j),
        json::at_path(a, key) matches Some(JsonModel::Text(s)) ==> fingerprint(a, Some(key), i)
            is Ok == !text::blank(s),
        json::at_path(a, key) matches Some(JsonModel::Text(s)) ==> (!text::blank(s) ==> fingerprint(
            a,
            Some(key),
            i,
        ) == Ok::<Seq<char>, ErrorModel>(s)),
        json::at_path(a, key) is None ==> fingerprint(a, Some(key), i) is Err,
        fingerprint(a, None, i) is Ok,
        fingerprint(a, None, i) == fingerprint(a, None, j),
{
    if let Some(JsonModel::Text(s)) = json::at_path(a, key) {
        text::blank_texts_trim_to_nothing(s);
    }
}

/// A wait ends with the first row that it looks for. Without one it goes on until
/// its time is up, and then fails.
pub proof fn waits_end_with_the_first_match(
    rows: Seq<JsonModel>,
    wait: ExtractListWaitConfig,
    collection_name: Seq<char>,
    elapsed_ms: u64,
)
    ensures
        ({
            let r = list_waited(JsonModel::Array(rows), wait, collection_name, elapsed_ms);
            let awaited = |row: JsonModel| row_awaited(row, wait.field_path@, wait.contains@);
            &&& r matches Ok(Some(row)) ==> exists|i: int| #![trigger rows[i]]
                0 <= i < rows.len() && rows[i] == row && awaited(row) && forall|j: int|
                    0 <= j < i ==> !awaited(#[trigger] rows[j])
            &&& !(r matches Ok(Some(_))) ==> forall|i: int|
                0 <= i < rows.len() ==> !awaited(#[trigger] rows[i])
            &&& r == Ok::<Option<JsonModel>, ErrorModel>(None) ==> elapsed_ms < wait.timeout_ms
            &&& r is Err ==> elapsed_ms >= wait.timeout_ms && (r matches Err(
                ErrorModel::Domain(e),
            ) && e.code == ErrorCode::WaitTimeout)
        }),
{
    first_awaited_is_first(rows, wait.field_path@, wait.contains@);
}

proof fn first_awaited_is_first(
    rows: Seq<JsonModel>,
    field_path: Seq<char>,
    contains: Seq<char>,
)
    ensures
        match first_awaited(rows, field_path, contains) {
            Some(row) => exists|i: int| #![trigger rows[i]]
                0 <= i < rows.len() && rows[i] == row && row_awaited(row, field_path, contains)
                    && forall|j: int|
                    0 <= j < i ==> !row_awaited(#[trigger] rows[j], field_path, contains),
            None => forall|i: int|
                0 <= i < rows.len() ==> !row_awaited(#[trigger] rows[i], field_path, contains),
        },
    decreases rows.len(),
{
    if rows.len() > 0 {
        let front = rows.drop_last();
        first_awaited_is_first(front, field_path, contains);
        match first_awaited(front, field_path, contains) {
            Some(row) => {
                let i = choose|i: int| #![trigger front[i]]
                    0 <= i < front.len() && front[i] == row && row_awaited(
                        row,
                        field_path,
                        contains,
                    ) && forall|j: int|
                        0 <= j < i ==> !row_awaited(#[trigger] front[j], field_path, contains);
                assert(rows[i] == row);
                assert forall|j: int| 0 <= j < i implies !row_awaited(
                    #[trigger] rows[j],
                    field_path,
                    contains,
                ) by {
                    assert(front[j] == rows[j]);
                }
            },
            None => {
                assert forall|j: int| 0 <= j < front.len() implies !row_awaited(
                    #[trigger] rows[j],
                    field_path,
                    contains,
                ) by {
                    assert(front[j] == rows[j]);
                }
                assert(rows[rows.len() - 1] == rows.last());
            },
        }
    }
}

/// A row is waited for where the text at the path, with single blanks and in lower
/// case, holds the text that is looked for, written so too. A text of blanks is
/// never found.
pub proof fn awaited_rows_hold_the_text(
    row: JsonModel,
    field_path: Seq<char>,
    contains: Seq<char>,
)
    ensures
        row_awaited(row, field_path, contains) ==> json::at_path(row, field_path) is Some
            && wait_text(contains).len() > 0 && exists|k: int|
            0 <= k <= wait_text(value_text(json::at_path(row, field_path)->0)).len()
                - wait_text(contains).len()
                && #[trigger] wait_text(value_text(json::at_path(row, field_path)->0)).subrange(
                k,
                k + wait_text(contains).len(),
            ) == wait_text(contains),
        wait_text(contains).len() == 0 ==> !row_awaited(row, field_path, contains),
        json::at_path(row, field_path) matches Some(JsonModel::Text(s)) ==> (wait_text(s)
            == wait_text(contains) && wait_text(contains).len() > 0 ==> row_awaited(
            row,
            field_path,
            contains,
        )),
{
    if row_awaited(row, field_path, contains) {
        let s = wait_text(value_text(json::at_path(row, field_path)->0));
        let part = wait_text(contains);
        let at = choose|at: int| text::occurs_at(s, part, at);
        assert(s.subrange(at, at + part.len()) =~= part);
    }
    if let Some(JsonModel::Text(s)) = json::at_path(row, field_path) {
        if wait_text(s) == wait_text(contains) {
            assert(text::occurs_at(wait_text(s), wait_text(contains), 0)) by {
                assert(wait_text(s).subrange(0, wait_text(s).len() as int) =~= wait_text(s));
            }
        }
    }
}

/// What came of a scan is told as complete exactly where it reached its target, with why it
/// stopped, how many rows it returns and how often it read and scrolled.
pub proof fn scans_are_told_as_they_ended(
    m: ScanModel,
    stop: ScanStop,
    config: ExtractScanConfig,
)
    ensures
        ({
            let r = scan_json(m, stop, config);
            &&& json::member(r, "complete"@) == Some(
                JsonModel::Bool(stop == ScanStop::TargetReached),
            )
            &&& json::member(r, "stop_reason"@) == Some(JsonModel::Text(stop_name(stop)))
            &&& json::member(r, "returned_count"@) == Some(json::number(m.rows.len() as int))
            &&& json::member(r, "unique_count"@) == Some(json::number(m.seen.len() as int))
            &&& json::member(r, "target_count"@) == Some(json::number(config.until_count as int))
            &&& json::member(r, "pass_count"@) == Some(json::number(m.pass_count as int))
            &&& json::member(r, "scroll_count"@) == Some(json::number(m.scroll_count as int))
        }),
{
    reveal_strlit("complete");
    reveal_strlit("stop_reason");
    reveal_strlit("returned_count");
    reveal_strlit("unique_count");
    reveal_strlit("target_count");
    reveal_strlit("pass_count");
    reveal_strlit("scroll_count");
    reveal_strlit("scan_key");
    assert("complete"@.len() != "stop_reason"@.len());
    assert("complete"@.len() != "returned_count"@.len());
    assert("complete"@.len() != "unique_count"@.len());
    assert("complete"@.len() != "target_count"@.len());
    assert("complete"@.len() != "pass_count"@.len());
    assert("complete"@.len() != "scroll_count"@.len());
    assert("complete"@[0] != "scan_key"@[0]);
    assert("stop_reason"@.len() != "returned_count"@.len());
    assert("stop_reason"@.len() != "unique_count"@.len());
    assert("stop_reason"@.len() != "target_count"@.len());
    assert("stop_reason"@.len() != "pass_count"@.len());
    assert("stop_reason"@.len() != "scroll_count"@.len());
    assert("stop_reason"@.len() != "scan_key"@.len());
    assert("returned_count"@.len() != "unique_count"@.len());
    assert("returned_count"@.len() != "target_count"@.len());
    assert("returned_count"@.len() != "pass_count"@.len());
    assert("returned_count"@.len() != "scroll_count"@.len());
    assert("returned_count"@.len() != "scan_key"@.len());
    assert("unique_count"@[0] != "target_count"@[0]);
    assert("unique_count"@.len() != "pass_count"@.len());
    assert("unique_count"@[0] != "scroll_count"@[0]);
    assert("unique_count"@.len() != "scan_key"@.len());
    assert("target_count"@.len() != "pass_count"@.len());
    assert("target_count"@[0] != "scroll_count"@[0]);
    assert("target_count"@.len() != "scan_key"@.len());
    assert("pass_count"@.len() != "scroll_count"@.len());
    assert("pass_count"@.len() != "scan_key"@.len());
    assert("scroll_count"@.len() != "scan_key"@.len());
}

/// The reasons to stop go by different names.
pub proof fn stops_are_told_apart(a: ScanStop, b: ScanStop)
    ensures
        stop_name(a) == stop_name(b) <==> a == b,
{
    reveal_strlit("target_reached");
    reveal_strlit("at_bottom");
    reveal_strlit("stalled");
    reveal_strlit("max_scrolls_reached");
    assert("target_reached"@.len() != "at_bottom"@.len());
    assert("target_reached"@.len() != "stalled"@.len());
    assert("target_reached"@.len() != "max_scrolls_reached"@.len());
    assert("at_bottom"@.len() != "stalled"@.len());
    assert("at_bottom"@.len() != "max_scrolls_reached"@.len());
    assert("stalled"@.len() != "max_scrolls_reached"@.len());
}

/// A key that is not usable is told with its row, and a wait that saw no row with what it
/// looked for.
pub proof fn scans_and_waits_fail_with_their_reason(
    path: Seq<char>,
    what: Seq<char>,
    row_index: int,
    row: JsonModel,
    collection_name: Seq<char>,
    wait: ExtractListWaitConfig,
    elapsed_ms: u64,
    item_count: int,
)
    ensures
        ({
            &&& key_error(path, what, row_index, row) matches ErrorModel::Domain(e)
            &&& e.code == ErrorCode::InvalidInput
            &&& e.context matches Some(c)
            &&& json::member(c, "scan_key"@) == Some(JsonModel::Text(path))
            &&& json::member(c, "row_index"@) == Some(json::number(row_index))
            &&& json::member(c, "row"@) == Some(row)
        }),
        ({
            &&& wait_timeout(collection_name, wait, elapsed_ms, item_count) matches ErrorModel::Domain(e)
            &&& e.code == ErrorCode::WaitTimeout
            &&& e.context matches Some(c)
            &&& json::member(c, "collection"@) == Some(JsonModel::Text(collection_name))
            &&& json::member(c, "field_path"@) == Some(JsonModel::Text(wait.field_path@))
            &&& json::member(c, "contains"@) == Some(JsonModel::Text(wait.contains@))
            &&& json::member(c, "elapsed_ms"@) == Some(json::number(elapsed_ms as int))
            &&& json::member(c, "item_count"@) == Some(json::number(item_count))
        }),
{
    reveal_strlit("scan_key");
    reveal_strlit("row_index");
    reveal_strlit("row");
    assert("scan_key"@.len() != "row_index"@.len());
    assert("scan_key"@.len() != "row"@.len());
    assert("row_index"@.len() != "row"@.len());
    reveal_strlit("kind");
    reveal_strlit("collection");
    reveal_strlit("field_path");
    reveal_strlit("contains");
    reveal_strlit("elapsed_ms");
    reveal_strlit("item_count");
    assert("kind"@.len() != "collection"@.len());
    assert("kind"@.len() != "field_path"@.len());
    assert("kind"@.len() != "contains"@.len());
    assert("kind"@.len() != "elapsed_ms"@.len());
    assert("kind"@.len() != "item_count"@.len());
    assert("collection"@[0] != "field_path"@[0]);
    assert("collection"@.len() != "contains"@.len());
    assert("collection"@[0] != "elapsed_ms"@[0]);
    assert("collection"@[0] != "item_count"@[0]);
    assert("field_path"@.len() != "contains"@.len());
    assert("field_path"@[0] != "elapsed_ms"@[0]);
    assert("field_path"@[0] != "item_count"@[0]);
    assert("contains"@.len() != "elapsed_ms"@.len());
    assert("contains"@.len() != "item_count"@.len());
    assert("elapsed_ms"@[0] != "item_count"@[0]);
}

/// Counting goes up by one, and stays at the largest number.
pub proof fn counts_go_up_by_one(n: u32)
    ensures
        n < u32::MAX ==> one_more(n) == n + 1,
        n == u32::MAX ==> one_more(n) == n,
{
}

/// Each reason to stop goes by its own name.
pub proof fn stops_go_by_their_names(x: ScanStop)
    ensures
        x == ScanStop::TargetReached <==> stop_name(x) == "target_reached"@,
        x == ScanStop::AtBottom <==> stop_name(x) == "at_bottom"@,
        x == ScanStop::Stalled <==> stop_name(x) == "stalled"@,
        x == ScanStop::MaxScrollsReached <==> stop_name(x) == "max_scrolls_reached"@,
{
    reveal_strlit("target_reached");
    reveal_strlit("at_bottom");
    reveal_strlit("stalled");
    reveal_strlit("max_scrolls_reached");
    assert("target_reached"@.len() != "at_bottom"@.len());
    assert("target_reached"@.len() != "stalled"@.len());
    assert("target_reached"@.len() != "max_scrolls_reached"@.len());
    assert("at_bottom"@.len() != "stalled"@.len());
    assert("at_bottom"@.len() != "max_scrolls_reached"@.len());
    assert("stalled"@.len() != "max_scrolls_reached"@.len());
}

} // verus!
