//! Extracting data from a page.

use vstd::prelude::*;
use crate::error::{self, ErrorCode, ErrorModel, RubError};
use crate::json::{self, Json, JsonModel, JsonObject, NumberModel};
use crate::text;
use self::collection::{ExtractCollectionSpec, ExtractEntries, ExtractEntrySpec};
use self::field::ExtractAuthorityMode;
use self::scan::{ExtractScanConfig, ListScan, ScanStop};
use self::spec::{ExtractCommand, ExtractListWaitConfig, ExtractWaitArgs};

pub mod collection;
pub mod explain;
pub mod field;
pub mod scan;
pub mod spec;

verus! {

/// How a request to extract is carried out.
#[derive(Debug)]
pub enum ExtractPlan {
    /// Read the list while scrolling.
    Scan(ExtractScanConfig),
    /// Read the list until a row matches.
    Wait(ExtractListWaitConfig),
    /// Read once.
    Read(ExtractAuthorityMode),
}

/// What a wait for a list lacks.
pub open spec fn wait_error(wait: ExtractWaitArgs) -> Option<ErrorModel> {
    if (spec::spelled(text::opt_text(wait.wait_field)) is Some) != (spec::spelled(
        text::opt_text(wait.wait_contains),
    ) is Some) {
        Some(
            error::plain(
                ErrorCode::InvalidInput,
                "inspect list wait requires both wait_field and wait_contains"@,
            ),
        )
    } else {
        None
    }
}

/// Why a request to extract is refused.
pub open spec fn plan_error(command: ExtractCommand) -> Option<ErrorModel> {
    match command {
        ExtractCommand::Query { .. } => None,
        ExtractCommand::List { snapshot_id, scan, wait } => {
            let scans = scan.scan_until is Some;
            let waits = spec::spelled(text::opt_text(wait.wait_field)) is Some;
            if spec::scan_error(scan) is Some {
                spec::scan_error(scan)
            } else if wait_error(wait) is Some {
                wait_error(wait)
            } else if scans && snapshot_id is Some {
                Some(
                    error::plain(
                        ErrorCode::InvalidInput,
                        "inspect list scan cannot reuse --snapshot; scanning requires live snapshots across scroll steps"@,
                    ),
                )
            } else if waits && snapshot_id is Some {
                Some(
                    error::plain(
                        ErrorCode::InvalidInput,
                        "inspect list wait cannot reuse --snapshot; waiting for new matches requires live snapshots across poll passes"@,
                    ),
                )
            } else if scans && waits {
                Some(
                    error::plain(
                        ErrorCode::InvalidInput,
                        "inspect list wait cannot be combined with scan in the current product surface"@,
                    ),
                )
            } else {
                None
            }
        },
    }
}

/// What the values of a request may be read from.
pub open spec fn mode_of(command: ExtractCommand) -> ExtractAuthorityMode {
    if spec::snapshot_of(command) is Some {
        ExtractAuthorityMode::SnapshotOnly
    } else {
        ExtractAuthorityMode::LiveAllowed
    }
}

/// Whether a plan is the one for a request.
pub open spec fn is_plan_for(plan: ExtractPlan, command: ExtractCommand) -> bool {
    match command {
        ExtractCommand::Query { .. } => plan == ExtractPlan::Read(mode_of(command)),
        ExtractCommand::List { scan, wait, .. } => if scan.scan_until is Some {
            plan is Scan && plan->Scan_0.wf() && spec::scan_config_of(scan, plan->Scan_0)
        } else if spec::spelled(text::opt_text(wait.wait_field)) is Some {
            &&& plan is Wait
            &&& spec::spelled(text::opt_text(wait.wait_field)) == Some(plan->Wait_0.field_path@)
            &&& spec::spelled(text::opt_text(wait.wait_contains)) == Some(plan->Wait_0.contains@)
            &&& plan->Wait_0.timeout_ms == spec::or_default(
                wait.wait_timeout_ms,
                spec::DEFAULT_WAIT_TIMEOUT_MS,
            )
        } else {
            plan == ExtractPlan::Read(mode_of(command))
        },
    }
}

/// Decides how a request to extract is carried out. What is asked of a snapshot
/// is never answered from the page.
pub fn plan_extract(command: &ExtractCommand) -> (r: Result<ExtractPlan, RubError>)
    ensures
        match r {
            Ok(plan) => plan_error(*command) is None && is_plan_for(plan, *command),
            Err(e) => plan_error(*command) == Some(e@),
        },
{
    let scan = match command.scan_config() {
        Ok(scan) => scan,
        Err(e) => return Err(e),
    };
    let wait = match command.wait_config() {
        Ok(wait) => wait,
        Err(e) => return Err(e),
    };
    let on_snapshot = command.snapshot_id().is_some();
    if scan.is_some() && on_snapshot {
        return Err(
            RubError::domain(
                ErrorCode::InvalidInput,
                "inspect list scan cannot reuse --snapshot; scanning requires live snapshots across scroll steps",
            ),
        );
    }
    if wait.is_some() && on_snapshot {
        return Err(
            RubError::domain(
                ErrorCode::InvalidInput,
                "inspect list wait cannot reuse --snapshot; waiting for new matches requires live snapshots across poll passes",
            ),
        );
    }
    match (scan, wait) {
        (Some(_), Some(_)) => Err(
            RubError::domain(
                ErrorCode::InvalidInput,
                "inspect list wait cannot be combined with scan in the current product surface",
            ),
        ),
        (Some(scan), None) => Ok(ExtractPlan::Scan(scan)),
        (None, Some(wait)) => Ok(ExtractPlan::Wait(wait)),
        (None, None) => {
            let mode = if on_snapshot {
                ExtractAuthorityMode::SnapshotOnly
            } else {
                ExtractAuthorityMode::LiveAllowed
            };
            Ok(ExtractPlan::Read(mode))
        },
    }
}

/// Whether a collection is among the first `n` entries.
pub open spec fn has_collection(s: Seq<(String, ExtractEntrySpec)>, n: int) -> bool {
    exists|i: int| 0 <= i < n && (#[trigger] s[i]).1 is Collection
}

/// The only entry, where it is a collection.
pub open spec fn single_collection(
    s: Seq<(String, ExtractEntrySpec)>,
    label: Seq<char>,
) -> Result<(Seq<char>, ExtractCollectionSpec), ErrorModel> {
    if s.len() == 1 && s[0].1 is Collection {
        Ok((s[0].0@, s[0].1->Collection_0))
    } else if has_collection(s, s.len() as int) {
        Err(
            error::plain(
                ErrorCode::InvalidInput,
                label + " currently requires exactly one top-level collection field"@,
            ),
        )
    } else {
        Err(
            error::plain(
                ErrorCode::InvalidInput,
                label + " requires a top-level collection spec"@,
            ),
        )
    }
}

pub fn resolve_single_collection<'a>(fields: &'a ExtractEntries, command_label: &str) -> (r: Result<
    (&'a str, &'a ExtractCollectionSpec),
    RubError,
>)
    ensures
        match r {
            Ok(found) => single_collection(fields.entries@, command_label@) == Ok::<
                (Seq<char>, ExtractCollectionSpec),
                ErrorModel,
            >((found.0@, *found.1)),
            Err(e) => single_collection(fields.entries@, command_label@) == Err::<
                (Seq<char>, ExtractCollectionSpec),
                ErrorModel,
            >(e@),
        },
{
    if fields.entries.len() == 1 {
        if let ExtractEntrySpec::Collection(c) = &fields.entries[0].1 {
            return Ok((fields.entries[0].0.as_str(), c));
        }
    }
    let mut i: usize = 0;
    while i < fields.entries.len()
        invariant
            i <= fields.entries@.len(),
            !has_collection(fields.entries@, i as int),
            !(fields.entries@.len() == 1 && fields.entries@[0].1 is Collection),
        decreases fields.entries@.len() - i,
    {
        if let ExtractEntrySpec::Collection(_) = &fields.entries[i].1 {
            assert(fields.entries@[i as int].1 is Collection);
            let message = text::cat2(
                command_label,
                " currently requires exactly one top-level collection field",
            );
            return Err(RubError::domain(ErrorCode::InvalidInput, message.as_str()));
        }
        i += 1;
    }
    let message = text::cat2(command_label, " requires a top-level collection spec");
    Err(RubError::domain(ErrorCode::InvalidInput, message.as_str()))
}

/// What was asked and what came of it.
pub open spec fn payload(subject: JsonModel, result: JsonModel) -> JsonModel {
    JsonModel::Object(
        Map::<Seq<char>, JsonModel>::empty().insert("subject"@, subject).insert(
            "result"@,
            result,
        ),
    )
}

pub fn extract_payload(subject: Json, result: Json) -> (r: Json)
    ensures
        r@ == payload(subject@, result@),
{
    Json::Object(JsonObject::new().with("subject", subject).with("result", result))
}

/// A list that was asked for.
pub open spec fn list_subject(
    source: Seq<char>,
    collection: Seq<char>,
    flag: Seq<char>,
    value: bool,
) -> JsonModel {
    JsonModel::Object(
        Map::<Seq<char>, JsonModel>::empty().insert(
            "kind"@,
            JsonModel::Text("collection_extract"@),
        ).insert("source"@, JsonModel::Text(source)).insert(
            "collection"@,
            JsonModel::Text(collection),
        ).insert(flag, JsonModel::Bool(value)),
    )
}

fn list_subject_value(source: &str, collection_name: &str, flag: &str, value: bool) -> (r: Json)
    ensures
        r@ == list_subject(source@, collection_name@, flag@, value),
{
    Json::Object(
        JsonObject::new().with("kind", json::text_value("collection_extract")).with(
            "source",
            json::text_value(source),
        ).with("collection", json::text_value(collection_name)).with(flag, Json::Bool(value)),
    )
}

/// The answer to a request that scanned a list.
pub fn scan_payload(
    collection_name: &str,
    scan: &ListScan,
    stop: ScanStop,
    config: &ExtractScanConfig,
) -> (r: Json)
    ensures
        r@ == payload(
            list_subject("live_page"@, collection_name@, "scan_requested"@, true),
            JsonModel::Object(
                Map::<Seq<char>, JsonModel>::empty().insert(
                    "items"@,
                    JsonModel::Array(scan@.rows),
                ).insert(
                    "item_count"@,
                    JsonModel::Number(NumberModel::Int(scan@.rows.len() as int)),
                ).insert("scan"@, scan::scan_json(scan@, stop, *config)),
            ),
        ),
{
    proof {
        json::items_model_len(scan.rows@);
    }
    extract_payload(
        list_subject_value("live_page", collection_name, "scan_requested", true),
        Json::Object(
            JsonObject::new().with("items", Json::Array(json::clone_items(&scan.rows))).with(
                "item_count",
                json::uint_value(scan.rows.len() as u64),
            ).with("scan", scan::scan_value(scan, stop, config)),
        ),
    )
}

/// How many items a list has.
pub open spec fn item_count(items: JsonModel) -> int {
    match items {
        JsonModel::Array(rows) => rows.len() as int,
        _ => 0,
    }
}

fn count_items(items: &Json) -> (r: u64)
    ensures
        r == item_count(items@),
{
    match items {
        Json::Array(rows) => {
            proof {
                json::items_model_len(rows@);
            }
            rows.len() as u64
        },
        _ => 0,
    }
}

/// What came of waiting for a list.
pub open spec fn wait_result(
    items: JsonModel,
    matched_item: JsonModel,
    wait: ExtractListWaitConfig,
    elapsed_ms: u64,
) -> JsonModel {
    JsonModel::Object(
        Map::<Seq<char>, JsonModel>::empty().insert("items"@, items).insert(
            "item_count"@,
            JsonModel::Number(NumberModel::Int(item_count(items))),
        ).insert("matched_item"@, matched_item).insert(
            "wait"@,
            JsonModel::Object(
                Map::<Seq<char>, JsonModel>::empty().insert(
                    "matched"@,
                    JsonModel::Bool(true),
                ).insert("field_path"@, JsonModel::Text(wait.field_path@)).insert(
                    "contains"@,
                    JsonModel::Text(wait.contains@),
                ).insert(
                    "elapsed_ms"@,
                    JsonModel::Number(NumberModel::Int(elapsed_ms as int)),
                ),
            ),
        ).insert(
            "outcome_summary"@,
            JsonModel::Object(
                Map::<Seq<char>, JsonModel>::empty().insert(
                    "class"@,
                    JsonModel::Text("confirmed_new_item_observed"@),
                ).insert("authoritative"@, JsonModel::Bool(true)).insert(
                    "summary"@,
                    JsonModel::Text(
                        "A new matching projected item was observed in the current list surface."@,
                    ),
                ),
            ),
        ),
    )
}

/// The answer to a request that waited for a list.
pub fn wait_payload(
    collection_name: &str,
    items: Json,
    matched_item: Json,
    wait: &ExtractListWaitConfig,
    elapsed_ms: u64,
) -> (r: Json)
    ensures
        r@ == payload(
            list_subject("live_page"@, collection_name@, "wait_requested"@, true),
            wait_result(items@, matched_item@, *wait, elapsed_ms),
        ),
{
    let number = json::uint_value(count_items(&items));
    let waited = JsonObject::new().with("matched", Json::Bool(true)).with(
        "field_path",
        json::text_value(wait.field_path.as_str()),
    ).with("contains", json::text_value(wait.contains.as_str())).with(
        "elapsed_ms",
        json::uint_value(elapsed_ms),
    );
    let summary = JsonObject::new().with(
        "class",
        json::text_value("confirmed_new_item_observed"),
    ).with("authoritative", Json::Bool(true)).with(
        "summary",
        json::text_value("A new matching projected item was observed in the current list surface."),
    );
    extract_payload(
        list_subject_value("live_page", collection_name, "wait_requested", true),
        Json::Object(
            JsonObject::new().with("items", items).with("item_count", number).with(
                "matched_item",
                matched_item,
            ).with("wait", Json::Object(waited)).with("outcome_summary", Json::Object(summary)),
        ),
    )
}

/// The answer to a request that read a list once.
pub fn list_payload(
    command: &ExtractCommand,
    collection_name: &str,
    snapshot: Json,
    items: Json,
) -> (r: Json)
    ensures
        r@ == payload(
            list_subject(
                spec::source_name(*command),
                collection_name@,
                "scan_requested"@,
                false,
            ),
            JsonModel::Object(
                Map::<Seq<char>, JsonModel>::empty().insert("snapshot"@, snapshot@).insert(
                    "items"@,
                    items@,
                ).insert("item_count"@, JsonModel::Number(NumberModel::Int(item_count(items@)))),
            ),
        ),
{
    let number = json::uint_value(count_items(&items));
    extract_payload(
        list_subject_value(command.source_kind(), collection_name, "scan_requested", false),
        Json::Object(
            JsonObject::new().with("snapshot", snapshot).with("items", items).with(
                "item_count",
                number,
            ),
        ),
    )
}

/// The values of the first `n` fields by their names.
pub open spec fn named_values(
    s: Seq<(String, ExtractEntrySpec)>,
    values: Seq<JsonModel>,
    n: int,
) -> Map<Seq<char>, JsonModel>
    decreases n,
{
    if n <= 0 {
        Map::empty()
    } else {
        named_values(s, values, n - 1).insert(s[n - 1].0@, values[n - 1])
    }
}

/// The answer to a request for fields.
pub fn query_payload(
    command: &ExtractCommand,
    fields: &ExtractEntries,
    snapshot: Json,
    values: &Vec<Json>,
) -> (r: Json)
    requires
        fields.wf(),
        values@.len() == fields.entries@.len(),
    ensures
        r@ == payload(
            JsonModel::Object(
                Map::<Seq<char>, JsonModel>::empty().insert(
                    "kind"@,
                    JsonModel::Text("extract_query"@),
                ).insert("source"@, JsonModel::Text(spec::source_name(*command))),
            ),
            JsonModel::Object(
                Map::<Seq<char>, JsonModel>::empty().insert("snapshot"@, snapshot@).insert(
                    "fields"@,
                    JsonModel::Object(
                        named_values(
                            fields.entries@,
                            json::items_model(values@),
                            fields.entries@.len() as int,
                        ),
                    ),
                ).insert(
                    "field_count"@,
                    JsonModel::Number(NumberModel::Int(fields.entries@.len() as int)),
                ),
            ),
        ),
{
    let mut extracted = JsonObject::new();
    let mut i: usize = 0;
    while i < fields.entries.len()
        invariant
            i <= fields.entries@.len(),
            values@.len() == fields.entries@.len(),
            extracted@ == named_values(fields.entries@, json::items_model(values@), i as int),
        decreases fields.entries@.len() - i,
    {
        proof {
            json::items_model_at(values@, i as int);
        }
        extracted.insert(fields.entries[i].0.as_str(), values[i].clone());
        i += 1;
    }
    let count = json::uint_value(fields.entries.len() as u64);
    extract_payload(
        Json::Object(
            JsonObject::new().with("kind", json::text_value("extract_query")).with(
                "source",
                json::text_value(command.source_kind()),
            ),
        ),
        Json::Object(
            JsonObject::new().with("snapshot", snapshot).with(
                "fields",
                Json::Object(extracted),
            ).with("field_count", count),
        ),
    )
}

/// Every field that was asked for is in the answer, with its own value.
pub proof fn every_field_is_answered(
    s: Seq<(String, ExtractEntrySpec)>,
    values: Seq<JsonModel>,
    n: int,
    i: int,
)
    requires
        json::strictly_ordered(collection::entry_names(s)),
        0 <= i < n <= s.len(),
    ensures
        named_values(s, values, n).contains_key(s[i].0@),
        named_values(s, values, n)[s[i].0@] == values[i],
    decreases n,
{
    if i < n - 1 {
        every_field_is_answered(s, values, n - 1, i);
        let names = collection::entry_names(s);
        assert(names[i] != names[n - 1]);
        assert(names[i] == s[i].0@ && names[n - 1] == s[n - 1].0@);
    }
}

/// A request about a snapshot is never answered by scanning or waiting.
pub proof fn snapshots_are_read_once(command: ExtractCommand, plan: ExtractPlan)
    requires
        spec::snapshot_of(command) is Some,
        plan_error(command) is None,
        is_plan_for(plan, command),
    ensures
        plan == ExtractPlan::Read(ExtractAuthorityMode::SnapshotOnly),
{
}

/// A request for a list is refused exactly where its scan has a limit of zero, where a wait
/// has a field without a text or a text without a field, where a scan or a wait asks for a
/// snapshot, and where it both scans and waits; a request for fields never is.
pub proof fn lists_are_refused_for_a_reason(command: ExtractCommand)
    ensures
        command is Query ==> plan_error(command) is None,
        command matches ExtractCommand::List { snapshot_id, scan, wait } ==> {
            let said = |s: Option<String>| s matches Some(t) && !text::blank(t@);
            let scans = scan.scan_until is Some;
            let zero = scans && (scan.scan_until == Some(0u64) || scan.max_scrolls == Some(0u64)
                || scan.scroll_amount == Some(0u64) || scan.stall_limit == Some(0u64));
            let halved = said(wait.wait_field) != said(wait.wait_contains);
            let waits = said(wait.wait_field);
            plan_error(command) is Some <==> zero || halved || ((scans || waits) && snapshot_id
                is Some) || (scans && waits)
        },
        plan_error(command) matches Some(e) ==> (e matches ErrorModel::Domain(x) && x.code
            == ErrorCode::InvalidInput),
{
    if let ExtractCommand::List { snapshot_id, scan, wait } = command {
        if let Some(t) = wait.wait_field {
            text::blank_texts_trim_to_nothing(t@);
        }
        if let Some(t) = wait.wait_contains {
            text::blank_texts_trim_to_nothing(t@);
        }
    }
}

/// A list is scanned exactly where its request asks for a scan, waited for exactly where it
/// asks for a wait, and else read once, from its snapshot where it names one.
pub proof fn lists_are_read_as_asked(command: ExtractCommand, plan: ExtractPlan)
    requires
        plan_error(command) is None,
        is_plan_for(plan, command),
    ensures
        plan is Scan <==> (command matches ExtractCommand::List { scan, .. } && scan.scan_until
            is Some),
        plan is Wait <==> (command matches ExtractCommand::List { scan, wait, .. }
            && scan.scan_until is None && (wait.wait_field matches Some(t) && !text::blank(t@))),
        plan matches ExtractPlan::Read(mode) ==> (mode == ExtractAuthorityMode::SnapshotOnly
            <==> spec::snapshot_of(command) is Some),
{
    if let ExtractCommand::List { snapshot_id, scan, wait } = command {
        if let Some(t) = wait.wait_field {
            text::blank_texts_trim_to_nothing(t@);
        }
    }
}

/// The one collection of a spec is its only entry; a spec with none, or with more entries,
/// has no such.
pub proof fn the_only_entry_is_the_collection(
    s: Seq<(String, ExtractEntrySpec)>,
    label: Seq<char>,
)
    ensures
        single_collection(s, label) is Ok <==> s.len() == 1 && s[0].1 is Collection,
        s.len() == 1 ==> (s[0].1 matches ExtractEntrySpec::Collection(c) ==> single_collection(
            s,
            label,
        ) == Ok::<(Seq<char>, ExtractCollectionSpec), ErrorModel>((s[0].0@, c))),
        single_collection(s, label) matches Err(ErrorModel::Domain(e)) ==> e.code
            == ErrorCode::InvalidInput,
{
}

/// An answer that waited shows the list, how many rows it has, the row that was waited for
/// and what was waited for.
pub proof fn waits_are_answered_with_the_match(
    items: Seq<JsonModel>,
    matched_item: JsonModel,
    wait: ExtractListWaitConfig,
    elapsed_ms: u64,
)
    ensures
        ({
            let r = wait_result(JsonModel::Array(items), matched_item, wait, elapsed_ms);
            &&& json::member(r, "items"@) == Some(JsonModel::Array(items))
            &&& json::member(r, "item_count"@) == Some(json::number(items.len() as int))
            &&& json::member(r, "matched_item"@) == Some(matched_item)
            &&& json::member(r, "wait"@) matches Some(shown)
            &&& json::member(shown, "matched"@) == Some(JsonModel::Bool(true))
            &&& json::member(shown, "field_path"@) == Some(JsonModel::Text(wait.field_path@))
            &&& json::member(shown, "contains"@) == Some(JsonModel::Text(wait.contains@))
            &&& json::member(shown, "elapsed_ms"@) == Some(json::number(elapsed_ms as int))
        }),
        item_count(JsonModel::Array(items)) == items.len(),
{
    reveal_strlit("items");
    reveal_strlit("item_count");
    reveal_strlit("matched_item");
    reveal_strlit("wait");
    reveal_strlit("outcome_summary");
    assert("items"@.len() != "item_count"@.len());
    assert("items"@.len() != "matched_item"@.len());
    assert("items"@.len() != "wait"@.len());
    assert("items"@.len() != "outcome_summary"@.len());
    assert("item_count"@.len() != "matched_item"@.len());
    assert("item_count"@.len() != "wait"@.len());
    assert("item_count"@.len() != "outcome_summary"@.len());
    assert("matched_item"@.len() != "wait"@.len());
    assert("matched_item"@.len() != "outcome_summary"@.len());
    assert("wait"@.len() != "outcome_summary"@.len());
    reveal_strlit("matched");
    reveal_strlit("field_path");
    reveal_strlit("contains");
    reveal_strlit("elapsed_ms");
    assert("matched"@.len() != "field_path"@.len());
    assert("matched"@.len() != "contains"@.len());
    assert("matched"@.len() != "elapsed_ms"@.len());
    assert("field_path"@.len() != "contains"@.len());
    assert("field_path"@[0] != "elapsed_ms"@[0]);
    assert("contains"@.len() != "elapsed_ms"@.len());
}

/// A query answers with every field under its name, and how many there are.
pub proof fn queries_answer_with_every_field(
    command: ExtractCommand,
    fields: ExtractEntries,
    snapshot: Json,
    values: Vec<Json>,
    r: Json,
    i: int,
)
    requires
        fields.wf(),
        values@.len() == fields.entries@.len(),
        call_ensures(query_payload, (&command, &fields, snapshot, &values), r),
        0 <= i < fields.entries@.len(),
    ensures
        json::member(r@, "result"@) matches Some(result) && json::member(result, "field_count"@)
            == Some(json::number(fields.entries@.len() as int)) && json::member(result, "snapshot"@)
            == Some(snapshot@) && (json::member(result, "fields"@) matches Some(shown)
            && json::member(shown, fields.entries@[i].0@) == Some(values@[i]@)),
        json::member(r@, "subject"@) matches Some(subject) && json::member(subject, "source"@)
            == Some(JsonModel::Text(spec::source_name(command))),
{
    reveal_strlit("subject");
    reveal_strlit("result");
    assert("subject"@.len() != "result"@.len());
    reveal_strlit("snapshot");
    reveal_strlit("fields");
    reveal_strlit("field_count");
    assert("snapshot"@.len() != "fields"@.len());
    assert("snapshot"@.len() != "field_count"@.len());
    assert("fields"@.len() != "field_count"@.len());
    reveal_strlit("kind");
    reveal_strlit("source");
    assert("kind"@.len() != "source"@.len());
    let n = fields.entries@.len() as int;
    json::items_model_at(values@, i);
    values_stand_under_their_names(fields.entries@, json::items_model(values@), n, i);
}

proof fn values_stand_under_their_names(
    s: Seq<(String, ExtractEntrySpec)>,
    values: Seq<JsonModel>,
    n: int,
    i: int,
)
    requires
        0 <= i < n <= s.len(),
        n <= values.len(),
        json::strictly_ordered(collection::entry_names(s)),
    ensures
        named_values(s, values, n).get(s[i].0@) == Some(values[i]),
    decreases n,
{
    let names = collection::entry_names(s);
    assert(names[i] == s[i].0@);
    assert(names[n - 1] == s[n - 1].0@);
    if i < n - 1 {
        values_stand_under_their_names(s, values, n - 1, i);
    }
}

/// A list answers with its rows and how many there are; a scan tells besides how it went.
pub proof fn lists_answer_with_their_rows(
    command: ExtractCommand,
    collection_name: &str,
    snapshot: Json,
    items: Json,
    listed: Json,
    scan: ListScan,
    stop: ScanStop,
    config: ExtractScanConfig,
    scanned: Json,
)
    requires
        call_ensures(list_payload, (&command, collection_name, snapshot, items), listed),
        call_ensures(scan_payload, (collection_name, &scan, stop, &config), scanned),
    ensures
        json::member(listed@, "result"@) matches Some(result) && json::member(result, "items"@)
            == Some(items@) && json::member(result, "snapshot"@) == Some(snapshot@) && (
        items@ matches JsonModel::Array(rows) ==> json::member(result, "item_count"@) == Some(
            json::number(rows.len() as int),
        )),
        json::member(scanned@, "result"@) matches Some(result) && json::member(result, "items"@)
            == Some(JsonModel::Array(scan@.rows)) && json::member(result, "item_count"@) == Some(
            json::number(scan@.rows.len() as int),
        ) && json::member(result, "scan"@) == Some(scan::scan_json(scan@, stop, config)),
{
    reveal_strlit("subject");
    reveal_strlit("result");
    assert("subject"@.len() != "result"@.len());
    reveal_strlit("snapshot");
    reveal_strlit("items");
    reveal_strlit("item_count");
    reveal_strlit("scan");
    assert("snapshot"@.len() != "items"@.len());
    assert("snapshot"@.len() != "item_count"@.len());
    assert("snapshot"@.len() != "scan"@.len());
    assert("items"@.len() != "item_count"@.len());
    assert("items"@.len() != "scan"@.len());
    assert("item_count"@.len() != "scan"@.len());
}

/// What a list is about is told: its source, its collection and whether it was scanned or
/// waited for.
pub proof fn lists_are_told_with_their_source(
    source: Seq<char>,
    collection: Seq<char>,
    flag: Seq<char>,
    value: bool,
)
    requires
        flag != "kind"@ && flag != "source"@ && flag != "collection"@,
    ensures
        ({
            let j = list_subject(source, collection, flag, value);
            &&& json::member(j, "kind"@) == Some(JsonModel::Text("collection_extract"@))
            &&& json::member(j, "source"@) == Some(JsonModel::Text(source))
            &&& json::member(j, "collection"@) == Some(JsonModel::Text(collection))
            &&& json::member(j, flag) == Some(JsonModel::Bool(value))
        }),
{
    reveal_strlit("kind");
    reveal_strlit("source");
    reveal_strlit("collection");
    assert("kind"@.len() != "source"@.len());
    assert("kind"@.len() != "collection"@.len());
    assert("source"@.len() != "collection"@.len());
}

} // verus!
