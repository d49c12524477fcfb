//! Extracting repeated rows.

use vstd::prelude::*;
use crate::error::{self, ErrorCode, ErrorModel, RubError};
use crate::extract_postprocess::{self, FloatReadings, Interrupt, InterruptModel, ReadingModel};
use crate::json::{self, Json, JsonModel, JsonObject};
use crate::model::Attributes;
use crate::text;
use self::projection::project_rows;
use self::schema::{build_collection_extract_script, collection_locator_context};
use super::field::{self, ExtractAuthorityMode};
use super::spec::ExtractFieldSpec;

pub mod projection;
pub mod schema;

verus! {

/// What the page gave for a collection.
#[derive(Debug)]
pub struct CollectionExtractPayload {
    pub row_count: usize,
    pub rows: Vec<PayloadRow>,
    pub selector_error: Option<String>,
    pub row_scope_error: Option<String>,
    /// Why a field could not be looked for, by its name.
    pub field_errors: Attributes,
}

/// What the page gave for a row, by the names of its fields.
#[derive(Debug)]
pub struct PayloadRow {
    pub entries: Vec<(String, CollectionEntryPayload)>,
}

/// What the page gave for an entry of a row.
#[derive(Debug)]
pub enum CollectionEntryPayload {
    Field { match_count: usize, values: Vec<Json> },
    Collection { payload: CollectionExtractPayload },
}

/// A collection to extract: where its rows are and what to read in each.
#[derive(Debug)]
pub struct ExtractCollectionSpec {
    pub collection: Option<String>,
    pub selector: Option<String>,
    pub target_text: Option<String>,
    pub role: Option<String>,
    pub label: Option<String>,
    pub testid: Option<String>,
    pub row_scope_selector: Option<String>,
    pub first: bool,
    pub last: bool,
    pub nth: Option<u32>,
    pub fields: ExtractEntries,
}

/// The entries of an extraction in the order of their names.
#[derive(Debug)]
pub struct ExtractEntries {
    pub entries: Vec<(String, ExtractEntrySpec)>,
}

#[derive(Debug)]
pub enum ExtractEntrySpec {
    Collection(ExtractCollectionSpec),
    Field(ExtractFieldSpec),
}

/// The names of entries.
pub open spec fn entry_names(s: Seq<(String, ExtractEntrySpec)>) -> Seq<Seq<char>> {
    s.map_values(|e: (String, ExtractEntrySpec)| e.0@)
}

/// Whether `name` stands for `entry`.
pub open spec fn names_entry(
    s: Seq<(String, ExtractEntrySpec)>,
    name: Seq<char>,
    entry: ExtractEntrySpec,
) -> bool {
    exists|i: int| 0 <= i < s.len() && (#[trigger] s[i]).0@ == name && s[i].1 == entry
}

impl ExtractEntries {
    /// The names are in their order, none twice.
    pub open spec fn wf(&self) -> bool {
        json::strictly_ordered(entry_names(self.entries@))
    }

    pub fn new() -> (r: ExtractEntries)
        ensures
            r.wf(),
            r.entries@.len() == 0,
    {
        ExtractEntries { entries: Vec::new() }
    }

    /// Lets `name` stand for `entry`, in place of what it stood for.
    pub fn insert(&mut self, name: String, entry: ExtractEntrySpec)
        requires
            old(self).wf(),
        ensures
            final(self).wf(),
            names_entry(final(self).entries@, name@, entry),
            forall|k: Seq<char>, e: ExtractEntrySpec|
                k != name@ ==> (#[trigger] names_entry(final(self).entries@, k, e) == names_entry(
                    old(self).entries@,
                    k,
                    e,
                )),
    {
        let ghost before = self.entries@;
        let ghost names = entry_names(before);
        let mut i: usize = 0;
        while i < self.entries.len() && !text::text_le(name.as_str(), self.entries[i].0.as_str())
            invariant
                i <= self.entries@.len(),
                self.entries@ == before,
                names == entry_names(before),
                forall|j: int| 0 <= j < i ==> !text::lex_le(name@, #[trigger] names[j]),
            decreases self.entries@.len() - i,
        {
            assert(names[i as int] == before[i as int].0@);
            i += 1;
        }
        let found = i < self.entries.len() && text::str_eq(
            self.entries[i].0.as_str(),
            name.as_str(),
        );
        let ghost given = name@;
        if found {
            self.entries.set(i, (name, entry));
            proof {
                let after = self.entries@;
                assert(entry_names(after) =~= names);
                assert(after[i as int].0@ == given);
                assert forall|k: Seq<char>, e: ExtractEntrySpec| k != given implies (
                #[trigger] names_entry(after, k, e) == names_entry(before, k, e)) by {
                    if names_entry(after, k, e) {
                        let j = choose|j: int|
                            0 <= j < after.len() && (#[trigger] after[j]).0@ == k && after[j].1 == e;
                        assert(before[j] == after[j]);
                    }
                    if names_entry(before, k, e) {
                        let j = choose|j: int|
                            0 <= j < before.len() && (#[trigger] before[j]).0@ == k && before[j].1
                                == e;
                        assert(names[j] == k);
                        assert(names[i as int] == given);
                        assert(after[j] == before[j]);
                    }
                }
            }
        } else {
            proof {
                if i < before.len() {
                    assert(names[i as int] == before[i as int].0@);
                }
            }
            self.entries.insert(i, (name, entry));
            proof {
                let after = self.entries@;
                let n = i as int;
                assert(after[n].0@ == given);
                inserted_in_order(names, n, given);
                assert(entry_names(after) =~= names.insert(n, given));
                assert forall|k: Seq<char>, e: ExtractEntrySpec| k != given implies (
                #[trigger] names_entry(after, k, e) == names_entry(before, k, e)) by {
                    if names_entry(after, k, e) {
                        let j = choose|j: int|
                            0 <= j < after.len() && (#[trigger] after[j]).0@ == k && after[j].1 == e;
                        if j < n {
                            assert(before[j] == after[j]);
                        } else {
                            assert(before[j - 1] == after[j]);
                        }
                    }
                    if names_entry(before, k, e) {
                        let j = choose|j: int|
                            0 <= j < before.len() && (#[trigger] before[j]).0@ == k && before[j].1
                                == e;
                        if j < n {
                            assert(after[j] == before[j]);
                        } else {
                            assert(after[j + 1] == before[j]);
                        }
                    }
                }
            }
        }
    }
}

/// A name put before the first that does not come before it keeps the order.
proof fn inserted_in_order(names: Seq<Seq<char>>, n: int, name: Seq<char>)
    requires
        json::strictly_ordered(names),
        0 <= n <= names.len(),
        forall|j: int| 0 <= j < n ==> !text::lex_le(name, #[trigger] names[j]),
        n < names.len() ==> text::lex_le(name, names[n]) && names[n] != name,
    ensures
        json::strictly_ordered(names.insert(n, name)),
{
    let after = names.insert(n, name);
    assert forall|i: int, j: int| 0 <= i < j < after.len() implies text::lex_le(
        #[trigger] after[i],
        #[trigger] after[j],
    ) && after[i] != after[j] by {
        if j < n {
            assert(after[i] == names[i] && after[j] == names[j]);
        } else if j == n {
            assert(after[i] == names[i]);
            text::lex_le_total(names[i], name);
        } else if i < n {
            assert(after[i] == names[i] && after[j] == names[j - 1]);
        } else if i == n {
            assert(after[j] == names[j - 1]);
            if j - 1 > n {
                assert(text::lex_le(names[n], names[j - 1]));
                text::lex_le_transitive(name, names[n], names[j - 1]);
                if name == names[j - 1] {
                    text::lex_le_antisymmetric(name, names[n]);
                }
            }
        } else {
            assert(after[i] == names[i - 1] && after[j] == names[j - 1]);
        }
    }
}

/// The error for a collection that only the page could give.
pub open spec fn collection_needs_page(name: Seq<char>) -> ErrorModel {
    error::with_suggestion(
        ErrorCode::InvalidInput,
        "snapshot-addressed extract cannot read collection '"@ + name
            + "' because collection extraction requires live DOM evaluation"@,
        JsonModel::Object(
            Map::<Seq<char>, JsonModel>::empty().insert("field"@, JsonModel::Text(name)).insert(
                "authority_state"@,
                JsonModel::Text("snapshot_extract_live_collection_unsupported"@),
            ),
        ),
        "Remove --snapshot-id to allow live collection extraction, or switch to snapshot-addressed field reads only"@,
    )
}

fn collection_needs_page_error(name: &str) -> (r: RubError)
    ensures
        r@ == collection_needs_page(name@),
{
    let message = text::cat3(
        "snapshot-addressed extract cannot read collection '",
        name,
        "' because collection extraction requires live DOM evaluation",
    );
    let context = JsonObject::new().with("field", json::text_value(name)).with(
        "authority_state",
        json::text_value("snapshot_extract_live_collection_unsupported"),
    );
    RubError::domain_with_context_and_suggestion(
        ErrorCode::InvalidInput,
        message.as_str(),
        Json::Object(context),
        "Remove --snapshot-id to allow live collection extraction, or switch to snapshot-addressed field reads only",
    )
}

/// What is done first for a collection: the script to run on the page.
pub open spec fn planned_script(
    name: Seq<char>,
    collection: ExtractCollectionSpec,
    mode: ExtractAuthorityMode,
    helpers: Seq<char>,
) -> Result<Seq<char>, ErrorModel> {
    if mode == ExtractAuthorityMode::SnapshotOnly {
        Err(collection_needs_page(name))
    } else {
        schema::collection_script(collection, helpers)
    }
}

/// The script that reads a collection from the page. `helpers` defines the
/// locating functions that it calls.
pub fn plan_collection(
    name: &str,
    collection: &ExtractCollectionSpec,
    mode: ExtractAuthorityMode,
    helpers: &str,
) -> (r: Result<String, RubError>)
    ensures
        schema::script_result(r) == planned_script(name@, *collection, mode, helpers@),
{
    match mode {
        ExtractAuthorityMode::SnapshotOnly => Err(collection_needs_page_error(name)),
        ExtractAuthorityMode::LiveAllowed => build_collection_extract_script(collection, helpers),
    }
}

/// The error that the page reported for a collection.
pub open spec fn collection_error(
    name: Seq<char>,
    collection: ExtractCollectionSpec,
    payload: CollectionExtractPayload,
) -> Option<ErrorModel> {
    let locator = schema::locator_json(collection);
    if payload.selector_error is Some {
        Some(
            error::with_context(
                ErrorCode::InvalidInput,
                "Invalid collection selector for '"@ + name + "': "@
                    + payload.selector_error->0@,
                JsonModel::Object(
                    Map::<Seq<char>, JsonModel>::empty().insert("locator"@, locator).insert(
                        "field"@,
                        JsonModel::Text(name),
                    ),
                ),
            ),
        )
    } else if payload.row_scope_error is Some {
        Some(
            error::with_context(
                ErrorCode::InvalidInput,
                "Invalid row scope selector for collection '"@ + name + "': "@
                    + payload.row_scope_error->0@,
                JsonModel::Object(
                    Map::<Seq<char>, JsonModel>::empty().insert("locator"@, locator).insert(
                        "row_scope_selector"@,
                        json::opt_text_model(text::opt_text(collection.row_scope_selector)),
                    ).insert("field"@, JsonModel::Text(name)),
                ),
            ),
        )
    } else if payload.field_errors.entries@.len() > 0 {
        Some(
            error::with_context(
                ErrorCode::InvalidInput,
                "Invalid child selector in collection '"@ + name + "'"@,
                JsonModel::Object(
                    Map::<Seq<char>, JsonModel>::empty().insert("locator"@, locator).insert(
                        "field_errors"@,
                        field::attributes_json(payload.field_errors@),
                    ),
                ),
            ),
        )
    } else {
        None
    }
}

fn find_collection_error(
    name: &str,
    collection: &ExtractCollectionSpec,
    payload: &CollectionExtractPayload,
) -> (r: Option<RubError>)
    ensures
        error::opt_error(r) == collection_error(name@, *collection, *payload),
{
    if let Some(cause) = &payload.selector_error {
        let message = text::cat3(
            text::cat2("Invalid collection selector for '", name).as_str(),
            "': ",
            cause.as_str(),
        );
        let context = JsonObject::new().with(
            "locator",
            collection_locator_context(collection),
        ).with("field", json::text_value(name));
        return Some(
            RubError::domain_with_context(
                ErrorCode::InvalidInput,
                message.as_str(),
                Json::Object(context),
            ),
        );
    }
    if let Some(cause) = &payload.row_scope_error {
        let message = text::cat3(
            text::cat2("Invalid row scope selector for collection '", name).as_str(),
            "': ",
            cause.as_str(),
        );
        let context = JsonObject::new().with(
            "locator",
            collection_locator_context(collection),
        ).with("row_scope_selector", json::opt_text_value(&collection.row_scope_selector)).with(
            "field",
            json::text_value(name),
        );
        return Some(
            RubError::domain_with_context(
                ErrorCode::InvalidInput,
                message.as_str(),
                Json::Object(context),
            ),
        );
    }
    if payload.field_errors.entries.len() > 0 {
        let message = text::cat3("Invalid child selector in collection '", name, "'");
        let context = JsonObject::new().with(
            "locator",
            collection_locator_context(collection),
        ).with("field_errors", field::attributes_value(&payload.field_errors));
        return Some(
            RubError::domain_with_context(
                ErrorCode::InvalidInput,
                message.as_str(),
                Json::Object(context),
            ),
        );
    }
    None
}

/// The rows of a collection.
pub open spec fn collected(
    name: Seq<char>,
    collection: ExtractCollectionSpec,
    payload: CollectionExtractPayload,
    floats: Map<Seq<char>, ReadingModel>,
) -> Result<JsonModel, InterruptModel> {
    match collection_error(name, collection, payload) {
        Some(e) => Err(InterruptModel::Failed(e)),
        None => match projection::rows_projected(
            name,
            collection.fields.entries@,
            payload.rows@,
            payload.rows@.len() as int,
            false,
            floats,
        ) {
            Err(e) => Err(e),
            Ok(rows) => if payload.row_count == 0 {
                Ok(JsonModel::Array(seq![]))
            } else {
                Ok(JsonModel::Array(rows))
            },
        },
    }
}

/// The rows of a collection from what its script found.
pub fn extract_collection(
    name: &str,
    collection: &ExtractCollectionSpec,
    payload: &CollectionExtractPayload,
    floats: &FloatReadings,
) -> (r: Result<Json, Interrupt>)
    ensures
        extract_postprocess::value_result(r) == collected(name@, *collection, *payload, floats@),
{
    if let Some(e) = find_collection_error(name, collection, payload) {
        return Err(Interrupt::Failed(e));
    }
    match project_rows(name, &collection.fields, &payload.rows, false, floats) {
        Err(e) => Err(e),
        Ok(rows) => if payload.row_count == 0 {
            let none: Vec<Json> = Vec::new();
            assert(json::items_model(none@) =~= seq![]);
            Ok(Json::Array(none))
        } else {
            Ok(Json::Array(rows))
        },
    }
}

/// Where the page reports nothing wrong, a collection is an array with one object
/// for each row that the page gave, in the order of the page.
pub proof fn collections_keep_the_rows_of_the_page(
    name: Seq<char>,
    collection: ExtractCollectionSpec,
    payload: CollectionExtractPayload,
    floats: Map<Seq<char>, ReadingModel>,
)
    requires
        payload.row_count == payload.rows@.len(),
        collected(name, collection, payload, floats) is Ok,
    ensures
        ({
            let r = collected(name, collection, payload, floats)->Ok_0;
            let fields = collection.fields.entries@;
            &&& r matches JsonModel::Array(items)
            &&& items.len() == payload.rows@.len()
            &&& forall|i: int|
                0 <= i < items.len() ==> {
                    let one = projection::row_projected(
                        name,
                        i,
                        fields,
                        fields.len() as int,
                        (#[trigger] payload.rows@[i]).entries@,
                        false,
                        floats,
                    );
                    one is Ok && items[i] == JsonModel::Object(one->Ok_0)
                }
        }),
{
    projection::rows_come_out_one_for_one(
        name,
        collection.fields.entries@,
        payload.rows@,
        payload.rows@.len() as int,
        false,
        floats,
    );
}

/// A collection fails where the page reports an error in its selectors, and only
/// an error of its rows can fail it else.
pub proof fn collections_fail_where_the_page_says_so(
    name: Seq<char>,
    collection: ExtractCollectionSpec,
    payload: CollectionExtractPayload,
    floats: Map<Seq<char>, ReadingModel>,
)
    ensures
        payload.selector_error is Some || payload.row_scope_error is Some
            || payload.field_errors.entries@.len() > 0 ==> {
            &&& collected(name, collection, payload, floats) matches Err(
                InterruptModel::Failed(ErrorModel::Domain(e)),
            )
            &&& e.code == ErrorCode::InvalidInput
        },
        payload.selector_error is None && payload.row_scope_error is None
            && payload.field_errors.entries@.len() == 0 && payload.rows@.len() == 0
            ==> collected(name, collection, payload, floats) == Ok::<JsonModel, InterruptModel>(
            JsonModel::Array(seq![]),
        ),
{
}

/// A collection is read from the page alone: a snapshot is refused, by name.
pub proof fn snapshots_hold_no_collections(
    name: Seq<char>,
    collection: ExtractCollectionSpec,
    helpers: Seq<char>,
)
    ensures
        planned_script(name, collection, ExtractAuthorityMode::SnapshotOnly, helpers) matches Err(
            ErrorModel::Domain(e),
        ) && e.code == ErrorCode::InvalidInput && (e.context matches Some(c) && json::member(
            c,
            "field"@,
        ) == Some(JsonModel::Text(name))),
        planned_script(name, collection, ExtractAuthorityMode::LiveAllowed, helpers)
            == schema::collection_script(collection, helpers),
{
    reveal_strlit("field");
    reveal_strlit("authority_state");
    assert("field"@.len() != "authority_state"@.len());
}

/// The error that the page reported is told with the locator of the collection.
pub proof fn collection_errors_show_the_locator(
    name: Seq<char>,
    collection: ExtractCollectionSpec,
    payload: CollectionExtractPayload,
)
    ensures
        collection_error(name, collection, payload) is Some <==> payload.selector_error is Some
            || payload.row_scope_error is Some || payload.field_errors.entries@.len() > 0,
        collection_error(name, collection, payload) matches Some(x) ==> (x matches
            ErrorModel::Domain(e) && e.code == ErrorCode::InvalidInput && (e.context matches Some(c)
            && json::member(c, "locator"@) == Some(schema::locator_json(collection)))),
{
    reveal_strlit("locator");
    reveal_strlit("field");
    reveal_strlit("row_scope_selector");
    reveal_strlit("field_errors");
    assert("locator"@.len() != "field"@.len());
    assert("locator"@.len() != "row_scope_selector"@.len());
    assert("locator"@.len() != "field_errors"@.len());
    assert("field"@.len() != "row_scope_selector"@.len());
    assert("field"@.len() != "field_errors"@.len());
    assert("row_scope_selector"@.len() != "field_errors"@.len());
}

} // verus!
