//! The rows of collections as JSON.

use vstd::prelude::*;
use crate::error::{self, ErrorCode, ErrorModel, RubError};
use crate::extract_postprocess::{
    self,
    FloatReadings,
    Interrupt,
    InterruptModel,
    ReadingModel,
    resolve_missing_field,
};
use crate::json::{self, Json, JsonModel, JsonObject, NumberModel};
use crate::text;
use super::{
    CollectionEntryPayload,
    CollectionExtractPayload,
    ExtractCollectionSpec,
    ExtractEntries,
    ExtractEntrySpec,
    PayloadRow,
};
use super::super::field::{
    self,
    ExtractMatchSurface,
    SurfaceModel,
    apply_field_postprocess,
    multi_match_error,
};
use super::super::spec::ExtractFieldSpec;

verus! {

/// The rows of a collection within a row.
pub open spec fn nested_result(rows: Seq<JsonModel>) -> JsonModel {
    JsonModel::Object(
        Map::<Seq<char>, JsonModel>::empty().insert("items"@, JsonModel::Array(rows)).insert(
            "item_count"@,
            JsonModel::Number(NumberModel::Int(rows.len() as int)),
        ),
    )
}

pub fn nested_collection_result(rows: Vec<Json>) -> (r: Json)
    ensures
        r@ == nested_result(json::items_model(rows@)),
{
    let count = json::uint_value(rows.len() as u64);
    proof {
        json::items_model_len(rows@);
    }
    Json::Object(JsonObject::new().with("items", Json::Array(rows)).with("item_count", count))
}

/// Where a field of a row was looked for.
pub open spec fn row_context(collection: Seq<char>, row: int) -> Map<Seq<char>, JsonModel> {
    Map::<Seq<char>, JsonModel>::empty().insert(
        "collection"@,
        JsonModel::Text(collection),
    ).insert("row_index"@, JsonModel::Number(NumberModel::Int(row)))
}

fn row_context_object(collection_name: &str, row_index: usize) -> (r: JsonObject)
    ensures
        r@ == row_context(collection_name@, row_index as int),
{
    JsonObject::new().with("collection", json::text_value(collection_name)).with(
        "row_index",
        json::uint_value(row_index as u64),
    )
}

/// A field of a row.
pub open spec fn field_projected(
    collection: Seq<char>,
    row: int,
    name: Seq<char>,
    spec: ExtractFieldSpec,
    match_count: int,
    values: Seq<JsonModel>,
    floats: Map<Seq<char>, ReadingModel>,
) -> Result<JsonModel, InterruptModel> {
    if match_count == 0 {
        if field::substitutable(spec) {
            extract_postprocess::plain_result(
                extract_postprocess::missing_field(name, spec.required, field::default_of(spec)),
            )
        } else {
            Err(
                InterruptModel::Failed(
                    error::with_context(
                        ErrorCode::ElementNotFound,
                        "collection field '"@ + name + "' did not resolve within row "@
                            + text::decimal(row as nat) + " of '"@ + collection + "'"@,
                        JsonModel::Object(
                            row_context(collection, row).insert(
                                "selector"@,
                                json::opt_text_model(text::opt_text(spec.selector)),
                            ),
                        ),
                    ),
                ),
            )
        }
    } else if !spec.many && match_count > 1 {
        Err(
            InterruptModel::Failed(
                field::multi_match(name, spec, match_count, SurfaceModel::Row(collection, row)),
            ),
        )
    } else if spec.many {
        field::field_value(name, spec, JsonModel::Array(values), floats)
    } else if values.len() > 0 {
        field::field_value(name, spec, values[0], floats)
    } else {
        Err(
            InterruptModel::Failed(
                ErrorModel::Internal("collection payload missing first value"@),
            ),
        )
    }
}

pub fn project_collection_field(
    collection_name: &str,
    row_index: usize,
    field_name: &str,
    field_spec: &ExtractFieldSpec,
    match_count: usize,
    values: &Vec<Json>,
    floats: &FloatReadings,
) -> (r: Result<Json, Interrupt>)
    ensures
        extract_postprocess::value_result(r) == field_projected(
            collection_name@,
            row_index as int,
            field_name@,
            *field_spec,
            match_count as int,
            json::items_model(values@),
            floats@,
        ),
{
    if match_count == 0 {
        if !field_spec.required || field_spec.default.is_some() {
            return extract_postprocess::plain_value(
                resolve_missing_field(
                    field_name,
                    field_spec.required,
                    field::default_ref(field_spec),
                ),
            );
        }
        let number = text::decimal_string(row_index as u64);
        let head = text::cat5(
            "collection field '",
            field_name,
            "' did not resolve within row ",
            number.as_str(),
            " of '",
        );
        let message = text::cat3(head.as_str(), collection_name, "'");
        let context = row_context_object(collection_name, row_index).with(
            "selector",
            json::opt_text_value(&field_spec.selector),
        );
        return Err(
            Interrupt::Failed(
                RubError::domain_with_context(
                    ErrorCode::ElementNotFound,
                    message.as_str(),
                    Json::Object(context),
                ),
            ),
        );
    }
    if !field_spec.many && match_count > 1 {
        return Err(
            Interrupt::Failed(
                multi_match_error(
                    field_name,
                    field_spec,
                    match_count,
                    ExtractMatchSurface::CollectionRow { collection_name, row_index },
                ),
            ),
        );
    }
    proof {
        json::items_model_len(values@);
    }
    if field_spec.many {
        return apply_field_postprocess(
            field_name,
            field_spec,
            Json::Array(json::clone_items(values)),
            floats,
        );
    }
    if values.len() > 0 {
        proof {
            json::items_model_at(values@, 0);
        }
        return apply_field_postprocess(field_name, field_spec, values[0].clone(), floats);
    }
    Err(Interrupt::Failed(RubError::Internal("collection payload missing first value".to_owned())))
}

/// What the page gave for `name`, the later of two with one name winning.
pub open spec fn payload_of(
    s: Seq<(String, CollectionEntryPayload)>,
    name: Seq<char>,
) -> Option<CollectionEntryPayload>
    decreases s.len(),
{
    if s.len() == 0 {
        None
    } else if s.last().0@ == name {
        Some(s.last().1)
    } else {
        payload_of(s.drop_last(), name)
    }
}

fn find_payload<'a>(row: &'a PayloadRow, name: &str) -> (r: Option<&'a CollectionEntryPayload>)
    ensures
        match r {
            Some(p) => payload_of(row.entries@, name@) == Some(*p),
            None => payload_of(row.entries@, name@) is None,
        },
{
    let mut i: usize = row.entries.len();
    assert(row.entries@.take(i as int) =~= row.entries@);
    while i > 0
        invariant
            i <= row.entries@.len(),
            payload_of(row.entries@, name@) == payload_of(row.entries@.take(i as int), name@),
        decreases i,
    {
        i -= 1;
        assert(row.entries@.take(i + 1).drop_last() =~= row.entries@.take(i as int));
        if text::str_eq(row.entries[i].0.as_str(), name) {
            return Some(&row.entries[i].1);
        }
    }
    None
}

/// The words for an entry that the page left out.
pub open spec fn missing_child(nested: bool, name: Seq<char>) -> InterruptModel {
    InterruptModel::Failed(
        ErrorModel::Internal(
            if nested {
                "nested collection payload missing child entry '"@ + name + "'"@
            } else {
                "collection payload missing child entry '"@ + name + "'"@
            },
        ),
    )
}

fn missing_child_error(nested: bool, name: &str) -> (r: Interrupt)
    ensures
        r@ == missing_child(nested, name@),
{
    let message = if nested {
        text::cat3("nested collection payload missing child entry '", name, "'")
    } else {
        text::cat3("collection payload missing child entry '", name, "'")
    };
    Interrupt::Failed(RubError::Internal(message))
}

/// The place of a collection within a row, in words.
pub open spec fn nested_place(
    before: Seq<char>,
    collection: Seq<char>,
    row: int,
    name: Seq<char>,
    between: Seq<char>,
    after: Seq<char>,
) -> Seq<char> {
    before + name + between + text::decimal(row as nat) + " of '"@ + collection + after
}

fn nested_place_text(
    before: &str,
    collection_name: &str,
    row_index: usize,
    field_name: &str,
    between: &str,
    after: &str,
) -> (r: String)
    ensures
        r@ == nested_place(
            before@,
            collection_name@,
            row_index as int,
            field_name@,
            between@,
            after@,
        ),
{
    let number = text::decimal_string(row_index as u64);
    let head = text::cat5(before, field_name, between, number.as_str(), " of '");
    text::cat3(head.as_str(), collection_name, after)
}

/// The error that the page reported for a collection within a row.
pub open spec fn nested_error(
    collection: Seq<char>,
    row: int,
    name: Seq<char>,
    spec: ExtractCollectionSpec,
    payload: CollectionExtractPayload,
) -> Option<ErrorModel> {
    let place = row_context(collection, row).insert("field"@, JsonModel::Text(name));
    if payload.selector_error is Some {
        Some(
            error::with_context(
                ErrorCode::InvalidInput,
                nested_place(
                    "Invalid nested collection selector for '"@,
                    collection,
                    row,
                    name,
                    "' in row "@,
                    "': "@,
                ) + payload.selector_error->0@,
                JsonModel::Object(place),
            ),
        )
    } else if payload.row_scope_error is Some {
        Some(
            error::with_context(
                ErrorCode::InvalidInput,
                nested_place(
                    "Invalid nested row scope selector for '"@,
                    collection,
                    row,
                    name,
                    "' in row "@,
                    "': "@,
                ) + payload.row_scope_error->0@,
                JsonModel::Object(
                    place.insert(
                        "row_scope_selector"@,
                        json::opt_text_model(text::opt_text(spec.row_scope_selector)),
                    ),
                ),
            ),
        )
    } else if payload.field_errors.entries@.len() > 0 {
        Some(
            error::with_context(
                ErrorCode::InvalidInput,
                nested_place(
                    "Invalid nested child selector in '"@,
                    collection,
                    row,
                    name,
                    "' for row "@,
                    "'"@,
                ),
                JsonModel::Object(
                    place.insert(
                        "field_errors"@,
                        field::attributes_json(payload.field_errors@),
                    ),
                ),
            ),
        )
    } else {
        None
    }
}

fn find_nested_error(
    collection_name: &str,
    row_index: usize,
    field_name: &str,
    collection_spec: &ExtractCollectionSpec,
    payload: &CollectionExtractPayload,
) -> (r: Option<RubError>)
    ensures
        error::opt_error(r) == nested_error(
            collection_name@,
            row_index as int,
            field_name@,
            *collection_spec,
            *payload,
        ),
{
    let place = row_context_object(collection_name, row_index).with(
        "field",
        json::text_value(field_name),
    );
    if let Some(cause) = &payload.selector_error {
        let head = nested_place_text(
            "Invalid nested collection selector for '",
            collection_name,
            row_index,
            field_name,
            "' in row ",
            "': ",
        );
        return Some(
            RubError::domain_with_context(
                ErrorCode::InvalidInput,
                text::cat2(head.as_str(), cause.as_str()).as_str(),
                Json::Object(place),
            ),
        );
    }
    if let Some(cause) = &payload.row_scope_error {
        let head = nested_place_text(
            "Invalid nested row scope selector for '",
            collection_name,
            row_index,
            field_name,
            "' in row ",
            "': ",
        );
        return Some(
            RubError::domain_with_context(
                ErrorCode::InvalidInput,
                text::cat2(head.as_str(), cause.as_str()).as_str(),
                Json::Object(
                    place.with(
                        "row_scope_selector",
                        json::opt_text_value(&collection_spec.row_scope_selector),
                    ),
                ),
            ),
        );
    }
    if payload.field_errors.entries.len() > 0 {
        let message = nested_place_text(
            "Invalid nested child selector in '",
            collection_name,
            row_index,
            field_name,
            "' for row ",
            "'",
        );
        return Some(
            RubError::domain_with_context(
                ErrorCode::InvalidInput,
                message.as_str(),
                Json::Object(
                    place.with("field_errors", field::attributes_value(&payload.field_errors)),
                ),
            ),
        );
    }
    None
}

/// An entry of a row.
pub open spec fn entry_projected(
    collection: Seq<char>,
    row: int,
    name: Seq<char>,
    spec: ExtractEntrySpec,
    payload: CollectionEntryPayload,
    floats: Map<Seq<char>, ReadingModel>,
) -> Result<JsonModel, InterruptModel>
    decreases spec, 0int, 0int,
{
    match (spec, payload) {
        (
            ExtractEntrySpec::Field(field_spec),
            CollectionEntryPayload::Field { match_count, values },
        ) => field_projected(
            collection,
            row,
            name,
            field_spec,
            match_count as int,
            json::items_model(values@),
            floats,
        ),
        (
            ExtractEntrySpec::Collection(c),
            CollectionEntryPayload::Collection { payload },
        ) => match nested_error(collection, row, name, c, payload) {
            Some(e) => Err(InterruptModel::Failed(e)),
            None => if payload.row_count == 0 {
                Ok(nested_result(seq![]))
            } else {
                proof {
                    assert(decreases_to!(spec => c));
                    assert(decreases_to!(c => c.fields));
                    assert(decreases_to!(c.fields => c.fields.entries));
                    assert(decreases_to!(c.fields.entries => c.fields.entries@));
                }
                match rows_projected(
                    name,
                    c.fields.entries@,
                    payload.rows@,
                    payload.rows@.len() as int,
                    true,
                    floats,
                ) {
                    Ok(rows) => Ok(nested_result(rows)),
                    Err(e) => Err(e),
                }
            },
        },
        (ExtractEntrySpec::Field(_), CollectionEntryPayload::Collection { .. }) => Err(
            InterruptModel::Failed(
                ErrorModel::Internal(
                    "collection payload for '"@ + name
                        + "' returned nested rows for a scalar field"@,
                ),
            ),
        ),
        (ExtractEntrySpec::Collection(_), CollectionEntryPayload::Field { .. }) => Err(
            InterruptModel::Failed(
                ErrorModel::Internal(
                    "collection payload for '"@ + name
                        + "' returned scalar values for a nested collection"@,
                ),
            ),
        ),
    }
}

/// The first `n` entries of a row.
pub open spec fn row_projected(
    collection: Seq<char>,
    row: int,
    fields: Seq<(String, ExtractEntrySpec)>,
    n: int,
    given: Seq<(String, CollectionEntryPayload)>,
    nested: bool,
    floats: Map<Seq<char>, ReadingModel>,
) -> Result<Map<Seq<char>, JsonModel>, InterruptModel>
    decreases fields, 0int, n,
{
    if n <= 0 || n > fields.len() {
        Ok(Map::empty())
    } else {
        match row_projected(collection, row, fields, n - 1, given, nested, floats) {
            Err(e) => Err(e),
            Ok(front) => {
                let name = fields[n - 1].0@;
                match payload_of(given, name) {
                    None => Err(missing_child(nested, name)),
                    Some(payload) => {
                        proof {
                            assert(decreases_to!(fields => fields[n - 1]));
                            assert(decreases_to!(fields[n - 1] => fields[n - 1].1));
                        }
                        match entry_projected(
                            collection,
                            row,
                            name,
                            fields[n - 1].1,
                            payload,
                            floats,
                        ) {
                            Err(e) => Err(e),
                            Ok(v) => Ok(front.insert(name, v)),
                        }
                    },
                }
            },
        }
    }
}

/// The first `n` rows of a collection.
pub open spec fn rows_projected(
    collection: Seq<char>,
    fields: Seq<(String, ExtractEntrySpec)>,
    rows: Seq<PayloadRow>,
    n: int,
    nested: bool,
    floats: Map<Seq<char>, ReadingModel>,
) -> Result<Seq<JsonModel>, InterruptModel>
    decreases fields, 1int, n,
{
    if n <= 0 {
        Ok(seq![])
    } else {
        match rows_projected(collection, fields, rows, n - 1, nested, floats) {
            Err(e) => Err(e),
            Ok(front) => match row_projected(
                collection,
                n - 1,
                fields,
                fields.len() as int,
                rows[n - 1].entries@,
                nested,
                floats,
            ) {
                Err(e) => Err(e),
                Ok(row) => Ok(front.push(JsonModel::Object(row))),
            },
        }
    }
}

proof fn row_failed(
    collection: Seq<char>,
    row: int,
    fields: Seq<(String, ExtractEntrySpec)>,
    k: int,
    n: int,
    given: Seq<(String, CollectionEntryPayload)>,
    nested: bool,
    floats: Map<Seq<char>, ReadingModel>,
)
    requires
        0 <= k <= n <= fields.len(),
        row_projected(collection, row, fields, k, given, nested, floats) is Err,
    ensures
        row_projected(collection, row, fields, n, given, nested, floats) == row_projected(
            collection,
            row,
            fields,
            k,
            given,
            nested,
            floats,
        ),
    decreases n - k,
{
    if k < n {
        row_failed(collection, row, fields, k, n - 1, given, nested, floats);
    }
}

proof fn rows_failed(
    collection: Seq<char>,
    fields: Seq<(String, ExtractEntrySpec)>,
    rows: Seq<PayloadRow>,
    k: int,
    n: int,
    nested: bool,
    floats: Map<Seq<char>, ReadingModel>,
)
    requires
        0 <= k <= n,
        rows_projected(collection, fields, rows, k, nested, floats) is Err,
    ensures
        rows_projected(collection, fields, rows, n, nested, floats) == rows_projected(
            collection,
            fields,
            rows,
            k,
            nested,
            floats,
        ),
    decreases n - k,
{
    if k < n {
        rows_failed(collection, fields, rows, k, n - 1, nested, floats);
    }
}

pub open spec fn row_result(r: Result<JsonObject, Interrupt>) -> Result<
    Map<Seq<char>, JsonModel>,
    InterruptModel,
> {
    match r {
        Ok(o) => Ok(o@),
        Err(e) => Err(e@),
    }
}

pub open spec fn rows_result(r: Result<Vec<Json>, Interrupt>) -> Result<
    Seq<JsonModel>,
    InterruptModel,
> {
    match r {
        Ok(v) => Ok(json::items_model(v@)),
        Err(e) => Err(e@),
    }
}

pub fn project_collection_entry(
    collection_name: &str,
    row_index: usize,
    field_name: &str,
    entry_spec: &ExtractEntrySpec,
    payload: &CollectionEntryPayload,
    floats: &FloatReadings,
) -> (r: Result<Json, Interrupt>)
    ensures
        extract_postprocess::value_result(r) == entry_projected(
            collection_name@,
            row_index as int,
            field_name@,
            *entry_spec,
            *payload,
            floats@,
        ),
    decreases entry_spec, 0int, 0int,
{
    match entry_spec {
        ExtractEntrySpec::Field(field_spec) => match payload {
            CollectionEntryPayload::Field { match_count, values } => project_collection_field(
                collection_name,
                row_index,
                field_name,
                field_spec,
                *match_count,
                values,
                floats,
            ),
            CollectionEntryPayload::Collection { .. } => Err(
                Interrupt::Failed(
                    RubError::Internal(
                        text::cat3(
                            "collection payload for '",
                            field_name,
                            "' returned nested rows for a scalar field",
                        ),
                    ),
                ),
            ),
        },
        ExtractEntrySpec::Collection(c) => match payload {
            CollectionEntryPayload::Collection { payload } => {
                if let Some(e) = find_nested_error(
                    collection_name,
                    row_index,
                    field_name,
                    c,
                    payload,
                ) {
                    return Err(Interrupt::Failed(e));
                }
                if payload.row_count == 0 {
                    let none: Vec<Json> = Vec::new();
                    assert(json::items_model(none@) =~= seq![]);
                    return Ok(nested_collection_result(none));
                }
                proof {
                    assert(decreases_to!(*entry_spec => c));
                    assert(decreases_to!(c => c.fields));
                    assert(decreases_to!(c.fields => c.fields.entries));
                    assert(decreases_to!(c.fields.entries => c.fields.entries@));
                }
                match project_rows(field_name, &c.fields, &payload.rows, true, floats) {
                    Ok(rows) => Ok(nested_collection_result(rows)),
                    Err(e) => Err(e),
                }
            },
            CollectionEntryPayload::Field { .. } => Err(
                Interrupt::Failed(
                    RubError::Internal(
                        text::cat3(
                            "collection payload for '",
                            field_name,
                            "' returned scalar values for a nested collection",
                        ),
                    ),
                ),
            ),
        },
    }
}

fn project_row(
    collection_name: &str,
    row_index: usize,
    fields: &ExtractEntries,
    given: &PayloadRow,
    nested: bool,
    floats: &FloatReadings,
) -> (r: Result<JsonObject, Interrupt>)
    ensures
        row_result(r) == row_projected(
            collection_name@,
            row_index as int,
            fields.entries@,
            fields.entries@.len() as int,
            given.entries@,
            nested,
            floats@,
        ),
    decreases fields.entries@, 0int, fields.entries@.len(),
{
    let ghost s = fields.entries@;
    let mut out = JsonObject::new();
    let mut i: usize = 0;
    while i < fields.entries.len()
        invariant
            i <= s.len(),
            s == fields.entries@,
            row_projected(
                collection_name@,
                row_index as int,
                s,
                i as int,
                given.entries@,
                nested,
                floats@,
            ) == Ok::<Map<Seq<char>, JsonModel>, InterruptModel>(out@),
        decreases s.len() - i,
    {
        let name = fields.entries[i].0.as_str();
        match find_payload(given, name) {
            None => {
                proof {
                    row_failed(
                        collection_name@,
                        row_index as int,
                        s,
                        i + 1,
                        s.len() as int,
                        given.entries@,
                        nested,
                        floats@,
                    );
                }
                return Err(missing_child_error(nested, name));
            },
            Some(payload) => {
                proof {
                    assert(decreases_to!(s => s[i as int]));
                    assert(decreases_to!(s[i as int] => s[i as int].1));
                }
                match project_collection_entry(
                    collection_name,
                    row_index,
                    name,
                    &fields.entries[i].1,
                    payload,
                    floats,
                ) {
                    Ok(v) => {
                        out.insert(name, v);
                    },
                    Err(e) => {
                        proof {
                            row_failed(
                                collection_name@,
                                row_index as int,
                                s,
                                i + 1,
                                s.len() as int,
                                given.entries@,
                                nested,
                                floats@,
                            );
                        }
                        return Err(e);
                    },
                }
            },
        }
        i += 1;
    }
    Ok(out)
}

/// The rows of a collection.
pub fn project_rows(
    collection_name: &str,
    fields: &ExtractEntries,
    rows: &Vec<PayloadRow>,
    nested: bool,
    floats: &FloatReadings,
) -> (r: Result<Vec<Json>, Interrupt>)
    ensures
        rows_result(r) == rows_projected(
            collection_name@,
            fields.entries@,
            rows@,
            rows@.len() as int,
            nested,
            floats@,
        ),
    decreases fields.entries@, 1int, 0int,
{
    let ghost s = fields.entries@;
    let mut out: Vec<Json> = Vec::new();
    let mut i: usize = 0;
    assert(json::items_model(out@) =~= seq![]);
    while i < rows.len()
        invariant
            i <= rows@.len(),
            s == fields.entries@,
            rows_projected(collection_name@, s, rows@, i as int, nested, floats@) == Ok::<
                Seq<JsonModel>,
                InterruptModel,
            >(json::items_model(out@)),
        decreases rows@.len() - i,
    {
        match project_row(collection_name, i, fields, &rows[i], nested, floats) {
            Ok(row) => {
                let ghost before = out@;
                let ghost members = row@;
                let item = Json::Object(row);
                assert(item@ == JsonModel::Object(members));
                out.push(item);
                assert(out@.drop_last() =~= before);
            },
            Err(e) => {
                proof {
                    rows_failed(
                        collection_name@,
                        s,
                        rows@,
                        i + 1,
                        rows@.len() as int,
                        nested,
                        floats@,
                    );
                }
                return Err(e);
            },
        }
        i += 1;
    }
    Ok(out)
}

/// Every row has all the fields of its collection and no others.
pub proof fn rows_have_their_fields(
    collection: Seq<char>,
    row: int,
    fields: Seq<(String, ExtractEntrySpec)>,
    n: int,
    given: Seq<(String, CollectionEntryPayload)>,
    nested: bool,
    floats: Map<Seq<char>, ReadingModel>,
)
    requires
        0 <= n <= fields.len(),
        row_projected(collection, row, fields, n, given, nested, floats) is Ok,
    ensures
        forall|k: Seq<char>| #[trigger]
            row_projected(collection, row, fields, n, given, nested, floats)->Ok_0.contains_key(k)
                <==> exists|i: int| 0 <= i < n && (#[trigger] fields[i]).0@ == k,
    decreases n,
{
    if n > 0 {
        rows_have_their_fields(collection, row, fields, n - 1, given, nested, floats);
        let front = row_projected(collection, row, fields, n - 1, given, nested, floats)->Ok_0;
        let all = row_projected(collection, row, fields, n, given, nested, floats)->Ok_0;
        assert forall|k: Seq<char>| #[trigger] all.contains_key(k) <==> exists|i: int|
            0 <= i < n && (#[trigger] fields[i]).0@ == k by {
            if all.contains_key(k) {
                if k == fields[n - 1].0@ {
                    assert(fields[n - 1].0@ == k);
                } else {
                    assert(front.contains_key(k));
                    let i = choose|i: int| 0 <= i < n - 1 && (#[trigger] fields[i]).0@ == k;
                    assert(fields[i].0@ == k);
                }
            }
            if exists|i: int| 0 <= i < n && (#[trigger] fields[i]).0@ == k {
                let i = choose|i: int| 0 <= i < n && (#[trigger] fields[i]).0@ == k;
                if i < n - 1 {
                    assert(front.contains_key(k));
                }
            }
        }
    }
}

/// A projected collection has exactly as many rows as the page gave, in the order
/// of the page: each row is the projection of the row at its place.
pub proof fn rows_come_out_one_for_one(
    collection: Seq<char>,
    fields: Seq<(String, ExtractEntrySpec)>,
    rows: Seq<PayloadRow>,
    n: int,
    nested: bool,
    floats: Map<Seq<char>, ReadingModel>,
)
    requires
        0 <= n <= rows.len(),
        rows_projected(collection, fields, rows, n, nested, floats) is Ok,
    ensures
        rows_projected(collection, fields, rows, n, nested, floats)->Ok_0.len() == n,
        forall|i: int|
            0 <= i < n ==> {
                let row = row_projected(
                    collection,
                    i,
                    fields,
                    fields.len() as int,
                    (#[trigger] rows[i]).entries@,
                    nested,
                    floats,
                );
                &&& row is Ok
                &&& rows_projected(collection, fields, rows, n, nested, floats)->Ok_0[i]
                    == JsonModel::Object(row->Ok_0)
            },
    decreases n,
{
    if n > 0 {
        rows_come_out_one_for_one(collection, fields, rows, n - 1, nested, floats);
    }
}

/// Rows fail as a whole exactly where one of them does, with the error of the
/// first that does.
pub proof fn the_first_wrong_row_fails_them_all(
    collection: Seq<char>,
    fields: Seq<(String, ExtractEntrySpec)>,
    rows: Seq<PayloadRow>,
    n: int,
    nested: bool,
    floats: Map<Seq<char>, ReadingModel>,
)
    requires
        0 <= n <= rows.len(),
    ensures
        rows_projected(collection, fields, rows, n, nested, floats) is Err ==> exists|k: int|
            {
                &&& 0 <= k < n
                &&& rows_projected(collection, fields, rows, k, nested, floats) is Ok
                &&& #[trigger] row_projected(
                    collection,
                    k,
                    fields,
                    fields.len() as int,
                    rows[k].entries@,
                    nested,
                    floats,
                ) is Err
                &&& row_projected(
                    collection,
                    k,
                    fields,
                    fields.len() as int,
                    rows[k].entries@,
                    nested,
                    floats,
                )->Err_0 == rows_projected(collection, fields, rows, n, nested, floats)->Err_0
            },
        forall|k: int|
            0 <= k < n && (#[trigger] row_projected(
                collection,
                k,
                fields,
                fields.len() as int,
                rows[k].entries@,
                nested,
                floats,
            )) is Err ==> rows_projected(collection, fields, rows, n, nested, floats) is Err,
    decreases n,
{
    if n > 0 {
        the_first_wrong_row_fails_them_all(collection, fields, rows, n - 1, nested, floats);
        let last = row_projected(
            collection,
            n - 1,
            fields,
            fields.len() as int,
            rows[n - 1].entries@,
            nested,
            floats,
        );
        assert(last == last);
    }
}

/// What the page gave for a name is one of the things that it gave, and the last
/// of that name; nothing is given only where no such name is.
pub proof fn payloads_are_found_by_name(
    s: Seq<(String, CollectionEntryPayload)>,
    name: Seq<char>,
)
    ensures
        match payload_of(s, name) {
            Some(p) => exists|i: int| #![trigger s[i]]
                0 <= i < s.len() && s[i].0@ == name && s[i].1 == p && forall|j: int|
                    i < j < s.len() ==> (#[trigger] s[j]).0@ != name,
            None => forall|i: int| 0 <= i < s.len() ==> (#[trigger] s[i]).0@ != name,
        },
    decreases s.len(),
{
    if s.len() > 0 {
        let front = s.drop_last();
        payloads_are_found_by_name(front, name);
        if s.last().0@ == name {
            assert(s[s.len() - 1].0@ == name);
        } else {
            match payload_of(front, name) {
                Some(p) => {
                    let i = choose|i: int| #![trigger front[i]]
                        0 <= i < front.len() && front[i].0@ == name && front[i].1 == p && forall|
                            j: int,
                        |
                            i < j < front.len() ==> (#[trigger] front[j]).0@ != name;
                    assert(s[i] == front[i]);
                    assert forall|j: int| i < j < s.len() implies (#[trigger] s[j]).0@ != name by {
                        if j < front.len() {
                            assert(s[j] == front[j]);
                        }
                    }
                },
                None => {
                    assert forall|i: int| 0 <= i < s.len() implies (#[trigger] s[i]).0@ != name by {
                        if i < front.len() {
                            assert(s[i] == front[i]);
                        }
                    }
                },
            }
        }
    }
}

/// Each entry of a projected row is the projection of what the page gave for its
/// name, by the entry of the spec with that name.
pub proof fn entries_stand_under_their_names(
    collection: Seq<char>,
    row: int,
    fields: Seq<(String, ExtractEntrySpec)>,
    n: int,
    given: Seq<(String, CollectionEntryPayload)>,
    nested: bool,
    floats: Map<Seq<char>, ReadingModel>,
)
    requires
        0 <= n <= fields.len(),
        row_projected(collection, row, fields, n, given, nested, floats) is Ok,
        forall|i: int, j: int|
            0 <= i < j < fields.len() ==> (#[trigger] fields[i]).0@ != (#[trigger] fields[j]).0@,
    ensures
        forall|i: int|
            0 <= i < n ==> {
                let name = (#[trigger] fields[i]).0@;
                let all = row_projected(collection, row, fields, n, given, nested, floats)->Ok_0;
                &&& payload_of(given, name) is Some
                &&& all.contains_key(name)
                &&& entry_projected(
                    collection,
                    row,
                    name,
                    fields[i].1,
                    payload_of(given, name)->0,
                    floats,
                ) == Ok::<JsonModel, InterruptModel>(all[name])
            },
    decreases n,
{
    if n > 0 {
        entries_stand_under_their_names(collection, row, fields, n - 1, given, nested, floats);
        assert forall|i: int| 0 <= i < n implies ({
            let name = (#[trigger] fields[i]).0@;
            let all = row_projected(collection, row, fields, n, given, nested, floats)->Ok_0;
            &&& payload_of(given, name) is Some
            &&& all.contains_key(name)
            &&& entry_projected(
                collection,
                row,
                name,
                fields[i].1,
                payload_of(given, name)->0,
                floats,
            ) == Ok::<JsonModel, InterruptModel>(all[name])
        }) by {
            if i < n - 1 {
                assert(fields[i].0@ != fields[n - 1].0@);
            }
        }
    }
}

/// A field of a row without any postprocessing is the one value that was found,
/// or all of them, in order, where the field takes many.
pub proof fn plain_fields_are_what_was_found(
    collection: Seq<char>,
    row: int,
    name: Seq<char>,
    spec: ExtractFieldSpec,
    match_count: int,
    values: Seq<JsonModel>,
    floats: Map<Seq<char>, ReadingModel>,
)
    requires
        match_count > 0,
        values.len() > 0,
        !(values[0] is Null),
        spec.value_type is None,
        spec.transform is None,
        spec.map@ == Map::<Seq<char>, JsonModel>::empty(),
    ensures
        spec.many ==> field_projected(collection, row, name, spec, match_count, values, floats)
            == Ok::<JsonModel, InterruptModel>(JsonModel::Array(values)),
        !spec.many && match_count == 1 ==> field_projected(
            collection,
            row,
            name,
            spec,
            match_count,
            values,
            floats,
        ) == Ok::<JsonModel, InterruptModel>(values[0]),
{
    extract_postprocess::mapped_by_nothing(values[0], spec.map@);
    extract_postprocess::mapped_by_nothing(JsonModel::Array(values), spec.map@);
}

/// A field of a row that was not found is its default; without one it is null
/// where the field may be missing, and else an error that says nothing was found.
/// A field that takes one value and was found more than once is an error.
pub proof fn missing_and_repeated_fields(
    collection: Seq<char>,
    row: int,
    name: Seq<char>,
    spec: ExtractFieldSpec,
    match_count: int,
    values: Seq<JsonModel>,
    floats: Map<Seq<char>, ReadingModel>,
)
    requires
        match_count >= 0,
    ensures
        ({
            let r = field_projected(collection, row, name, spec, match_count, values, floats);
            &&& match_count == 0 && spec.default is Some ==> r == Ok::<JsonModel, InterruptModel>(
                spec.default->0@,
            )
            &&& match_count == 0 && spec.default is None && !spec.required ==> r == Ok::<
                JsonModel,
                InterruptModel,
            >(JsonModel::Null)
            &&& match_count == 0 && spec.default is None && spec.required ==> {
                &&& r matches Err(InterruptModel::Failed(ErrorModel::Domain(e)))
                &&& e.code == ErrorCode::ElementNotFound
            }
            &&& match_count > 1 && !spec.many ==> {
                &&& r matches Err(InterruptModel::Failed(ErrorModel::Domain(e)))
                &&& e.code == ErrorCode::InvalidInput
            }
        }),
{
}

/// A collection within a row is the rows that the page gave for it and their
/// number.
pub proof fn nested_collections_count_their_rows(
    collection: Seq<char>,
    row: int,
    name: Seq<char>,
    spec: ExtractCollectionSpec,
    payload: CollectionExtractPayload,
    floats: Map<Seq<char>, ReadingModel>,
)
    requires
        payload.row_count == payload.rows@.len(),
        payload.selector_error is None,
        payload.row_scope_error is None,
        payload.field_errors.entries@.len() == 0,
        entry_projected(
            collection,
            row,
            name,
            ExtractEntrySpec::Collection(spec),
            CollectionEntryPayload::Collection { payload },
            floats,
        ) is Ok,
    ensures
        ({
            let r = entry_projected(
                collection,
                row,
                name,
                ExtractEntrySpec::Collection(spec),
                CollectionEntryPayload::Collection { payload },
                floats,
            )->Ok_0;
            let fields = spec.fields.entries@;
            &&& json::member(r, "items"@) matches Some(JsonModel::Array(items))
            &&& items.len() == payload.rows@.len()
            &&& json::member(r, "item_count"@) == Some(json::number(items.len() as int))
            &&& forall|i: int|
                0 <= i < items.len() ==> {
                    let one = row_projected(
                        name,
                        i,
                        fields,
                        fields.len() as int,
                        (#[trigger] payload.rows@[i]).entries@,
                        true,
                        floats,
                    );
                    one is Ok && items[i] == JsonModel::Object(one->Ok_0)
                }
        }),
{
    let fields = spec.fields.entries@;
    let n = payload.rows@.len() as int;
    reveal_strlit("items");
    reveal_strlit("item_count");
    assert("items"@.len() != "item_count"@.len());
    if n > 0 {
        rows_come_out_one_for_one(name, fields, payload.rows@, n, true, floats);
    }
}

/// A collection within a row fails exactly where the page reported an error for it, with
/// the row and the name of the collection.
pub proof fn nested_collections_fail_where_the_page_says_so(
    collection: Seq<char>,
    row: int,
    name: Seq<char>,
    spec: ExtractCollectionSpec,
    payload: CollectionExtractPayload,
)
    ensures
        nested_error(collection, row, name, spec, payload) is Some <==> payload.selector_error
            is Some || payload.row_scope_error is Some || payload.field_errors.entries@.len() > 0,
        nested_error(collection, row, name, spec, payload) matches Some(x) ==> (x matches
            ErrorModel::Domain(e) && e.code == ErrorCode::InvalidInput && (e.context matches Some(c)
            && json::member(c, "collection"@) == Some(JsonModel::Text(collection)) && json::member(
            c,
            "row_index"@,
        ) == Some(json::number(row)) && json::member(c, "field"@) == Some(JsonModel::Text(name)))),
{
    reveal_strlit("collection");
    reveal_strlit("row_index");
    reveal_strlit("field");
    reveal_strlit("row_scope_selector");
    reveal_strlit("field_errors");
    assert("collection"@.len() != "row_index"@.len());
    assert("collection"@.len() != "field"@.len());
    assert("collection"@.len() != "row_scope_selector"@.len());
    assert("collection"@.len() != "field_errors"@.len());
    assert("row_index"@.len() != "field"@.len());
    assert("row_index"@.len() != "row_scope_selector"@.len());
    assert("row_index"@.len() != "field_errors"@.len());
    assert("field"@.len() != "row_scope_selector"@.len());
    assert("field"@.len() != "field_errors"@.len());
    assert("row_scope_selector"@.len() != "field_errors"@.len());
}

} // verus!
