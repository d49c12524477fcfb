//! Explaining what an extraction asks for.

use vstd::prelude::*;
use crate::error::{EnvelopeModel, ErrorEnvelope, ErrorModel, RubError};
use crate::error;
use crate::extract_postprocess;
use crate::json::{self, Json, JsonModel, JsonObject, NumberModel};
use crate::text;
use super::collection::{ExtractCollectionSpec, ExtractEntries, ExtractEntrySpec};
use super::spec::{self, ExtractFieldSpec};

verus! {

/// `m` with a member, where it has a value.
pub open spec fn put(
    m: Map<Seq<char>, JsonModel>,
    key: Seq<char>,
    value: Option<JsonModel>,
) -> Map<Seq<char>, JsonModel> {
    match value {
        Some(v) => m.insert(key, v),
        None => m,
    }
}

fn put_value(o: &mut JsonObject, key: &str, value: Option<Json>)
    ensures
        final(o)@ == put(old(o)@, key@, error::opt_context(value)),
{
    if let Some(v) = value {
        o.insert(key, v);
    }
}

pub open spec fn some_text(o: Option<String>) -> Option<JsonModel> {
    match o {
        Some(s) => Some(JsonModel::Text(s@)),
        None => None,
    }
}

fn some_text_value(o: &Option<String>) -> (r: Option<Json>)
    ensures
        error::opt_context(r) == some_text(*o),
{
    match o {
        Some(s) => Some(json::text_value(s.as_str())),
        None => None,
    }
}

pub open spec fn some_index(o: Option<u32>) -> Option<JsonModel> {
    match o {
        Some(n) => Some(JsonModel::Number(NumberModel::Int(n as int))),
        None => None,
    }
}

fn some_index_value(o: Option<u32>) -> (r: Option<Json>)
    ensures
        error::opt_context(r) == some_index(o),
{
    match o {
        Some(n) => Some(json::uint_value(n as u64)),
        None => None,
    }
}

/// `b` where it is not what holds anyway.
pub open spec fn unless(b: bool, usual: bool) -> Option<JsonModel> {
    if b == usual {
        None
    } else {
        Some(JsonModel::Bool(b))
    }
}

fn unless_value(b: bool, usual: bool) -> (r: Option<Json>)
    ensures
        error::opt_context(r) == unless(b, usual),
{
    if b == usual {
        None
    } else {
        Some(Json::Bool(b))
    }
}

/// `m` with the locator of a field.
pub open spec fn with_locator(
    m: Map<Seq<char>, JsonModel>,
    f: ExtractFieldSpec,
) -> Map<Seq<char>, JsonModel> {
    let m = put(m, "index"@, some_index(f.index));
    let m = put(m, "ref"@, some_text(f.element_ref));
    let m = put(m, "selector"@, some_text(f.selector));
    let m = put(m, "target_text"@, some_text(f.target_text));
    let m = put(m, "role"@, some_text(f.role));
    let m = put(m, "label"@, some_text(f.label));
    let m = put(m, "testid"@, some_text(f.testid));
    let m = put(m, "first"@, unless(f.first, false));
    let m = put(m, "last"@, unless(f.last, false));
    put(m, "nth"@, some_index(f.nth))
}

pub fn insert_locator_keys(object: &mut JsonObject, field: &ExtractFieldSpec)
    ensures
        final(object)@ == with_locator(old(object)@, *field),
{
    put_value(object, "index", some_index_value(field.index));
    put_value(object, "ref", some_text_value(&field.element_ref));
    put_value(object, "selector", some_text_value(&field.selector));
    put_value(object, "target_text", some_text_value(&field.target_text));
    put_value(object, "role", some_text_value(&field.role));
    put_value(object, "label", some_text_value(&field.label));
    put_value(object, "testid", some_text_value(&field.testid));
    put_value(object, "first", unless_value(field.first, false));
    put_value(object, "last", unless_value(field.last, false));
    put_value(object, "nth", some_index_value(field.nth));
}

/// A field as it is written out in full.
pub open spec fn field_rendered(f: ExtractFieldSpec) -> JsonModel {
    let m = with_locator(Map::empty(), f).insert(
        "kind"@,
        JsonModel::Text(spec::kind_name(f.kind)),
    );
    let m = put(m, "attribute"@, some_text(f.attribute));
    let m = put(m, "many"@, unless(f.many, false));
    let m = put(m, "required"@, unless(f.required, true));
    let m = put(m, "default"@, error::opt_context(f.default));
    let m = put(
        m,
        "map"@,
        if f.map.entries@.len() == 0 {
            None
        } else {
            Some(JsonModel::Object(f.map@))
        },
    );
    let m = put(
        m,
        "transform"@,
        match f.transform {
            Some(t) => Some(JsonModel::Text(extract_postprocess::transform_name(t))),
            None => None,
        },
    );
    JsonModel::Object(
        put(
            m,
            "type"@,
            match f.value_type {
                Some(t) => Some(JsonModel::Text(extract_postprocess::value_type_name(t))),
                None => None,
            },
        ),
    )
}

pub fn render_extract_field_spec(field: &ExtractFieldSpec) -> (r: Json)
    ensures
        r@ == field_rendered(*field),
{
    let mut object = JsonObject::new();
    insert_locator_keys(&mut object, field);
    object.insert("kind", json::text_value(field.kind.as_str()));
    put_value(&mut object, "attribute", some_text_value(&field.attribute));
    put_value(&mut object, "many", unless_value(field.many, false));
    put_value(&mut object, "required", unless_value(field.required, true));
    let default = match &field.default {
        Some(v) => Some(v.clone()),
        None => None,
    };
    put_value(&mut object, "default", default);
    if field.map.entries.len() > 0 {
        object.insert("map", Json::Object(field.map.clone()));
    }
    if let Some(transform) = field.transform {
        object.insert("transform", json::text_value(transform.as_str()));
    }
    if let Some(value_type) = field.value_type {
        object.insert("type", json::text_value(value_type.as_str()));
    }
    Json::Object(object)
}

/// The locator of a collection as it is written out in full.
pub open spec fn collection_locator(c: ExtractCollectionSpec) -> Map<Seq<char>, JsonModel> {
    let m = put(Map::empty(), "collection"@, some_text(c.collection));
    let m = put(m, "selector"@, some_text(c.selector));
    let m = put(m, "target_text"@, some_text(c.target_text));
    let m = put(m, "role"@, some_text(c.role));
    let m = put(m, "label"@, some_text(c.label));
    let m = put(m, "testid"@, some_text(c.testid));
    let m = put(m, "row_scope_selector"@, some_text(c.row_scope_selector));
    let m = put(m, "first"@, unless(c.first, false));
    let m = put(m, "last"@, unless(c.last, false));
    put(m, "nth"@, some_index(c.nth))
}

fn collection_locator_object(c: &ExtractCollectionSpec) -> (r: JsonObject)
    ensures
        r@ == collection_locator(*c),
{
    let mut object = JsonObject::new();
    put_value(&mut object, "collection", some_text_value(&c.collection));
    put_value(&mut object, "selector", some_text_value(&c.selector));
    put_value(&mut object, "target_text", some_text_value(&c.target_text));
    put_value(&mut object, "role", some_text_value(&c.role));
    put_value(&mut object, "label", some_text_value(&c.label));
    put_value(&mut object, "testid", some_text_value(&c.testid));
    put_value(&mut object, "row_scope_selector", some_text_value(&c.row_scope_selector));
    put_value(&mut object, "first", unless_value(c.first, false));
    put_value(&mut object, "last", unless_value(c.last, false));
    put_value(&mut object, "nth", some_index_value(c.nth));
    object
}

/// An entry as it is written out in full.
pub open spec fn entry_rendered(entry: ExtractEntrySpec) -> JsonModel
    decreases entry, 0int,
{
    match entry {
        ExtractEntrySpec::Field(f) => field_rendered(f),
        ExtractEntrySpec::Collection(c) => {
            proof {
                assert(decreases_to!(entry => c));
                assert(decreases_to!(c => c.fields));
                assert(decreases_to!(c.fields => c.fields.entries));
                assert(decreases_to!(c.fields.entries => c.fields.entries@));
            }
            JsonModel::Object(
                collection_locator(c).insert(
                    "fields"@,
                    JsonModel::Object(
                        entries_rendered(c.fields.entries@, c.fields.entries@.len() as int),
                    ),
                ),
            )
        },
    }
}

/// The first `n` entries as they are written out in full.
pub open spec fn entries_rendered(s: Seq<(String, ExtractEntrySpec)>, n: int) -> Map<
    Seq<char>,
    JsonModel,
>
    decreases s, n,
{
    if n <= 0 || n > s.len() {
        Map::empty()
    } else {
        proof {
            assert(decreases_to!(s => s[n - 1]));
            assert(decreases_to!(s[n - 1] => s[n - 1].1));
        }
        entries_rendered(s, n - 1).insert(s[n - 1].0@, entry_rendered(s[n - 1].1))
    }
}

pub fn render_extract_entry_spec(entry: &ExtractEntrySpec) -> (r: Json)
    ensures
        r@ == entry_rendered(*entry),
    decreases entry, 0int,
{
    match entry {
        ExtractEntrySpec::Field(f) => render_extract_field_spec(f),
        ExtractEntrySpec::Collection(c) => {
            proof {
                assert(decreases_to!(*entry => c));
                assert(decreases_to!(c => c.fields));
                assert(decreases_to!(c.fields => c.fields.entries));
                assert(decreases_to!(c.fields.entries => c.fields.entries@));
            }
            let mut object = collection_locator_object(c);
            object.insert("fields", Json::Object(render_entries(&c.fields)));
            Json::Object(object)
        },
    }
}

/// The entries of an extraction, written out in full.
pub fn render_entries(fields: &ExtractEntries) -> (r: JsonObject)
    ensures
        r@ == entries_rendered(fields.entries@, fields.entries@.len() as int),
    decreases fields.entries@, fields.entries@.len(),
{
    let ghost s = fields.entries@;
    let mut out = JsonObject::new();
    let mut i: usize = 0;
    while i < fields.entries.len()
        invariant
            i <= s.len(),
            s == fields.entries@,
            out@ == entries_rendered(s, i as int),
        decreases s.len() - i,
    {
        proof {
            assert(decreases_to!(s => s[i as int]));
            assert(decreases_to!(s[i as int] => s[i as int].1));
        }
        let entry = render_extract_entry_spec(&fields.entries[i].1);
        out.insert(fields.entries[i].0.as_str(), entry);
        i += 1;
    }
    out
}

pub open spec fn key_if(present: bool, key: Seq<char>) -> Seq<Seq<char>> {
    if present {
        seq![key]
    } else {
        seq![]
    }
}

/// The texts of words.
pub open spec fn words_of(v: Seq<&'static str>) -> Seq<Seq<char>> {
    v.map_values(|s: &'static str| s@)
}

fn push_key_if(keys: &mut Vec<&'static str>, present: bool, key: &'static str)
    ensures
        words_of(final(keys)@) == words_of(old(keys)@) + key_if(present, key@),
{
    let ghost before = keys@;
    if present {
        keys.push(key);
        assert(words_of(keys@) =~= words_of(before) + seq![key@]);
    } else {
        assert(words_of(keys@) =~= words_of(before) + Seq::<Seq<char>>::empty());
    }
}

/// How a field is located, by the keys that say so.
pub open spec fn locator_keys(f: ExtractFieldSpec) -> Seq<Seq<char>> {
    key_if(f.index is Some, "index"@) + key_if(f.element_ref is Some, "ref"@) + key_if(
        f.selector is Some,
        "selector"@,
    ) + key_if(f.target_text is Some, "target_text"@) + key_if(f.role is Some, "role"@) + key_if(
        f.label is Some,
        "label"@,
    ) + key_if(f.testid is Some, "testid"@) + key_if(f.first, "first"@) + key_if(
        f.last,
        "last"@,
    ) + key_if(f.nth is Some, "nth"@)
}

pub fn extract_locator_keys_present(field: &ExtractFieldSpec) -> (r: Vec<&'static str>)
    ensures
        words_of(r@) == locator_keys(*field),
{
    let mut keys: Vec<&'static str> = Vec::new();
    assert(words_of(keys@) =~= Seq::<Seq<char>>::empty());
    push_key_if(&mut keys, field.index.is_some(), "index");
    assert(words_of(keys@) =~= key_if(field.index is Some, "index"@));
    push_key_if(&mut keys, field.element_ref.is_some(), "ref");
    push_key_if(&mut keys, field.selector.is_some(), "selector");
    push_key_if(&mut keys, field.target_text.is_some(), "target_text");
    push_key_if(&mut keys, field.role.is_some(), "role");
    push_key_if(&mut keys, field.label.is_some(), "label");
    push_key_if(&mut keys, field.testid.is_some(), "testid");
    push_key_if(&mut keys, field.first, "first");
    push_key_if(&mut keys, field.last, "last");
    push_key_if(&mut keys, field.nth.is_some(), "nth");
    keys
}

/// How a collection is located, by the keys that say so.
pub open spec fn collection_locator_keys(c: ExtractCollectionSpec) -> Seq<Seq<char>> {
    key_if(c.collection is Some, "collection"@) + key_if(c.selector is Some, "selector"@) + key_if(
        c.target_text is Some,
        "target_text"@,
    ) + key_if(c.role is Some, "role"@) + key_if(c.label is Some, "label"@) + key_if(
        c.testid is Some,
        "testid"@,
    ) + key_if(c.row_scope_selector is Some, "row_scope_selector"@) + key_if(c.first, "first"@)
        + key_if(c.last, "last"@) + key_if(c.nth is Some, "nth"@)
}

pub fn extract_collection_locator_keys_present(collection: &ExtractCollectionSpec) -> (r: Vec<
    &'static str,
>)
    ensures
        words_of(r@) == collection_locator_keys(*collection),
{
    let mut keys: Vec<&'static str> = Vec::new();
    assert(words_of(keys@) =~= Seq::<Seq<char>>::empty());
    push_key_if(&mut keys, collection.collection.is_some(), "collection");
    assert(words_of(keys@) =~= key_if(collection.collection is Some, "collection"@));
    push_key_if(&mut keys, collection.selector.is_some(), "selector");
    push_key_if(&mut keys, collection.target_text.is_some(), "target_text");
    push_key_if(&mut keys, collection.role.is_some(), "role");
    push_key_if(&mut keys, collection.label.is_some(), "label");
    push_key_if(&mut keys, collection.testid.is_some(), "testid");
    push_key_if(&mut keys, collection.row_scope_selector.is_some(), "row_scope_selector");
    push_key_if(&mut keys, collection.first, "first");
    push_key_if(&mut keys, collection.last, "last");
    push_key_if(&mut keys, collection.nth.is_some(), "nth");
    keys
}

/// What is said of a field at `path`.
pub open spec fn field_summary(path: Seq<char>, f: ExtractFieldSpec) -> JsonModel {
    JsonModel::Object(
        Map::<Seq<char>, JsonModel>::empty().insert("path"@, JsonModel::Text(path)).insert(
            "entry_kind"@,
            JsonModel::Text("field"@),
        ).insert("kind"@, JsonModel::Text(spec::kind_name(f.kind))).insert(
            "locator_keys_present"@,
            json::texts_model(locator_keys(f)),
        ).insert("many"@, JsonModel::Bool(f.many)).insert(
            "required"@,
            JsonModel::Bool(f.required),
        ).insert(
            "type"@,
            match f.value_type {
                Some(t) => JsonModel::Text(extract_postprocess::value_type_name(t)),
                None => JsonModel::Null,
            },
        ).insert(
            "transform"@,
            match f.transform {
                Some(t) => JsonModel::Text(extract_postprocess::transform_name(t)),
                None => JsonModel::Null,
            },
        ),
    )
}

fn field_summary_value(path: &str, f: &ExtractFieldSpec) -> (r: Json)
    ensures
        r@ == field_summary(path@, *f),
{
    let keys = extract_locator_keys_present(f);
    let value_type = match f.value_type {
        Some(t) => json::text_value(t.as_str()),
        None => Json::Null,
    };
    let transform = match f.transform {
        Some(t) => json::text_value(t.as_str()),
        None => Json::Null,
    };
    Json::Object(
        JsonObject::new().with("path", json::text_value(path)).with(
            "entry_kind",
            json::text_value("field"),
        ).with("kind", json::text_value(f.kind.as_str())).with(
            "locator_keys_present",
            json::words_value(&keys),
        ).with("many", Json::Bool(f.many)).with("required", Json::Bool(f.required)).with(
            "type",
            value_type,
        ).with("transform", transform),
    )
}

/// What is said of a collection at `path`.
pub open spec fn collection_summary(path: Seq<char>, c: ExtractCollectionSpec) -> JsonModel {
    JsonModel::Object(
        Map::<Seq<char>, JsonModel>::empty().insert("path"@, JsonModel::Text(path)).insert(
            "entry_kind"@,
            JsonModel::Text("collection"@),
        ).insert(
            "locator_keys_present"@,
            json::texts_model(collection_locator_keys(c)),
        ).insert(
            "row_scope_selector"@,
            json::opt_text_model(text::opt_text(c.row_scope_selector)),
        ).insert(
            "field_count"@,
            JsonModel::Number(NumberModel::Int(c.fields.entries@.len() as int)),
        ),
    )
}

fn collection_summary_value(path: &str, c: &ExtractCollectionSpec) -> (r: Json)
    ensures
        r@ == collection_summary(path@, *c),
{
    let keys = extract_collection_locator_keys_present(c);
    Json::Object(
        JsonObject::new().with("path", json::text_value(path)).with(
            "entry_kind",
            json::text_value("collection"),
        ).with("locator_keys_present", json::words_value(&keys)).with(
            "row_scope_selector",
            json::opt_text_value(&c.row_scope_selector),
        ).with("field_count", json::uint_value(c.fields.entries.len() as u64)),
    )
}

/// What is said of an entry at `path` and of what is in it.
pub open spec fn summaries(path: Seq<char>, entry: ExtractEntrySpec) -> Seq<JsonModel>
    decreases entry, 0int,
{
    match entry {
        ExtractEntrySpec::Field(f) => seq![field_summary(path, f)],
        ExtractEntrySpec::Collection(c) => {
            proof {
                assert(decreases_to!(entry => c));
                assert(decreases_to!(c => c.fields));
                assert(decreases_to!(c.fields => c.fields.entries));
                assert(decreases_to!(c.fields.entries => c.fields.entries@));
            }
            seq![collection_summary(path, c)] + all_summaries(
                path + "."@,
                c.fields.entries@,
                c.fields.entries@.len() as int,
            )
        },
    }
}

/// What is said of the first `n` entries, whose paths begin with `prefix`.
pub open spec fn all_summaries(
    prefix: Seq<char>,
    s: Seq<(String, ExtractEntrySpec)>,
    n: int,
) -> Seq<JsonModel>
    decreases s, n,
{
    if n <= 0 || n > s.len() {
        seq![]
    } else {
        proof {
            assert(decreases_to!(s => s[n - 1]));
            assert(decreases_to!(s[n - 1] => s[n - 1].1));
        }
        all_summaries(prefix, s, n - 1) + summaries(prefix + s[n - 1].0@, s[n - 1].1)
    }
}

pub fn collect_entry_summaries(path: &str, entry: &ExtractEntrySpec, out: &mut Vec<Json>)
    ensures
        json::items_model(final(out)@) == json::items_model(old(out)@) + summaries(path@, *entry),
    decreases entry, 0int,
{
    let ghost before = out@;
    match entry {
        ExtractEntrySpec::Field(f) => {
            let summary = field_summary_value(path, f);
            out.push(summary);
            assert(out@.drop_last() =~= before);
            assert(json::items_model(out@) =~= json::items_model(before) + seq![
                field_summary(path@, *f),
            ]);
        },
        ExtractEntrySpec::Collection(c) => {
            let summary = collection_summary_value(path, c);
            out.push(summary);
            assert(out@.drop_last() =~= before);
            let ghost first = seq![collection_summary(path@, *c)];
            assert(json::items_model(out@) =~= json::items_model(before) + first);
            let prefix = text::cat2(path, ".");
            proof {
                assert(decreases_to!(*entry => c));
                assert(decreases_to!(c => c.fields));
                assert(decreases_to!(c.fields => c.fields.entries));
                assert(decreases_to!(c.fields.entries => c.fields.entries@));
            }
            collect_summaries(prefix.as_str(), &c.fields, out);
            assert(json::items_model(before) + first + all_summaries(
                path@ + "."@,
                c.fields.entries@,
                c.fields.entries@.len() as int,
            ) =~= json::items_model(before) + (first + all_summaries(
                path@ + "."@,
                c.fields.entries@,
                c.fields.entries@.len() as int,
            )));
        },
    }
}

fn collect_summaries(prefix: &str, fields: &ExtractEntries, out: &mut Vec<Json>)
    ensures
        json::items_model(final(out)@) == json::items_model(old(out)@) + all_summaries(
            prefix@,
            fields.entries@,
            fields.entries@.len() as int,
        ),
    decreases fields.entries@, fields.entries@.len(),
{
    let ghost s = fields.entries@;
    let ghost before = json::items_model(out@);
    let mut i: usize = 0;
    assert(before + all_summaries(prefix@, s, 0) =~= before);
    while i < fields.entries.len()
        invariant
            i <= s.len(),
            s == fields.entries@,
            json::items_model(out@) == before + all_summaries(prefix@, s, i as int),
        decreases s.len() - i,
    {
        proof {
            assert(decreases_to!(s => s[i as int]));
            assert(decreases_to!(s[i as int] => s[i as int].1));
        }
        let path = text::cat2(prefix, fields.entries[i].0.as_str());
        collect_entry_summaries(path.as_str(), &fields.entries[i].1, out);
        assert(before + all_summaries(prefix@, s, i as int) + summaries(
            path@,
            s[i as int].1,
        ) =~= before + all_summaries(prefix@, s, i + 1));
        i += 1;
    }
}

/// What is said of the entries of an extraction and of what is in them.
pub fn entry_summaries(fields: &ExtractEntries) -> (r: Vec<Json>)
    ensures
        json::items_model(r@) == all_summaries(
            seq![],
            fields.entries@,
            fields.entries@.len() as int,
        ),
{
    let mut out: Vec<Json> = Vec::new();
    assert(json::items_model(out@) =~= Seq::<JsonModel>::empty());
    proof {
        reveal_strlit("");
        assert(""@ =~= Seq::<char>::empty());
    }
    collect_summaries("", fields, &mut out);
    assert(Seq::<JsonModel>::empty() + all_summaries(
        seq![],
        fields.entries@,
        fields.entries@.len() as int,
    ) =~= all_summaries(seq![], fields.entries@, fields.entries@.len() as int));
    out
}

/// What the examples are about.
pub open spec fn example_topics() -> JsonModel {
    json::texts_model(seq!["all"@, "basic"@, "attribute"@, "collection"@, "validation"@])
}

fn example_topics_value() -> (r: Json)
    ensures
        r@ == example_topics(),
{
    let mut topics: Vec<&'static str> = Vec::new();
    topics.push("all");
    topics.push("basic");
    topics.push("attribute");
    topics.push("collection");
    topics.push("validation");
    assert(topics@.map_values(|s: &'static str| s@) =~= seq![
        "all"@,
        "basic"@,
        "attribute"@,
        "collection"@,
        "validation"@,
    ]);
    json::words_value(&topics)
}

/// Where to read on.
pub open spec fn with_guidance(m: Map<Seq<char>, JsonModel>) -> Map<Seq<char>, JsonModel> {
    m.insert("schema_command"@, JsonModel::Text("rub extract --schema"@)).insert(
        "examples_command"@,
        JsonModel::Text("rub extract --examples"@),
    ).insert("example_topics"@, example_topics())
}

fn insert_guidance(o: &mut JsonObject)
    ensures
        final(o)@ == with_guidance(old(o)@),
{
    o.insert("schema_command", json::text_value("rub extract --schema"));
    o.insert("examples_command", json::text_value("rub extract --examples"));
    o.insert("example_topics", example_topics_value());
}

/// The explanation of an extraction.
pub open spec fn explanation(normalized_spec: JsonModel, summaries: JsonModel) -> JsonModel {
    super::payload(
        JsonModel::Object(
            Map::<Seq<char>, JsonModel>::empty().insert(
                "kind"@,
                JsonModel::Text("extract_explain"@),
            ).insert("surface"@, JsonModel::Text("local_contract"@)),
        ),
        JsonModel::Object(
            Map::<Seq<char>, JsonModel>::empty().insert(
                "normalized_spec"@,
                normalized_spec,
            ).insert("entry_summaries"@, summaries).insert(
                "guidance"@,
                JsonModel::Object(with_guidance(Map::empty())),
            ),
        ),
    )
}

/// The explanation of an extraction from its two parts, from which a caller may
/// have taken out what is not to be shown.
pub fn explain_payload(normalized_spec: Json, summaries: Json) -> (r: Json)
    ensures
        r@ == explanation(normalized_spec@, summaries@),
{
    let mut guidance = JsonObject::new();
    insert_guidance(&mut guidance);
    super::extract_payload(
        Json::Object(
            JsonObject::new().with("kind", json::text_value("extract_explain")).with(
                "surface",
                json::text_value("local_contract"),
            ),
        ),
        Json::Object(
            JsonObject::new().with("normalized_spec", normalized_spec).with(
                "entry_summaries",
                summaries,
            ).with("guidance", Json::Object(guidance)),
        ),
    )
}

/// An error of an explanation, with where to read on.
pub open spec fn enriched(e: ErrorModel) -> EnvelopeModel {
    let envelope = error::envelope_of(e);
    let context = match envelope.context {
        Some(c) => c,
        None => JsonModel::Object(Map::empty()),
    };
    EnvelopeModel {
        code: envelope.code,
        message: envelope.message,
        suggestion: if envelope.suggestion.len() == 0 {
            "Try `rub extract --schema` for the canonical field contract or `rub extract --examples` for working shapes."@
        } else {
            envelope.suggestion
        },
        context: Some(
            match context {
                JsonModel::Object(m) => JsonModel::Object(with_guidance(m)),
                other => other,
            },
        ),
    }
}

pub fn enrich_extract_explain_error(e: RubError) -> (r: RubError)
    ensures
        r@ == ErrorModel::Domain(enriched(e@)),
{
    let envelope = e.into_envelope();
    let context = match envelope.context {
        Some(Json::Object(o)) => {
            let mut o = o;
            insert_guidance(&mut o);
            Json::Object(o)
        },
        Some(other) => other,
        None => {
            let mut o = JsonObject::new();
            insert_guidance(&mut o);
            Json::Object(o)
        },
    };
    let suggestion = if envelope.suggestion.as_str().is_empty() {
        "Try `rub extract --schema` for the canonical field contract or `rub extract --examples` for working shapes.".to_owned()
    } else {
        envelope.suggestion
    };
    RubError::Domain(
        ErrorEnvelope {
            code: envelope.code,
            message: envelope.message,
            suggestion,
            context: Some(context),
        },
    )
}

/// The explanation of an extraction, or of why it could not be read.
pub open spec fn explained(parsed: Result<Seq<(String, ExtractEntrySpec)>, ErrorModel>) -> Result<
    JsonModel,
    ErrorModel,
> {
    match parsed {
        Ok(s) => Ok(
            explanation(
                JsonModel::Object(entries_rendered(s, s.len() as int)),
                JsonModel::Array(all_summaries(seq![], s, s.len() as int)),
            ),
        ),
        Err(e) => Err(ErrorModel::Domain(enriched(e))),
    }
}

/// Explains an extraction that holds no secrets.
pub fn explain_extract_spec_contract(parsed: Result<ExtractEntries, RubError>) -> (r: Result<
    Json,
    RubError,
>)
    ensures
        extract_postprocess::json_result(r) == explained(
            match parsed {
                Ok(fields) => Ok(fields.entries@),
                Err(e) => Err(e@),
            },
        ),
{
    match parsed {
        Ok(fields) => {
            let normalized = render_entries(&fields);
            let summaries = entry_summaries(&fields);
            Ok(explain_payload(Json::Object(normalized), Json::Array(summaries)))
        },
        Err(e) => Err(enrich_extract_explain_error(e)),
    }
}

/// Reading on is offered with every error of an explanation whose context is not
/// some other kind of value.
pub proof fn explain_errors_offer_guidance(e: ErrorModel)
    requires
        error::envelope_of(e).context is Some ==> error::envelope_of(e).context->0 is Object,
    ensures
        enriched(e).context is Some,
        enriched(e).context->0 is Object,
        enriched(e).context->0->Object_0.contains_key("schema_command"@),
        enriched(e).context->0->Object_0.contains_key("examples_command"@),
        enriched(e).context->0->Object_0.contains_key("example_topics"@),
        enriched(e).suggestion.len() > 0,
{
    reveal_strlit(
        "Try `rub extract --schema` for the canonical field contract or `rub extract --examples` for working shapes.",
    );
}

/// A member stands where it has a value, and nothing else changes.
pub proof fn members_stand_where_they_have_values(
    m: Map<Seq<char>, JsonModel>,
    key: Seq<char>,
    value: Option<JsonModel>,
    other: Seq<char>,
)
    ensures
        value matches Some(v) ==> put(m, key, value).get(key) == Some(v),
        value is None ==> put(m, key, value) == m,
        other != key ==> put(m, key, value).get(other) == m.get(other),
{
}

/// The full form of a field shows what the field says, and leaves out what holds anyway.
#[verifier::rlimit(40)]
pub proof fn full_fields_show_what_they_say(f: ExtractFieldSpec)
    ensures
        ({
            let r = field_rendered(f);
            let shown = |key: Seq<char>| json::member(r, key);
            let text = |o: Option<String>|
                match o {
                    Some(t) => Some(JsonModel::Text(t@)),
                    None => None,
                };
            &&& shown("selector"@) == text(f.selector)
            &&& shown("ref"@) == text(f.element_ref)
            &&& shown("target_text"@) == text(f.target_text)
            &&& shown("role"@) == text(f.role)
            &&& shown("label"@) == text(f.label)
            &&& shown("testid"@) == text(f.testid)
            &&& shown("attribute"@) == text(f.attribute)
            &&& shown("index"@) == (if f.index is Some {
                Some(json::number(f.index->0 as int))
            } else {
                None
            })
            &&& shown("nth"@) == (if f.nth is Some {
                Some(json::number(f.nth->0 as int))
            } else {
                None
            })
            &&& shown("first"@) == (if f.first {
                Some(JsonModel::Bool(true))
            } else {
                None
            })
            &&& shown("last"@) == (if f.last {
                Some(JsonModel::Bool(true))
            } else {
                None
            })
            &&& shown("many"@) == (if f.many {
                Some(JsonModel::Bool(true))
            } else {
                None
            })
            &&& shown("required"@) == (if f.required {
                None
            } else {
                Some(JsonModel::Bool(false))
            })
            &&& shown("kind"@) == Some(JsonModel::Text(spec::kind_name(f.kind)))
            &&& shown("default"@) == (match f.default {
                Some(d) => Some(d@),
                None => None,
            })
            &&& shown("map"@) is Some <==> f.map.entries@.len() > 0
            &&& shown("transform"@) is Some <==> f.transform is Some
            &&& shown("type"@) is Some <==> f.value_type is Some
        }),
{
    reveal_strlit("index");
    reveal_strlit("ref");
    reveal_strlit("selector");
    reveal_strlit("target_text");
    reveal_strlit("role");
    reveal_strlit("label");
    reveal_strlit("testid");
    reveal_strlit("first");
    reveal_strlit("last");
    reveal_strlit("nth");
    reveal_strlit("kind");
    reveal_strlit("attribute");
    reveal_strlit("many");
    reveal_strlit("required");
    reveal_strlit("default");
    reveal_strlit("map");
    reveal_strlit("transform");
    reveal_strlit("type");
    assert("index"@.len() != "ref"@.len());
    assert("index"@.len() != "selector"@.len());
    assert("index"@.len() != "target_text"@.len());
    assert("index"@.len() != "role"@.len());
    assert("index"@[0] != "label"@[0]);
    assert("index"@.len() != "testid"@.len());
    assert("index"@[0] != "first"@[0]);
    assert("index"@.len() != "last"@.len());
    assert("index"@.len() != "nth"@.len());
    assert("index"@.len() != "kind"@.len());
    assert("index"@.len() != "attribute"@.len());
    assert("index"@.len() != "many"@.len());
    assert("index"@.len() != "required"@.len());
    assert("index"@.len() != "default"@.len());
    assert("index"@.len() != "map"@.len());
    assert("index"@.len() != "transform"@.len());
    assert("index"@.len() != "type"@.len());
    assert("ref"@.len() != "selector"@.len());
    assert("ref"@.len() != "target_text"@.len());
    assert("ref"@.len() != "role"@.len());
    assert("ref"@.len() != "label"@.len());
    assert("ref"@.len() != "testid"@.len());
    assert("ref"@.len() != "first"@.len());
    assert("ref"@.len() != "last"@.len());
    assert("ref"@[0] != "nth"@[0]);
    assert("ref"@.len() != "kind"@.len());
    assert("ref"@.len() != "attribute"@.len());
    assert("ref"@.len() != "many"@.len());
    assert("ref"@.len() != "required"@.len());
    assert("ref"@.len() != "default"@.len());
    assert("ref"@[0] != "map"@[0]);
    assert("ref"@.len() != "transform"@.len());
    assert("ref"@.len() != "type"@.len());
    assert("selector"@.len() != "target_text"@.len());
    assert("selector"@.len() != "role"@.len());
    assert("selector"@.len() != "label"@.len());
    assert("selector"@.len() != "testid"@.len());
    assert("selector"@.len() != "first"@.len());
    assert("selector"@.len() != "last"@.len());
    assert("selector"@.len() != "nth"@.len());
    assert("selector"@.len() != "kind"@.len());
    assert("selector"@.len() != "attribute"@.len());
    assert("selector"@.len() != "many"@.len());
    assert("selector"@[0] != "required"@[0]);
    assert("selector"@.len() != "default"@.len());
    assert("selector"@.len() != "map"@.len());
    assert("selector"@.len() != "transform"@.len());
    assert("selector"@.len() != "type"@.len());
    assert("target_text"@.len() != "role"@.len());
    assert("target_text"@.len() != "label"@.len());
    assert("target_text"@.len() != "testid"@.len());
    assert("target_text"@.len() != "first"@.len());
    assert("target_text"@.len() != "last"@.len());
    assert("target_text"@.len() != "nth"@.len());
    assert("target_text"@.len() != "kind"@.len());
    assert("target_text"@.len() != "attribute"@.len());
    assert("target_text"@.len() != "many"@.len());
    assert("target_text"@.len() != "required"@.len());
    assert("target_text"@.len() != "default"@.len());
    assert("target_text"@.len() != "map"@.len());
    assert("target_text"@.len() != "transform"@.len());
    assert("target_text"@.len() != "type"@.len());
    assert("role"@.len() != "label"@.len());
    assert("role"@.len() != "testid"@.len());
    assert("role"@.len() != "first"@.len());
    assert("role"@[0] != "last"@[0]);
    assert("role"@.len() != "nth"@.len());
    assert("role"@[0] != "kind"@[0]);
    assert("role"@.len() != "attribute"@.len());
    assert("role"@[0] != "many"@[0]);
    assert("role"@.len() != "required"@.len());
    assert("role"@.len() != "default"@.len());
    assert("role"@.len() != "map"@.len());
    assert("role"@.len() != "transform"@.len());
    assert("role"@[0] != "type"@[0]);
    assert("label"@.len() != "testid"@.len());
    assert("label"@[0] != "first"@[0]);
    assert("label"@.len() != "last"@.len());
    assert("label"@.len() != "nth"@.len());
    assert("label"@.len() != "kind"@.len());
    assert("label"@.len() != "attribute"@.len());
    assert("label"@.len() != "many"@.len());
    assert("label"@.len() != "required"@.len());
    assert("label"@.len() != "default"@.len());
    assert("label"@.len() != "map"@.len());
    assert("label"@.len() != "transform"@.len());
    assert("label"@.len() != "type"@.len());
    assert("testid"@.len() != "first"@.len());
    assert("testid"@.len() != "last"@.len());
    assert("testid"@.len() != "nth"@.len());
    assert("testid"@.len() != "kind"@.len());
    assert("testid"@.len() != "attribute"@.len());
    assert("testid"@.len() != "many"@.len());
    assert("testid"@.len() != "required"@.len());
    assert("testid"@.len() != "default"@.len());
    assert("testid"@.len() != "map"@.len());
    assert("testid"@.len() != "transform"@.len());
    assert("testid"@.len() != "type"@.len());
    assert("first"@.len() != "last"@.len());
    assert("first"@.len() != "nth"@.len());
    assert("first"@.len() != "kind"@.len());
    assert("first"@.len() != "attribute"@.len());
    assert("first"@.len() != "many"@.len());
    assert("first"@.len() != "required"@.len());
    assert("first"@.len() != "default"@.len());
    assert("first"@.len() != "map"@.len());
    assert("first"@.len() != "transform"@.len());
    assert("first"@.len() != "type"@.len());
    assert("last"@.len() != "nth"@.len());
    assert("last"@[0] != "kind"@[0]);
    assert("last"@.len() != "attribute"@.len());
    assert("last"@[0] != "many"@[0]);
    assert("last"@.len() != "required"@.len());
    assert("last"@.len() != "default"@.len());
    assert("last"@.len() != "map"@.len());
    assert("last"@.len() != "transform"@.len());
    assert("last"@[0] != "type"@[0]);
    assert("nth"@.len() != "kind"@.len());
    assert("nth"@.len() != "attribute"@.len());
    assert("nth"@.len() != "many"@.len());
    assert("nth"@.len() != "required"@.len());
    assert("nth"@.len() != "default"@.len());
    assert("nth"@[0] != "map"@[0]);
    assert("nth"@.len() != "transform"@.len());
    assert("nth"@.len() != "type"@.len());
    assert("kind"@.len() != "attribute"@.len());
    assert("kind"@[0] != "many"@[0]);
    assert("kind"@.len() != "required"@.len());
    assert("kind"@.len() != "default"@.len());
    assert("kind"@.len() != "map"@.len());
    assert("kind"@.len() != "transform"@.len());
    assert("kind"@[0] != "type"@[0]);
    assert("attribute"@.len() != "many"@.len());
    assert("attribute"@.len() != "required"@.len());
    assert("attribute"@.len() != "default"@.len());
    assert("attribute"@.len() != "map"@.len());
    assert("attribute"@[0] != "transform"@[0]);
    assert("attribute"@.len() != "type"@.len());
    assert("many"@.len() != "required"@.len());
    assert("many"@.len() != "default"@.len());
    assert("many"@.len() != "map"@.len());
    assert("many"@.len() != "transform"@.len());
    assert("many"@[0] != "type"@[0]);
    assert("required"@.len() != "default"@.len());
    assert("required"@.len() != "map"@.len());
    assert("required"@.len() != "transform"@.len());
    assert("required"@.len() != "type"@.len());
    assert("default"@.len() != "map"@.len());
    assert("default"@.len() != "transform"@.len());
    assert("default"@.len() != "type"@.len());
    assert("map"@.len() != "transform"@.len());
    assert("map"@.len() != "type"@.len());
    assert("transform"@.len() != "type"@.len());
    assert forall|m: Map<Seq<char>, JsonModel>, key: Seq<char>, v: Option<JsonModel>, o: Seq<char>|
        key != o implies #[trigger] put(m, key, v).get(o) == m.get(o) by {
        members_stand_where_they_have_values(m, key, v, o);
    }
}

/// The full form of a list of entries has the names of the entries, each with its own full
/// form.
pub proof fn full_entries_stand_under_their_names(
    s: Seq<(String, ExtractEntrySpec)>,
    n: int,
    i: int,
)
    requires
        0 <= i < n <= s.len(),
        forall|j: int, k: int| 0 <= j < k < s.len() ==> (#[trigger] s[j]).0@ != (#[trigger] s[k]).0@,
    ensures
        entries_rendered(s, n).get(s[i].0@) == Some(entry_rendered(s[i].1)),
    decreases n,
{
    assert(s[n - 1] == s[n - 1]);
    if i < n - 1 {
        full_entries_stand_under_their_names(s, n - 1, i);
    }
}

/// Every name in the full form of a list is the name of an entry.
pub proof fn full_entries_have_no_other_names(
    s: Seq<(String, ExtractEntrySpec)>,
    n: int,
    key: Seq<char>,
)
    requires
        0 <= n <= s.len(),
        entries_rendered(s, n).dom().contains(key),
    ensures
        exists|i: int| 0 <= i < n && (#[trigger] s[i]).0@ == key,
    decreases n,
{
    if n > 0 {
        if s[n - 1].0@ != key {
            full_entries_have_no_other_names(s, n - 1, key);
        }
    }
}

/// A key is listed exactly where it says something.
pub proof fn keys_are_listed_where_they_are_given(f: ExtractFieldSpec)
    ensures
        ({
            let k = locator_keys(f);
            &&& k.contains("index"@) <==> f.index is Some
            &&& k.contains("ref"@) <==> f.element_ref is Some
            &&& k.contains("selector"@) <==> f.selector is Some
            &&& k.contains("target_text"@) <==> f.target_text is Some
            &&& k.contains("role"@) <==> f.role is Some
            &&& k.contains("label"@) <==> f.label is Some
            &&& k.contains("testid"@) <==> f.testid is Some
            &&& k.contains("first"@) <==> f.first
            &&& k.contains("last"@) <==> f.last
            &&& k.contains("nth"@) <==> f.nth is Some
        }),
{
    reveal_strlit("index");
    reveal_strlit("ref");
    reveal_strlit("selector");
    reveal_strlit("target_text");
    reveal_strlit("role");
    reveal_strlit("label");
    reveal_strlit("testid");
    reveal_strlit("first");
    reveal_strlit("last");
    reveal_strlit("nth");
    assert("index"@.len() != "ref"@.len());
    assert("index"@.len() != "selector"@.len());
    assert("index"@.len() != "target_text"@.len());
    assert("index"@.len() != "role"@.len());
    assert("index"@[0] != "label"@[0]);
    assert("index"@.len() != "testid"@.len());
    assert("index"@[0] != "first"@[0]);
    assert("index"@.len() != "last"@.len());
    assert("index"@.len() != "nth"@.len());
    assert("ref"@.len() != "selector"@.len());
    assert("ref"@.len() != "target_text"@.len());
    assert("ref"@.len() != "role"@.len());
    assert("ref"@.len() != "label"@.len());
    assert("ref"@.len() != "testid"@.len());
    assert("ref"@.len() != "first"@.len());
    assert("ref"@.len() != "last"@.len());
    assert("ref"@[0] != "nth"@[0]);
    assert("selector"@.len() != "target_text"@.len());
    assert("selector"@.len() != "role"@.len());
    assert("selector"@.len() != "label"@.len());
    assert("selector"@.len() != "testid"@.len());
    assert("selector"@.len() != "first"@.len());
    assert("selector"@.len() != "last"@.len());
    assert("selector"@.len() != "nth"@.len());
    assert("target_text"@.len() != "role"@.len());
    assert("target_text"@.len() != "label"@.len());
    assert("target_text"@.len() != "testid"@.len());
    assert("target_text"@.len() != "first"@.len());
    assert("target_text"@.len() != "last"@.len());
    assert("target_text"@.len() != "nth"@.len());
    assert("role"@.len() != "label"@.len());
    assert("role"@.len() != "testid"@.len());
    assert("role"@.len() != "first"@.len());
    assert("role"@[0] != "last"@[0]);
    assert("role"@.len() != "nth"@.len());
    assert("label"@.len() != "testid"@.len());
    assert("label"@[0] != "first"@[0]);
    assert("label"@.len() != "last"@.len());
    assert("label"@.len() != "nth"@.len());
    assert("testid"@.len() != "first"@.len());
    assert("testid"@.len() != "last"@.len());
    assert("testid"@.len() != "nth"@.len());
    assert("first"@.len() != "last"@.len());
    assert("first"@.len() != "nth"@.len());
    assert("last"@.len() != "nth"@.len());
    listed_keys(f, "index"@);
    listed_keys(f, "ref"@);
    listed_keys(f, "selector"@);
    listed_keys(f, "target_text"@);
    listed_keys(f, "role"@);
    listed_keys(f, "label"@);
    listed_keys(f, "testid"@);
    listed_keys(f, "first"@);
    listed_keys(f, "last"@);
    listed_keys(f, "nth"@);
}

proof fn listed_keys(f: ExtractFieldSpec, k: Seq<char>)
    ensures
        locator_keys(f).contains(k) <==> (f.index is Some && k == "index"@)
                || (f.element_ref is Some && k == "ref"@)
                || (f.selector is Some && k == "selector"@)
                || (f.target_text is Some && k == "target_text"@)
                || (f.role is Some && k == "role"@)
                || (f.label is Some && k == "label"@)
                || (f.testid is Some && k == "testid"@)
                || (f.first && k == "first"@)
                || (f.last && k == "last"@)
                || (f.nth is Some && k == "nth"@),
{
    let a1 = key_if(f.index is Some, "index"@);
    let a2 = a1 + key_if(f.element_ref is Some, "ref"@);
    let a3 = a2 + key_if(f.selector is Some, "selector"@);
    let a4 = a3 + key_if(f.target_text is Some, "target_text"@);
    let a5 = a4 + key_if(f.role is Some, "role"@);
    let a6 = a5 + key_if(f.label is Some, "label"@);
    let a7 = a6 + key_if(f.testid is Some, "testid"@);
    let a8 = a7 + key_if(f.first, "first"@);
    let a9 = a8 + key_if(f.last, "last"@);
    key_behind(Seq::empty(), f.index is Some, "index"@, k);
    assert(a1 =~= Seq::<Seq<char>>::empty() + a1);
    key_behind(a1, f.element_ref is Some, "ref"@, k);
    key_behind(a2, f.selector is Some, "selector"@, k);
    key_behind(a3, f.target_text is Some, "target_text"@, k);
    key_behind(a4, f.role is Some, "role"@, k);
    key_behind(a5, f.label is Some, "label"@, k);
    key_behind(a6, f.testid is Some, "testid"@, k);
    key_behind(a7, f.first, "first"@, k);
    key_behind(a8, f.last, "last"@, k);
    key_behind(a9, f.nth is Some, "nth"@, k);
}

proof fn key_behind(a: Seq<Seq<char>>, present: bool, key: Seq<char>, k: Seq<char>)
    ensures
        (a + key_if(present, key)).contains(k) <==> a.contains(k) || (present && k == key),
{
    let all = a + key_if(present, key);
    if a.contains(k) {
        let i = choose|i: int| 0 <= i < a.len() && a[i] == k;
        assert(all[i] == k);
    }
    if present {
        assert(all[a.len() as int] == key);
    }
}

/// What is said of a field shows where it stands and what it reads.
pub proof fn fields_are_summed_up(path: Seq<char>, f: ExtractFieldSpec)
    ensures
        ({
            let r = field_summary(path, f);
            &&& json::member(r, "path"@) == Some(JsonModel::Text(path))
            &&& json::member(r, "entry_kind"@) == Some(JsonModel::Text("field"@))
            &&& json::member(r, "kind"@) == Some(JsonModel::Text(spec::kind_name(f.kind)))
            &&& json::member(r, "many"@) == Some(JsonModel::Bool(f.many))
            &&& json::member(r, "required"@) == Some(JsonModel::Bool(f.required))
            &&& json::member(r, "locator_keys_present"@) == Some(
                json::texts_model(locator_keys(f)),
            )
        }),
{
    reveal_strlit("path");
    reveal_strlit("entry_kind");
    reveal_strlit("kind");
    reveal_strlit("locator_keys_present");
    reveal_strlit("many");
    reveal_strlit("required");
    reveal_strlit("type");
    reveal_strlit("transform");
    assert("path"@.len() != "entry_kind"@.len());
    assert("path"@[0] != "kind"@[0]);
    assert("path"@.len() != "locator_keys_present"@.len());
    assert("path"@[0] != "many"@[0]);
    assert("path"@.len() != "required"@.len());
    assert("path"@[0] != "type"@[0]);
    assert("path"@.len() != "transform"@.len());
    assert("entry_kind"@.len() != "kind"@.len());
    assert("entry_kind"@.len() != "locator_keys_present"@.len());
    assert("entry_kind"@.len() != "many"@.len());
    assert("entry_kind"@.len() != "required"@.len());
    assert("entry_kind"@.len() != "type"@.len());
    assert("entry_kind"@.len() != "transform"@.len());
    assert("kind"@.len() != "locator_keys_present"@.len());
    assert("kind"@[0] != "many"@[0]);
    assert("kind"@.len() != "required"@.len());
    assert("kind"@[0] != "type"@[0]);
    assert("kind"@.len() != "transform"@.len());
    assert("locator_keys_present"@.len() != "many"@.len());
    assert("locator_keys_present"@.len() != "required"@.len());
    assert("locator_keys_present"@.len() != "type"@.len());
    assert("locator_keys_present"@.len() != "transform"@.len());
    assert("many"@.len() != "required"@.len());
    assert("many"@[0] != "type"@[0]);
    assert("many"@.len() != "transform"@.len());
    assert("required"@.len() != "type"@.len());
    assert("required"@.len() != "transform"@.len());
    assert("type"@.len() != "transform"@.len());
}

/// A collection is summed up first, and what is in it behind it.
pub proof fn collections_are_summed_up_before_their_fields(path: Seq<char>, c: ExtractCollectionSpec)
    ensures
        ({
            let all = summaries(path, ExtractEntrySpec::Collection(c));
            let inner = all_summaries(path + "."@, c.fields.entries@, c.fields.entries@.len() as int);
            &&& all.len() == 1 + inner.len()
            &&& all.skip(1) == inner
            &&& json::member(all[0], "path"@) == Some(JsonModel::Text(path))
            &&& json::member(all[0], "entry_kind"@) == Some(JsonModel::Text("collection"@))
            &&& json::member(all[0], "field_count"@) == Some(
                json::number(c.fields.entries@.len() as int),
            )
        }),
        forall|f: ExtractFieldSpec| #[trigger]
            summaries(path, ExtractEntrySpec::Field(f)).len() == 1 && summaries(
                path,
                ExtractEntrySpec::Field(f),
            )[0] == field_summary(path, f),
{
    reveal_strlit("path");
    reveal_strlit("entry_kind");
    reveal_strlit("locator_keys_present");
    reveal_strlit("row_scope_selector");
    reveal_strlit("field_count");
    assert("path"@.len() != "entry_kind"@.len());
    assert("path"@.len() != "locator_keys_present"@.len());
    assert("path"@.len() != "row_scope_selector"@.len());
    assert("path"@.len() != "field_count"@.len());
    assert("entry_kind"@.len() != "locator_keys_present"@.len());
    assert("entry_kind"@.len() != "row_scope_selector"@.len());
    assert("entry_kind"@.len() != "field_count"@.len());
    assert("locator_keys_present"@.len() != "row_scope_selector"@.len());
    assert("locator_keys_present"@.len() != "field_count"@.len());
    assert("row_scope_selector"@.len() != "field_count"@.len());
    let all = summaries(path, ExtractEntrySpec::Collection(c));
    let inner = all_summaries(path + "."@, c.fields.entries@, c.fields.entries@.len() as int);
    assert(all.skip(1) =~= inner);
}

/// Each entry is summed up under the path that its name continues, in the order of the
/// entries: what is said of the first few comes before what is said of the rest.
pub proof fn entries_are_summed_up_in_order(
    prefix: Seq<char>,
    s: Seq<(String, ExtractEntrySpec)>,
    n: int,
)
    requires
        0 < n <= s.len(),
    ensures
        ({
            let before = all_summaries(prefix, s, n - 1);
            let after = all_summaries(prefix, s, n);
            let own = summaries(prefix + s[n - 1].0@, s[n - 1].1);
            &&& after.len() == before.len() + own.len()
            &&& after.take(before.len() as int) == before
            &&& after.skip(before.len() as int) == own
            &&& own.len() >= 1
        }),
        all_summaries(prefix, s, 0).len() == 0,
{
    let before = all_summaries(prefix, s, n - 1);
    let after = all_summaries(prefix, s, n);
    let own = summaries(prefix + s[n - 1].0@, s[n - 1].1);
    assert(after.take(before.len() as int) =~= before);
    assert(after.skip(before.len() as int) =~= own);
}

/// An error of an explanation keeps its code, its message and what was known of it; advice
/// is added only where there was none.
pub proof fn explained_errors_keep_what_they_say(e: ErrorModel, key: Seq<char>)
    ensures
        enriched(e).code == error::envelope_of(e).code,
        enriched(e).message == error::envelope_of(e).message,
        error::envelope_of(e).suggestion.len() > 0 ==> enriched(e).suggestion
            == error::envelope_of(e).suggestion,
        error::envelope_of(e).context matches Some(c) ==> (enriched(e).context matches Some(d)
            && (key != "schema_command"@ && key != "examples_command"@ && key != "example_topics"@
            ==> json::member(d, key) == json::member(c, key))),
{
}

/// A key of a collection is listed exactly where it says something.
pub proof fn collection_keys_are_listed_where_they_are_given(
    c: ExtractCollectionSpec,
    k: Seq<char>,
)
    ensures
        collection_locator_keys(c).contains(k) <==> (c.collection is Some && k == "collection"@)
                || (c.selector is Some && k == "selector"@)
                || (c.target_text is Some && k == "target_text"@)
                || (c.role is Some && k == "role"@)
                || (c.label is Some && k == "label"@)
                || (c.testid is Some && k == "testid"@)
                || (c.row_scope_selector is Some && k == "row_scope_selector"@)
                || (c.first && k == "first"@)
                || (c.last && k == "last"@)
                || (c.nth is Some && k == "nth"@),
{
    let a0 = key_if(c.collection is Some, "collection"@);
    let a1 = a0 + key_if(c.selector is Some, "selector"@);
    let a2 = a1 + key_if(c.target_text is Some, "target_text"@);
    let a3 = a2 + key_if(c.role is Some, "role"@);
    let a4 = a3 + key_if(c.label is Some, "label"@);
    let a5 = a4 + key_if(c.testid is Some, "testid"@);
    let a6 = a5 + key_if(c.row_scope_selector is Some, "row_scope_selector"@);
    let a7 = a6 + key_if(c.first, "first"@);
    let a8 = a7 + key_if(c.last, "last"@);
    key_behind(Seq::empty(), c.collection is Some, "collection"@, k);
    assert(a0 =~= Seq::<Seq<char>>::empty() + a0);
    key_behind(a0, c.selector is Some, "selector"@, k);
    key_behind(a1, c.target_text is Some, "target_text"@, k);
    key_behind(a2, c.role is Some, "role"@, k);
    key_behind(a3, c.label is Some, "label"@, k);
    key_behind(a4, c.testid is Some, "testid"@, k);
    key_behind(a5, c.row_scope_selector is Some, "row_scope_selector"@, k);
    key_behind(a6, c.first, "first"@, k);
    key_behind(a7, c.last, "last"@, k);
    key_behind(a8, c.nth is Some, "nth"@, k);
}

/// The full form of a collection shows where its rows are.
#[verifier::rlimit(30)]
pub proof fn full_collections_show_where_their_rows_are(c: ExtractCollectionSpec)
    ensures
        ({
            let m = collection_locator(c);
            let text = |o: Option<String>|
                match o {
                    Some(t) => Some(JsonModel::Text(t@)),
                    None => None,
                };
            &&& m.get("collection"@) == text(c.collection)
            &&& m.get("selector"@) == text(c.selector)
            &&& m.get("target_text"@) == text(c.target_text)
            &&& m.get("role"@) == text(c.role)
            &&& m.get("label"@) == text(c.label)
            &&& m.get("testid"@) == text(c.testid)
            &&& m.get("row_scope_selector"@) == text(c.row_scope_selector)
            &&& m.get("first"@) is Some <==> c.first
            &&& m.get("last"@) is Some <==> c.last
            &&& m.get("nth"@) == (if c.nth is Some {
                Some(json::number(c.nth->0 as int))
            } else {
                None
            })
        }),
{
    reveal_strlit("collection");
    reveal_strlit("selector");
    reveal_strlit("target_text");
    reveal_strlit("role");
    reveal_strlit("label");
    reveal_strlit("testid");
    reveal_strlit("row_scope_selector");
    reveal_strlit("first");
    reveal_strlit("last");
    reveal_strlit("nth");
    assert("collection"@.len() != "selector"@.len());
    assert("collection"@.len() != "target_text"@.len());
    assert("collection"@.len() != "role"@.len());
    assert("collection"@.len() != "label"@.len());
    assert("collection"@.len() != "testid"@.len());
    assert("collection"@.len() != "row_scope_selector"@.len());
    assert("collection"@.len() != "first"@.len());
    assert("collection"@.len() != "last"@.len());
    assert("collection"@.len() != "nth"@.len());
    assert("selector"@.len() != "target_text"@.len());
    assert("selector"@.len() != "role"@.len());
    assert("selector"@.len() != "label"@.len());
    assert("selector"@.len() != "testid"@.len());
    assert("selector"@.len() != "row_scope_selector"@.len());
    assert("selector"@.len() != "first"@.len());
    assert("selector"@.len() != "last"@.len());
    assert("selector"@.len() != "nth"@.len());
    assert("target_text"@.len() != "role"@.len());
    assert("target_text"@.len() != "label"@.len());
    assert("target_text"@.len() != "testid"@.len());
    assert("target_text"@.len() != "row_scope_selector"@.len());
    assert("target_text"@.len() != "first"@.len());
    assert("target_text"@.len() != "last"@.len());
    assert("target_text"@.len() != "nth"@.len());
    assert("role"@.len() != "label"@.len());
    assert("role"@.len() != "testid"@.len());
    assert("role"@.len() != "row_scope_selector"@.len());
    assert("role"@.len() != "first"@.len());
    assert("role"@[0] != "last"@[0]);
    assert("role"@.len() != "nth"@.len());
    assert("label"@.len() != "testid"@.len());
    assert("label"@.len() != "row_scope_selector"@.len());
    assert("label"@[0] != "first"@[0]);
    assert("label"@.len() != "last"@.len());
    assert("label"@.len() != "nth"@.len());
    assert("testid"@.len() != "row_scope_selector"@.len());
    assert("testid"@.len() != "first"@.len());
    assert("testid"@.len() != "last"@.len());
    assert("testid"@.len() != "nth"@.len());
    assert("row_scope_selector"@.len() != "first"@.len());
    assert("row_scope_selector"@.len() != "last"@.len());
    assert("row_scope_selector"@.len() != "nth"@.len());
    assert("first"@.len() != "last"@.len());
    assert("first"@.len() != "nth"@.len());
    assert("last"@.len() != "nth"@.len());
    assert forall|m: Map<Seq<char>, JsonModel>, key: Seq<char>, v: Option<JsonModel>, o: Seq<char>|
        key != o implies #[trigger] put(m, key, v).get(o) == m.get(o) by {
        members_stand_where_they_have_values(m, key, v, o);
    }
}

/// An explanation shows the full form and the summaries of what it explains.
pub proof fn explanations_show_form_and_summaries(normalized_spec: JsonModel, all: JsonModel)
    ensures
        json::member(explanation(normalized_spec, all), "result"@) matches Some(shown)
            && json::member(shown, "normalized_spec"@) == Some(normalized_spec) && json::member(
            shown,
            "entry_summaries"@,
        ) == Some(all),
{
    reveal_strlit("subject");
    reveal_strlit("result");
    assert("subject"@.len() != "result"@.len());
    reveal_strlit("normalized_spec");
    reveal_strlit("entry_summaries");
    reveal_strlit("guidance");
    assert("normalized_spec"@[0] != "entry_summaries"@[0]);
    assert("normalized_spec"@.len() != "guidance"@.len());
    assert("entry_summaries"@.len() != "guidance"@.len());
}

} // verus!
