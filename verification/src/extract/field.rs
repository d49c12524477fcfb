//! Extracting one field.

use vstd::prelude::*;
use crate::element_semantics as semantics;
use crate::element_semantics::non_empty;
use crate::error::{self, ErrorCode, ErrorModel, RubError};
use crate::extract_postprocess::{
    self,
    FloatReadings,
    Interrupt,
    InterruptModel,
    ReadingModel,
    apply_postprocess,
    resolve_missing_field,
};
use crate::interaction::explain::target;
use crate::json::{self, Json, JsonModel, JsonObject, NumberModel};
use crate::json_text;
use crate::locator::{self, LocatorRequestArgs, locator_json};
use crate::model::{self, Attributes, BoundingBox, Element, ElementModel};
use crate::text;
use super::spec::{self, ContentExtractPayload, ExtractFieldSpec, ExtractKind};

verus! {

/// Whether values may be read from the page itself, or from a snapshot alone.
#[derive(Clone, Copy, Debug, PartialEq, Eq, Structural)]
pub enum ExtractAuthorityMode {
    LiveAllowed,
    SnapshotOnly,
}

/// Where a field was looked for.
#[derive(Clone, Copy, Debug)]
pub enum ExtractMatchSurface<'a> {
    InteractiveField,
    ContentField { selector: &'a str },
    CollectionRow { collection_name: &'a str, row_index: usize },
}

/// Where a field was looked for, over texts.
#[verifier::ext_equal]
pub enum SurfaceModel {
    Interactive,
    Content(Seq<char>),
    Row(Seq<char>, int),
}

pub open spec fn surface_of(s: ExtractMatchSurface<'_>) -> SurfaceModel {
    match s {
        ExtractMatchSurface::InteractiveField => SurfaceModel::Interactive,
        ExtractMatchSurface::ContentField { selector } => SurfaceModel::Content(selector@),
        ExtractMatchSurface::CollectionRow { collection_name, row_index } => SurfaceModel::Row(
            collection_name@,
            row_index as int,
        ),
    }
}

/// Whether an error says that an element was not found.
pub open spec fn not_found(e: ErrorModel) -> bool {
    e is Domain && e->Domain_0.code == ErrorCode::ElementNotFound
}

fn is_not_found(e: &RubError) -> (r: bool)
    ensures
        r == not_found(e@),
{
    match e {
        RubError::Domain(envelope) => matches!(envelope.code, ErrorCode::ElementNotFound),
        RubError::Internal(_) => false,
    }
}

/// Whether a field can do without its element.
pub open spec fn substitutable(field: ExtractFieldSpec) -> bool {
    !field.required || field.default is Some
}

pub fn should_substitute_missing_field(field: &ExtractFieldSpec, error: &RubError) -> (r: bool)
    ensures
        r == (not_found(error@) && substitutable(*field)),
{
    is_not_found(error) && (!field.required || field.default.is_some())
}

pub fn should_fallback_to_content(field: &ExtractFieldSpec, error: &RubError) -> (r: bool)
    ensures
        r == (field.selector is Some && not_found(error@)),
{
    field.selector.is_some() && is_not_found(error)
}

/// The default of a field.
pub open spec fn default_of(field: ExtractFieldSpec) -> Option<JsonModel> {
    error::opt_context(field.default)
}

pub(crate) fn default_ref(field: &ExtractFieldSpec) -> (r: Option<&Json>)
    ensures
        json::opt_model(r) == default_of(*field),
{
    match &field.default {
        Some(d) => Some(d),
        None => None,
    }
}

/// What becomes of the value of a field.
pub open spec fn field_value(
    name: Seq<char>,
    field: ExtractFieldSpec,
    v: JsonModel,
    floats: Map<Seq<char>, ReadingModel>,
) -> Result<JsonModel, InterruptModel> {
    extract_postprocess::postprocessed(
        name,
        v,
        field.value_type,
        default_of(field),
        field.map@,
        field.transform,
        floats,
    )
}

pub fn apply_field_postprocess(
    name: &str,
    field: &ExtractFieldSpec,
    value: Json,
    floats: &FloatReadings,
) -> (r: Result<Json, Interrupt>)
    ensures
        extract_postprocess::value_result(r) == field_value(name@, *field, value@, floats@),
{
    apply_postprocess(
        name,
        value,
        field.value_type,
        default_ref(field),
        &field.map,
        field.transform,
        floats,
    )
}

/// What a query makes of a field: the value, or what stands in for an element
/// that is not there.
pub open spec fn query_value(
    name: Seq<char>,
    field: ExtractFieldSpec,
    outcome: Result<JsonModel, ErrorModel>,
    floats: Map<Seq<char>, ReadingModel>,
) -> Result<JsonModel, InterruptModel> {
    match outcome {
        Ok(v) => field_value(name, field, v, floats),
        Err(e) => if not_found(e) && substitutable(field) {
            extract_postprocess::plain_result(
                extract_postprocess::missing_field(name, field.required, default_of(field)),
            )
        } else {
            Err(InterruptModel::Failed(e))
        },
    }
}

/// Finishes a field of a query.
pub fn finish_query_field(
    name: &str,
    field: &ExtractFieldSpec,
    outcome: Result<Json, RubError>,
    floats: &FloatReadings,
) -> (r: Result<Json, Interrupt>)
    ensures
        extract_postprocess::value_result(r) == query_value(
            name@,
            *field,
            extract_postprocess::json_result(outcome),
            floats@,
        ),
{
    match outcome {
        Ok(v) => apply_field_postprocess(name, field, v, floats),
        Err(e) => if should_substitute_missing_field(field, &e) {
            extract_postprocess::plain_value(
                resolve_missing_field(name, field.required, default_ref(field)),
            )
        } else {
            Err(Interrupt::Failed(e))
        },
    }
}

/// The locator of a field as a request gives it.
pub open spec fn field_request(field: ExtractFieldSpec) -> LocatorRequestArgs {
    LocatorRequestArgs {
        index: field.index,
        element_ref: field.element_ref,
        selector: field.selector,
        target_text: field.target_text,
        role: field.role,
        label: field.label,
        testid: field.testid,
        visible: false,
        prefer_enabled: false,
        topmost: false,
        first: field.first,
        last: field.last,
        nth: field.nth,
    }
}

/// The locator of a field, for resolution.
pub fn field_locator_args(field: &ExtractFieldSpec) -> (r: Json)
    ensures
        r@ == JsonModel::Object(locator::locator_members(field_request(*field))),
{
    let args = LocatorRequestArgs {
        index: field.index,
        element_ref: text::clone_opt(&field.element_ref),
        selector: text::clone_opt(&field.selector),
        target_text: text::clone_opt(&field.target_text),
        role: text::clone_opt(&field.role),
        label: text::clone_opt(&field.label),
        testid: text::clone_opt(&field.testid),
        visible: false,
        prefer_enabled: false,
        topmost: false,
        first: field.first,
        last: field.last,
        nth: field.nth,
    };
    Json::Object(locator_json(&args))
}

/// What to say about a field with several matches.
pub open spec fn multi_match_message(
    field_name: Seq<char>,
    match_count: int,
    surface: SurfaceModel,
) -> Seq<char> {
    let count = text::decimal(match_count as nat);
    match surface {
        SurfaceModel::Interactive => "extract field '"@ + field_name + "' matched "@ + count
            + " elements; add first/last/nth, set 'many: true', or narrow the locator"@,
        SurfaceModel::Content(_) => "extract field '"@ + field_name + "' matched "@ + count
            + " content elements; add first/last/nth, set 'many: true', or narrow the selector"@,
        SurfaceModel::Row(collection, row) => "collection field '"@ + field_name + "' matched "@
            + count + " elements in row "@ + text::decimal(row as nat) + " of '"@ + collection
            + "'; add first/last/nth, set 'many: true', or narrow the row-scoped locator"@,
    }
}

pub fn extract_multi_match_message(
    field_name: &str,
    match_count: usize,
    surface: ExtractMatchSurface<'_>,
) -> (r: String)
    ensures
        r@ == multi_match_message(field_name@, match_count as int, surface_of(surface)),
{
    let count = text::decimal_string(match_count as u64);
    match surface {
        ExtractMatchSurface::InteractiveField => text::cat5(
            "extract field '",
            field_name,
            "' matched ",
            count.as_str(),
            " elements; add first/last/nth, set 'many: true', or narrow the locator",
        ),
        ExtractMatchSurface::ContentField { .. } => text::cat5(
            "extract field '",
            field_name,
            "' matched ",
            count.as_str(),
            " content elements; add first/last/nth, set 'many: true', or narrow the selector",
        ),
        ExtractMatchSurface::CollectionRow { collection_name, row_index } => {
            let row = text::decimal_string(row_index as u64);
            let head = text::cat5(
                "collection field '",
                field_name,
                "' matched ",
                count.as_str(),
                " elements in row ",
            );
            text::cat5(
                head.as_str(),
                row.as_str(),
                " of '",
                collection_name,
                "'; add first/last/nth, set 'many: true', or narrow the row-scoped locator",
            )
        },
    }
}

/// What to do about a field with several matches.
pub open spec fn multi_match_advice(surface: SurfaceModel) -> Seq<char> {
    match surface {
        SurfaceModel::Interactive =>
            "Use `many: true` to collect every match, add `first`, `last`, or `nth` to pick one, or narrow the locator to the specific repeated card/content you want"@,
        SurfaceModel::Content(_) =>
            "Use `many: true` to collect every content match, add `first`, `last`, or `nth` to pick one, or narrow the selector to the specific repeated content you want"@,
        SurfaceModel::Row(_, _) =>
            "Use `many: true` to collect every row-local match, add `first`, `last`, or `nth` to pick one, or narrow the row-scoped selector/role/label/testid inside the repeated card or list row"@,
    }
}

pub fn extract_multi_match_suggestion(surface: ExtractMatchSurface<'_>) -> (r: &'static str)
    ensures
        r@ == multi_match_advice(surface_of(surface)),
{
    match surface {
        ExtractMatchSurface::InteractiveField =>
            "Use `many: true` to collect every match, add `first`, `last`, or `nth` to pick one, or narrow the locator to the specific repeated card/content you want",
        ExtractMatchSurface::ContentField { .. } =>
            "Use `many: true` to collect every content match, add `first`, `last`, or `nth` to pick one, or narrow the selector to the specific repeated content you want",
        ExtractMatchSurface::CollectionRow { .. } =>
            "Use `many: true` to collect every row-local match, add `first`, `last`, or `nth` to pick one, or narrow the row-scoped selector/role/label/testid inside the repeated card or list row",
    }
}

/// A text of a field without the blanks around it, unless nothing is left.
pub open spec fn spelled(o: Option<String>) -> Option<Seq<char>> {
    match o {
        Some(s) => semantics::nonblank(s@),
        None => None,
    }
}

fn spelled_str(o: &Option<String>) -> (r: Option<&str>)
    ensures
        json::opt_str_text(r) == spelled(*o),
{
    match o {
        Some(s) => non_empty(s.as_str()),
        None => None,
    }
}

/// The locator of a field in the short form of field builders.
pub open spec fn builder_locator(field: ExtractFieldSpec) -> Option<Seq<char>> {
    if spelled(field.selector) is Some {
        spelled(field.selector)
    } else if spelled(field.target_text) is Some {
        Some("target_text:"@ + spelled(field.target_text)->0)
    } else if spelled(field.role) is Some {
        Some("role:"@ + spelled(field.role)->0)
    } else if spelled(field.label) is Some {
        Some("label:"@ + spelled(field.label)->0)
    } else if spelled(field.testid) is Some {
        Some("testid:"@ + spelled(field.testid)->0)
    } else {
        None
    }
}

pub fn builder_locator_expression(field: &ExtractFieldSpec) -> (r: Option<String>)
    ensures
        text::opt_text(r) == builder_locator(*field),
{
    if let Some(s) = spelled_str(&field.selector) {
        return Some(s.to_owned());
    }
    if let Some(s) = spelled_str(&field.target_text) {
        return Some(text::cat2("target_text:", s));
    }
    if let Some(s) = spelled_str(&field.role) {
        return Some(text::cat2("role:", s));
    }
    if let Some(s) = spelled_str(&field.label) {
        return Some(text::cat2("label:", s));
    }
    if let Some(s) = spelled_str(&field.testid) {
        return Some(text::cat2("testid:", s));
    }
    None
}

/// What a field reads and where, in the short form of field builders.
pub open spec fn builder_source(field: ExtractFieldSpec) -> Option<Seq<char>> {
    match builder_locator(field) {
        None => None,
        Some(at) => match field.kind {
            ExtractKind::Attribute => match field.attribute {
                Some(name) => Some("attribute:"@ + name@ + ":"@ + at),
                None => None,
            },
            _ => Some(spec::kind_name(field.kind) + ":"@ + at),
        },
    }
}

fn builder_source_text(field: &ExtractFieldSpec) -> (r: Option<String>)
    ensures
        text::opt_text(r) == builder_source(*field),
{
    let at = match builder_locator_expression(field) {
        Some(at) => at,
        None => return None,
    };
    match field.kind {
        ExtractKind::Attribute => match &field.attribute {
            Some(name) => {
                let head = text::cat3("attribute:", name.as_str(), ":");
                Some(text::cat2(head.as_str(), at.as_str()))
            },
            None => None,
        },
        _ => Some(text::cat3(field.kind.as_str(), ":", at.as_str())),
    }
}

/// A field in the short form of field builders.
pub open spec fn builder_example(
    field_name: Seq<char>,
    source: Seq<char>,
    selection: Seq<char>,
) -> JsonModel {
    JsonModel::Text(field_name + "="@ + source + selection)
}

/// Ways to write a field so that it has one value, or all of them.
pub open spec fn builder_examples(field_name: Seq<char>, field: ExtractFieldSpec) -> Option<
    JsonModel,
> {
    match builder_source(field) {
        None => None,
        Some(source) => Some(
            JsonModel::Object(
                Map::<Seq<char>, JsonModel>::empty().insert(
                    "pick_first"@,
                    builder_example(field_name, source, "@first"@),
                ).insert("pick_last"@, builder_example(field_name, source, "@last"@)).insert(
                    "pick_nth"@,
                    builder_example(field_name, source, "@nth(0)"@),
                ).insert("collect_all"@, builder_example(field_name, source, "@many"@)),
            ),
        ),
    }
}

fn builder_example_value(field_name: &str, source: &str, selection: &str) -> (r: Json)
    ensures
        r@ == builder_example(field_name@, source@, selection@),
{
    let head = text::cat3(field_name, "=", source);
    Json::Text(text::cat2(head.as_str(), selection))
}

pub fn extract_builder_field_examples(field_name: &str, field: &ExtractFieldSpec) -> (r: Option<
    Json,
>)
    ensures
        error::opt_context(r) == builder_examples(field_name@, *field),
{
    let source = match builder_source_text(field) {
        Some(s) => s,
        None => return None,
    };
    Some(
        Json::Object(
            JsonObject::new().with(
                "pick_first",
                builder_example_value(field_name, source.as_str(), "@first"),
            ).with(
                "pick_last",
                builder_example_value(field_name, source.as_str(), "@last"),
            ).with(
                "pick_nth",
                builder_example_value(field_name, source.as_str(), "@nth(0)"),
            ).with(
                "collect_all",
                builder_example_value(field_name, source.as_str(), "@many"),
            ),
        ),
    )
}

pub open spec fn opt_index(n: Option<u32>) -> JsonModel {
    match n {
        Some(n) => JsonModel::Number(NumberModel::Int(n as int)),
        None => JsonModel::Null,
    }
}

pub fn opt_index_value(n: Option<u32>) -> (r: Json)
    ensures
        r@ == opt_index(n),
{
    match n {
        Some(n) => json::uint_value(n as u64),
        None => Json::Null,
    }
}

/// The locator of a field, with what it leaves open.
pub open spec fn locator_json_of(field: ExtractFieldSpec) -> JsonModel {
    JsonModel::Object(
        Map::<Seq<char>, JsonModel>::empty().insert("index"@, opt_index(field.index)).insert(
            "ref"@,
            json::opt_text_model(text::opt_text(field.element_ref)),
        ).insert("selector"@, json::opt_text_model(text::opt_text(field.selector))).insert(
            "target_text"@,
            json::opt_text_model(text::opt_text(field.target_text)),
        ).insert("role"@, json::opt_text_model(text::opt_text(field.role))).insert(
            "label"@,
            json::opt_text_model(text::opt_text(field.label)),
        ).insert("testid"@, json::opt_text_model(text::opt_text(field.testid))).insert(
            "first"@,
            JsonModel::Bool(field.first),
        ).insert("last"@, JsonModel::Bool(field.last)).insert(
            "nth"@,
            opt_index(field.nth),
        ).insert("many"@, JsonModel::Bool(field.many)),
    )
}

pub fn extract_field_locator_context(field: &ExtractFieldSpec) -> (r: Json)
    ensures
        r@ == locator_json_of(*field),
{
    Json::Object(
        JsonObject::new().with("index", opt_index_value(field.index)).with(
            "ref",
            json::opt_text_value(&field.element_ref),
        ).with("selector", json::opt_text_value(&field.selector)).with(
            "target_text",
            json::opt_text_value(&field.target_text),
        ).with("role", json::opt_text_value(&field.role)).with(
            "label",
            json::opt_text_value(&field.label),
        ).with("testid", json::opt_text_value(&field.testid)).with(
            "first",
            Json::Bool(field.first),
        ).with("last", Json::Bool(field.last)).with("nth", opt_index_value(field.nth)).with(
            "many",
            Json::Bool(field.many),
        ),
    )
}

/// Ways to settle several matches.
pub open spec fn resolution_examples() -> JsonModel {
    JsonModel::Object(
        Map::<Seq<char>, JsonModel>::empty().insert(
            "pick_first"@,
            json::object1("first"@, JsonModel::Bool(true)),
        ).insert("pick_last"@, json::object1("last"@, JsonModel::Bool(true))).insert(
            "pick_nth"@,
            json::object1("nth"@, JsonModel::Number(NumberModel::Int(0))),
        ).insert("collect_all"@, json::object1("many"@, JsonModel::Bool(true))),
    )
}

fn resolution_examples_value() -> (r: Json)
    ensures
        r@ == resolution_examples(),
{
    Json::Object(
        JsonObject::new().with(
            "pick_first",
            Json::Object(JsonObject::new().with("first", Json::Bool(true))),
        ).with(
            "pick_last",
            Json::Object(JsonObject::new().with("last", Json::Bool(true))),
        ).with(
            "pick_nth",
            Json::Object(JsonObject::new().with("nth", json::uint_value(0))),
        ).with(
            "collect_all",
            Json::Object(JsonObject::new().with("many", Json::Bool(true))),
        ),
    )
}

/// What is known of a field with several matches.
pub open spec fn multi_match_json(
    field_name: Seq<char>,
    field: ExtractFieldSpec,
    match_count: int,
    surface: SurfaceModel,
) -> JsonModel {
    let base = Map::<Seq<char>, JsonModel>::empty().insert(
        "field"@,
        JsonModel::Text(field_name),
    ).insert("kind"@, JsonModel::Text(spec::kind_name(field.kind))).insert(
        "match_count"@,
        JsonModel::Number(NumberModel::Int(match_count)),
    ).insert("locator"@, locator_json_of(field)).insert(
        "resolution_examples"@,
        resolution_examples(),
    );
    let shown = match builder_examples(field_name, field) {
        Some(examples) => base.insert("builder_field_examples"@, examples),
        None => base,
    };
    JsonModel::Object(
        match surface {
            SurfaceModel::Interactive => shown.insert(
                "surface"@,
                JsonModel::Text("interactive"@),
            ),
            SurfaceModel::Content(selector) => shown.insert(
                "surface"@,
                JsonModel::Text("content"@),
            ).insert("selector"@, JsonModel::Text(selector)),
            SurfaceModel::Row(collection, row) => shown.insert(
                "surface"@,
                JsonModel::Text("collection_row"@),
            ).insert("collection"@, JsonModel::Text(collection)).insert(
                "row_index"@,
                JsonModel::Number(NumberModel::Int(row)),
            ),
        },
    )
}

pub fn extract_multi_match_context(
    field_name: &str,
    field: &ExtractFieldSpec,
    match_count: usize,
    surface: ExtractMatchSurface<'_>,
) -> (r: Json)
    ensures
        r@ == multi_match_json(field_name@, *field, match_count as int, surface_of(surface)),
{
    let mut context = JsonObject::new().with("field", json::text_value(field_name)).with(
        "kind",
        json::text_value(field.kind.as_str()),
    ).with("match_count", json::uint_value(match_count as u64)).with(
        "locator",
        extract_field_locator_context(field),
    ).with("resolution_examples", resolution_examples_value());
    if let Some(examples) = extract_builder_field_examples(field_name, field) {
        context.insert("builder_field_examples", examples);
    }
    match surface {
        ExtractMatchSurface::InteractiveField => {
            context.insert("surface", json::text_value("interactive"));
        },
        ExtractMatchSurface::ContentField { selector } => {
            context.insert("surface", json::text_value("content"));
            context.insert("selector", json::text_value(selector));
        },
        ExtractMatchSurface::CollectionRow { collection_name, row_index } => {
            context.insert("surface", json::text_value("collection_row"));
            context.insert("collection", json::text_value(collection_name));
            context.insert("row_index", json::uint_value(row_index as u64));
        },
    }
    Json::Object(context)
}

/// The error for a field with several matches.
pub open spec fn multi_match(
    field_name: Seq<char>,
    field: ExtractFieldSpec,
    match_count: int,
    surface: SurfaceModel,
) -> ErrorModel {
    error::with_suggestion(
        ErrorCode::InvalidInput,
        multi_match_message(field_name, match_count, surface),
        multi_match_json(field_name, field, match_count, surface),
        multi_match_advice(surface),
    )
}

pub fn multi_match_error(
    field_name: &str,
    field: &ExtractFieldSpec,
    match_count: usize,
    surface: ExtractMatchSurface<'_>,
) -> (r: RubError)
    ensures
        r@ == multi_match(field_name@, *field, match_count as int, surface_of(surface)),
{
    let message = extract_multi_match_message(field_name, match_count, surface);
    let context = extract_multi_match_context(field_name, field, match_count, surface);
    RubError::domain_with_context_and_suggestion(
        ErrorCode::InvalidInput,
        message.as_str(),
        context,
        extract_multi_match_suggestion(surface),
    )
}

/// The error for an attribute without a name.
pub open spec fn nameless_attribute() -> ErrorModel {
    error::plain(
        ErrorCode::InvalidInput,
        "extract field kind 'attribute' requires an 'attribute' name"@,
    )
}

pub fn nameless_attribute_error() -> (r: RubError)
    ensures
        r@ == nameless_attribute(),
{
    RubError::domain(
        ErrorCode::InvalidInput,
        "extract field kind 'attribute' requires an 'attribute' name",
    )
}

/// Whether a field reads an attribute and does not name it.
pub open spec fn lacks_attribute_name(field: ExtractFieldSpec) -> bool {
    field.kind == ExtractKind::Attribute && field.attribute is None
}

pub fn is_lacking_attribute_name(field: &ExtractFieldSpec) -> (r: bool)
    ensures
        r == lacks_attribute_name(*field),
{
    matches!(field.kind, ExtractKind::Attribute) && field.attribute.is_none()
}

/// The error for a field that a snapshot cannot give because it takes the page.
pub open spec fn content_fallback(
    field_name: Seq<char>,
    selector: Seq<char>,
    field: ExtractFieldSpec,
) -> ErrorModel {
    error::with_suggestion(
        ErrorCode::ElementNotFound,
        "snapshot-addressed extract cannot resolve field '"@ + field_name
            + "' because it would need a live content fallback outside snapshot authority"@,
        JsonModel::Object(
            Map::<Seq<char>, JsonModel>::empty().insert(
                "field"@,
                JsonModel::Text(field_name),
            ).insert("selector"@, JsonModel::Text(selector)).insert(
                "kind"@,
                JsonModel::Text(spec::kind_name(field.kind)),
            ).insert(
                "authority_state"@,
                JsonModel::Text("snapshot_extract_live_content_fallback_required"@),
            ),
        ),
        "Remove --snapshot-id to allow live content extraction, or use index/ref or a locator that resolves directly to an interactive snapshot element"@,
    )
}

pub fn snapshot_extract_content_fallback_error(
    field_name: &str,
    selector: &str,
    field: &ExtractFieldSpec,
) -> (r: RubError)
    ensures
        r@ == content_fallback(field_name@, selector@, *field),
{
    let message = text::cat3(
        "snapshot-addressed extract cannot resolve field '",
        field_name,
        "' because it would need a live content fallback outside snapshot authority",
    );
    let context = JsonObject::new().with("field", json::text_value(field_name)).with(
        "selector",
        json::text_value(selector),
    ).with("kind", json::text_value(field.kind.as_str())).with(
        "authority_state",
        json::text_value("snapshot_extract_live_content_fallback_required"),
    );
    RubError::domain_with_context_and_suggestion(
        ErrorCode::ElementNotFound,
        message.as_str(),
        Json::Object(context),
        "Remove --snapshot-id to allow live content extraction, or use index/ref or a locator that resolves directly to an interactive snapshot element",
    )
}

/// The error for a kind that no snapshot holds.
pub open spec fn live_only_kind(kind: ExtractKind, element_index: u32) -> ErrorModel {
    error::with_suggestion(
        ErrorCode::InvalidInput,
        "snapshot-addressed extract cannot read "@ + spec::kind_name(kind) + " for element "@
            + text::decimal(element_index as nat)
            + " because that field kind requires live DOM authority"@,
        JsonModel::Object(
            Map::<Seq<char>, JsonModel>::empty().insert(
                "element_index"@,
                JsonModel::Number(NumberModel::Int(element_index as int)),
            ).insert("kind"@, JsonModel::Text(spec::kind_name(kind))).insert(
                "authority_state"@,
                JsonModel::Text("snapshot_extract_live_only_field_kind"@),
            ),
        ),
        "Remove --snapshot-id to allow a live DOM read for this field kind"@,
    )
}

pub fn snapshot_extract_live_only_kind_error(kind: ExtractKind, element_index: u32) -> (r: RubError)
    ensures
        r@ == live_only_kind(kind, element_index),
{
    let number = text::decimal_string(element_index as u64);
    let message = text::cat5(
        "snapshot-addressed extract cannot read ",
        kind.as_str(),
        " for element ",
        number.as_str(),
        " because that field kind requires live DOM authority",
    );
    let context = JsonObject::new().with(
        "element_index",
        json::uint_value(element_index as u64),
    ).with("kind", json::text_value(kind.as_str())).with(
        "authority_state",
        json::text_value("snapshot_extract_live_only_field_kind"),
    );
    RubError::domain_with_context_and_suggestion(
        ErrorCode::InvalidInput,
        message.as_str(),
        Json::Object(context),
        "Remove --snapshot-id to allow a live DOM read for this field kind",
    )
}

/// The error for an element without a place in its snapshot.
pub open spec fn no_bbox(element_index: u32) -> ErrorModel {
    error::with_suggestion(
        ErrorCode::InvalidInput,
        "snapshot-addressed extract cannot read bbox for element "@ + text::decimal(
            element_index as nat,
        )
            + " because the cached snapshot does not carry a bounding box for that element"@,
        JsonModel::Object(
            Map::<Seq<char>, JsonModel>::empty().insert(
                "element_index"@,
                JsonModel::Number(NumberModel::Int(element_index as int)),
            ).insert(
                "authority_state"@,
                JsonModel::Text("snapshot_extract_bbox_unavailable"@),
            ),
        ),
        "Remove --snapshot-id to allow a live bbox read, or refresh state and target an element with snapshot bbox projection"@,
    )
}

pub fn snapshot_bbox_unavailable_error(element_index: u32) -> (r: RubError)
    ensures
        r@ == no_bbox(element_index),
{
    let number = text::decimal_string(element_index as u64);
    let message = text::cat3(
        "snapshot-addressed extract cannot read bbox for element ",
        number.as_str(),
        " because the cached snapshot does not carry a bounding box for that element",
    );
    let context = JsonObject::new().with(
        "element_index",
        json::uint_value(element_index as u64),
    ).with("authority_state", json::text_value("snapshot_extract_bbox_unavailable"));
    RubError::domain_with_context_and_suggestion(
        ErrorCode::InvalidInput,
        message.as_str(),
        Json::Object(context),
        "Remove --snapshot-id to allow a live bbox read, or refresh state and target an element with snapshot bbox projection",
    )
}

/// Attributes as a JSON object.
pub open spec fn attributes_json(a: Map<Seq<char>, Seq<char>>) -> JsonModel {
    JsonModel::Object(a.map_values(|v: Seq<char>| JsonModel::Text(v)))
}

pub fn attributes_value(a: &Attributes) -> (r: Json)
    ensures
        r@ == attributes_json(a@),
{
    let ghost all = a.entries@;
    let mut o = JsonObject::new();
    let mut i: usize = 0;
    assert(o@ =~= model::attributes_model(all.take(0)).map_values(
        |v: Seq<char>| JsonModel::Text(v),
    ));
    while i < a.entries.len()
        invariant
            i <= a.entries@.len(),
            all == a.entries@,
            o@ == model::attributes_model(all.take(i as int)).map_values(
                |v: Seq<char>| JsonModel::Text(v),
            ),
        decreases a.entries@.len() - i,
    {
        let entry = &a.entries[i];
        o.insert(entry.0.as_str(), json::text_value(entry.1.as_str()));
        proof {
            assert(all.take(i + 1).drop_last() =~= all.take(i as int));
            assert(all.take(i + 1).last() == all[i as int]);
            assert(o@ =~= model::attributes_model(all.take(i + 1)).map_values(
                |v: Seq<char>| JsonModel::Text(v),
            ));
        }
        i += 1;
    }
    assert(all.take(i as int) =~= all);
    Json::Object(o)
}

pub open spec fn attribute_json(a: Map<Seq<char>, Seq<char>>, name: Seq<char>) -> JsonModel {
    match a.get(name) {
        Some(v) => JsonModel::Text(v),
        None => JsonModel::Null,
    }
}

fn attribute_value(a: &Attributes, name: &str) -> (r: Json)
    ensures
        r@ == attribute_json(a@, name@),
{
    match a.get(name) {
        Some(v) => json::text_value(v),
        None => Json::Null,
    }
}

/// What a snapshot gives for a field.
pub open spec fn snapshot_value(e: ElementModel, field: ExtractFieldSpec) -> Result<
    JsonModel,
    ErrorModel,
> {
    match field.kind {
        ExtractKind::Text => Ok(JsonModel::Text(e.text)),
        ExtractKind::Value => Ok(
            JsonModel::Text(
                match e.attributes.get("value"@) {
                    Some(v) => v,
                    None => Seq::empty(),
                },
            ),
        ),
        ExtractKind::Html => Err(live_only_kind(field.kind, e.index)),
        ExtractKind::Bbox => if e.bounding_box is Some {
            Ok(target::bbox_model(e.bounding_box))
        } else {
            Err(no_bbox(e.index))
        },
        ExtractKind::Attributes => Ok(attributes_json(e.attributes)),
        ExtractKind::Attribute => match field.attribute {
            Some(name) => Ok(attribute_json(e.attributes, name@)),
            None => Err(nameless_attribute()),
        },
    }
}

pub fn extract_single_snapshot_value(element: &Element, field: &ExtractFieldSpec) -> (r: Result<
    Json,
    RubError,
>)
    ensures
        extract_postprocess::json_result(r) == snapshot_value(element@, *field),
{
    match field.kind {
        ExtractKind::Text => Ok(json::text_value(element.text.as_str())),
        ExtractKind::Value => match element.attributes.get("value") {
            Some(v) => Ok(json::text_value(v)),
            None => Ok(Json::Text(String::new())),
        },
        ExtractKind::Html => Err(
            snapshot_extract_live_only_kind_error(field.kind, element.index),
        ),
        ExtractKind::Bbox => if element.bounding_box.is_some() {
            Ok(target::bbox_value(&element.bounding_box))
        } else {
            Err(snapshot_bbox_unavailable_error(element.index))
        },
        ExtractKind::Attributes => Ok(attributes_value(&element.attributes)),
        ExtractKind::Attribute => match &field.attribute {
            Some(name) => Ok(attribute_value(&element.attributes, name.as_str())),
            None => Err(nameless_attribute_error()),
        },
    }
}

/// What a snapshot gives for the first `n` elements of a field.
pub open spec fn snapshot_values(s: Seq<ElementModel>, n: int, field: ExtractFieldSpec) -> Result<
    Seq<JsonModel>,
    ErrorModel,
>
    decreases n,
{
    if n <= 0 {
        Ok(seq![])
    } else {
        match snapshot_values(s, n - 1, field) {
            Err(e) => Err(e),
            Ok(front) => match snapshot_value(s[n - 1], field) {
                Err(e) => Err(e),
                Ok(v) => Ok(front.push(v)),
            },
        }
    }
}

proof fn snapshot_values_failed(s: Seq<ElementModel>, k: int, n: int, field: ExtractFieldSpec)
    requires
        0 <= k <= n,
        snapshot_values(s, k, field) is Err,
    ensures
        snapshot_values(s, n, field) == snapshot_values(s, k, field),
    decreases n - k,
{
    if k < n {
        snapshot_values_failed(s, k, n - 1, field);
    }
}

fn read_snapshot(elements: &Vec<Element>, field: &ExtractFieldSpec) -> (r: Result<
    Json,
    RubError,
>)
    ensures
        extract_postprocess::json_result(r) == (match snapshot_values(
            model::element_models(elements@),
            elements@.len() as int,
            *field,
        ) {
            Ok(values) => Ok::<JsonModel, ErrorModel>(JsonModel::Array(values)),
            Err(e) => Err(e),
        }),
{
    let ghost s = model::element_models(elements@);
    let mut out: Vec<Json> = Vec::new();
    let mut i: usize = 0;
    assert(json::items_model(out@) =~= seq![]);
    while i < elements.len()
        invariant
            i <= elements@.len(),
            s == model::element_models(elements@),
            snapshot_values(s, i as int, *field) == Ok::<Seq<JsonModel>, ErrorModel>(
                json::items_model(out@),
            ),
        decreases elements@.len() - i,
    {
        match extract_single_snapshot_value(&elements[i], field) {
            Ok(v) => {
                let ghost before = out@;
                out.push(v);
                assert(out@.drop_last() =~= before);
            },
            Err(e) => {
                proof {
                    snapshot_values_failed(s, i + 1, elements@.len() as int, *field);
                }
                return Err(e);
            },
        }
        i += 1;
    }
    Ok(Json::Array(out))
}

/// What comes next for a field whose elements were looked for.
#[derive(Debug)]
pub enum FieldStep {
    Done(Json),
    /// Read the elements on the page.
    Read(Vec<Element>),
    /// Run the script on the page: the selector may match content.
    RunContent { selector: String, script: String },
}

/// What comes next, over models.
#[verifier::ext_equal]
pub enum FieldStepModel {
    Done(JsonModel),
    Read(Seq<ElementModel>),
    RunContent(Seq<char>, Seq<char>),
}

impl View for FieldStep {
    type V = FieldStepModel;

    open spec fn view(&self) -> FieldStepModel {
        match self {
            FieldStep::Done(j) => FieldStepModel::Done(j@),
            FieldStep::Read(v) => FieldStepModel::Read(model::element_models(v@)),
            FieldStep::RunContent { selector, script } => FieldStepModel::RunContent(
                selector@,
                script@,
            ),
        }
    }
}

pub open spec fn step_result(r: Result<FieldStep, RubError>) -> Result<
    FieldStepModel,
    ErrorModel,
> {
    match r {
        Ok(s) => Ok(s@),
        Err(e) => Err(e@),
    }
}

/// What comes next for the elements of a field.
pub open spec fn after_elements(
    field_name: Seq<char>,
    field: ExtractFieldSpec,
    mode: ExtractAuthorityMode,
    s: Seq<ElementModel>,
) -> Result<FieldStepModel, ErrorModel> {
    if !field.many && s.len() > 1 {
        Err(multi_match(field_name, field, s.len() as int, SurfaceModel::Interactive))
    } else if !field.many && s.len() == 0 {
        Err(
            error::plain(
                ErrorCode::ElementNotFound,
                "extract field did not resolve to any interactive snapshot element"@,
            ),
        )
    } else if mode == ExtractAuthorityMode::SnapshotOnly {
        match snapshot_values(s, s.len() as int, field) {
            Err(e) => Err(e),
            Ok(values) => if field.many {
                Ok(FieldStepModel::Done(JsonModel::Array(values)))
            } else {
                Ok(FieldStepModel::Done(values[0]))
            },
        }
    } else if s.len() > 0 && lacks_attribute_name(field) {
        Err(nameless_attribute())
    } else {
        Ok(FieldStepModel::Read(s))
    }
}

/// What comes next for a field, from what looking for its elements gave.
pub open spec fn field_next(
    field_name: Seq<char>,
    field: ExtractFieldSpec,
    mode: ExtractAuthorityMode,
    resolved: Result<Seq<ElementModel>, ErrorModel>,
) -> Result<FieldStepModel, ErrorModel> {
    match resolved {
        Ok(s) => after_elements(field_name, field, mode, s),
        Err(e) => if field.selector is Some && not_found(e) {
            let selector = field.selector->0@;
            if mode == ExtractAuthorityMode::SnapshotOnly {
                Err(content_fallback(field_name, selector, field))
            } else if lacks_attribute_name(field) {
                Err(nameless_attribute())
            } else {
                Ok(FieldStepModel::RunContent(selector, content_script(selector, field)))
            }
        } else {
            Err(e)
        },
    }
}

pub open spec fn resolved_model(r: Result<Vec<Element>, RubError>) -> Result<
    Seq<ElementModel>,
    ErrorModel,
> {
    match r {
        Ok(v) => Ok(model::element_models(v@)),
        Err(e) => Err(e@),
    }
}

/// Goes on with a field whose elements were looked for in a snapshot. What a
/// snapshot alone may give is given at once; else the page is read.
pub fn extract_field(
    field_name: &str,
    field: &ExtractFieldSpec,
    mode: ExtractAuthorityMode,
    resolved: Result<Vec<Element>, RubError>,
) -> (r: Result<FieldStep, RubError>)
    ensures
        step_result(r) == field_next(field_name@, *field, mode, resolved_model(resolved)),
{
    match resolved {
        Ok(elements) => extract_field_value(field_name, field, mode, elements),
        Err(e) => {
            if !should_fallback_to_content(field, &e) {
                return Err(e);
            }
            match &field.selector {
                Some(selector) => match mode {
                    ExtractAuthorityMode::SnapshotOnly => Err(
                        snapshot_extract_content_fallback_error(
                            field_name,
                            selector.as_str(),
                            field,
                        ),
                    ),
                    ExtractAuthorityMode::LiveAllowed => match build_content_extract_script(
                        selector.as_str(),
                        field,
                    ) {
                        Ok(script) => Ok(
                            FieldStep::RunContent { selector: selector.clone(), script },
                        ),
                        Err(e) => Err(e),
                    },
                },
                None => Err(e),
            }
        },
    }
}

fn extract_field_value(
    field_name: &str,
    field: &ExtractFieldSpec,
    mode: ExtractAuthorityMode,
    elements: Vec<Element>,
) -> (r: Result<FieldStep, RubError>)
    ensures
        step_result(r) == after_elements(
            field_name@,
            *field,
            mode,
            model::element_models(elements@),
        ),
{
    let ghost s = model::element_models(elements@);
    assert(s.len() == elements@.len());
    if !field.many && elements.len() > 1 {
        return Err(
            multi_match_error(
                field_name,
                field,
                elements.len(),
                ExtractMatchSurface::InteractiveField,
            ),
        );
    }
    if !field.many && elements.len() == 0 {
        return Err(
            RubError::domain(
                ErrorCode::ElementNotFound,
                "extract field did not resolve to any interactive snapshot element",
            ),
        );
    }
    match mode {
        ExtractAuthorityMode::SnapshotOnly => {
            if field.many {
                return match read_snapshot(&elements, field) {
                    Ok(values) => Ok(FieldStep::Done(values)),
                    Err(e) => Err(e),
                };
            }
            proof {
                assert(snapshot_values(s, 0, *field) == Ok::<Seq<JsonModel>, ErrorModel>(seq![]));
                assert(snapshot_values(s, 1, *field) == (match snapshot_value(s[0], *field) {
                    Err(e) => Err::<Seq<JsonModel>, ErrorModel>(e),
                    Ok(v) => Ok(Seq::<JsonModel>::empty().push(v)),
                }));
            }
            match extract_single_snapshot_value(&elements[0], field) {
                Ok(v) => Ok(FieldStep::Done(v)),
                Err(e) => Err(e),
            }
        },
        ExtractAuthorityMode::LiveAllowed => {
            if elements.len() > 0 && is_lacking_attribute_name(field) {
                return Err(nameless_attribute_error());
            }
            Ok(FieldStep::Read(elements))
        },
    }
}

/// What was read of an element on the page.
#[derive(Debug)]
pub enum LiveRead {
    /// Its text, its value or its markup.
    Text(String),
    Bbox(BoundingBox),
    Attributes(Attributes),
}

/// What a reading of the page gives for a field.
pub open spec fn live_value(field: ExtractFieldSpec, read: LiveRead) -> JsonModel {
    match read {
        LiveRead::Text(s) => JsonModel::Text(s@),
        LiveRead::Bbox(b) => target::bbox_model(Some(b@)),
        LiveRead::Attributes(a) => if field.kind == ExtractKind::Attribute && field.attribute
            is Some {
            attribute_json(a@, field.attribute->0@)
        } else {
            attributes_json(a@)
        },
    }
}

fn live_value_of(field: &ExtractFieldSpec, read: &LiveRead) -> (r: Json)
    ensures
        r@ == live_value(*field, *read),
{
    match read {
        LiveRead::Text(s) => json::text_value(s.as_str()),
        LiveRead::Bbox(b) => target::box_value(b),
        LiveRead::Attributes(a) => {
            if matches!(field.kind, ExtractKind::Attribute) {
                if let Some(name) = &field.attribute {
                    return attribute_value(a, name.as_str());
                }
            }
            attributes_value(a)
        },
    }
}

pub open spec fn live_values(field: ExtractFieldSpec, reads: Seq<LiveRead>) -> Seq<JsonModel> {
    reads.map_values(|read: LiveRead| live_value(field, read))
}

/// The value of a field from what was read of its elements on the page.
pub fn finish_live_read(field: &ExtractFieldSpec, reads: &Vec<LiveRead>) -> (r: Result<
    Json,
    RubError,
>)
    ensures
        extract_postprocess::json_result(r) == (if field.many {
            Ok::<JsonModel, ErrorModel>(JsonModel::Array(live_values(*field, reads@)))
        } else if reads@.len() > 0 {
            Ok(live_value(*field, reads@[0]))
        } else {
            Err(
                error::plain(
                    ErrorCode::ElementNotFound,
                    "extract field did not resolve to any interactive snapshot element"@,
                ),
            )
        }),
{
    if !field.many {
        if reads.len() == 0 {
            return Err(
                RubError::domain(
                    ErrorCode::ElementNotFound,
                    "extract field did not resolve to any interactive snapshot element",
                ),
            );
        }
        return Ok(live_value_of(field, &reads[0]));
    }
    let ghost all = live_values(*field, reads@);
    let mut out: Vec<Json> = Vec::new();
    let mut i: usize = 0;
    assert(json::items_model(out@) =~= all.take(0));
    while i < reads.len()
        invariant
            i <= reads@.len(),
            all == live_values(*field, reads@),
            json::items_model(out@) == all.take(i as int),
        decreases reads@.len() - i,
    {
        let item = live_value_of(field, &reads[i]);
        let ghost before = out@;
        out.push(item);
        proof {
            assert(out@.drop_last() =~= before);
            assert(all.take(i + 1) =~= all.take(i as int).push(all[i as int]));
        }
        i += 1;
    }
    assert(all.take(i as int) =~= all);
    Ok(Json::Array(out))
}

/// The rest of a content script, behind its parameters.
pub const CONTENT_SCRIPT_BODY: &'static str = r#";
            try {
                const nodes = Array.from(document.querySelectorAll(selector));
                const selectNodes = (values) => {
                    if (first) return values.slice(0, 1);
                    if (last) return values.slice(-1);
                    if (nth !== null && nth !== undefined) {
                        const selected = values[nth];
                        return selected ? [selected] : [];
                    }
                    return values;
                };
                const readOne = (el) => {
                    switch (kind) {
                        case 'text':
                            return String(el.textContent || '').replace(/\s+/g, ' ').trim();
                        case 'value':
                            return 'value' in el ? String(el.value ?? '') : null;
                        case 'html':
                            return el.outerHTML || null;
                        case 'bbox': {
                            const rect = el.getBoundingClientRect();
                            return { x: rect.x, y: rect.y, width: rect.width, height: rect.height };
                        }
                        case 'attributes':
                            return Object.fromEntries(Array.from(el.attributes || []).map(attr => [attr.name, attr.value]));
                        case 'attribute':
                            return attribute ? el.getAttribute(attribute) : null;
                        default:
                            return null;
                    }
                };
                const selectedNodes = selectNodes(nodes);
                return {
                    match_count: nodes.length,
                    selected_count: selectedNodes.length,
                    values: selectedNodes.map(readOne),
                    selector_error: null,
                };
            } catch (error) {
                return {
                    match_count: 0,
                    selected_count: 0,
                    values: [],
                    selector_error: String(error && error.message ? error.message : error),
                };
            }
        })()"#;

pub open spec fn flag_text(b: bool) -> Seq<char> {
    if b {
        "true"@
    } else {
        "false"@
    }
}

fn flag_str(b: bool) -> (r: &'static str)
    ensures
        r@ == flag_text(b),
{
    if b {
        "true"
    } else {
        "false"
    }
}

pub open spec fn opt_literal(o: Option<String>) -> Seq<char> {
    match o {
        Some(s) => json_text::json_literal(s@),
        None => "null"@,
    }
}

fn opt_literal_text(o: &Option<String>) -> (r: String)
    ensures
        r@ == opt_literal(*o),
{
    match o {
        Some(s) => json_text::json_string(s.as_str()),
        None => "null".to_owned(),
    }
}

pub open spec fn opt_index_text(n: Option<u32>) -> Seq<char> {
    match n {
        Some(n) => text::decimal(n as nat),
        None => "null"@,
    }
}

fn opt_index_literal(n: Option<u32>) -> (r: String)
    ensures
        r@ == opt_index_text(n),
{
    match n {
        Some(n) => text::decimal_string(n as u64),
        None => "null".to_owned(),
    }
}

/// The script that reads a field from the content of a page.
pub open spec fn content_script(selector: Seq<char>, field: ExtractFieldSpec) -> Seq<char> {
    "(function() {\n            const selector = "@ + json_text::json_literal(selector)
        + ";\n            const kind = "@ + json_text::json_literal(spec::kind_name(field.kind))
        + ";\n            const attribute = "@ + opt_literal(field.attribute)
        + ";\n            const first = "@ + flag_text(field.first)
        + ";\n            const last = "@ + flag_text(field.last) + ";\n            const nth = "@
        + opt_index_text(field.nth) + CONTENT_SCRIPT_BODY@
}

pub fn build_content_extract_script(selector: &str, field: &ExtractFieldSpec) -> (r: Result<
    String,
    RubError,
>)
    ensures
        match r {
            Ok(script) => !lacks_attribute_name(*field) && script@ == content_script(
                selector@,
                *field,
            ),
            Err(e) => lacks_attribute_name(*field) && e@ == nameless_attribute(),
        },
{
    if is_lacking_attribute_name(field) {
        return Err(nameless_attribute_error());
    }
    let selector_literal = json_text::json_string(selector);
    let kind_literal = json_text::json_string(field.kind.as_str());
    let attribute = opt_literal_text(&field.attribute);
    let nth = opt_index_literal(field.nth);
    let a = text::cat5(
        "(function() {\n            const selector = ",
        selector_literal.as_str(),
        ";\n            const kind = ",
        kind_literal.as_str(),
        ";\n            const attribute = ",
    );
    let b = text::cat5(
        a.as_str(),
        attribute.as_str(),
        ";\n            const first = ",
        flag_str(field.first),
        ";\n            const last = ",
    );
    Ok(
        text::cat5(
            b.as_str(),
            flag_str(field.last),
            ";\n            const nth = ",
            nth.as_str(),
            CONTENT_SCRIPT_BODY,
        ),
    )
}

pub open spec fn has_selection(field: ExtractFieldSpec) -> bool {
    field.first || field.last || field.nth is Some
}

pub fn field_has_selection(field: &ExtractFieldSpec) -> (r: bool)
    ensures
        r == has_selection(*field),
{
    field.first || field.last || field.nth.is_some()
}

pub open spec fn content_context(selector: Seq<char>, field: ExtractFieldSpec) -> Map<
    Seq<char>,
    JsonModel,
> {
    Map::<Seq<char>, JsonModel>::empty().insert("selector"@, JsonModel::Text(selector)).insert(
        "kind"@,
        JsonModel::Text(spec::kind_name(field.kind)),
    )
}

fn content_context_object(selector: &str, field: &ExtractFieldSpec) -> (r: JsonObject)
    ensures
        r@ == content_context(selector@, *field),
{
    JsonObject::new().with("selector", json::text_value(selector)).with(
        "kind",
        json::text_value(field.kind.as_str()),
    )
}

/// The value of a field from what a content script found.
pub open spec fn content_value(
    field_name: Seq<char>,
    selector: Seq<char>,
    field: ExtractFieldSpec,
    payload: ContentExtractPayload,
) -> Result<JsonModel, ErrorModel> {
    if payload.selector_error is Some {
        Err(
            error::with_context(
                ErrorCode::InvalidInput,
                "Invalid selector for extract content path: "@ + payload.selector_error->0@,
                JsonModel::Object(content_context(selector, field)),
            ),
        )
    } else if payload.selected_count == 0 {
        Err(
            error::with_context(
                ErrorCode::ElementNotFound,
                "extract field did not resolve to any content element"@,
                JsonModel::Object(
                    content_context(selector, field).insert(
                        "match_count"@,
                        JsonModel::Number(NumberModel::Int(payload.match_count as int)),
                    ),
                ),
            ),
        )
    } else if !field.many && payload.match_count > 1 && !has_selection(field) {
        Err(
            multi_match(
                field_name,
                field,
                payload.match_count as int,
                SurfaceModel::Content(selector),
            ),
        )
    } else if field.many {
        Ok(JsonModel::Array(json::items_model(payload.values@)))
    } else if payload.values@.len() > 0 {
        Ok(payload.values@[0]@)
    } else {
        Err(
            error::plain(
                ErrorCode::ElementNotFound,
                "extract field did not resolve to any content element"@,
            ),
        )
    }
}

/// Finishes a field that was looked for in the content of the page.
pub fn extract_content_field_value(
    field_name: &str,
    selector: &str,
    field: &ExtractFieldSpec,
    payload: ContentExtractPayload,
) -> (r: Result<Json, RubError>)
    ensures
        extract_postprocess::json_result(r) == content_value(
            field_name@,
            selector@,
            *field,
            payload,
        ),
{
    if let Some(cause) = &payload.selector_error {
        let message = text::cat2("Invalid selector for extract content path: ", cause.as_str());
        return Err(
            RubError::domain_with_context(
                ErrorCode::InvalidInput,
                message.as_str(),
                Json::Object(content_context_object(selector, field)),
            ),
        );
    }
    if payload.selected_count == 0 {
        let context = content_context_object(selector, field).with(
            "match_count",
            json::uint_value(payload.match_count as u64),
        );
        return Err(
            RubError::domain_with_context(
                ErrorCode::ElementNotFound,
                "extract field did not resolve to any content element",
                Json::Object(context),
            ),
        );
    }
    if !field.many && payload.match_count > 1 && !field_has_selection(field) {
        return Err(
            multi_match_error(
                field_name,
                field,
                payload.match_count,
                ExtractMatchSurface::ContentField { selector },
            ),
        );
    }
    if field.many {
        return Ok(Json::Array(payload.values));
    }
    if payload.values.len() > 0 {
        return Ok(payload.values[0].clone());
    }
    Err(
        RubError::domain(
            ErrorCode::ElementNotFound,
            "extract field did not resolve to any content element",
        ),
    )
}

/// A script whose result comes back as JSON text.
pub fn wrap_payload_script(script: &str) -> (r: String)
    ensures
        r@ == "JSON.stringify("@ + script@ + ")"@,
{
    text::cat3("JSON.stringify(", script, ")")
}

/// The JSON text that a script gave back.
pub fn payload_text<'a>(value: &'a Json, payload_kind: &str) -> (r: Result<&'a str, RubError>)
    ensures
        match r {
            Ok(s) => json::text_of(value@) == Some(s@),
            Err(e) => json::text_of(value@) is None && e@ == ErrorModel::Internal(
                "extract "@ + payload_kind@ + " payload returned non-string projection: "@
                    + json_text::compact_text(value@),
            ),
        },
{
    match value.as_str() {
        Some(s) => Ok(s),
        None => {
            let shown = json_text::to_compact_text(value);
            let head = text::cat3(
                "extract ",
                payload_kind,
                " payload returned non-string projection: ",
            );
            Err(RubError::Internal(text::cat2(head.as_str(), shown.as_str())))
        },
    }
}

/// The error for a script result that is not what the script should give.
pub fn payload_parse_error(payload_kind: &str, cause: &str, payload: &str) -> (r: RubError)
    ensures
        r@ == ErrorModel::Internal(
            "extract "@ + payload_kind@ + " payload parse failed: "@ + cause@ + "; payload="@
                + payload@,
        ),
{
    let head = text::cat3("extract ", payload_kind, " payload parse failed: ");
    let message = text::cat2(
        text::cat3(head.as_str(), cause, "; payload=").as_str(),
        payload,
    );
    RubError::Internal(message)
}

/// A snapshot alone never leads to a read of the page.
pub proof fn snapshots_are_not_left(
    field_name: Seq<char>,
    field: ExtractFieldSpec,
    resolved: Result<Seq<ElementModel>, ErrorModel>,
)
    ensures
        ({
            let next = field_next(
                field_name,
                field,
                ExtractAuthorityMode::SnapshotOnly,
                resolved,
            );
            next is Err || next->Ok_0 is Done
        }),
{
}

/// A field that is to have one value never silently takes one of several.
pub proof fn ambiguous_fields_fail(
    field_name: Seq<char>,
    field: ExtractFieldSpec,
    mode: ExtractAuthorityMode,
    s: Seq<ElementModel>,
)
    requires
        !field.many,
        s.len() > 1,
    ensures
        field_next(field_name, field, mode, Ok(s)) == Err::<FieldStepModel, ErrorModel>(
            multi_match(field_name, field, s.len() as int, SurfaceModel::Interactive),
        ),
{
}

/// Elements of a snapshot are read one for one, in their order; the first that cannot be
/// read fails them all.
pub proof fn snapshots_are_read_element_by_element(
    s: Seq<ElementModel>,
    n: int,
    field: ExtractFieldSpec,
)
    requires
        0 <= n <= s.len(),
    ensures
        match snapshot_values(s, n, field) {
            Ok(values) => values.len() == n && forall|i: int|
                0 <= i < n ==> snapshot_value(#[trigger] s[i], field) == Ok::<
                    JsonModel,
                    ErrorModel,
                >(values[i]),
            Err(e) => exists|k: int|
                0 <= k < n && snapshot_value(#[trigger] s[k], field) == Err::<
                    JsonModel,
                    ErrorModel,
                >(e) && forall|i: int|
                    0 <= i < k ==> snapshot_value(#[trigger] s[i], field) is Ok,
        },
    decreases n,
{
    if n > 0 {
        snapshots_are_read_element_by_element(s, n - 1, field);
        assert(s[n - 1] == s[n - 1]);
    }
}

/// Of an element in a snapshot the text is its own, the value and the attributes are those
/// that it carries, the place is the one that was stored, and the markup is not there.
pub proof fn snapshots_give_what_they_hold(e: ElementModel, field: ExtractFieldSpec)
    ensures
        ({
            let r = snapshot_value(e, field);
            &&& field.kind == ExtractKind::Text ==> r == Ok::<JsonModel, ErrorModel>(
                JsonModel::Text(e.text),
            )
            &&& field.kind == ExtractKind::Value && e.attributes.dom().contains("value"@) ==> r
                == Ok::<JsonModel, ErrorModel>(JsonModel::Text(e.attributes["value"@]))
            &&& field.kind == ExtractKind::Value && !e.attributes.dom().contains("value"@) ==> r
                == Ok::<JsonModel, ErrorModel>(JsonModel::Text(Seq::empty()))
            &&& field.kind == ExtractKind::Html ==> r is Err
            &&& field.kind == ExtractKind::Bbox ==> (r is Ok <==> e.bounding_box is Some)
            &&& field.kind == ExtractKind::Attributes ==> r is Ok
            &&& field.kind == ExtractKind::Attribute ==> (r is Ok <==> field.attribute is Some)
            &&& field.kind == ExtractKind::Attribute ==> (field.attribute matches Some(name) ==> (
            if e.attributes.dom().contains(name@) {
                r == Ok::<JsonModel, ErrorModel>(JsonModel::Text(e.attributes[name@]))
            } else {
                r == Ok::<JsonModel, ErrorModel>(JsonModel::Null)
            }))
        }),
{
}

/// All attributes come out under their own names, and nothing else does.
pub proof fn attributes_keep_their_names(a: Map<Seq<char>, Seq<char>>, name: Seq<char>)
    ensures
        json::member(attributes_json(a), name) == (if a.dom().contains(name) {
            Some(JsonModel::Text(a[name]))
        } else {
            None
        }),
{
}

/// A field for one value takes it from its one element, and a field for many has an array
/// with a value for each; without an element, only the field for many has a value.
pub proof fn fields_have_one_value_or_all(
    field_name: Seq<char>,
    field: ExtractFieldSpec,
    s: Seq<ElementModel>,
)
    ensures
        ({
            let r = field_next(field_name, field, ExtractAuthorityMode::SnapshotOnly, Ok(s));
            let live = field_next(field_name, field, ExtractAuthorityMode::LiveAllowed, Ok(s));
            &&& r matches Ok(FieldStepModel::Done(v)) ==> (if field.many {
                v matches JsonModel::Array(values) && values.len() == s.len()
            } else {
                s.len() == 1 && snapshot_value(s[0], field) == Ok::<JsonModel, ErrorModel>(v)
            })
            &&& s.len() == 0 ==> (r is Ok <==> field.many)
            &&& s.len() == 0 && !field.many ==> (r matches Err(e) && not_found(e))
            &&& live matches Ok(step) ==> step == FieldStepModel::Read(s)
            &&& live is Ok <==> (field.many || s.len() == 1) && !(s.len() > 0 && field.kind
                == ExtractKind::Attribute && field.attribute is None)
        }),
{
    snapshots_are_read_element_by_element(s, s.len() as int, field);
    if s.len() > 0 {
        assert(s[0] == s[0]);
    }
}

/// The content of the page is searched only for a field with a selector whose elements were
/// not found, and then for that selector; any other error stays as it is.
pub proof fn content_is_searched_for_what_was_not_found(
    field_name: Seq<char>,
    field: ExtractFieldSpec,
    mode: ExtractAuthorityMode,
    e: ErrorModel,
)
    ensures
        ({
            let next = field_next(field_name, field, mode, Err(e));
            let missing = e matches ErrorModel::Domain(x) && x.code == ErrorCode::ElementNotFound;
            let nameless = field.kind == ExtractKind::Attribute && field.attribute is None;
            &&& next matches Ok(step) ==> (step matches FieldStepModel::RunContent(selector, _)
                && (field.selector matches Some(own) && selector == own@))
            &&& next is Ok <==> missing && field.selector is Some && mode
                == ExtractAuthorityMode::LiveAllowed && !nameless
            &&& !missing || field.selector is None ==> next == Err::<FieldStepModel, ErrorModel>(e)
        }),
{
}

/// The readings of the page come out one for one for a field with many values; of an
/// attribute that is asked for, the reading is the attribute alone.
pub proof fn readings_come_out_one_for_one(field: ExtractFieldSpec, reads: Seq<LiveRead>, i: int)
    requires
        0 <= i < reads.len(),
    ensures
        live_values(field, reads).len() == reads.len(),
        reads[i] matches LiveRead::Text(t) ==> live_values(field, reads)[i] == JsonModel::Text(t@),
        reads[i] matches LiveRead::Attributes(a) ==> (field.kind == ExtractKind::Attribute ==> (
        field.attribute matches Some(name) ==> live_values(field, reads)[i] == (
        if a@.dom().contains(name@) {
            JsonModel::Text(a@[name@])
        } else {
            JsonModel::Null
        }))),
        reads[i] matches LiveRead::Attributes(a) ==> (field.kind == ExtractKind::Attributes
            ==> forall|name: Seq<char>| a@.dom().contains(name) ==> #[trigger] json::member(
            live_values(field, reads)[i],
            name,
        ) == Some(JsonModel::Text(a@[name]))),
{
}

/// Content is a value where something was selected and, for a field with one value, either
/// one element matched or the field picks among them; the value is the first that was read,
/// and for a field with many all of them.
pub proof fn content_is_owed_where_something_matched(
    field_name: Seq<char>,
    selector: Seq<char>,
    field: ExtractFieldSpec,
    payload: ContentExtractPayload,
)
    ensures
        ({
            let r = content_value(field_name, selector, field, payload);
            let picks = field.first || field.last || field.nth is Some;
            &&& r is Ok <==> payload.selector_error is None && payload.selected_count != 0 && (
            field.many || (payload.values@.len() > 0 && (payload.match_count <= 1 || picks)))
            &&& r matches Ok(v) ==> (field.many ==> (v matches JsonModel::Array(all) && all.len()
                == payload.values@.len() && forall|i: int|
                0 <= i < all.len() ==> #[trigger] all[i] == payload.values@[i]@))
            &&& r matches Ok(v) ==> (!field.many ==> v == payload.values@[0]@)
            &&& payload.selector_error is Some ==> (r matches Err(e) && !not_found(e))
            &&& payload.selector_error is None && payload.selected_count == 0 ==> (r matches Err(e)
                && not_found(e))
        }),
{
    json::items_model_len(payload.values@);
    assert forall|i: int| 0 <= i < payload.values@.len() implies #[trigger] json::items_model(
        payload.values@,
    )[i] == payload.values@[i]@ by {
        json::items_model_at(payload.values@, i);
    }
}

/// A field of a query that was found has its value; one that was not found is made up for
/// where it has a default or need not be there, and no other failure is.
pub proof fn missing_fields_are_made_up_for(
    name: Seq<char>,
    field: ExtractFieldSpec,
    e: ErrorModel,
    floats: Map<Seq<char>, ReadingModel>,
)
    ensures
        ({
            let r = query_value(name, field, Err(e), floats);
            let missing = e matches ErrorModel::Domain(x) && x.code == ErrorCode::ElementNotFound;
            &&& r is Ok <==> missing && (!field.required || field.default is Some)
            &&& r is Err ==> r == Err::<JsonModel, InterruptModel>(InterruptModel::Failed(e))
            &&& r matches Ok(v) ==> (field.default matches Some(d) ==> v == d@)
            &&& r matches Ok(v) ==> (field.default is None ==> v == JsonModel::Null)
        }),
{
}

/// The locator of a field asks for what the field names, and for nothing about how an
/// element is seen.
pub proof fn locators_ask_for_what_the_field_names(f: ExtractFieldSpec)
    ensures
        ({
            let r = field_request(f);
            &&& r.index == f.index && r.element_ref == f.element_ref && r.selector == f.selector
            &&& r.target_text == f.target_text && r.role == f.role && r.label == f.label
            &&& r.testid == f.testid && r.first == f.first && r.last == f.last && r.nth == f.nth
            &&& !r.visible && !r.prefer_enabled && !r.topmost
        }),
{
}

/// The short form of a field names its locator behind what is read; a field that is located
/// by none of the five ways has none, nor has an attribute without a name.
pub proof fn short_forms_name_kind_and_locator(f: ExtractFieldSpec)
    ensures
        ({
            let said = |o: Option<String>| o matches Some(t) && !text::blank(t@);
            let located = said(f.selector) || said(f.target_text) || said(f.role) || said(f.label)
                || said(f.testid);
            &&& builder_locator(f) is Some <==> located
            &&& builder_source(f) is Some <==> located && !(f.kind == ExtractKind::Attribute
                && f.attribute is None)
            &&& said(f.selector) ==> builder_locator(f) == Some(text::trimmed((f.selector->0)@))
            &&& !said(f.selector) && said(f.target_text) ==> builder_locator(f) == Some(
                "target_text:"@ + text::trimmed((f.target_text->0)@),
            )
            &&& !said(f.selector) && !said(f.target_text) && said(f.role) ==> builder_locator(f)
                == Some("role:"@ + text::trimmed((f.role->0)@))
            &&& !said(f.selector) && !said(f.target_text) && !said(f.role) && said(f.label)
                ==> builder_locator(f) == Some("label:"@ + text::trimmed((f.label->0)@))
        }),
        builder_source(f) matches Some(s) ==> (f.kind != ExtractKind::Attribute ==> s
            == spec::kind_name(f.kind) + ":"@ + builder_locator(f)->0),
        builder_source(f) matches Some(s) ==> (f.kind == ExtractKind::Attribute ==> s
            == "attribute:"@ + (f.attribute->0)@ + ":"@ + builder_locator(f)->0),
{
    if let Some(t) = f.selector {
        text::blank_texts_trim_to_nothing(t@);
    }
    if let Some(t) = f.target_text {
        text::blank_texts_trim_to_nothing(t@);
    }
    if let Some(t) = f.role {
        text::blank_texts_trim_to_nothing(t@);
    }
    if let Some(t) = f.label {
        text::blank_texts_trim_to_nothing(t@);
    }
    if let Some(t) = f.testid {
        text::blank_texts_trim_to_nothing(t@);
    }
}

/// What is known of several matches shows the field, their number and where they were found.
pub proof fn several_matches_are_told(
    field_name: Seq<char>,
    field: ExtractFieldSpec,
    match_count: int,
    surface: SurfaceModel,
)
    ensures
        ({
            let r = multi_match_json(field_name, field, match_count, surface);
            &&& json::member(r, "field"@) == Some(JsonModel::Text(field_name))
            &&& json::member(r, "match_count"@) == Some(json::number(match_count))
            &&& json::member(r, "locator"@) == Some(locator_json_of(field))
            &&& surface is Interactive ==> json::member(r, "surface"@) == Some(
                JsonModel::Text("interactive"@),
            )
            &&& surface matches SurfaceModel::Content(selector) ==> json::member(r, "surface"@)
                == Some(JsonModel::Text("content"@)) && json::member(r, "selector"@) == Some(
                JsonModel::Text(selector),
            )
            &&& surface matches SurfaceModel::Row(collection, row) ==> json::member(
                r,
                "collection"@,
            ) == Some(JsonModel::Text(collection)) && json::member(r, "row_index"@) == Some(
                json::number(row),
            ) && json::member(r, "surface"@) == Some(JsonModel::Text("collection_row"@))
            &&& json::member(r, "builder_field_examples"@) is Some <==> builder_source(field)
                is Some
        }),
        multi_match(field_name, field, match_count, surface) matches ErrorModel::Domain(e)
            && e.code == ErrorCode::InvalidInput,
{
    reveal_strlit("field");
    reveal_strlit("kind");
    reveal_strlit("match_count");
    reveal_strlit("locator");
    reveal_strlit("resolution_examples");
    reveal_strlit("builder_field_examples");
    reveal_strlit("surface");
    reveal_strlit("selector");
    reveal_strlit("collection");
    reveal_strlit("row_index");
    assert("field"@.len() != "kind"@.len());
    assert("field"@.len() != "match_count"@.len());
    assert("field"@.len() != "locator"@.len());
    assert("field"@.len() != "resolution_examples"@.len());
    assert("field"@.len() != "builder_field_examples"@.len());
    assert("field"@.len() != "surface"@.len());
    assert("field"@.len() != "selector"@.len());
    assert("field"@.len() != "collection"@.len());
    assert("field"@.len() != "row_index"@.len());
    assert("kind"@.len() != "match_count"@.len());
    assert("kind"@.len() != "locator"@.len());
    assert("kind"@.len() != "resolution_examples"@.len());
    assert("kind"@.len() != "builder_field_examples"@.len());
    assert("kind"@.len() != "surface"@.len());
    assert("kind"@.len() != "selector"@.len());
    assert("kind"@.len() != "collection"@.len());
    assert("kind"@.len() != "row_index"@.len());
    assert("match_count"@.len() != "locator"@.len());
    assert("match_count"@.len() != "resolution_examples"@.len());
    assert("match_count"@.len() != "builder_field_examples"@.len());
    assert("match_count"@.len() != "surface"@.len());
    assert("match_count"@.len() != "selector"@.len());
    assert("match_count"@.len() != "collection"@.len());
    assert("match_count"@.len() != "row_index"@.len());
    assert("locator"@.len() != "resolution_examples"@.len());
    assert("locator"@.len() != "builder_field_examples"@.len());
    assert("locator"@[0] != "surface"@[0]);
    assert("locator"@.len() != "selector"@.len());
    assert("locator"@.len() != "collection"@.len());
    assert("locator"@.len() != "row_index"@.len());
    assert("resolution_examples"@.len() != "builder_field_examples"@.len());
    assert("resolution_examples"@.len() != "surface"@.len());
    assert("resolution_examples"@.len() != "selector"@.len());
    assert("resolution_examples"@.len() != "collection"@.len());
    assert("resolution_examples"@.len() != "row_index"@.len());
    assert("builder_field_examples"@.len() != "surface"@.len());
    assert("builder_field_examples"@.len() != "selector"@.len());
    assert("builder_field_examples"@.len() != "collection"@.len());
    assert("builder_field_examples"@.len() != "row_index"@.len());
    assert("surface"@.len() != "selector"@.len());
    assert("surface"@.len() != "collection"@.len());
    assert("surface"@.len() != "row_index"@.len());
    assert("selector"@.len() != "collection"@.len());
    assert("selector"@.len() != "row_index"@.len());
    assert("collection"@.len() != "row_index"@.len());
}

/// A field that was read on the page has a value where something was read, and a field for
/// many values always.
pub proof fn readings_give_values(
    field: ExtractFieldSpec,
    reads: Vec<LiveRead>,
    r: Result<Json, RubError>,
)
    requires
        call_ensures(finish_live_read, (&field, &reads), r),
    ensures
        r is Ok <==> field.many || reads@.len() > 0,
        field.many ==> (r matches Ok(v) && (v@ matches JsonModel::Array(all) && all.len()
            == reads@.len())),
        !field.many && reads@.len() > 0 ==> (r matches Ok(v) && (reads@[0] matches LiveRead::Text(t)
            ==> v@ == JsonModel::Text(t@))),
{
    if let Ok(v) = r {
        assert(extract_postprocess::json_result(r) == Ok::<JsonModel, ErrorModel>(v@));
    } else {
        assert(extract_postprocess::json_result(r) is Err);
    }
}

/// What a snapshot cannot give is told: content that is on the page alone is not found, and
/// a kind or a place that no snapshot holds is invalid, each by its element or field.
pub proof fn snapshots_say_what_they_cannot_give(
    name: Seq<char>,
    selector: Seq<char>,
    field: ExtractFieldSpec,
    kind: ExtractKind,
    n: u32,
)
    ensures
        ({
            &&& content_fallback(name, selector, field) matches ErrorModel::Domain(e)
            &&& e.code == ErrorCode::ElementNotFound
            &&& e.context matches Some(c)
            &&& json::member(c, "field"@) == Some(JsonModel::Text(name))
            &&& json::member(c, "selector"@) == Some(JsonModel::Text(selector))
        }),
        ({
            &&& live_only_kind(kind, n) matches ErrorModel::Domain(e)
            &&& e.code == ErrorCode::InvalidInput
            &&& e.context matches Some(c)
            &&& json::member(c, "element_index"@) == Some(json::number(n as int))
            &&& json::member(c, "kind"@) == Some(JsonModel::Text(spec::kind_name(kind)))
        }),
        ({
            &&& no_bbox(n) matches ErrorModel::Domain(e)
            &&& e.code == ErrorCode::InvalidInput
            &&& e.context matches Some(c)
            &&& json::member(c, "element_index"@) == Some(json::number(n as int))
        }),
        nameless_attribute() matches ErrorModel::Domain(e) && e.code == ErrorCode::InvalidInput,
{
    reveal_strlit("field");
    reveal_strlit("selector");
    reveal_strlit("kind");
    reveal_strlit("authority_state");
    reveal_strlit("element_index");
    assert("field"@.len() != "selector"@.len());
    assert("field"@.len() != "kind"@.len());
    assert("field"@.len() != "authority_state"@.len());
    assert("field"@.len() != "element_index"@.len());
    assert("selector"@.len() != "kind"@.len());
    assert("selector"@.len() != "authority_state"@.len());
    assert("selector"@.len() != "element_index"@.len());
    assert("kind"@.len() != "authority_state"@.len());
    assert("kind"@.len() != "element_index"@.len());
    assert("authority_state"@.len() != "element_index"@.len());
}

/// The script for a field holds each parameter behind its own name.
pub proof fn scripts_hold_their_parameters(selector: Seq<char>, field: ExtractFieldSpec)
    ensures
        ({
            let s = content_script(selector, field);
            let flag = |b: bool|
                if b {
                    "true"@
                } else {
                    "false"@
                };
            &&& text::occurs(s, ";\n            const first = "@ + flag(field.first))
            &&& text::occurs(s, ";\n            const last = "@ + flag(field.last))
            &&& text::occurs(
                s,
                ";\n            const nth = "@ + (match field.nth {
                    Some(n) => text::decimal(n as nat),
                    None => "null"@,
                }),
            )
            &&& text::occurs(
                s,
                ";\n            const kind = "@ + json_text::json_literal(
                    spec::kind_name(field.kind),
                ),
            )
            &&& text::occurs(
                s,
                "(function() {\n            const selector = "@ + json_text::json_literal(selector),
            )
        }),
{
    let c0 = "(function() {\n            const selector = "@;
    let p0 = c0 + json_text::json_literal(selector);
    let c1 = ";\n            const kind = "@;
    let v1 = json_text::json_literal(spec::kind_name(field.kind));
    let p2 = p0 + c1 + v1 + ";\n            const attribute = "@ + opt_literal(field.attribute);
    let c3 = ";\n            const first = "@;
    let v3 = flag_text(field.first);
    let p4 = p2 + c3 + v3;
    let c4 = ";\n            const last = "@;
    let v4 = flag_text(field.last);
    let p5 = p4 + c4 + v4;
    let c5 = ";\n            const nth = "@;
    let v5 = opt_index_text(field.nth);
    let p6 = p5 + c5 + v5;
    let end = CONTENT_SCRIPT_BODY@;
    behind_its_name(Seq::empty(), c0, json_text::json_literal(selector));
    assert(Seq::<char>::empty() + c0 =~= c0);
    let w0 = c0 + json_text::json_literal(selector);
    in_a_longer_text(p0, c1, w0);
    in_a_longer_text(p0 + c1, v1, w0);
    behind_its_name(p0, c1, v1);
    let w1 = c1 + v1;
    let q1 = p0 + c1 + v1;
    let q2 = q1 + ";\n            const attribute = "@;
    in_a_longer_text(q1, ";\n            const attribute = "@, w0);
    in_a_longer_text(q1, ";\n            const attribute = "@, w1);
    in_a_longer_text(q2, opt_literal(field.attribute), w0);
    in_a_longer_text(q2, opt_literal(field.attribute), w1);
    behind_its_name(p2, c3, v3);
    in_longer_texts(p2, c3, v3, w0);
    in_longer_texts(p2, c3, v3, w1);
    behind_its_name(p4, c4, v4);
    in_longer_texts(p4, c4, v4, w0);
    in_longer_texts(p4, c4, v4, w1);
    in_longer_texts(p4, c4, v4, c3 + v3);
    behind_its_name(p5, c5, v5);
    in_longer_texts(p5, c5, v5, w0);
    in_longer_texts(p5, c5, v5, w1);
    in_longer_texts(p5, c5, v5, c3 + v3);
    in_longer_texts(p5, c5, v5, c4 + v4);
    in_a_longer_text(p6, end, w0);
    in_a_longer_text(p6, end, w1);
    in_a_longer_text(p6, end, c3 + v3);
    in_a_longer_text(p6, end, c4 + v4);
    in_a_longer_text(p6, end, c5 + v5);
}

proof fn behind_its_name(p: Seq<char>, name: Seq<char>, value: Seq<char>)
    ensures
        text::occurs(p + name + value, name + value),
{
    let s = p + name + value;
    assert(s.subrange(p.len() as int, p.len() as int + (name + value).len()) =~= name + value);
    assert(text::occurs_at(s, name + value, p.len() as int));
}

proof fn in_a_longer_text(s: Seq<char>, more: Seq<char>, part: Seq<char>)
    requires
        text::occurs(s, part),
    ensures
        text::occurs(s + more, part),
{
    let at = choose|at: int| text::occurs_at(s, part, at);
    assert((s + more).subrange(at, at + part.len()) =~= s.subrange(at, at + part.len()));
    assert(text::occurs_at(s + more, part, at));
}

proof fn in_longer_texts(s: Seq<char>, a: Seq<char>, b: Seq<char>, part: Seq<char>)
    requires
        text::occurs(s, part),
    ensures
        text::occurs(s + a + b, part),
{
    in_a_longer_text(s, a, part);
    in_a_longer_text(s + a, b, part);
}

} // verus!
