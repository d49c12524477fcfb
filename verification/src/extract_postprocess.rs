//! What happens to an extracted value before a client gets it.

use vstd::prelude::*;
use crate::error::{self, ErrorCode, ErrorModel, RubError};
use crate::json::{self, Json, JsonModel, JsonNumber, JsonObject, NumberModel};
use crate::text;

verus! {

/// What a value must be.
#[derive(Clone, Copy, Debug, PartialEq, Eq, Structural)]
pub enum ExtractValueType {
    Text,
    Number,
    Boolean,
    Array,
    Object,
}

/// What is made of a value.
#[derive(Clone, Copy, Debug, PartialEq, Eq, Structural)]
pub enum ExtractTransform {
    Trim,
    Lowercase,
    Uppercase,
    ParseInt,
    ParseFloat,
    ParseBool,
}

pub open spec fn value_type_name(t: ExtractValueType) -> Seq<char> {
    match t {
        ExtractValueType::Text => "string"@,
        ExtractValueType::Number => "number"@,
        ExtractValueType::Boolean => "boolean"@,
        ExtractValueType::Array => "array"@,
        ExtractValueType::Object => "object"@,
    }
}

impl ExtractValueType {
    pub fn as_str(self) -> (r: &'static str)
        ensures
            r@ == value_type_name(self),
    {
        match self {
            ExtractValueType::Text => "string",
            ExtractValueType::Number => "number",
            ExtractValueType::Boolean => "boolean",
            ExtractValueType::Array => "array",
            ExtractValueType::Object => "object",
        }
    }
}

pub open spec fn transform_name(t: ExtractTransform) -> Seq<char> {
    match t {
        ExtractTransform::Trim => "trim"@,
        ExtractTransform::Lowercase => "lowercase"@,
        ExtractTransform::Uppercase => "uppercase"@,
        ExtractTransform::ParseInt => "parse_int"@,
        ExtractTransform::ParseFloat => "parse_float"@,
        ExtractTransform::ParseBool => "parse_bool"@,
    }
}

impl ExtractTransform {
    pub fn as_str(self) -> (r: &'static str)
        ensures
            r@ == transform_name(self),
    {
        match self {
            ExtractTransform::Trim => "trim",
            ExtractTransform::Lowercase => "lowercase",
            ExtractTransform::Uppercase => "uppercase",
            ExtractTransform::ParseInt => "parse_int",
            ExtractTransform::ParseFloat => "parse_float",
            ExtractTransform::ParseBool => "parse_bool",
        }
    }
}

/// What a text is as a floating-point number.
#[derive(Debug)]
pub enum FloatReading {
    /// The number as JSON writes it.
    Finite(String),
    NonFinite,
    /// Why it is no number.
    Invalid(String),
}

/// What a text is as a floating-point number, over texts.
#[verifier::ext_equal]
pub enum ReadingModel {
    Finite(Seq<char>),
    NonFinite,
    Invalid(Seq<char>),
}

impl View for FloatReading {
    type V = ReadingModel;

    open spec fn view(&self) -> ReadingModel {
        match self {
            FloatReading::Finite(s) => ReadingModel::Finite(s@),
            FloatReading::NonFinite => ReadingModel::NonFinite,
            FloatReading::Invalid(s) => ReadingModel::Invalid(s@),
        }
    }
}

/// Texts that were read as floating-point numbers.
#[derive(Debug)]
pub struct FloatReadings {
    pub entries: Vec<(String, FloatReading)>,
}

pub open spec fn readings_model(s: Seq<(String, FloatReading)>) -> Map<Seq<char>, ReadingModel>
    decreases s.len(),
{
    if s.len() == 0 {
        Map::empty()
    } else {
        readings_model(s.drop_last()).insert(s.last().0@, s.last().1@)
    }
}

impl View for FloatReadings {
    type V = Map<Seq<char>, ReadingModel>;

    open spec fn view(&self) -> Map<Seq<char>, ReadingModel> {
        readings_model(self.entries@)
    }
}

pub open spec fn opt_reading(o: Option<&FloatReading>) -> Option<ReadingModel> {
    match o {
        Some(r) => Some(r@),
        None => None,
    }
}

impl FloatReadings {
    pub fn new() -> (r: FloatReadings)
        ensures
            r@ == Map::<Seq<char>, ReadingModel>::empty(),
    {
        FloatReadings { entries: Vec::new() }
    }

    /// Notes what a text is as a number.
    pub fn note(&mut self, s: &str, reading: FloatReading)
        ensures
            final(self)@ == old(self)@.insert(s@, reading@),
    {
        let ghost before = self.entries@;
        self.entries.push((s.to_owned(), reading));
        assert(self.entries@.drop_last() =~= before);
    }

    /// What a text is as a number, where it was read.
    pub fn get(&self, s: &str) -> (r: Option<&FloatReading>)
        ensures
            opt_reading(r) == self@.get(s@),
    {
        let ghost all = self.entries@;
        let mut i: usize = self.entries.len();
        assert(all.take(i as int) =~= all);
        while i > 0
            invariant
                i <= self.entries@.len(),
                all == self.entries@,
                readings_model(all).get(s@) == readings_model(all.take(i as int)).get(s@),
            decreases i,
        {
            assert(all.take(i as int).drop_last() =~= all.take(i - 1));
            assert(all.take(i as int).last() == all[i - 1]);
            if text::str_eq(self.entries[i - 1].0.as_str(), s) {
                return Some(&self.entries[i - 1].1);
            }
            i -= 1;
        }
        None
    }
}

/// Why work on a value stopped: it failed, or a text has to be read as a
/// floating-point number first.
#[derive(Debug)]
pub enum Interrupt {
    Failed(RubError),
    ReadFloat(String),
}

/// Why work on a value stopped, over texts.
#[verifier::ext_equal]
pub enum InterruptModel {
    Failed(ErrorModel),
    ReadFloat(Seq<char>),
}

impl View for Interrupt {
    type V = InterruptModel;

    open spec fn view(&self) -> InterruptModel {
        match self {
            Interrupt::Failed(e) => InterruptModel::Failed(e@),
            Interrupt::ReadFloat(s) => InterruptModel::ReadFloat(s@),
        }
    }
}

pub open spec fn value_result(r: Result<Json, Interrupt>) -> Result<JsonModel, InterruptModel> {
    match r {
        Ok(j) => Ok(j@),
        Err(e) => Err(e@),
    }
}

pub open spec fn json_result(r: Result<Json, RubError>) -> Result<JsonModel, ErrorModel> {
    match r {
        Ok(j) => Ok(j@),
        Err(e) => Err(e@),
    }
}

/// A result of plain work among those of work that can stop for a number.
pub open spec fn plain_result(r: Result<JsonModel, ErrorModel>) -> Result<
    JsonModel,
    InterruptModel,
> {
    match r {
        Ok(j) => Ok(j),
        Err(e) => Err(InterruptModel::Failed(e)),
    }
}

pub fn plain_value(r: Result<Json, RubError>) -> (v: Result<Json, Interrupt>)
    ensures
        value_result(v) == plain_result(json_result(r)),
{
    match r {
        Ok(j) => Ok(j),
        Err(e) => Err(Interrupt::Failed(e)),
    }
}

/// What stands in for a field that is not there.
pub open spec fn missing_field(
    field_name: Seq<char>,
    required: bool,
    default: Option<JsonModel>,
) -> Result<JsonModel, ErrorModel> {
    match default {
        Some(v) => Ok(v),
        None => if required {
            Err(
                error::with_context(
                    ErrorCode::ElementNotFound,
                    "extract field '"@ + field_name + "' did not resolve to any element"@,
                    json::object1("field"@, JsonModel::Text(field_name)),
                ),
            )
        } else {
            Ok(JsonModel::Null)
        },
    }
}

pub fn resolve_missing_field(field_name: &str, required: bool, default: Option<&Json>) -> (r:
    Result<Json, RubError>)
    ensures
        json_result(r) == missing_field(field_name@, required, json::opt_model(default)),
{
    if let Some(v) = default {
        return Ok(v.clone());
    }
    if required {
        let message = text::cat3(
            "extract field '",
            field_name,
            "' did not resolve to any element",
        );
        let context = JsonObject::new().with("field", json::text_value(field_name));
        return Err(
            RubError::domain_with_context(
                ErrorCode::ElementNotFound,
                message.as_str(),
                Json::Object(context),
            ),
        );
    }
    Ok(Json::Null)
}

/// A value with its texts replaced as a map says.
pub open spec fn mapped(v: JsonModel, map: Map<Seq<char>, JsonModel>) -> JsonModel
    decreases v, 0int,
{
    match v {
        JsonModel::Array(items) => JsonModel::Array(
            mapped_items(items, items.len() as int, map),
        ),
        JsonModel::Text(s) => match map.get(s) {
            Some(w) => w,
            None => v,
        },
        _ => v,
    }
}

pub open spec fn mapped_items(
    items: Seq<JsonModel>,
    n: int,
    map: Map<Seq<char>, JsonModel>,
) -> Seq<JsonModel>
    decreases items, n,
{
    if n <= 0 || n > items.len() {
        seq![]
    } else {
        mapped_items(items, n - 1, map).push(mapped(items[n - 1], map))
    }
}

/// Replaces the texts of a value as a map says.
pub fn apply_map(value: &Json, map: &JsonObject) -> (r: Json)
    ensures
        r@ == mapped(value@, map@),
    decreases value,
{
    match value {
        Json::Array(v) => {
            let ghost items = json::items_model(v@);
            proof {
                json::items_model_len(v@);
            }
            let mut out: Vec<Json> = Vec::new();
            let mut i: usize = 0;
            assert(json::items_model(out@) =~= mapped_items(items, 0, map@));
            while i < v.len()
                invariant
                    i <= v@.len(),
                    *value == Json::Array(*v),
                    items == json::items_model(v@),
                    items.len() == v@.len(),
                    json::items_model(out@) == mapped_items(items, i as int, map@),
                decreases v@.len() - i,
            {
                proof {
                    json::items_model_at(v@, i as int);
                }
                let ghost before = out@;
                assert(decreases_to!(*value => value->Array_0));
                assert(decreases_to!(v => v@));
                assert(decreases_to!(v@ => v@[i as int]));
                let item = apply_map(&v[i], map);
                out.push(item);
                assert(out@.drop_last() =~= before);
                i += 1;
            }
            Json::Array(out)
        },
        Json::Text(s) => match map.get(s.as_str()) {
            Some(w) => w.clone(),
            None => value.clone(),
        },
        _ => value.clone(),
    }
}

pub open spec fn transform_context(
    field_name: Seq<char>,
    transform: ExtractTransform,
    value: JsonModel,
) -> JsonModel {
    JsonModel::Object(
        Map::<Seq<char>, JsonModel>::empty().insert("field"@, JsonModel::Text(field_name)).insert(
            "transform"@,
            JsonModel::Text(transform_name(transform)),
        ).insert("value"@, value),
    )
}

/// An error of a transform: `what` says what went wrong.
pub open spec fn transform_error(
    field_name: Seq<char>,
    transform: ExtractTransform,
    what: Seq<char>,
    value: JsonModel,
) -> ErrorModel {
    error::with_context(
        ErrorCode::InvalidInput,
        "extract field '"@ + field_name + "' transform '"@ + transform_name(transform) + what,
        transform_context(field_name, transform, value),
    )
}

fn transform_error_value(
    field_name: &str,
    transform: ExtractTransform,
    what: &str,
    value: Json,
) -> (r: RubError)
    ensures
        r@ == transform_error(field_name@, transform, what@, value@),
{
    let message = text::cat5(
        "extract field '",
        field_name,
        "' transform '",
        transform.as_str(),
        what,
    );
    let context = JsonObject::new().with("field", json::text_value(field_name)).with(
        "transform",
        json::text_value(transform.as_str()),
    ).with("value", value);
    RubError::domain_with_context(
        ErrorCode::InvalidInput,
        message.as_str(),
        Json::Object(context),
    )
}

/// The error for a text that cannot be read as what a transform makes of it.
pub open spec fn parse_error(
    field_name: Seq<char>,
    transform: ExtractTransform,
    s: Seq<char>,
    cause: Seq<char>,
) -> ErrorModel {
    transform_error(
        field_name,
        transform,
        "' failed for '"@ + s + "': "@ + cause,
        JsonModel::Text(s),
    )
}

pub fn transform_parse_error(
    field_name: &str,
    transform: ExtractTransform,
    s: &str,
    cause: &str,
) -> (r: RubError)
    ensures
        r@ == parse_error(field_name@, transform, s@, cause@),
{
    let head = text::cat3("' failed for '", s, "': ");
    let what = text::cat2(head.as_str(), cause);
    transform_error_value(field_name, transform, what.as_str(), json::text_value(s))
}

/// The truth value that a text says.
pub open spec fn truth_of(s: Seq<char>) -> Option<bool> {
    if text::same_ignoring_ascii_case(s, "true"@) || text::same_ignoring_ascii_case(s, "yes"@)
        || text::same_ignoring_ascii_case(s, "1"@) {
        Some(true)
    } else if text::same_ignoring_ascii_case(s, "false"@) || text::same_ignoring_ascii_case(
        s,
        "no"@,
    ) || text::same_ignoring_ascii_case(s, "0"@) {
        Some(false)
    } else {
        None
    }
}

fn truth_in(s: &str) -> (r: Option<bool>)
    ensures
        r == truth_of(s@),
{
    if text::eq_ignore_ascii_case(s, "true") || text::eq_ignore_ascii_case(s, "yes")
        || text::eq_ignore_ascii_case(s, "1") {
        Some(true)
    } else if text::eq_ignore_ascii_case(s, "false") || text::eq_ignore_ascii_case(s, "no")
        || text::eq_ignore_ascii_case(s, "0") {
        Some(false)
    } else {
        None
    }
}

/// What a transform makes of a text. Blanks around the text do not count.
pub open spec fn text_transformed(
    field_name: Seq<char>,
    s: Seq<char>,
    transform: ExtractTransform,
    floats: Map<Seq<char>, ReadingModel>,
) -> Result<JsonModel, InterruptModel> {
    let core = text::trimmed(s);
    match transform {
        ExtractTransform::Trim => Ok(JsonModel::Text(core)),
        ExtractTransform::Lowercase => Ok(JsonModel::Text(text::lowercase(core))),
        ExtractTransform::Uppercase => Ok(JsonModel::Text(text::uppercase(core))),
        ExtractTransform::ParseInt => match text::int_read(core) {
            Ok(n) => Ok(JsonModel::Number(NumberModel::Int(n))),
            Err(e) => Err(
                InterruptModel::Failed(
                    parse_error(field_name, transform, s, text::int_error_text(e)),
                ),
            ),
        },
        ExtractTransform::ParseFloat => match floats.get(core) {
            None => Err(InterruptModel::ReadFloat(core)),
            Some(ReadingModel::Finite(n)) => Ok(JsonModel::Number(NumberModel::Float(n))),
            Some(ReadingModel::NonFinite) => Err(
                InterruptModel::Failed(
                    transform_error(
                        field_name,
                        transform,
                        "' produced a non-finite number"@,
                        JsonModel::Text(s),
                    ),
                ),
            ),
            Some(ReadingModel::Invalid(cause)) => Err(
                InterruptModel::Failed(parse_error(field_name, transform, s, cause)),
            ),
        },
        ExtractTransform::ParseBool => match truth_of(core) {
            Some(b) => Ok(JsonModel::Bool(b)),
            None => Err(
                InterruptModel::Failed(
                    transform_error(
                        field_name,
                        transform,
                        "' could not parse '"@ + s + "' as boolean"@,
                        JsonModel::Text(s),
                    ),
                ),
            ),
        },
    }
}

pub fn apply_string_transform(
    field_name: &str,
    s: &str,
    transform: ExtractTransform,
    floats: &FloatReadings,
) -> (r: Result<Json, Interrupt>)
    ensures
        value_result(r) == text_transformed(field_name@, s@, transform, floats@),
{
    let core = text::trim(s);
    match transform {
        ExtractTransform::Trim => Ok(json::text_value(core)),
        ExtractTransform::Lowercase => Ok(Json::Text(text::to_lowercase(core))),
        ExtractTransform::Uppercase => Ok(Json::Text(text::to_uppercase(core))),
        ExtractTransform::ParseInt => match text::parse_int(core) {
            Ok(n) => Ok(Json::Number(JsonNumber::NegInt(n))),
            Err(e) => Err(
                Interrupt::Failed(
                    transform_parse_error(field_name, transform, s, text::int_error_str(e)),
                ),
            ),
        },
        ExtractTransform::ParseFloat => match floats.get(core) {
            None => Err(Interrupt::ReadFloat(core.to_owned())),
            Some(FloatReading::Finite(n)) => Ok(json::float_value(n.as_str())),
            Some(FloatReading::NonFinite) => Err(
                Interrupt::Failed(
                    transform_error_value(
                        field_name,
                        transform,
                        "' produced a non-finite number",
                        json::text_value(s),
                    ),
                ),
            ),
            Some(FloatReading::Invalid(cause)) => Err(
                Interrupt::Failed(
                    transform_parse_error(field_name, transform, s, cause.as_str()),
                ),
            ),
        },
        ExtractTransform::ParseBool => match truth_in(core) {
            Some(b) => Ok(Json::Bool(b)),
            None => {
                let what = text::cat3("' could not parse '", s, "' as boolean");
                Err(
                    Interrupt::Failed(
                        transform_error_value(
                            field_name,
                            transform,
                            what.as_str(),
                            json::text_value(s),
                        ),
                    ),
                )
            },
        },
    }
}

/// What a transform makes of a value: of each item of an array, of a text, and
/// of what is already there.
pub open spec fn transformed(
    field_name: Seq<char>,
    v: JsonModel,
    transform: ExtractTransform,
    floats: Map<Seq<char>, ReadingModel>,
) -> Result<JsonModel, InterruptModel>
    decreases v, 0int,
{
    match v {
        JsonModel::Array(items) => match transformed_items(
            field_name,
            items,
            items.len() as int,
            transform,
            floats,
        ) {
            Ok(done) => Ok(JsonModel::Array(done)),
            Err(e) => Err(e),
        },
        JsonModel::Text(s) => text_transformed(field_name, s, transform, floats),
        _ => if v is Bool && transform == ExtractTransform::ParseBool || v is Number && (transform
            == ExtractTransform::ParseInt || transform == ExtractTransform::ParseFloat) {
            Ok(v)
        } else {
            Err(
                InterruptModel::Failed(
                    transform_error(
                        field_name,
                        transform,
                        "' requires string-like input"@,
                        v,
                    ),
                ),
            )
        },
    }
}

pub open spec fn transformed_items(
    field_name: Seq<char>,
    items: Seq<JsonModel>,
    n: int,
    transform: ExtractTransform,
    floats: Map<Seq<char>, ReadingModel>,
) -> Result<Seq<JsonModel>, InterruptModel>
    decreases items, n,
{
    if n <= 0 || n > items.len() {
        Ok(seq![])
    } else {
        match transformed_items(field_name, items, n - 1, transform, floats) {
            Err(e) => Err(e),
            Ok(front) => match transformed(field_name, items[n - 1], transform, floats) {
                Err(e) => Err(e),
                Ok(v) => Ok(front.push(v)),
            },
        }
    }
}

proof fn transformed_items_failed(
    field_name: Seq<char>,
    items: Seq<JsonModel>,
    k: int,
    n: int,
    transform: ExtractTransform,
    floats: Map<Seq<char>, ReadingModel>,
)
    requires
        0 <= k <= n <= items.len(),
        transformed_items(field_name, items, k, transform, floats) is Err,
    ensures
        transformed_items(field_name, items, n, transform, floats) == transformed_items(
            field_name,
            items,
            k,
            transform,
            floats,
        ),
    decreases n - k,
{
    if k < n {
        transformed_items_failed(field_name, items, k, n - 1, transform, floats);
    }
}

pub fn apply_transform(
    field_name: &str,
    value: &Json,
    transform: ExtractTransform,
    floats: &FloatReadings,
) -> (r: Result<Json, Interrupt>)
    ensures
        value_result(r) == transformed(field_name@, value@, transform, floats@),
    decreases value,
{
    match value {
        Json::Array(v) => {
            let ghost items = json::items_model(v@);
            proof {
                json::items_model_len(v@);
            }
            let mut out: Vec<Json> = Vec::new();
            let mut i: usize = 0;
            assert(json::items_model(out@) =~= seq![]);
            while i < v.len()
                invariant
                    i <= v@.len(),
                    *value == Json::Array(*v),
                    items == json::items_model(v@),
                    items.len() == v@.len(),
                    transformed_items(field_name@, items, i as int, transform, floats@) == Ok::<
                        Seq<JsonModel>,
                        InterruptModel,
                    >(json::items_model(out@)),
                decreases v@.len() - i,
            {
                proof {
                    json::items_model_at(v@, i as int);
                }
                let ghost before = out@;
                assert(decreases_to!(*value => value->Array_0));
                assert(decreases_to!(v => v@));
                assert(decreases_to!(v@ => v@[i as int]));
                match apply_transform(field_name, &v[i], transform, floats) {
                    Ok(item) => {
                        out.push(item);
                        assert(out@.drop_last() =~= before);
                    },
                    Err(e) => {
                        proof {
                            transformed_items_failed(
                                field_name@,
                                items,
                                i + 1,
                                items.len() as int,
                                transform,
                                floats@,
                            );
                        }
                        return Err(e);
                    },
                }
                i += 1;
            }
            Ok(Json::Array(out))
        },
        Json::Text(s) => apply_string_transform(field_name, s.as_str(), transform, floats),
        _ => {
            let kept = match value {
                Json::Bool(_) => matches!(transform, ExtractTransform::ParseBool),
                Json::Number(_) => matches!(
                    transform,
                    ExtractTransform::ParseInt | ExtractTransform::ParseFloat
                ),
                _ => false,
            };
            if kept {
                return Ok(value.clone());
            }
            Err(
                Interrupt::Failed(
                    transform_error_value(
                        field_name,
                        transform,
                        "' requires string-like input",
                        value.clone(),
                    ),
                ),
            )
        },
    }
}

/// Whether a value is of a type.
pub open spec fn has_type(v: JsonModel, t: ExtractValueType) -> bool {
    match t {
        ExtractValueType::Text => v is Text,
        ExtractValueType::Number => v is Number,
        ExtractValueType::Boolean => v is Bool,
        ExtractValueType::Array => v is Array,
        ExtractValueType::Object => v is Object,
    }
}

pub open spec fn type_error(field_name: Seq<char>, v: JsonModel, t: ExtractValueType) -> ErrorModel {
    error::with_context(
        ErrorCode::InvalidInput,
        "extract field '"@ + field_name + "' expected type '"@ + value_type_name(t) + "'"@,
        JsonModel::Object(
            Map::<Seq<char>, JsonModel>::empty().insert(
                "field"@,
                JsonModel::Text(field_name),
            ).insert("expected_type"@, JsonModel::Text(value_type_name(t))).insert(
                "actual_value"@,
                v,
            ),
        ),
    )
}

pub fn validate_type(field_name: &str, value: &Json, value_type: ExtractValueType) -> (r: Result<
    (),
    RubError,
>)
    ensures
        match r {
            Ok(_) => has_type(value@, value_type),
            Err(e) => !has_type(value@, value_type) && e@ == type_error(
                field_name@,
                value@,
                value_type,
            ),
        },
{
    let fits = match value_type {
        ExtractValueType::Text => matches!(value, Json::Text(_)),
        ExtractValueType::Number => matches!(value, Json::Number(_)),
        ExtractValueType::Boolean => matches!(value, Json::Bool(_)),
        ExtractValueType::Array => matches!(value, Json::Array(_)),
        ExtractValueType::Object => matches!(value, Json::Object(_)),
    };
    if fits {
        return Ok(());
    }
    let message = text::cat5(
        "extract field '",
        field_name,
        "' expected type '",
        value_type.as_str(),
        "'",
    );
    let context = JsonObject::new().with("field", json::text_value(field_name)).with(
        "expected_type",
        json::text_value(value_type.as_str()),
    ).with("actual_value", value.clone());
    Err(
        RubError::domain_with_context(
            ErrorCode::InvalidInput,
            message.as_str(),
            Json::Object(context),
        ),
    )
}

/// The value with its type checked.
pub open spec fn checked(
    field_name: Seq<char>,
    v: JsonModel,
    value_type: Option<ExtractValueType>,
) -> Result<JsonModel, InterruptModel> {
    match value_type {
        Some(t) => if has_type(v, t) {
            Ok(v)
        } else {
            Err(InterruptModel::Failed(type_error(field_name, v, t)))
        },
        None => Ok(v),
    }
}

/// What becomes of an extracted value: a default for null, then the map, the
/// transform and the type. Null without a default stays null.
pub open spec fn postprocessed(
    field_name: Seq<char>,
    v: JsonModel,
    value_type: Option<ExtractValueType>,
    default: Option<JsonModel>,
    map: Map<Seq<char>, JsonModel>,
    transform: Option<ExtractTransform>,
    floats: Map<Seq<char>, ReadingModel>,
) -> Result<JsonModel, InterruptModel> {
    if v is Null && default is None {
        Ok(v)
    } else {
        let start = if v is Null {
            default->0
        } else {
            v
        };
        let named = mapped(start, map);
        match transform {
            Some(t) => match transformed(field_name, named, t, floats) {
                Ok(w) => checked(field_name, w, value_type),
                Err(e) => Err(e),
            },
            None => checked(field_name, named, value_type),
        }
    }
}

/// A map without an entry changes nothing.
pub proof fn mapped_by_nothing(v: JsonModel, map: Map<Seq<char>, JsonModel>)
    requires
        map == Map::<Seq<char>, JsonModel>::empty(),
    ensures
        mapped(v, map) == v,
    decreases v, 0int,
{
    if v is Array {
        let items = v->Array_0;
        mapped_items_by_nothing(items, items.len() as int, map);
        assert(items.take(items.len() as int) =~= items);
    }
}

proof fn mapped_items_by_nothing(items: Seq<JsonModel>, n: int, map: Map<Seq<char>, JsonModel>)
    requires
        map == Map::<Seq<char>, JsonModel>::empty(),
        0 <= n <= items.len(),
    ensures
        mapped_items(items, n, map) == items.take(n),
    decreases items, n,
{
    if n > 0 {
        mapped_items_by_nothing(items, n - 1, map);
        assert(decreases_to!(items => items[n - 1]));
        mapped_by_nothing(items[n - 1], map);
        assert(items.take(n) =~= items.take(n - 1).push(items[n - 1]));
    } else {
        assert(items.take(0) =~= seq![]);
    }
}

pub fn apply_postprocess(
    field_name: &str,
    value: Json,
    value_type: Option<ExtractValueType>,
    default: Option<&Json>,
    map: &JsonObject,
    transform: Option<ExtractTransform>,
    floats: &FloatReadings,
) -> (r: Result<Json, Interrupt>)
    ensures
        value_result(r) == postprocessed(
            field_name@,
            value@,
            value_type,
            json::opt_model(default),
            map@,
            transform,
            floats@,
        ),
{
    let mut current = value;
    if matches!(current, Json::Null) {
        match default {
            Some(d) => {
                current = d.clone();
            },
            None => return Ok(current),
        }
    }
    if map.is_empty() {
        proof {
            mapped_by_nothing(current@, map@);
        }
    } else {
        current = apply_map(&current, map);
    }
    if let Some(t) = transform {
        current = match apply_transform(field_name, &current, t, floats) {
            Ok(v) => v,
            Err(e) => return Err(e),
        };
    }
    if let Some(t) = value_type {
        match validate_type(field_name, &current, t) {
            Ok(_) => {},
            Err(e) => return Err(Interrupt::Failed(e)),
        }
    }
    Ok(current)
}

/// A value that passed a type check is null or of that type.
pub proof fn checked_values_have_their_type(
    field_name: Seq<char>,
    v: JsonModel,
    t: ExtractValueType,
    default: Option<JsonModel>,
    map: Map<Seq<char>, JsonModel>,
    transform: Option<ExtractTransform>,
    floats: Map<Seq<char>, ReadingModel>,
)
    requires
        postprocessed(field_name, v, Some(t), default, map, transform, floats) is Ok,
    ensures
        ({
            let r = postprocessed(field_name, v, Some(t), default, map, transform, floats)->Ok_0;
            has_type(r, t) || (r is Null && v is Null && default is None)
        }),
{
}

/// Trimming twice is trimming once.
pub proof fn trim_transform_is_idempotent(
    field_name: Seq<char>,
    s: Seq<char>,
    floats: Map<Seq<char>, ReadingModel>,
)
    ensures
        ({
            let once = text_transformed(field_name, s, ExtractTransform::Trim, floats);
            &&& once is Ok
            &&& transformed(field_name, once->Ok_0, ExtractTransform::Trim, floats) == once
        }),
{
    text::trimmed_idempotent(s);
}

/// `parse_bool` reads a text as true exactly where it is "true", "yes" or "1", as
/// false exactly where it is "false", "no" or "0", and fails on any other. Blanks
/// around the text and the case of its letters do not count.
pub proof fn parse_bool_reads_truth(
    field_name: Seq<char>,
    s: Seq<char>,
    floats: Map<Seq<char>, ReadingModel>,
)
    ensures
        ({
            let core = text::trimmed(s);
            let r = transformed(
                field_name,
                JsonModel::Text(s),
                ExtractTransform::ParseBool,
                floats,
            );
            let yes = text::same_ignoring_ascii_case(core, "true"@)
                || text::same_ignoring_ascii_case(core, "yes"@) || text::same_ignoring_ascii_case(
                core,
                "1"@,
            );
            let no = text::same_ignoring_ascii_case(core, "false"@)
                || text::same_ignoring_ascii_case(core, "no"@) || text::same_ignoring_ascii_case(
                core,
                "0"@,
            );
            &&& yes <==> r == Ok::<JsonModel, InterruptModel>(JsonModel::Bool(true))
            &&& no <==> r == Ok::<JsonModel, InterruptModel>(JsonModel::Bool(false))
            &&& !yes && !no <==> r is Err
            &&& r is Err ==> (r matches Err(InterruptModel::Failed(ErrorModel::Domain(e))) && e.code
                == ErrorCode::InvalidInput)
        }),
{
    reveal_strlit("true");
    reveal_strlit("yes");
    reveal_strlit("1");
    reveal_strlit("false");
    reveal_strlit("no");
    reveal_strlit("0");
    let core = text::trimmed(s);
    if text::same_ignoring_ascii_case(core, "0"@) {
        assert(text::ascii_fold(core[0]) == text::ascii_fold('0'));
    }
    if text::same_ignoring_ascii_case(core, "1"@) {
        assert(text::ascii_fold(core[0]) == text::ascii_fold('1'));
    }
}

/// `parse_int` reads a text of decimal digits as the number that they write, with
/// or without a sign before them, and what it reads is no other number.
pub proof fn parse_int_reads_decimals(
    field_name: Seq<char>,
    n: nat,
    floats: Map<Seq<char>, ReadingModel>,
)
    requires
        n <= i64::MAX,
    ensures
        transformed(
            field_name,
            JsonModel::Text(text::decimal(n)),
            ExtractTransform::ParseInt,
            floats,
        ) == Ok::<JsonModel, InterruptModel>(JsonModel::Number(NumberModel::Int(n as int))),
        transformed(
            field_name,
            JsonModel::Text("-"@ + text::decimal(n)),
            ExtractTransform::ParseInt,
            floats,
        ) == Ok::<JsonModel, InterruptModel>(JsonModel::Number(NumberModel::Int(-n))),
{
    text::decimals_have_no_blanks(n);
    text::decimal_reads_back(n);
    text::negated_decimal_reads_back(n);
}

/// Lower case leaves no upper-case ASCII letter in an ASCII text, upper case no
/// lower-case one, and neither changes anything else: the results are the trimmed
/// text up to the case of its letters.
pub proof fn case_transforms_change_case_alone(
    field_name: Seq<char>,
    s: Seq<char>,
    floats: Map<Seq<char>, ReadingModel>,
)
    requires
        text::ascii(s),
    ensures
        ({
            let core = text::trimmed(s);
            let low = transformed(
                field_name,
                JsonModel::Text(s),
                ExtractTransform::Lowercase,
                floats,
            );
            let high = transformed(
                field_name,
                JsonModel::Text(s),
                ExtractTransform::Uppercase,
                floats,
            );
            &&& low matches Ok(JsonModel::Text(t)) && text::same_ignoring_ascii_case(t, core)
                && forall|i: int| 0 <= i < t.len() ==> !('A' <= #[trigger] t[i] <= 'Z')
            &&& high matches Ok(JsonModel::Text(t)) && text::same_ignoring_ascii_case(t, core)
                && forall|i: int| 0 <= i < t.len() ==> !('a' <= #[trigger] t[i] <= 'z')
        }),
{
    let core = text::trimmed(s);
    text::trimming_takes_off_blanks(s);
    assert(text::ascii(core)) by {
        let (i, j) = choose|i: int, j: int|
            0 <= i <= j <= s.len() && core == #[trigger] s.subrange(i, j);
        assert forall|k: int| 0 <= k < core.len() implies (#[trigger] core[k]) as int <= 127 by {
            assert(core[k] == s[i + k]);
        }
    }
}

/// A transform keeps what is already of its kind, and fails on any other value
/// that is neither a text nor an array.
pub proof fn transforms_keep_their_own_kind(
    field_name: Seq<char>,
    v: JsonModel,
    t: ExtractTransform,
    floats: Map<Seq<char>, ReadingModel>,
)
    requires
        !(v is Text) && !(v is Array),
    ensures
        transformed(field_name, v, t, floats) is Ok <==> {
            ||| v is Bool && t == ExtractTransform::ParseBool
            ||| v is Number && (t == ExtractTransform::ParseInt || t == ExtractTransform::ParseFloat)
        },
        transformed(field_name, v, t, floats) is Ok ==> transformed(field_name, v, t, floats)->Ok_0
            == v,
{
}

/// `parse_float` makes the number that the text was read as, with the text that
/// JSON has for it, and asks for a reading where there is none yet.
pub proof fn parse_float_goes_by_the_reading(
    field_name: Seq<char>,
    s: Seq<char>,
    floats: Map<Seq<char>, ReadingModel>,
    reading: ReadingModel,
)
    ensures
        ({
            let core = text::trimmed(s);
            let t = ExtractTransform::ParseFloat;
            let v = JsonModel::Text(s);
            let asked = transformed(field_name, v, t, floats.remove(core));
            let read = transformed(field_name, v, t, floats.insert(core, reading));
            &&& asked == Err::<JsonModel, InterruptModel>(InterruptModel::ReadFloat(core))
            &&& reading matches ReadingModel::Finite(n) ==> read == Ok::<JsonModel, InterruptModel>(
                JsonModel::Number(NumberModel::Float(n)),
            )
            &&& !(reading is Finite) ==> (read matches Err(InterruptModel::Failed(
                ErrorModel::Domain(e),
            )) && e.code == ErrorCode::InvalidInput)
        }),
{
}

proof fn transformed_items_one_for_one(
    field_name: Seq<char>,
    items: Seq<JsonModel>,
    n: int,
    t: ExtractTransform,
    floats: Map<Seq<char>, ReadingModel>,
)
    requires
        0 <= n <= items.len(),
    ensures
        match transformed_items(field_name, items, n, t, floats) {
            Ok(done) => done.len() == n && forall|i: int|
                0 <= i < n ==> transformed(field_name, #[trigger] items[i], t, floats) == Ok::<
                    JsonModel,
                    InterruptModel,
                >(done[i]),
            Err(e) => exists|k: int| #![trigger items[k]]
                0 <= k < n && transformed(field_name, items[k], t, floats) == Err::<
                    JsonModel,
                    InterruptModel,
                >(e) && forall|i: int|
                    0 <= i < k ==> transformed(field_name, #[trigger] items[i], t, floats) is Ok,
        },
    decreases n,
{
    if n > 0 {
        transformed_items_one_for_one(field_name, items, n - 1, t, floats);
        assert(items[n - 1] == items[n - 1]);
    }
}

/// A transform of an array is that of each of its items, in order, and stops at the
/// first that fails.
pub proof fn arrays_are_transformed_item_by_item(
    field_name: Seq<char>,
    items: Seq<JsonModel>,
    t: ExtractTransform,
    floats: Map<Seq<char>, ReadingModel>,
)
    ensures
        match transformed(field_name, JsonModel::Array(items), t, floats) {
            Ok(v) => v matches JsonModel::Array(done) && done.len() == items.len() && forall|
                i: int,
            |
                0 <= i < items.len() ==> transformed(field_name, #[trigger] items[i], t, floats)
                    == Ok::<JsonModel, InterruptModel>(done[i]),
            Err(e) => exists|k: int| #![trigger items[k]]
                0 <= k < items.len() && transformed(field_name, items[k], t, floats) == Err::<
                    JsonModel,
                    InterruptModel,
                >(e) && forall|i: int|
                    0 <= i < k ==> transformed(field_name, #[trigger] items[i], t, floats) is Ok,
        },
{
    transformed_items_one_for_one(field_name, items, items.len() as int, t, floats);
}

proof fn mapped_items_one_for_one(
    items: Seq<JsonModel>,
    n: int,
    map: Map<Seq<char>, JsonModel>,
)
    requires
        0 <= n <= items.len(),
    ensures
        mapped_items(items, n, map).len() == n,
        forall|i: int|
            0 <= i < n ==> #[trigger] mapped_items(items, n, map)[i] == mapped(items[i], map),
    decreases n,
{
    if n > 0 {
        mapped_items_one_for_one(items, n - 1, map);
    }
}

/// A map replaces a text that it names by what it names it for, and the items of an
/// array one by one; it leaves everything else as it is.
pub proof fn maps_replace_the_texts_they_name(v: JsonModel, map: Map<Seq<char>, JsonModel>)
    ensures
        v matches JsonModel::Text(s) ==> mapped(v, map) == if map.dom().contains(s) {
            map[s]
        } else {
            v
        },
        v matches JsonModel::Array(items) ==> (mapped(v, map) matches JsonModel::Array(done)
            && done.len() == items.len() && forall|i: int|
            0 <= i < items.len() ==> #[trigger] done[i] == mapped(items[i], map)),
        !(v is Text) && !(v is Array) ==> mapped(v, map) == v,
{
    if let JsonModel::Array(items) = v {
        mapped_items_one_for_one(items, items.len() as int, map);
    }
}

/// A type check passes exactly the values of its type: texts, numbers, truth
/// values, arrays and objects.
pub proof fn types_tell_values_apart(v: JsonModel)
    ensures
        has_type(v, ExtractValueType::Text) <==> v is Text,
        has_type(v, ExtractValueType::Number) <==> v is Number,
        has_type(v, ExtractValueType::Boolean) <==> v is Bool,
        has_type(v, ExtractValueType::Array) <==> v is Array,
        has_type(v, ExtractValueType::Object) <==> v is Object,
        forall|a: ExtractValueType, b: ExtractValueType| #[trigger]
            has_type(v, a) && #[trigger] has_type(v, b) ==> a == b,
        (exists|t: ExtractValueType| #[trigger] has_type(v, t)) <==> !(v is Null),
{
    match v {
        JsonModel::Text(_) => {
            assert(has_type(v, ExtractValueType::Text));
        },
        JsonModel::Number(_) => {
            assert(has_type(v, ExtractValueType::Number));
        },
        JsonModel::Bool(_) => {
            assert(has_type(v, ExtractValueType::Boolean));
        },
        JsonModel::Array(_) => {
            assert(has_type(v, ExtractValueType::Array));
        },
        JsonModel::Object(_) => {
            assert(has_type(v, ExtractValueType::Object));
        },
        JsonModel::Null => {},
    }
}

/// A default stands in for null and for nothing else. A value goes through the map
/// first, then through the transform, and its type is checked last.
pub proof fn values_go_through_default_map_transform_and_type(
    field_name: Seq<char>,
    v: JsonModel,
    d: JsonModel,
    value_type: Option<ExtractValueType>,
    map: Map<Seq<char>, JsonModel>,
    transform: Option<ExtractTransform>,
    floats: Map<Seq<char>, ReadingModel>,
)
    ensures
        ({
            let with = |x: JsonModel, default: Option<JsonModel>|
                postprocessed(field_name, x, value_type, default, map, transform, floats);
            let null = JsonModel::Null;
            &&& with(null, None) == Ok::<JsonModel, InterruptModel>(null)
            &&& !(d is Null) ==> with(null, Some(d)) == with(d, None)
            &&& !(v is Null) ==> with(v, Some(d)) == with(v, None)
            &&& !(v is Null) && transform is None && value_type is None ==> with(v, None) == Ok::<
                JsonModel,
                InterruptModel,
            >(mapped(v, map))
            &&& !(v is Null) && value_type is None && transform is Some ==> with(v, None)
                == transformed(field_name, mapped(v, map), transform->0, floats)
            &&& !(v is Null) && value_type is Some ==> {
                let before = postprocessed(field_name, v, None, None, map, transform, floats);
                match before {
                    Ok(w) => if has_type(w, value_type->0) {
                        with(v, None) == before
                    } else {
                        with(v, None) matches Err(InterruptModel::Failed(ErrorModel::Domain(e)))
                            && e.code == ErrorCode::InvalidInput
                    },
                    Err(_) => with(v, None) == before,
                }
            }
        }),
{
}

/// A text is read as an integer exactly where it holds digits behind an optional sign whose
/// number fits in 64 bits; blanks around it do not count.
pub proof fn parse_int_reads_integers_alone(
    field_name: Seq<char>,
    s: Seq<char>,
    d: Seq<char>,
    floats: Map<Seq<char>, ReadingModel>,
)
    ensures
        ({
            let r = transformed(
                field_name,
                JsonModel::Text(s),
                ExtractTransform::ParseInt,
                floats,
            );
            let core = text::trimmed(s);
            let all = d.len() > 0 && forall|i: int| 0 <= i < d.len() ==> '0' <= #[trigger] d[i] <= '9';
            let n = text::digits_value(d, d.len() as int);
            let bare = core == d && (d.len() == 0 || (d[0] != '+' && d[0] != '-'));
            &&& bare || core == seq!['+'] + d ==> (r is Ok <==> all && n <= i64::MAX)
            &&& bare || core == seq!['+'] + d ==> (r matches Ok(v) ==> v == JsonModel::Number(
                NumberModel::Int(n),
            ))
            &&& core == seq!['-'] + d ==> (r is Ok <==> all && -n >= i64::MIN)
            &&& core == seq!['-'] + d ==> (r matches Ok(v) ==> v == JsonModel::Number(
                NumberModel::Int(-n),
            ))
            &&& r matches Err(i) ==> (i matches InterruptModel::Failed(ErrorModel::Domain(e))
                && e.code == ErrorCode::InvalidInput)
        }),
{
    text::integers_are_digits_behind_a_sign(d);
}

/// An error of a transform or of a type names the field, what was asked for and the value.
pub proof fn field_errors_name_field_and_value(
    field_name: Seq<char>,
    transform: ExtractTransform,
    what: Seq<char>,
    s: Seq<char>,
    v: JsonModel,
    t: ExtractValueType,
)
    ensures
        ({
            &&& transform_error(field_name, transform, what, v) matches ErrorModel::Domain(e)
            &&& e.code == ErrorCode::InvalidInput
            &&& e.context matches Some(c)
            &&& json::member(c, "field"@) == Some(JsonModel::Text(field_name))
            &&& json::member(c, "transform"@) == Some(JsonModel::Text(transform_name(transform)))
            &&& json::member(c, "value"@) == Some(v)
        }),
        ({
            &&& parse_error(field_name, transform, s, what) matches ErrorModel::Domain(e)
            &&& e.code == ErrorCode::InvalidInput
            &&& e.context matches Some(c)
            &&& json::member(c, "field"@) == Some(JsonModel::Text(field_name))
            &&& json::member(c, "transform"@) == Some(JsonModel::Text(transform_name(transform)))
            &&& json::member(c, "value"@) == Some(JsonModel::Text(s))
        }),
        ({
            &&& type_error(field_name, v, t) matches ErrorModel::Domain(e)
            &&& e.code == ErrorCode::InvalidInput
            &&& e.context matches Some(c)
            &&& json::member(c, "field"@) == Some(JsonModel::Text(field_name))
            &&& json::member(c, "expected_type"@) == Some(JsonModel::Text(value_type_name(t)))
            &&& json::member(c, "actual_value"@) == Some(v)
        }),
{
    reveal_strlit("field");
    reveal_strlit("transform");
    reveal_strlit("value");
    assert("field"@.len() != "transform"@.len());
    assert("field"@[0] != "value"@[0]);
    assert("transform"@.len() != "value"@.len());
    reveal_strlit("field");
    reveal_strlit("expected_type");
    reveal_strlit("actual_value");
    assert("field"@.len() != "expected_type"@.len());
    assert("field"@.len() != "actual_value"@.len());
    assert("expected_type"@.len() != "actual_value"@.len());
}

/// A field that is not there has its default; without one it is null where it need not be
/// there, and else an error.
pub proof fn defaults_stand_in_for_missing_fields(
    field_name: Seq<char>,
    required: bool,
    default: Option<JsonModel>,
)
    ensures
        default matches Some(d) ==> missing_field(field_name, required, default) == Ok::<
            JsonModel,
            ErrorModel,
        >(d),
        default is None && !required ==> missing_field(field_name, required, default) == Ok::<
            JsonModel,
            ErrorModel,
        >(JsonModel::Null),
        default is None && required ==> (missing_field(field_name, required, default) matches Err(
            ErrorModel::Domain(e),
        ) && e.code == ErrorCode::ElementNotFound),
{
}

/// The transforms go by different names.
pub proof fn transforms_are_told_apart(a: ExtractTransform, b: ExtractTransform)
    ensures
        transform_name(a) == transform_name(b) <==> a == b,
{
    reveal_strlit("trim");
    reveal_strlit("lowercase");
    reveal_strlit("uppercase");
    reveal_strlit("parse_int");
    reveal_strlit("parse_float");
    reveal_strlit("parse_bool");
    assert("trim"@.len() != "lowercase"@.len());
    assert("trim"@.len() != "uppercase"@.len());
    assert("trim"@.len() != "parse_int"@.len());
    assert("trim"@.len() != "parse_float"@.len());
    assert("trim"@.len() != "parse_bool"@.len());
    assert("lowercase"@[0] != "uppercase"@[0]);
    assert("lowercase"@[0] != "parse_int"@[0]);
    assert("lowercase"@.len() != "parse_float"@.len());
    assert("lowercase"@.len() != "parse_bool"@.len());
    assert("uppercase"@[0] != "parse_int"@[0]);
    assert("uppercase"@.len() != "parse_float"@.len());
    assert("uppercase"@.len() != "parse_bool"@.len());
    assert("parse_int"@.len() != "parse_float"@.len());
    assert("parse_int"@.len() != "parse_bool"@.len());
    assert("parse_float"@.len() != "parse_bool"@.len());
}

/// Each type of values goes by its own name.
pub proof fn types_go_by_their_names(x: ExtractValueType)
    ensures
        x == ExtractValueType::Text <==> value_type_name(x) == "string"@,
        x == ExtractValueType::Number <==> value_type_name(x) == "number"@,
        x == ExtractValueType::Boolean <==> value_type_name(x) == "boolean"@,
        x == ExtractValueType::Array <==> value_type_name(x) == "array"@,
        x == ExtractValueType::Object <==> value_type_name(x) == "object"@,
{
    reveal_strlit("string");
    reveal_strlit("number");
    reveal_strlit("boolean");
    reveal_strlit("array");
    reveal_strlit("object");
    assert("string"@[0] != "number"@[0]);
    assert("string"@.len() != "boolean"@.len());
    assert("string"@.len() != "array"@.len());
    assert("string"@[0] != "object"@[0]);
    assert("number"@.len() != "boolean"@.len());
    assert("number"@.len() != "array"@.len());
    assert("number"@[0] != "object"@[0]);
    assert("boolean"@.len() != "array"@.len());
    assert("boolean"@.len() != "object"@.len());
    assert("array"@.len() != "object"@.len());
}

/// Each transform goes by its own name.
pub proof fn transforms_go_by_their_names(x: ExtractTransform)
    ensures
        x == ExtractTransform::Trim <==> transform_name(x) == "trim"@,
        x == ExtractTransform::Lowercase <==> transform_name(x) == "lowercase"@,
        x == ExtractTransform::Uppercase <==> transform_name(x) == "uppercase"@,
        x == ExtractTransform::ParseInt <==> transform_name(x) == "parse_int"@,
        x == ExtractTransform::ParseFloat <==> transform_name(x) == "parse_float"@,
        x == ExtractTransform::ParseBool <==> transform_name(x) == "parse_bool"@,
{
    reveal_strlit("trim");
    reveal_strlit("lowercase");
    reveal_strlit("uppercase");
    reveal_strlit("parse_int");
    reveal_strlit("parse_float");
    reveal_strlit("parse_bool");
    assert("trim"@.len() != "lowercase"@.len());
    assert("trim"@.len() != "uppercase"@.len());
    assert("trim"@.len() != "parse_int"@.len());
    assert("trim"@.len() != "parse_float"@.len());
    assert("trim"@.len() != "parse_bool"@.len());
    assert("lowercase"@[0] != "uppercase"@[0]);
    assert("lowercase"@[0] != "parse_int"@[0]);
    assert("lowercase"@.len() != "parse_float"@.len());
    assert("lowercase"@.len() != "parse_bool"@.len());
    assert("uppercase"@[0] != "parse_int"@[0]);
    assert("uppercase"@.len() != "parse_float"@.len());
    assert("uppercase"@.len() != "parse_bool"@.len());
    assert("parse_int"@.len() != "parse_float"@.len());
    assert("parse_int"@.len() != "parse_bool"@.len());
    assert("parse_float"@.len() != "parse_bool"@.len());
}

} // verus!
