//! What a client wants to have extracted.

use vstd::prelude::*;
use crate::error::{self, ErrorCode, ErrorModel, RubError};
use crate::extract_postprocess::{self, ExtractTransform, ExtractValueType};
use crate::json::{self, Json, JsonModel, JsonObject};
use crate::text;
use super::scan::ExtractScanConfig;

verus! {

/// What is read of an element.
#[derive(Clone, Copy, Debug, PartialEq, Eq, Structural)]
pub enum ExtractKind {
    Text,
    Value,
    Html,
    Bbox,
    Attributes,
    Attribute,
}

pub open spec fn kind_name(kind: ExtractKind) -> Seq<char> {
    match kind {
        ExtractKind::Text => "text"@,
        ExtractKind::Value => "value"@,
        ExtractKind::Html => "html"@,
        ExtractKind::Bbox => "bbox"@,
        ExtractKind::Attributes => "attributes"@,
        ExtractKind::Attribute => "attribute"@,
    }
}

impl ExtractKind {
    pub fn as_str(self) -> (r: &'static str)
        ensures
            r@ == kind_name(self),
    {
        match self {
            ExtractKind::Text => "text",
            ExtractKind::Value => "value",
            ExtractKind::Html => "html",
            ExtractKind::Bbox => "bbox",
            ExtractKind::Attributes => "attributes",
            ExtractKind::Attribute => "attribute",
        }
    }
}

/// A field to extract: where it is, what is read of it, and what becomes of it.
#[derive(Debug)]
pub struct ExtractFieldSpec {
    pub index: Option<u32>,
    pub element_ref: Option<String>,
    pub selector: Option<String>,
    pub target_text: Option<String>,
    pub role: Option<String>,
    pub label: Option<String>,
    pub testid: Option<String>,
    pub first: bool,
    pub last: bool,
    pub nth: Option<u32>,
    pub kind: ExtractKind,
    pub attribute: Option<String>,
    pub many: bool,
    pub value_type: Option<ExtractValueType>,
    pub required: bool,
    pub default: Option<Json>,
    pub map: JsonObject,
    pub transform: Option<ExtractTransform>,
}

/// A field is required unless its spec says otherwise.
pub fn default_extract_required() -> (r: bool)
    ensures
        r,
{
    true
}

/// What `type` in a field means: what is read, or what the value must be.
#[derive(Clone, Copy, Debug, PartialEq, Eq, Structural)]
pub enum ExtractTypeHint {
    Kind(ExtractKind),
    ValueType(ExtractValueType),
}

/// The kind with a name.
pub open spec fn kind_named(name: Seq<char>) -> Option<ExtractKind> {
    if name == "text"@ {
        Some(ExtractKind::Text)
    } else if name == "value"@ {
        Some(ExtractKind::Value)
    } else if name == "html"@ {
        Some(ExtractKind::Html)
    } else if name == "bbox"@ {
        Some(ExtractKind::Bbox)
    } else if name == "attributes"@ {
        Some(ExtractKind::Attributes)
    } else if name == "attribute"@ {
        Some(ExtractKind::Attribute)
    } else {
        None
    }
}

fn find_kind(name: &str) -> (r: Option<ExtractKind>)
    ensures
        r == kind_named(name@),
{
    if text::str_eq(name, "text") {
        Some(ExtractKind::Text)
    } else if text::str_eq(name, "value") {
        Some(ExtractKind::Value)
    } else if text::str_eq(name, "html") {
        Some(ExtractKind::Html)
    } else if text::str_eq(name, "bbox") {
        Some(ExtractKind::Bbox)
    } else if text::str_eq(name, "attributes") {
        Some(ExtractKind::Attributes)
    } else if text::str_eq(name, "attribute") {
        Some(ExtractKind::Attribute)
    } else {
        None
    }
}

/// The type of values with a name.
pub open spec fn value_type_named(name: Seq<char>) -> Option<ExtractValueType> {
    if name == "string"@ {
        Some(ExtractValueType::Text)
    } else if name == "number"@ {
        Some(ExtractValueType::Number)
    } else if name == "boolean"@ {
        Some(ExtractValueType::Boolean)
    } else if name == "array"@ {
        Some(ExtractValueType::Array)
    } else if name == "object"@ {
        Some(ExtractValueType::Object)
    } else {
        None
    }
}

fn find_value_type(name: &str) -> (r: Option<ExtractValueType>)
    ensures
        r == value_type_named(name@),
{
    if text::str_eq(name, "string") {
        Some(ExtractValueType::Text)
    } else if text::str_eq(name, "number") {
        Some(ExtractValueType::Number)
    } else if text::str_eq(name, "boolean") {
        Some(ExtractValueType::Boolean)
    } else if text::str_eq(name, "array") {
        Some(ExtractValueType::Array)
    } else if text::str_eq(name, "object") {
        Some(ExtractValueType::Object)
    } else {
        None
    }
}

/// What a `type` means, or why it means nothing.
pub open spec fn hint_named(raw: Seq<char>) -> Result<ExtractTypeHint, Seq<char>> {
    if kind_named(raw) is Some {
        Ok(ExtractTypeHint::Kind(kind_named(raw)->0))
    } else if value_type_named(raw) is Some {
        Ok(ExtractTypeHint::ValueType(value_type_named(raw)->0))
    } else {
        Err(
            "unknown extract type '"@ + raw
                + "'; use kind one of [text,value,html,bbox,attributes,attribute] or value type one of [string,number,boolean,array,object]"@,
        )
    }
}

impl ExtractTypeHint {
    /// Reads a `type`.
    pub fn parse(raw: &str) -> (r: Result<ExtractTypeHint, String>)
        ensures
            match r {
                Ok(hint) => hint_named(raw@) == Ok::<ExtractTypeHint, Seq<char>>(hint),
                Err(e) => hint_named(raw@) == Err::<ExtractTypeHint, Seq<char>>(e@),
            },
    {
        if let Some(kind) = find_kind(raw) {
            return Ok(ExtractTypeHint::Kind(kind));
        }
        if let Some(value_type) = find_value_type(raw) {
            return Ok(ExtractTypeHint::ValueType(value_type));
        }
        Err(
            text::cat3(
                "unknown extract type '",
                raw,
                "'; use kind one of [text,value,html,bbox,attributes,attribute] or value type one of [string,number,boolean,array,object]",
            ),
        )
    }
}

/// What a field reads and what its value must be, from its `kind`, its `type`
/// and whether it names an attribute.
pub open spec fn settled_kind(
    kind: Option<ExtractKind>,
    hint: Option<ExtractTypeHint>,
    has_attribute: bool,
) -> Result<(ExtractKind, Option<ExtractValueType>), Seq<char>> {
    match (kind, hint) {
        (Some(k), Some(ExtractTypeHint::ValueType(t))) => Ok((k, Some(t))),
        (Some(k), Some(ExtractTypeHint::Kind(other))) => if k == other {
            Ok((k, None))
        } else {
            Err(
                "extract field has conflicting kind '"@ + kind_name(k)
                    + "' and type shorthand '"@ + kind_name(other) + "'"@,
            )
        },
        (Some(k), None) => Ok((k, None)),
        (None, Some(ExtractTypeHint::Kind(k))) => Ok((k, None)),
        (None, Some(ExtractTypeHint::ValueType(t))) => Err(
            "extract field is missing 'kind'; use kind:'text'/'value'/... and reserve type:'"@
                + extract_postprocess::value_type_name(t) + "' for output validation"@,
        ),
        (None, None) => if has_attribute {
            Ok((ExtractKind::Attribute, None))
        } else {
            Ok((ExtractKind::Text, None))
        },
    }
}

/// Settles what a field reads and what its value must be.
pub fn settle_field_kind(
    kind: Option<ExtractKind>,
    type_hint: Option<ExtractTypeHint>,
    has_attribute: bool,
) -> (r: Result<(ExtractKind, Option<ExtractValueType>), String>)
    ensures
        match r {
            Ok(settled) => settled_kind(kind, type_hint, has_attribute) == Ok::<
                (ExtractKind, Option<ExtractValueType>),
                Seq<char>,
            >(settled),
            Err(e) => settled_kind(kind, type_hint, has_attribute) == Err::<
                (ExtractKind, Option<ExtractValueType>),
                Seq<char>,
            >(e@),
        },
{
    match (kind, type_hint) {
        (Some(k), Some(ExtractTypeHint::ValueType(t))) => Ok((k, Some(t))),
        (Some(k), Some(ExtractTypeHint::Kind(other))) => if k == other {
            Ok((k, None))
        } else {
            Err(
                text::cat5(
                    "extract field has conflicting kind '",
                    k.as_str(),
                    "' and type shorthand '",
                    other.as_str(),
                    "'",
                ),
            )
        },
        (Some(k), None) => Ok((k, None)),
        (None, Some(ExtractTypeHint::Kind(k))) => Ok((k, None)),
        (None, Some(ExtractTypeHint::ValueType(t))) => Err(
            text::cat3(
                "extract field is missing 'kind'; use kind:'text'/'value'/... and reserve type:'",
                t.as_str(),
                "' for output validation",
            ),
        ),
        (None, None) => if has_attribute {
            Ok((ExtractKind::Attribute, None))
        } else {
            Ok((ExtractKind::Text, None))
        },
    }
}

/// The name of a kind names the kind.
pub proof fn kind_names_are_read_back(kind: ExtractKind)
    ensures
        kind_named(kind_name(kind)) == Some(kind),
{
    reveal_strlit("text");
    reveal_strlit("value");
    reveal_strlit("html");
    reveal_strlit("bbox");
    reveal_strlit("attributes");
    reveal_strlit("attribute");
    assert("text"@[0] == 't');
    assert("value"@[0] == 'v');
    assert("html"@[0] == 'h');
    assert("bbox"@[0] == 'b');
    assert("attributes"@.len() == 10 && "attributes"@[0] == 'a');
    assert("attribute"@.len() == 9 && "attribute"@[0] == 'a');
}

/// No name is both a kind and a type of values, so a `type` has one meaning.
pub proof fn hints_are_unambiguous(raw: Seq<char>)
    ensures
        kind_named(raw) is None || value_type_named(raw) is None,
{
    reveal_strlit("text");
    reveal_strlit("value");
    reveal_strlit("html");
    reveal_strlit("bbox");
    reveal_strlit("attributes");
    reveal_strlit("attribute");
    reveal_strlit("string");
    reveal_strlit("number");
    reveal_strlit("boolean");
    reveal_strlit("array");
    reveal_strlit("object");
    assert("text"@[0] == 't');
    assert("value"@[0] == 'v');
    assert("html"@[0] == 'h');
    assert("bbox"@[0] == 'b' && "bbox"@.len() == 4);
    assert("attributes"@[1] == 't' && "attributes"@[0] == 'a');
    assert("attribute"@[1] == 't' && "attribute"@[0] == 'a');
    assert("string"@[0] == 's');
    assert("number"@[0] == 'n');
    assert("boolean"@[0] == 'b' && "boolean"@.len() == 7);
    assert("array"@[1] == 'r' && "array"@[0] == 'a');
    assert("object"@[0] == 'o');
}

/// What a content script says it found.
#[derive(Debug)]
pub struct ContentExtractPayload {
    pub match_count: usize,
    pub selected_count: usize,
    pub values: Vec<Json>,
    pub selector_error: Option<String>,
}

/// How a list is scanned, as a client says it.
#[derive(Debug)]
pub struct ExtractScanArgs {
    pub scan_until: Option<u64>,
    pub scan_key: Option<String>,
    pub max_scrolls: Option<u64>,
    pub scroll_amount: Option<u64>,
    pub settle_ms: Option<u64>,
    pub stall_limit: Option<u64>,
}

pub const DEFAULT_SCAN_MAX_SCROLLS: u32 = 100;

pub const DEFAULT_SCAN_SCROLL_AMOUNT: u32 = 1_800;

pub const DEFAULT_SCAN_SETTLE_MS: u64 = 1_200;

pub const DEFAULT_SCAN_STALL_LIMIT: u32 = 3;

/// How long a wait for a list lasts where the client does not say, in
/// milliseconds.
pub const DEFAULT_WAIT_TIMEOUT_MS: u64 = 30_000;

pub open spec fn or_default(value: Option<u64>, default: u64) -> u64 {
    match value {
        Some(n) => n,
        None => default,
    }
}

fn value_or(value: Option<u64>, default: u64) -> (r: u64)
    ensures
        r == or_default(value, default),
{
    match value {
        Some(n) => n,
        None => default,
    }
}

/// The number, within 32 bits.
pub open spec fn capped(n: u64) -> u32 {
    if n > u32::MAX {
        u32::MAX
    } else {
        n as u32
    }
}

fn cap(n: u64) -> (r: u32)
    ensures
        r == capped(n),
{
    if n > u32::MAX as u64 {
        u32::MAX
    } else {
        n as u32
    }
}

/// A text without the blanks around it, unless nothing is left.
pub open spec fn spelled(value: Option<Seq<char>>) -> Option<Seq<char>> {
    match value {
        Some(s) => if text::trimmed(s).len() > 0 {
            Some(text::trimmed(s))
        } else {
            None
        },
        None => None,
    }
}

fn spelled_value(value: &Option<String>) -> (r: Option<String>)
    ensures
        text::opt_text(r) == spelled(text::opt_text(*value)),
{
    match value {
        Some(s) => {
            let core = text::trim(s.as_str());
            if text::chars_of(core).len() > 0 {
                Some(core.to_owned())
            } else {
                None
            }
        },
        None => None,
    }
}

/// Why scan arguments are refused: the first that is zero.
pub open spec fn scan_error(a: ExtractScanArgs) -> Option<ErrorModel> {
    if a.scan_until is None {
        None
    } else if a.scan_until->0 == 0 {
        Some(
            error::plain(
                ErrorCode::InvalidInput,
                "inspect list --scan-until must be greater than 0"@,
            ),
        )
    } else if a.max_scrolls == Some(0u64) {
        Some(
            error::plain(
                ErrorCode::InvalidInput,
                "inspect list --max-scrolls must be greater than 0"@,
            ),
        )
    } else if a.scroll_amount == Some(0u64) {
        Some(
            error::plain(
                ErrorCode::InvalidInput,
                "inspect list --scroll-amount must be greater than 0"@,
            ),
        )
    } else if a.stall_limit == Some(0u64) {
        Some(
            error::plain(
                ErrorCode::InvalidInput,
                "inspect list --stall-limit must be greater than 0"@,
            ),
        )
    } else {
        None
    }
}

/// Whether a configuration is what scan arguments ask for.
pub open spec fn scan_config_of(a: ExtractScanArgs, c: ExtractScanConfig) -> bool {
    &&& c.until_count == capped(a.scan_until->0)
    &&& text::opt_text(c.dedupe_key) == spelled(text::opt_text(a.scan_key))
    &&& c.max_scrolls == capped(or_default(a.max_scrolls, DEFAULT_SCAN_MAX_SCROLLS as u64))
    &&& c.scroll_amount == capped(or_default(a.scroll_amount, DEFAULT_SCAN_SCROLL_AMOUNT as u64))
    &&& c.settle_ms == or_default(a.settle_ms, DEFAULT_SCAN_SETTLE_MS)
    &&& c.stall_limit == capped(or_default(a.stall_limit, DEFAULT_SCAN_STALL_LIMIT as u64))
}

impl ExtractScanArgs {
    /// How the list is scanned, where a scan is asked for.
    pub fn parse_config(&self) -> (r: Result<Option<ExtractScanConfig>, RubError>)
        ensures
            match r {
                Err(e) => scan_error(*self) == Some(e@),
                Ok(None) => self.scan_until is None,
                Ok(Some(c)) => self.scan_until is Some && scan_error(*self) is None
                    && scan_config_of(*self, c) && c.wf(),
            },
    {
        let until_count = match self.scan_until {
            Some(n) => n,
            None => return Ok(None),
        };
        if until_count == 0 {
            return Err(
                RubError::domain(
                    ErrorCode::InvalidInput,
                    "inspect list --scan-until must be greater than 0",
                ),
            );
        }
        let max_scrolls = value_or(self.max_scrolls, DEFAULT_SCAN_MAX_SCROLLS as u64);
        if max_scrolls == 0 {
            return Err(
                RubError::domain(
                    ErrorCode::InvalidInput,
                    "inspect list --max-scrolls must be greater than 0",
                ),
            );
        }
        let scroll_amount = value_or(self.scroll_amount, DEFAULT_SCAN_SCROLL_AMOUNT as u64);
        if scroll_amount == 0 {
            return Err(
                RubError::domain(
                    ErrorCode::InvalidInput,
                    "inspect list --scroll-amount must be greater than 0",
                ),
            );
        }
        let settle_ms = value_or(self.settle_ms, DEFAULT_SCAN_SETTLE_MS);
        let stall_limit = value_or(self.stall_limit, DEFAULT_SCAN_STALL_LIMIT as u64);
        if stall_limit == 0 {
            return Err(
                RubError::domain(
                    ErrorCode::InvalidInput,
                    "inspect list --stall-limit must be greater than 0",
                ),
            );
        }
        Ok(
            Some(
                ExtractScanConfig {
                    until_count: cap(until_count),
                    dedupe_key: spelled_value(&self.scan_key),
                    max_scrolls: cap(max_scrolls),
                    scroll_amount: cap(scroll_amount),
                    settle_ms,
                    stall_limit: cap(stall_limit),
                },
            ),
        )
    }
}

/// What a client waits for in a list.
#[derive(Debug)]
pub struct ExtractListWaitConfig {
    pub field_path: String,
    pub contains: String,
    pub timeout_ms: u64,
}

/// What a client waits for in a list, as it says it.
#[derive(Debug)]
pub struct ExtractWaitArgs {
    pub wait_field: Option<String>,
    pub wait_contains: Option<String>,
    pub wait_timeout_ms: Option<u64>,
}

impl ExtractWaitArgs {
    /// What to wait for, where a wait is asked for.
    pub fn parse_config(&self) -> (r: Result<Option<ExtractListWaitConfig>, RubError>)
        ensures
            ({
                let field = spelled(text::opt_text(self.wait_field));
                let contains = spelled(text::opt_text(self.wait_contains));
                match r {
                    Ok(None) => field is None && contains is None,
                    Ok(Some(c)) => field == Some(c.field_path@) && contains == Some(c.contains@)
                        && c.timeout_ms == or_default(
                        self.wait_timeout_ms,
                        DEFAULT_WAIT_TIMEOUT_MS,
                    ),
                    Err(e) => (field is Some) != (contains is Some) && e@ == error::plain(
                        ErrorCode::InvalidInput,
                        "inspect list wait requires both wait_field and wait_contains"@,
                    ),
                }
            }),
    {
        let field_path = spelled_value(&self.wait_field);
        let contains = spelled_value(&self.wait_contains);
        match (field_path, contains) {
            (None, None) => Ok(None),
            (Some(field_path), Some(contains)) => Ok(
                Some(
                    ExtractListWaitConfig {
                        field_path,
                        contains,
                        timeout_ms: value_or(self.wait_timeout_ms, DEFAULT_WAIT_TIMEOUT_MS),
                    },
                ),
            ),
            _ => Err(
                RubError::domain(
                    ErrorCode::InvalidInput,
                    "inspect list wait requires both wait_field and wait_contains",
                ),
            ),
        }
    }
}

/// A request to extract: fields of a page, or the rows of a list.
#[derive(Debug)]
pub enum ExtractCommand {
    Query { snapshot_id: Option<String> },
    List { snapshot_id: Option<String>, scan: ExtractScanArgs, wait: ExtractWaitArgs },
}

/// The arguments with the kind of request that they are for.
pub open spec fn with_sub(args: JsonModel, sub_override: Option<Seq<char>>) -> JsonModel {
    match args {
        JsonModel::Object(o) => match sub_override {
            Some(sub) => JsonModel::Object(o.insert("sub"@, JsonModel::Text(sub))),
            None => if o.contains_key("sub"@) {
                args
            } else {
                JsonModel::Object(o.insert("sub"@, JsonModel::Text("extract"@)))
            },
        },
        _ => args,
    }
}

/// Says in the arguments which kind of request they are for: the one that is
/// given, else the one they name, else a query.
pub fn normalize_extract_sub(args: &Json, sub_override: Option<&str>) -> (r: Json)
    ensures
        r@ == with_sub(args@, json::opt_str_text(sub_override)),
{
    match args {
        Json::Object(_) => {
            let named = args.get("sub").is_some();
            let mut normalized = args.clone();
            match &mut normalized {
                Json::Object(o) => {
                    match sub_override {
                        Some(sub) => {
                            o.insert("sub", json::text_value(sub));
                        },
                        None => {
                            if !named {
                                o.insert("sub", json::text_value("extract"));
                            }
                        },
                    }
                },
                _ => {},
            }
            normalized
        },
        _ => args.clone(),
    }
}

pub open spec fn snapshot_of(c: ExtractCommand) -> Option<Seq<char>> {
    match c {
        ExtractCommand::Query { snapshot_id } => text::opt_text(snapshot_id),
        ExtractCommand::List { snapshot_id, .. } => text::opt_text(snapshot_id),
    }
}

pub open spec fn source_name(c: ExtractCommand) -> Seq<char> {
    if snapshot_of(c) is Some {
        "snapshot"@
    } else {
        "live_page"@
    }
}

impl ExtractCommand {
    /// The snapshot to extract from, where the client names one.
    pub fn snapshot_id(&self) -> (r: Option<&str>)
        ensures
            json::opt_str_text(r) == snapshot_of(*self),
    {
        match self {
            ExtractCommand::Query { snapshot_id } => match snapshot_id {
                Some(s) => Some(s.as_str()),
                None => None,
            },
            ExtractCommand::List { snapshot_id, .. } => match snapshot_id {
                Some(s) => Some(s.as_str()),
                None => None,
            },
        }
    }

    /// How the list is scanned, where a scan is asked for.
    pub fn scan_config(&self) -> (r: Result<Option<ExtractScanConfig>, RubError>)
        ensures
            match *self {
                ExtractCommand::Query { .. } => r is Ok && r->Ok_0 is None,
                ExtractCommand::List { scan, .. } => match r {
                    Err(e) => scan_error(scan) == Some(e@),
                    Ok(None) => scan.scan_until is None,
                    Ok(Some(c)) => scan.scan_until is Some && scan_error(scan) is None
                        && scan_config_of(scan, c) && c.wf(),
                },
            },
    {
        match self {
            ExtractCommand::Query { .. } => Ok(None),
            ExtractCommand::List { scan, .. } => scan.parse_config(),
        }
    }

    /// What to wait for, where a wait is asked for.
    pub fn wait_config(&self) -> (r: Result<Option<ExtractListWaitConfig>, RubError>)
        ensures
            match *self {
                ExtractCommand::Query { .. } => r is Ok && r->Ok_0 is None,
                ExtractCommand::List { wait, .. } => {
                    let field = spelled(text::opt_text(wait.wait_field));
                    let contains = spelled(text::opt_text(wait.wait_contains));
                    match r {
                        Ok(None) => field is None && contains is None,
                        Ok(Some(c)) => field == Some(c.field_path@) && contains == Some(
                            c.contains@,
                        ) && c.timeout_ms == or_default(
                            wait.wait_timeout_ms,
                            DEFAULT_WAIT_TIMEOUT_MS,
                        ),
                        Err(e) => (field is Some) != (contains is Some) && e@ == error::plain(
                            ErrorCode::InvalidInput,
                            "inspect list wait requires both wait_field and wait_contains"@,
                        ),
                    }
                },
            },
    {
        match self {
            ExtractCommand::Query { .. } => Ok(None),
            ExtractCommand::List { wait, .. } => wait.parse_config(),
        }
    }

    /// Where the values come from, in a word.
    pub fn source_kind(&self) -> (r: &'static str)
        ensures
            r@ == source_name(*self),
    {
        if self.snapshot_id().is_some() {
            "snapshot"
        } else {
            "live_page"
        }
    }
}

/// The full spec for a field that is only a selector.
pub open spec fn selector_field(selector: Seq<char>) -> JsonModel {
    JsonModel::Object(
        Map::<Seq<char>, JsonModel>::empty().insert(
            "selector"@,
            JsonModel::Text(selector),
        ).insert("kind"@, JsonModel::Text("text"@)),
    )
}

pub open spec fn spec_error(
    what: Seq<char>,
    path: Seq<char>,
    rest: Seq<char>,
    field: Seq<char>,
) -> ErrorModel {
    error::with_context(
        ErrorCode::InvalidInput,
        "Invalid JSON spec for 'extract': "@ + what + path + rest,
        JsonModel::Object(
            Map::<Seq<char>, JsonModel>::empty().insert("path"@, JsonModel::Text(path)).insert(
                "field"@,
                JsonModel::Text(field),
            ).insert("surface"@, JsonModel::Text("extract_field_map"@)),
        ),
    )
}

fn spec_error_value(what: &str, path: &str, rest: &str, field: &str) -> (r: RubError)
    ensures
        r@ == spec_error(what@, path@, rest@, field@),
{
    let head = text::cat2("Invalid JSON spec for 'extract': ", what);
    let message = text::cat3(head.as_str(), path, rest);
    let context = JsonObject::new().with("path", json::text_value(path)).with(
        "field",
        json::text_value(field),
    ).with("surface", json::text_value("extract_field_map"));
    RubError::domain_with_context(
        ErrorCode::InvalidInput,
        message.as_str(),
        Json::Object(context),
    )
}

/// What is made of an entry, and what is wrong with it: a text stands for a
/// selector, and the fields of a collection are written out in turn.
pub open spec fn written_entry(v: JsonModel, path: Seq<char>, name: Seq<char>) -> (
    JsonModel,
    Option<ErrorModel>,
)
    decreases v, 0int,
{
    match v {
        JsonModel::Text(selector) => (selector_field(selector), None),
        JsonModel::Object(o) => if o.dom().finite() && o.contains_key("fields"@) {
            match o["fields"@] {
                JsonModel::Object(nested) => {
                    let keys = json::ordered_keys(nested);
                    let written = written_entries(
                        o["fields"@],
                        keys,
                        keys.len() as int,
                        path + ".fields"@,
                    );
                    (
                        JsonModel::Object(o.insert("fields"@, JsonModel::Object(written.0))),
                        written.1,
                    )
                },
                _ => (
                    v,
                    Some(
                        spec_error(
                            "collection fields at '"@,
                            path + ".fields"@,
                            "' must be an object"@,
                            name,
                        ),
                    ),
                ),
            }
        } else {
            (v, None)
        },
        _ => (
            v,
            Some(
                spec_error(
                    "field entry at '"@,
                    path,
                    "' must be an object or selector string shorthand"@,
                    name,
                ),
            ),
        ),
    }
}

/// The entries once the first `n` with the given names are written out; the
/// first that is wrong ends it.
pub open spec fn written_entries(
    fields: JsonModel,
    keys: Seq<Seq<char>>,
    n: int,
    path: Seq<char>,
) -> (Map<Seq<char>, JsonModel>, Option<ErrorModel>)
    decreases fields, n,
{
    if n <= 0 || n > keys.len() {
        match fields {
            JsonModel::Object(m) => (m, None),
            _ => (Map::empty(), None),
        }
    } else {
        let front = written_entries(fields, keys, n - 1, path);
        if front.1 is Some {
            front
        } else {
            let key = keys[n - 1];
            match fields {
                JsonModel::Object(m) => if m.dom().finite() && m.contains_key(key) {
                    let written = written_entry(m[key], path + "."@ + key, key);
                    (front.0.insert(key, written.0), written.1)
                } else {
                    front
                },
                _ => front,
            }
        }
    }
}

/// What is made of the spec for an extraction, and what is wrong with it.
pub open spec fn written_spec(spec: JsonModel) -> (JsonModel, Option<ErrorModel>) {
    match spec {
        JsonModel::Object(m) => {
            let keys = json::ordered_keys(m);
            let written = written_entries(spec, keys, keys.len() as int, "$"@);
            (JsonModel::Object(written.0), written.1)
        },
        _ => (spec, None),
    }
}

proof fn written_entries_failed(
    fields: JsonModel,
    keys: Seq<Seq<char>>,
    k: int,
    n: int,
    path: Seq<char>,
)
    requires
        0 <= k <= n <= keys.len(),
        written_entries(fields, keys, k, path).1 is Some,
    ensures
        written_entries(fields, keys, n, path) == written_entries(fields, keys, k, path),
    decreases n - k,
{
    if k < n {
        written_entries_failed(fields, keys, k, n - 1, path);
    }
}

fn write_out_entry(value: &Json, path: &str, name: &str) -> (r: (Json, Option<RubError>))
    ensures
        (r.0@, error::opt_error(r.1)) == written_entry(value@, path@, name@),
    decreases value, 0int,
{
    match value {
        Json::Text(selector) => (
            Json::Object(
                JsonObject::new().with("selector", json::text_value(selector.as_str())).with(
                    "kind",
                    json::text_value("text"),
                ),
            ),
            None,
        ),
        Json::Object(o) => {
            proof {
                o.finite();
            }
            match o.position("fields") {
                Some(at) => {
                    proof {
                        json::member_at(o.entries@, at as int);
                        assert(decreases_to!(*value => value->Object_0));
                        assert(decreases_to!(o => o.entries));
                        assert(decreases_to!(o.entries => o.entries@));
                        assert(decreases_to!(o.entries@ => o.entries@[at as int]));
                        assert(decreases_to!(o.entries@[at as int] => o.entries@[at as int].1));
                    }
                    let nested_path = text::cat2(path, ".fields");
                    match &o.entries[at].1 {
                        Json::Object(nested) => {
                            let (written, wrong) = write_out_entries(
                                nested,
                                nested_path.as_str(),
                            );
                            let whole = o.clone();
                            (Json::Object(whole.with("fields", Json::Object(written))), wrong)
                        },
                        _ => {
                            let wrong = spec_error_value(
                                "collection fields at '",
                                nested_path.as_str(),
                                "' must be an object",
                                name,
                            );
                            (value.clone(), Some(wrong))
                        },
                    }
                },
                None => {
                    proof {
                        json::member_absent(o.entries@, "fields"@);
                    }
                    (value.clone(), None)
                },
            }
        },
        _ => {
            let wrong = spec_error_value(
                "field entry at '",
                path,
                "' must be an object or selector string shorthand",
                name,
            );
            (value.clone(), Some(wrong))
        },
    }
}

fn write_out_entries(fields: &JsonObject, path: &str) -> (r: (JsonObject, Option<RubError>))
    ensures
        (r.0@, error::opt_error(r.1)) == written_entries(
            JsonModel::Object(fields@),
            json::ordered_keys(fields@),
            json::ordered_keys(fields@).len() as int,
            path@,
        ),
    decreases fields, 1int,
{
    let names = fields.sorted_keys();
    let ghost keys = json::ordered_keys(fields@);
    let ghost model = JsonModel::Object(fields@);
    let mut out = fields.clone();
    let mut i: usize = 0;
    assert(keys.len() == names@.len());
    proof {
        fields.finite();
    }
    while i < names.len()
        invariant
            i <= names@.len(),
            keys == text::texts(names@),
            keys == json::ordered_keys(fields@),
            json::lists_keys(keys, fields@),
            keys.len() == names@.len(),
            model == JsonModel::Object(fields@),
            fields@.dom().finite(),
            written_entries(model, keys, i as int, path@) == (out@, None::<ErrorModel>),
        decreases names@.len() - i,
    {
        let name = names[i].as_str();
        let head = text::cat2(path, ".");
        let entry_path = text::cat2(head.as_str(), name);
        proof {
            assert(keys[i as int] == name@);
            assert(keys.contains(name@));
            assert(fields@.contains_key(name@));
        }
        match fields.position(name) {
            Some(at) => {
                proof {
                    json::member_at(fields.entries@, at as int);
                    assert(decreases_to!(fields => fields.entries));
                    assert(decreases_to!(fields.entries => fields.entries@));
                    assert(decreases_to!(fields.entries@ => fields.entries@[at as int]));
                    assert(decreases_to!(fields.entries@[at as int] => fields.entries@[at as int].1));
                    assert(entry_path@ =~= path@ + "."@ + name@);
                }
                let (written, wrong) = write_out_entry(
                    &fields.entries[at].1,
                    entry_path.as_str(),
                    name,
                );
                out.insert(name, written);
                if wrong.is_some() {
                    proof {
                        written_entries_failed(model, keys, i + 1, keys.len() as int, path@);
                    }
                    return (out, wrong);
                }
            },
            None => {
                proof {
                    json::member_absent(fields.entries@, name@);
                    assert(false);
                }
            },
        }
        i += 1;
    }
    (out, None)
}

/// Writes out the shorthands of a spec, up to the first entry that is wrong.
pub fn normalize_extract_spec_shorthands_in_place(spec: &mut Json) -> (r: Result<(), RubError>)
    ensures
        final(spec)@ == written_spec(old(spec)@).0,
        error::err_model(r) == written_spec(old(spec)@).1,
{
    let (written, wrong) = match &*spec {
        Json::Object(fields) => {
            let (written, wrong) = write_out_entries(fields, "$");
            (Json::Object(written), wrong)
        },
        _ => return Ok(()),
    };
    *spec = written;
    match wrong {
        Some(e) => Err(e),
        None => Ok(()),
    }
}

proof fn written_entries_members(
    fields: JsonModel,
    keys: Seq<Seq<char>>,
    n: int,
    path: Seq<char>,
)
    requires
        fields is Object,
        fields->Object_0.dom().finite(),
        json::lists_keys(keys, fields->Object_0),
        0 <= n <= keys.len(),
        written_entries(fields, keys, n, path).1 is None,
    ensures
        written_entries(fields, keys, n, path).0.dom() == fields->Object_0.dom(),
        forall|i: int|
            0 <= i < n ==> {
                let key = #[trigger] keys[i];
                let written = written_entry(fields->Object_0[key], path + "."@ + key, key);
                &&& written.1 is None
                &&& written_entries(fields, keys, n, path).0[key] == written.0
            },
        forall|i: int|
            n <= i < keys.len() ==> written_entries(fields, keys, n, path).0[#[trigger] keys[i]]
                == fields->Object_0[keys[i]],
    decreases n,
{
    if n > 0 {
        written_entries_members(fields, keys, n - 1, path);
        let m = fields->Object_0;
        let front = written_entries(fields, keys, n - 1, path).0;
        let key = keys[n - 1];
        assert(keys.contains(key));
        assert(m.contains_key(key));
        let all = written_entries(fields, keys, n, path).0;
        assert(all == front.insert(key, written_entry(m[key], path + "."@ + key, key).0));
        assert(all.dom() =~= m.dom());
    }
}

proof fn unchanged_entries(
    fields: JsonModel,
    keys: Seq<Seq<char>>,
    n: int,
    path: Seq<char>,
)
    requires
        fields is Object,
        0 <= n <= keys.len(),
        forall|i: int|
            0 <= i < n ==> {
                let key = #[trigger] keys[i];
                fields->Object_0.contains_key(key) ==> written_entry(
                    fields->Object_0[key],
                    path + "."@ + key,
                    key,
                ) == (fields->Object_0[key], None::<ErrorModel>)
            },
    ensures
        written_entries(fields, keys, n, path) == (fields->Object_0, None::<ErrorModel>),
    decreases n,
{
    if n > 0 {
        unchanged_entries(fields, keys, n - 1, path);
        let m = fields->Object_0;
        let key = keys[n - 1];
        if m.contains_key(key) {
            assert(m.insert(key, m[key]) =~= m);
        }
    }
}

proof fn infinite_entries_stay(
    fields: JsonModel,
    keys: Seq<Seq<char>>,
    n: int,
    path: Seq<char>,
)
    requires
        fields is Object,
        !fields->Object_0.dom().finite(),
    ensures
        written_entries(fields, keys, n, path) == (fields->Object_0, None::<ErrorModel>),
    decreases n,
{
    if 0 < n && n <= keys.len() {
        infinite_entries_stay(fields, keys, n - 1, path);
    }
}

proof fn written_entries_stay(fields: JsonModel, path: Seq<char>, again: Seq<char>)
    requires
        fields is Object,
        ({
            let keys = json::ordered_keys(fields->Object_0);
            written_entries(fields, keys, keys.len() as int, path).1 is None
        }),
    ensures
        ({
            let keys = json::ordered_keys(fields->Object_0);
            let written = written_entries(fields, keys, keys.len() as int, path).0;
            let then = json::ordered_keys(written);
            written_entries(JsonModel::Object(written), then, then.len() as int, again) == (
                written,
                None::<ErrorModel>,
            )
        }),
    decreases fields, 1int,
{
    let m = fields->Object_0;
    let keys = json::ordered_keys(m);
    let n = keys.len() as int;
    let written = written_entries(fields, keys, n, path).0;
    if m.dom().finite() {
        json::ordered_keys_list_the_keys(m);
        written_entries_members(fields, keys, n, path);
        json::same_names_same_order(m, written);
        assert forall|i: int| 0 <= i < n implies ({
            let key = #[trigger] keys[i];
            written.contains_key(key) ==> written_entry(
                written[key],
                again + "."@ + key,
                key,
            ) == (written[key], None::<ErrorModel>)
        }) by {
            let key = keys[i];
            assert(keys.contains(key));
            assert(m.contains_key(key));
            assert(decreases_to!(fields => fields->Object_0));
            assert(decreases_to!(m => m[key]));
            written_entry_stays(m[key], path + "."@ + key, key, again + "."@ + key, key);
        }
        unchanged_entries(JsonModel::Object(written), keys, n, again);
    } else {
        infinite_entries_stay(fields, keys, n, path);
        let then = json::ordered_keys(written);
        infinite_entries_stay(JsonModel::Object(written), then, then.len() as int, again);
    }
}

proof fn written_entry_stays(
    v: JsonModel,
    path: Seq<char>,
    name: Seq<char>,
    again: Seq<char>,
    called: Seq<char>,
)
    requires
        written_entry(v, path, name).1 is None,
    ensures
        written_entry(written_entry(v, path, name).0, again, called) == (
            written_entry(v, path, name).0,
            None::<ErrorModel>,
        ),
    decreases v, 0int,
{
    let w = written_entry(v, path, name).0;
    match v {
        JsonModel::Text(selector) => {
            reveal_strlit("fields");
            reveal_strlit("selector");
            reveal_strlit("kind");
            assert("fields"@.len() != "selector"@.len());
            assert("fields"@.len() != "kind"@.len());
            assert(!w->Object_0.contains_key("fields"@));
        },
        JsonModel::Object(o) => {
            if o.dom().finite() && o.contains_key("fields"@) {
                assert(decreases_to!(v => v->Object_0));
                assert(decreases_to!(o => o["fields"@]));
                written_entries_stay(o["fields"@], path + ".fields"@, again + ".fields"@);
                let inner = w->Object_0["fields"@];
                assert(w->Object_0.dom() =~= o.dom());
                assert(w->Object_0.insert("fields"@, inner) =~= w->Object_0);
            }
        },
        _ => {},
    }
}

/// Only shorthands are written out: an entry that is an object without fields of
/// its own passes unchanged, and so does a spec that is no object.
pub proof fn full_entries_pass_unchanged(v: JsonModel, path: Seq<char>, name: Seq<char>)
    ensures
        v is Object && !v->Object_0.contains_key("fields"@) ==> written_entry(v, path, name) == (
            v,
            None::<ErrorModel>,
        ),
        !(v is Object) ==> written_spec(v) == (v, None::<ErrorModel>),
{
}

/// A spec without anything wrong is written out once and for all: writing it
/// out again changes nothing.
pub proof fn written_specs_stay(spec: JsonModel)
    requires
        written_spec(spec).1 is None,
    ensures
        written_spec(written_spec(spec).0) == (written_spec(spec).0, None::<ErrorModel>),
{
    if spec is Object {
        written_entries_stay(spec, "$"@, "$"@);
    }
}

/// Names of kinds and of types of values are read as what goes by them, and nothing else is
/// read.
pub proof fn types_are_read_by_their_names(raw: Seq<char>)
    ensures
        kind_named(raw) matches Some(k) ==> kind_name(k) == raw,
        kind_named(raw) is None ==> forall|k: ExtractKind| #[trigger] kind_name(k) != raw,
        value_type_named(raw) matches Some(t) ==> extract_postprocess::value_type_name(t) == raw,
        value_type_named(raw) is None ==> forall|t: ExtractValueType| #[trigger]
            extract_postprocess::value_type_name(t) != raw,
        match hint_named(raw) {
            Ok(ExtractTypeHint::Kind(k)) => kind_name(k) == raw,
            Ok(ExtractTypeHint::ValueType(t)) => extract_postprocess::value_type_name(t) == raw,
            Err(_) => kind_named(raw) is None && value_type_named(raw) is None,
        },
{
    reveal_strlit("text");
    reveal_strlit("value");
    reveal_strlit("html");
    reveal_strlit("bbox");
    reveal_strlit("attributes");
    reveal_strlit("attribute");
    assert("text"@.len() != "value"@.len());
    assert("text"@[0] != "html"@[0]);
    assert("text"@[0] != "bbox"@[0]);
    assert("text"@.len() != "attributes"@.len());
    assert("text"@.len() != "attribute"@.len());
    assert("value"@.len() != "html"@.len());
    assert("value"@.len() != "bbox"@.len());
    assert("value"@.len() != "attributes"@.len());
    assert("value"@.len() != "attribute"@.len());
    assert("html"@[0] != "bbox"@[0]);
    assert("html"@.len() != "attributes"@.len());
    assert("html"@.len() != "attribute"@.len());
    assert("bbox"@.len() != "attributes"@.len());
    assert("bbox"@.len() != "attribute"@.len());
    assert("attributes"@.len() != "attribute"@.len());
    reveal_strlit("string");
    reveal_strlit("number");
    reveal_strlit("boolean");
    reveal_strlit("array");
    reveal_strlit("object");
    assert("string"@[0] != "number"@[0]);
    assert("string"@.len() != "boolean"@.len());
    assert("string"@.len() != "array"@.len());
    assert("string"@[0] != "object"@[0]);
    assert("number"@.len() != "boolean"@.len());
    assert("number"@.len() != "array"@.len());
    assert("number"@[0] != "object"@[0]);
    assert("boolean"@.len() != "array"@.len());
    assert("boolean"@.len() != "object"@.len());
    assert("array"@.len() != "object"@.len());
    if kind_named(raw) is None {
        assert forall|k: ExtractKind| #[trigger] kind_name(k) != raw by {
            kind_names_are_read_back(k);
        }
    }
}

/// A field reads what its `kind` says; a `type` that names a kind says the same or stands
/// for it, and one that names a type of values says what the value must be. Without either a
/// field with an attribute reads the attribute, and any other the text.
pub proof fn kinds_are_settled_from_kind_and_type(
    k: ExtractKind,
    other: ExtractKind,
    t: ExtractValueType,
    has_attribute: bool,
)
    ensures
        settled_kind(Some(k), None, has_attribute) == Ok::<
            (ExtractKind, Option<ExtractValueType>),
            Seq<char>,
        >((k, None)),
        settled_kind(None, Some(ExtractTypeHint::Kind(k)), has_attribute) == Ok::<
            (ExtractKind, Option<ExtractValueType>),
            Seq<char>,
        >((k, None)),
        settled_kind(Some(k), Some(ExtractTypeHint::ValueType(t)), has_attribute) == Ok::<
            (ExtractKind, Option<ExtractValueType>),
            Seq<char>,
        >((k, Some(t))),
        settled_kind(Some(k), Some(ExtractTypeHint::Kind(other)), has_attribute) is Ok <==> k
            == other,
        settled_kind(Some(k), Some(ExtractTypeHint::Kind(k)), has_attribute) == Ok::<
            (ExtractKind, Option<ExtractValueType>),
            Seq<char>,
        >((k, None)),
        settled_kind(None, Some(ExtractTypeHint::ValueType(t)), has_attribute) is Err,
        settled_kind(None, None, true) == Ok::<(ExtractKind, Option<ExtractValueType>), Seq<char>>(
            (ExtractKind::Attribute, None),
        ),
        settled_kind(None, None, false) == Ok::<(ExtractKind, Option<ExtractValueType>), Seq<char>>(
            (ExtractKind::Text, None),
        ),
{
}

/// Scan arguments are refused exactly where a scan is asked for and one of its limits is
/// zero.
pub proof fn scans_need_limits_above_zero(a: ExtractScanArgs)
    ensures
        scan_error(a) is Some <==> a.scan_until is Some && (a.scan_until == Some(0u64)
            || a.max_scrolls == Some(0u64) || a.scroll_amount == Some(0u64) || a.stall_limit == Some(
            0u64,
        )),
        scan_error(a) matches Some(e) ==> (e matches ErrorModel::Domain(x) && x.code
            == ErrorCode::InvalidInput),
{
}

/// A scan goes by the limits that the client gives, as far as they fit, and by a hundred
/// scrolls of eighteen hundred each, with a pause of twelve hundred milliseconds and three
/// readings without a new row, where it gives none.
pub proof fn scans_go_by_their_limits(a: ExtractScanArgs, c: ExtractScanConfig)
    requires
        scan_config_of(a, c),
    ensures
        a.scan_until matches Some(n) ==> (n <= u32::MAX ==> c.until_count == n),
        a.max_scrolls is None ==> c.max_scrolls == 100,
        a.max_scrolls matches Some(n) ==> (n <= u32::MAX ==> c.max_scrolls == n),
        a.scroll_amount is None ==> c.scroll_amount == 1800,
        a.scroll_amount matches Some(n) ==> (n <= u32::MAX ==> c.scroll_amount == n),
        a.settle_ms is None ==> c.settle_ms == 1200,
        a.settle_ms matches Some(n) ==> c.settle_ms == n,
        a.stall_limit is None ==> c.stall_limit == 3,
        a.stall_limit matches Some(n) ==> (n <= u32::MAX ==> c.stall_limit == n),
{
}

/// A text counts where it is not blank, and then without the blanks around it.
pub proof fn blank_arguments_count_as_none(value: Option<Seq<char>>)
    ensures
        value is None ==> spelled(value) is None,
        value matches Some(s) ==> (spelled(value) is None <==> text::blank(s)),
        value matches Some(s) ==> (spelled(value) matches Some(t) ==> t == text::trimmed(s)),
{
    if let Some(s) = value {
        text::blank_texts_trim_to_nothing(s);
    }
}

/// The kind of a request is the one that is given; else the one that its arguments name;
/// else a query. Nothing else in the arguments changes.
pub proof fn request_kinds_are_filled_in(
    m: Map<Seq<char>, JsonModel>,
    sub: Option<Seq<char>>,
    key: Seq<char>,
)
    ensures
        ({
            let r = with_sub(JsonModel::Object(m), sub);
            &&& sub matches Some(s) ==> json::member(r, "sub"@) == Some(JsonModel::Text(s))
            &&& sub is None && m.dom().contains("sub"@) ==> r == JsonModel::Object(m)
            &&& sub is None && !m.dom().contains("sub"@) ==> json::member(r, "sub"@) == Some(
                JsonModel::Text("extract"@),
            )
            &&& key != "sub"@ ==> json::member(r, key) == json::member(JsonModel::Object(m), key)
        }),
        forall|v: JsonModel| !(v is Object) ==> #[trigger] with_sub(v, sub) == v,
{
}

/// What is asked of a snapshot is told as from a snapshot, and anything else as from the
/// live page.
pub proof fn sources_are_told_apart(c: ExtractCommand)
    ensures
        source_name(c) == "snapshot"@ <==> snapshot_of(c) is Some,
        source_name(c) == "live_page"@ <==> snapshot_of(c) is None,
{
    reveal_strlit("snapshot");
    reveal_strlit("live_page");
    assert("snapshot"@.len() != "live_page"@.len());
}

/// An entry that is a text reads the text of what the selector finds; one that is neither a
/// text nor an object is an error.
pub proof fn selectors_stand_for_text_fields(v: JsonModel, path: Seq<char>, name: Seq<char>)
    ensures
        v matches JsonModel::Text(selector) ==> {
            let r = written_entry(v, path, name);
            &&& r.1 is None
            &&& json::member(r.0, "selector"@) == Some(JsonModel::Text(selector))
            &&& json::member(r.0, "kind"@) == Some(JsonModel::Text("text"@))
        },
        !(v is Text) && !(v is Object) ==> (written_entry(v, path, name).1 matches Some(
            ErrorModel::Domain(e),
        ) && e.code == ErrorCode::InvalidInput),
{
    reveal_strlit("selector");
    reveal_strlit("kind");
    assert("selector"@.len() != "kind"@.len());
}

/// Writing out a spec with nothing wrong keeps its names, and writes out each entry by
/// itself; the entries of a collection are written out in turn, and nothing else of it
/// changes.
pub proof fn specs_are_written_out_entry_by_entry(m: Map<Seq<char>, JsonModel>, key: Seq<char>)
    requires
        m.dom().finite(),
        written_spec(JsonModel::Object(m)).1 is None,
    ensures
        written_spec(JsonModel::Object(m)).0 matches JsonModel::Object(w) && w.dom() == m.dom() && (
        m.dom().contains(key) ==> {
            let one = written_entry(m[key], "$"@ + "."@ + key, key);
            one.1 is None && w[key] == one.0
        }),
{
    let keys = json::ordered_keys(m);
    json::ordered_keys_list_the_keys(m);
    written_entries_members(JsonModel::Object(m), keys, keys.len() as int, "$"@);
    if m.dom().contains(key) {
        assert(keys.contains(key));
        let i = choose|i: int| 0 <= i < keys.len() && keys[i] == key;
        assert(keys[i] == key);
    }
}

/// A collection whose fields are no object is an error, and else only its fields are written
/// out.
pub proof fn collections_are_written_out_by_their_fields(
    o: Map<Seq<char>, JsonModel>,
    path: Seq<char>,
    name: Seq<char>,
    key: Seq<char>,
)
    requires
        o.dom().finite(),
        o.dom().contains("fields"@),
    ensures
        ({
            let r = written_entry(JsonModel::Object(o), path, name);
            &&& !(o["fields"@] is Object) ==> (r.1 matches Some(ErrorModel::Domain(e)) && e.code
                == ErrorCode::InvalidInput)
            &&& key != "fields"@ ==> json::member(r.0, key) == json::member(
                JsonModel::Object(o),
                key,
            )
            &&& o["fields"@] matches JsonModel::Object(nested) ==> {
                let keys = json::ordered_keys(nested);
                let inner = written_entries(
                    o["fields"@],
                    keys,
                    keys.len() as int,
                    path + ".fields"@,
                );
                r.1 == inner.1 && json::member(r.0, "fields"@) == Some(JsonModel::Object(inner.0))
            }
        }),
{
}

/// Each kind of field goes by its own name.
pub proof fn kinds_go_by_their_names(x: ExtractKind)
    ensures
        x == ExtractKind::Text <==> kind_name(x) == "text"@,
        x == ExtractKind::Value <==> kind_name(x) == "value"@,
        x == ExtractKind::Html <==> kind_name(x) == "html"@,
        x == ExtractKind::Bbox <==> kind_name(x) == "bbox"@,
        x == ExtractKind::Attributes <==> kind_name(x) == "attributes"@,
        x == ExtractKind::Attribute <==> kind_name(x) == "attribute"@,
{
    reveal_strlit("text");
    reveal_strlit("value");
    reveal_strlit("html");
    reveal_strlit("bbox");
    reveal_strlit("attributes");
    reveal_strlit("attribute");
    assert("text"@.len() != "value"@.len());
    assert("text"@[0] != "html"@[0]);
    assert("text"@[0] != "bbox"@[0]);
    assert("text"@.len() != "attributes"@.len());
    assert("text"@.len() != "attribute"@.len());
    assert("value"@.len() != "html"@.len());
    assert("value"@.len() != "bbox"@.len());
    assert("value"@.len() != "attributes"@.len());
    assert("value"@.len() != "attribute"@.len());
    assert("html"@[0] != "bbox"@[0]);
    assert("html"@.len() != "attributes"@.len());
    assert("html"@.len() != "attribute"@.len());
    assert("bbox"@.len() != "attributes"@.len());
    assert("bbox"@.len() != "attribute"@.len());
    assert("attributes"@.len() != "attribute"@.len());
}

} // verus!
