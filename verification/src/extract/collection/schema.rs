//! What the page is told about collections.

use vstd::prelude::*;
use crate::error::{self, ErrorCode, ErrorModel, RubError};
use crate::extract_postprocess;
use crate::json::{self, Json, JsonModel, JsonObject};
use crate::json_text;
use crate::text;
use super::{ExtractCollectionSpec, ExtractEntries, ExtractEntrySpec};
use super::super::field;
use super::super::spec::{self, ExtractFieldSpec};

verus! {

/// A locator within a row, as far as it has to be checked.
#[derive(Clone, Copy, Debug)]
pub struct RowScopedLocatorValidation<'a> {
    pub selector: bool,
    pub target_text: bool,
    pub role: bool,
    pub label: bool,
    pub testid: bool,
    pub first: bool,
    pub last: bool,
    pub nth: bool,
    /// Whether the row itself is meant where nothing is given.
    pub allow_default_root: bool,
    pub scope_name: &'a str,
}

pub open spec fn one_if(b: bool) -> int {
    if b {
        1
    } else {
        0
    }
}

fn count(b: bool) -> (r: u8)
    ensures
        r == one_if(b),
{
    if b {
        1
    } else {
        0
    }
}

/// How many ways of locating are given.
pub open spec fn ways(v: RowScopedLocatorValidation<'_>) -> int {
    one_if(v.selector) + one_if(v.target_text) + one_if(v.role) + one_if(v.label) + one_if(
        v.testid,
    )
}

/// How many ways of choosing among matches are given.
pub open spec fn choices(v: RowScopedLocatorValidation<'_>) -> int {
    one_if(v.first) + one_if(v.last) + one_if(v.nth)
}

/// What is wrong with a locator within a row.
pub open spec fn row_locator_error(v: RowScopedLocatorValidation<'_>) -> Option<ErrorModel> {
    let complaint = if ways(v) == 0 && !v.allow_default_root {
        Some(" requires one locator: selector, target_text, role, label, or testid"@)
    } else if ways(v) > 1 {
        Some(
            " locator is ambiguous: provide exactly one of selector, target_text, role, label, or testid"@,
        )
    } else if choices(v) > 1 {
        Some(" match selection is ambiguous: provide at most one of first, last, or nth"@)
    } else if ways(v) == 0 && choices(v) > 0 {
        Some(" match selection requires an explicit locator inside the row scope"@)
    } else {
        None
    };
    match complaint {
        Some(c) => Some(error::plain(ErrorCode::InvalidInput, v.scope_name@ + c)),
        None => None,
    }
}

/// Checks that a locator within a row gives one way of locating, and at most one
/// of choosing.
pub fn validate_row_scoped_locator(v: RowScopedLocatorValidation<'_>) -> (r: Result<(), RubError>)
    ensures
        match r {
            Ok(()) => row_locator_error(v) is None,
            Err(e) => row_locator_error(v) == Some(e@),
        },
{
    let configured: u8 = count(v.selector) + count(v.target_text) + count(v.role) + count(v.label)
        + count(v.testid);
    let selected: u8 = count(v.first) + count(v.last) + count(v.nth);
    let complaint = if configured == 0 && !v.allow_default_root {
        " requires one locator: selector, target_text, role, label, or testid"
    } else if configured > 1 {
        " locator is ambiguous: provide exactly one of selector, target_text, role, label, or testid"
    } else if selected > 1 {
        " match selection is ambiguous: provide at most one of first, last, or nth"
    } else if configured == 0 && selected > 0 {
        " match selection requires an explicit locator inside the row scope"
    } else {
        return Ok(());
    };
    let message = text::cat2(v.scope_name, complaint);
    Err(RubError::domain(ErrorCode::InvalidInput, message.as_str()))
}

/// What is wrong with the locator of a field within a row.
pub open spec fn field_locator_error(f: ExtractFieldSpec) -> Option<ErrorModel> {
    if f.index is Some || f.element_ref is Some {
        Some(
            error::plain(
                ErrorCode::InvalidInput,
                "nested collection fields do not support index/ref locators; use selector, target_text, role, label, or testid within the row scope"@,
            ),
        )
    } else {
        row_locator_error(
            RowScopedLocatorValidation {
                selector: f.selector is Some,
                target_text: f.target_text is Some,
                role: f.role is Some,
                label: f.label is Some,
                testid: f.testid is Some,
                first: f.first,
                last: f.last,
                nth: f.nth is Some,
                allow_default_root: true,
                scope_name: "nested collection field",
            },
        )
    }
}

pub fn validate_collection_field_locator(f: &ExtractFieldSpec) -> (r: Result<(), RubError>)
    ensures
        match r {
            Ok(()) => field_locator_error(*f) is None,
            Err(e) => field_locator_error(*f) == Some(e@),
        },
{
    if f.index.is_some() || f.element_ref.is_some() {
        return Err(
            RubError::domain(
                ErrorCode::InvalidInput,
                "nested collection fields do not support index/ref locators; use selector, target_text, role, label, or testid within the row scope",
            ),
        );
    }
    validate_row_scoped_locator(
        RowScopedLocatorValidation {
            selector: f.selector.is_some(),
            target_text: f.target_text.is_some(),
            role: f.role.is_some(),
            label: f.label.is_some(),
            testid: f.testid.is_some(),
            first: f.first,
            last: f.last,
            nth: f.nth.is_some(),
            allow_default_root: true,
            scope_name: "nested collection field",
        },
    )
}

/// The selector of the rows of a collection.
pub open spec fn row_selector(c: ExtractCollectionSpec) -> Option<Seq<char>> {
    if c.collection is Some {
        text::opt_text(c.collection)
    } else {
        text::opt_text(c.selector)
    }
}

fn row_selector_value(c: &ExtractCollectionSpec) -> (r: Json)
    ensures
        r@ == json::opt_text_model(row_selector(*c)),
{
    if c.collection.is_some() {
        json::opt_text_value(&c.collection)
    } else {
        json::opt_text_value(&c.selector)
    }
}

/// What the page is told about where the rows of a collection are.
pub open spec fn root_members(c: ExtractCollectionSpec) -> Map<Seq<char>, JsonModel> {
    Map::<Seq<char>, JsonModel>::empty().insert(
        "selector"@,
        json::opt_text_model(row_selector(c)),
    ).insert("target_text"@, json::opt_text_model(text::opt_text(c.target_text))).insert(
        "role"@,
        json::opt_text_model(text::opt_text(c.role)),
    ).insert("label"@, json::opt_text_model(text::opt_text(c.label))).insert(
        "testid"@,
        json::opt_text_model(text::opt_text(c.testid)),
    ).insert(
        "row_scope_selector"@,
        json::opt_text_model(text::opt_text(c.row_scope_selector)),
    ).insert("first"@, JsonModel::Bool(c.first)).insert("last"@, JsonModel::Bool(c.last)).insert(
        "nth"@,
        field::opt_index(c.nth),
    )
}

fn root_object(c: &ExtractCollectionSpec) -> (r: JsonObject)
    ensures
        r@ == root_members(*c),
{
    JsonObject::new().with("selector", row_selector_value(c)).with(
        "target_text",
        json::opt_text_value(&c.target_text),
    ).with("role", json::opt_text_value(&c.role)).with(
        "label",
        json::opt_text_value(&c.label),
    ).with("testid", json::opt_text_value(&c.testid)).with(
        "row_scope_selector",
        json::opt_text_value(&c.row_scope_selector),
    ).with("first", Json::Bool(c.first)).with("last", Json::Bool(c.last)).with(
        "nth",
        field::opt_index_value(c.nth),
    )
}

/// What is wrong with the locator of a collection.
pub open spec fn root_error(c: ExtractCollectionSpec) -> Option<ErrorModel> {
    if c.collection is Some && c.selector is Some {
        Some(
            error::plain(
                ErrorCode::InvalidInput,
                "collection locator is ambiguous: provide either 'collection' or 'selector', not both"@,
            ),
        )
    } else {
        row_locator_error(
            RowScopedLocatorValidation {
                selector: row_selector(c) is Some,
                target_text: c.target_text is Some,
                role: c.role is Some,
                label: c.label is Some,
                testid: c.testid is Some,
                first: c.first,
                last: c.last,
                nth: c.nth is Some,
                allow_default_root: false,
                scope_name: "collection",
            },
        )
    }
}

pub fn build_collection_root_schema(c: &ExtractCollectionSpec) -> (r: Result<Json, RubError>)
    ensures
        match r {
            Ok(v) => root_error(*c) is None && v@ == JsonModel::Object(root_members(*c)),
            Err(e) => root_error(*c) == Some(e@),
        },
{
    if c.collection.is_some() && c.selector.is_some() {
        return Err(
            RubError::domain(
                ErrorCode::InvalidInput,
                "collection locator is ambiguous: provide either 'collection' or 'selector', not both",
            ),
        );
    }
    let checked = validate_row_scoped_locator(
        RowScopedLocatorValidation {
            selector: c.collection.is_some() || c.selector.is_some(),
            target_text: c.target_text.is_some(),
            role: c.role.is_some(),
            label: c.label.is_some(),
            testid: c.testid.is_some(),
            first: c.first,
            last: c.last,
            nth: c.nth.is_some(),
            allow_default_root: false,
            scope_name: "collection",
        },
    );
    match checked {
        Ok(()) => Ok(Json::Object(root_object(c))),
        Err(e) => Err(e),
    }
}

/// What the page is told about a field.
pub open spec fn field_schema(name: Seq<char>, f: ExtractFieldSpec) -> JsonModel {
    JsonModel::Object(
        Map::<Seq<char>, JsonModel>::empty().insert(
            "entry_kind"@,
            JsonModel::Text("field"@),
        ).insert("name"@, JsonModel::Text(name)).insert(
            "selector"@,
            json::opt_text_model(text::opt_text(f.selector)),
        ).insert("target_text"@, json::opt_text_model(text::opt_text(f.target_text))).insert(
            "role"@,
            json::opt_text_model(text::opt_text(f.role)),
        ).insert("label"@, json::opt_text_model(text::opt_text(f.label))).insert(
            "testid"@,
            json::opt_text_model(text::opt_text(f.testid)),
        ).insert("first"@, JsonModel::Bool(f.first)).insert(
            "last"@,
            JsonModel::Bool(f.last),
        ).insert("nth"@, field::opt_index(f.nth)).insert(
            "kind"@,
            JsonModel::Text(spec::kind_name(f.kind)),
        ).insert("attribute"@, json::opt_text_model(text::opt_text(f.attribute))).insert(
            "many"@,
            JsonModel::Bool(f.many),
        ),
    )
}

fn field_schema_value(name: &str, f: &ExtractFieldSpec) -> (r: Json)
    ensures
        r@ == field_schema(name@, *f),
{
    Json::Object(
        JsonObject::new().with("entry_kind", json::text_value("field")).with(
            "name",
            json::text_value(name),
        ).with("selector", json::opt_text_value(&f.selector)).with(
            "target_text",
            json::opt_text_value(&f.target_text),
        ).with("role", json::opt_text_value(&f.role)).with(
            "label",
            json::opt_text_value(&f.label),
        ).with("testid", json::opt_text_value(&f.testid)).with("first", Json::Bool(f.first)).with(
            "last",
            Json::Bool(f.last),
        ).with("nth", field::opt_index_value(f.nth)).with(
            "kind",
            json::text_value(f.kind.as_str()),
        ).with("attribute", json::opt_text_value(&f.attribute)).with("many", Json::Bool(f.many)),
    )
}

/// What the page is told about an entry, or what is wrong with it.
pub open spec fn entry_schema(name: Seq<char>, entry: ExtractEntrySpec) -> Result<
    JsonModel,
    ErrorModel,
>
    decreases entry, 0int,
{
    match entry {
        ExtractEntrySpec::Field(f) => match field_locator_error(f) {
            Some(e) => Err(e),
            None => if field::lacks_attribute_name(f) {
                Err(field::nameless_attribute())
            } else {
                Ok(field_schema(name, f))
            },
        },
        ExtractEntrySpec::Collection(c) => {
            proof {
                assert(decreases_to!(entry => c));
                assert(decreases_to!(c => c.fields));
                assert(decreases_to!(c.fields => c.fields.entries));
                assert(decreases_to!(c.fields.entries => c.fields.entries@));
            }
            match entry_schemas(c.fields.entries@, c.fields.entries@.len() as int) {
                Err(e) => Err(e),
                Ok(fields) => Ok(
                    JsonModel::Object(
                        root_members(c).insert(
                            "entry_kind"@,
                            JsonModel::Text("collection"@),
                        ).insert("name"@, JsonModel::Text(name)).insert(
                            "fields"@,
                            JsonModel::Array(fields),
                        ),
                    ),
                ),
            }
        },
    }
}

/// What the page is told about the first `n` entries, in the order of their
/// names.
pub open spec fn entry_schemas(s: Seq<(String, ExtractEntrySpec)>, n: int) -> Result<
    Seq<JsonModel>,
    ErrorModel,
>
    decreases s, n,
{
    if n <= 0 || n > s.len() {
        Ok(seq![])
    } else {
        match entry_schemas(s, n - 1) {
            Err(e) => Err(e),
            Ok(front) => {
                proof {
                    assert(decreases_to!(s => s[n - 1]));
                    assert(decreases_to!(s[n - 1] => s[n - 1].1));
                }
                match entry_schema(s[n - 1].0@, s[n - 1].1) {
                    Err(e) => Err(e),
                    Ok(v) => Ok(front.push(v)),
                }
            },
        }
    }
}

proof fn schemas_failed(s: Seq<(String, ExtractEntrySpec)>, k: int, n: int)
    requires
        0 <= k <= n <= s.len(),
        entry_schemas(s, k) is Err,
    ensures
        entry_schemas(s, n) == entry_schemas(s, k),
    decreases n - k,
{
    if k < n {
        schemas_failed(s, k, n - 1);
    }
}

pub open spec fn schemas_result(r: Result<Vec<Json>, RubError>) -> Result<
    Seq<JsonModel>,
    ErrorModel,
> {
    match r {
        Ok(v) => Ok(json::items_model(v@)),
        Err(e) => Err(e@),
    }
}

pub fn build_collection_entry_schemas(fields: &ExtractEntries) -> (r: Result<Vec<Json>, RubError>)
    ensures
        schemas_result(r) == entry_schemas(fields.entries@, fields.entries@.len() as int),
    decreases fields.entries@, fields.entries@.len(),
{
    let ghost s = fields.entries@;
    let mut out: Vec<Json> = Vec::new();
    let mut i: usize = 0;
    assert(json::items_model(out@) =~= seq![]);
    while i < fields.entries.len()
        invariant
            i <= s.len(),
            s == fields.entries@,
            entry_schemas(s, i as int) == Ok::<Seq<JsonModel>, ErrorModel>(
                json::items_model(out@),
            ),
        decreases s.len() - i,
    {
        proof {
            assert(decreases_to!(s => s[i as int]));
            assert(decreases_to!(s[i as int] => s[i as int].1));
        }
        match build_collection_entry_schema(fields.entries[i].0.as_str(), &fields.entries[i].1) {
            Ok(v) => {
                let ghost before = out@;
                out.push(v);
                assert(out@.drop_last() =~= before);
            },
            Err(e) => {
                proof {
                    schemas_failed(s, i + 1, s.len() as int);
                }
                return Err(e);
            },
        }
        i += 1;
    }
    Ok(out)
}

pub fn build_collection_entry_schema(name: &str, entry: &ExtractEntrySpec) -> (r: Result<
    Json,
    RubError,
>)
    ensures
        extract_postprocess::json_result(r) == entry_schema(name@, *entry),
    decreases entry, 0int,
{
    match entry {
        ExtractEntrySpec::Field(f) => {
            match validate_collection_field_locator(f) {
                Ok(()) => {},
                Err(e) => return Err(e),
            }
            if field::is_lacking_attribute_name(f) {
                return Err(field::nameless_attribute_error());
            }
            Ok(field_schema_value(name, f))
        },
        ExtractEntrySpec::Collection(c) => {
            proof {
                assert(decreases_to!(*entry => c));
                assert(decreases_to!(c => c.fields));
                assert(decreases_to!(c.fields => c.fields.entries));
                assert(decreases_to!(c.fields.entries => c.fields.entries@));
            }
            match build_collection_entry_schemas(&c.fields) {
                Err(e) => Err(e),
                Ok(fields) => Ok(
                    Json::Object(
                        root_object(c).with("entry_kind", json::text_value("collection")).with(
                            "name",
                            json::text_value(name),
                        ).with("fields", Json::Array(fields)),
                    ),
                ),
            }
        },
    }
}

/// The locator of a collection, with what it leaves open.
pub open spec fn locator_json(c: ExtractCollectionSpec) -> JsonModel {
    JsonModel::Object(
        root_members(c).insert("collection"@, json::opt_text_model(text::opt_text(c.collection))).insert(
            "selector"@,
            json::opt_text_model(text::opt_text(c.selector)),
        ),
    )
}

pub fn collection_locator_context(c: &ExtractCollectionSpec) -> (r: Json)
    ensures
        r@ == locator_json(*c),
{
    Json::Object(
        root_object(c).with("collection", json::opt_text_value(&c.collection)).with(
            "selector",
            json::opt_text_value(&c.selector),
        ),
    )
}

/// The rest of a collection script, behind its parameters and the locating
/// functions.
pub const COLLECTION_SCRIPT_BODY: &'static str = r#"
                const normalizeText = normalize;
                const testId = testingId;

                const candidateValues = (el) => {
                    const values = [];
                    const text = normalizeText(el.textContent || '');
                    if (text) values.push(text);
                    for (const name of ['aria-label', 'placeholder', 'title', 'alt', 'value', 'name']) {
                        const value = normalizeText(el.getAttribute(name) || '');
                        if (value) values.push(value);
                    }
                    return values;
                };

                const elementsInScope = (root) => {
                    if (!root) {
                        return [];
                    }
                    const scopeRoot =
                        root.nodeType === Node.DOCUMENT_NODE
                            ? (root.documentElement || root.body)
                            : root;
                    if (!scopeRoot || typeof scopeRoot.querySelectorAll !== 'function') {
                        return [];
                    }
                    return [scopeRoot, ...Array.from(scopeRoot.querySelectorAll('*'))];
                };

                const applySelection = (nodes, entry) => {
                    if (!nodes.length) return nodes;
                    if (entry.first) return nodes.slice(0, 1);
                    if (entry.last) return nodes.slice(-1);
                    if (entry.nth !== null && entry.nth !== undefined) {
                        const selected = nodes[entry.nth];
                        return selected ? [selected] : [];
                    }
                    return nodes;
                };

                const resolveNodes = (root, entry, options = { allowDefaultRoot: false, defaultRootOverride: undefined }) => {
                    const configured = [
                        entry.selector,
                        entry.target_text,
                        entry.role,
                        entry.label,
                        entry.testid,
                    ].filter((value) => value !== null && value !== undefined && value !== '').length;

                    if (configured === 0) {
                        if (!options.allowDefaultRoot) return [];
                        const defaultRoot =
                            options.defaultRootOverride !== undefined
                                ? options.defaultRootOverride
                                : root;
                        if (defaultRoot === null || defaultRoot === undefined) return [];
                        if (defaultRoot && defaultRoot.nodeType === Node.DOCUMENT_NODE) {
                            const scopeRoot = defaultRoot.documentElement || defaultRoot.body;
                            return scopeRoot ? [scopeRoot] : [];
                        }
                        return [defaultRoot];
                    }

                    let nodes;
                    if (entry.selector) {
                        try {
                            nodes = Array.from(root.querySelectorAll(entry.selector));
                        } catch (error) {
                            throw new Error(String(error && error.message ? error.message : error));
                        }
                        return applySelection(nodes, entry);
                    }

                    const candidates = elementsInScope(root);
                    if (entry.target_text) {
                        const query = normalizeText(entry.target_text);
                        const exact = candidates.filter((candidate) =>
                            candidateValues(candidate).some((value) => value === query)
                        );
                        nodes = exact.length
                            ? exact
                            : candidates.filter((candidate) =>
                                  candidateValues(candidate).some((value) => value.includes(query))
                              );
                        return applySelection(nodes, entry);
                    }

                    if (entry.role) {
                        const query = normalizeText(entry.role);
                        nodes = candidates.filter((candidate) => semanticRole(candidate) === query);
                        return applySelection(nodes, entry);
                    }

                    if (entry.label) {
                        const query = normalizeText(entry.label);
                        const exact = candidates.filter((candidate) => accessibleLabel(candidate) === query);
                        nodes = exact.length
                            ? exact
                            : candidates.filter((candidate) => {
                                  const value = accessibleLabel(candidate);
                                  return value && value.includes(query);
                              });
                        return applySelection(nodes, entry);
                    }

                    if (entry.testid) {
                        const query = normalizeText(entry.testid);
                        nodes = candidates.filter((candidate) => testId(candidate) === query);
                        return applySelection(nodes, entry);
                    }

                    return [];
                };

                const validateRowScopeSelector = (selector) => {
                    if (!selector) return null;
                    try {
                        const probe = document.documentElement || document.body;
                        if (!probe || typeof probe.matches !== 'function') return null;
                        probe.matches(selector);
                        return null;
                    } catch (error) {
                        return String(error && error.message ? error.message : error);
                    }
                };

                const resolveProjectionRoot = (rowRoot, collection) => {
                    if (!collection.row_scope_selector) return rowRoot;
                    if (!rowRoot || typeof rowRoot.closest !== 'function') return null;
                    return rowRoot.closest(collection.row_scope_selector);
                };

                const readOne = (el, kind, attribute) => {
                    switch (kind) {
                        case 'text':
                            return String(el.textContent || '').replace(/\s+/g, ' ').trim();
                        case 'value':
                            return 'value' in el ? String(el.value ?? '') : null;
                        case 'html':
                            return el.outerHTML || null;
                        case 'bbox': {
                            const rect = el.getBoundingClientRect();
                            return { x: rect.x, y: rect.y, width: rect.width, height: rect.height };
                        }
                        case 'attributes':
                            return Object.fromEntries(Array.from(el.attributes || []).map(attr => [attr.name, attr.value]));
                        case 'attribute':
                            return attribute ? el.getAttribute(attribute) : null;
                        default:
                            return null;
                    }
                };

                const projectEntry = (root, entry, defaultRoot = root) => {
                    if (entry.entry_kind === 'field') {
                        let nodes;
                        try {
                            nodes = resolveNodes(root, entry, {
                                allowDefaultRoot: true,
                                defaultRootOverride: defaultRoot,
                            });
                        } catch (error) {
                            throw {
                                __rub_field_error: true,
                                field: entry.name,
                                message: String(error && error.message ? error.message : error),
                            };
                        }
                        return {
                            payload_kind: 'field',
                            match_count: nodes.length,
                            values: nodes.map(node => readOne(node, entry.kind, entry.attribute)),
                        };
                    }
                    return projectCollection(root, entry);
                };

                const projectCollection = (root, collection) => {
                    let roots;
                    try {
                        roots = resolveNodes(root, collection, { allowDefaultRoot: false });
                    } catch (error) {
                        return {
                            payload_kind: 'collection',
                            row_count: 0,
                            rows: [],
                            selector_error: String(error && error.message ? error.message : error),
                            row_scope_error: null,
                            field_errors: {},
                        };
                    }

                    const rowScopeError = validateRowScopeSelector(collection.row_scope_selector);
                    if (rowScopeError) {
                        return {
                            payload_kind: 'collection',
                            row_count: 0,
                            rows: [],
                            selector_error: null,
                            row_scope_error: rowScopeError,
                            field_errors: {},
                        };
                    }

                    const fieldErrors = {};
                    const rows = roots.map(rowRoot => {
                        const projectionRoot = resolveProjectionRoot(rowRoot, collection);
                        const row = {};
                        for (const field of collection.fields) {
                            try {
                                row[field.name] = projectEntry(projectionRoot, field, rowRoot);
                            } catch (error) {
                                if (error && error.__rub_field_error) {
                                    fieldErrors[error.field] = error.message;
                                    row[field.name] = {
                                        payload_kind: 'field',
                                        match_count: 0,
                                        values: [],
                                    };
                                    continue;
                                }
                                throw error;
                            }
                        }
                        return row;
                    });

                    return {
                        payload_kind: 'collection',
                        row_count: roots.length,
                        rows,
                        selector_error: null,
                        row_scope_error: null,
                        field_errors: fieldErrors,
                    };
                };

                return projectCollection(document, {
                    ...collectionRoot,
                    fields,
                });
            } catch (error) {
                return {
                    payload_kind: 'collection',
                    row_count: 0,
                    rows: [],
                    selector_error: String(error && error.message ? error.message : error),
                    row_scope_error: null,
                    field_errors: {},
                };
            }
        })()"#;

/// The script that reads a collection from a page.
pub open spec fn collection_script(c: ExtractCollectionSpec, helpers: Seq<char>) -> Result<
    Seq<char>,
    ErrorModel,
> {
    match root_error(c) {
        Some(e) => Err(e),
        None => match entry_schemas(c.fields.entries@, c.fields.entries@.len() as int) {
            Err(e) => Err(e),
            Ok(fields) => Ok(
                "(function() {\n            const collectionRoot = "@ + json_text::compact_text(
                    JsonModel::Object(root_members(c)),
                ) + ";\n            const fields = "@ + json_text::compact_text(
                    JsonModel::Array(fields),
                ) + ";\n            try {\n                "@ + helpers + COLLECTION_SCRIPT_BODY@,
            ),
        },
    }
}

pub open spec fn script_result(r: Result<String, RubError>) -> Result<Seq<char>, ErrorModel> {
    match r {
        Ok(s) => Ok(s@),
        Err(e) => Err(e@),
    }
}

/// The script that reads a collection from a page. `helpers` defines the
/// locating functions that it calls.
pub fn build_collection_extract_script(c: &ExtractCollectionSpec, helpers: &str) -> (r: Result<
    String,
    RubError,
>)
    ensures
        script_result(r) == collection_script(*c, helpers@),
{
    let root = match build_collection_root_schema(c) {
        Ok(root) => root,
        Err(e) => return Err(e),
    };
    let fields = match build_collection_entry_schemas(&c.fields) {
        Ok(fields) => fields,
        Err(e) => return Err(e),
    };
    let root_text = json_text::to_compact_text(&root);
    let field_text = json_text::to_compact_text(&Json::Array(fields));
    let head = text::cat5(
        "(function() {\n            const collectionRoot = ",
        root_text.as_str(),
        ";\n            const fields = ",
        field_text.as_str(),
        ";\n            try {\n                ",
    );
    Ok(text::cat3(head.as_str(), helpers, COLLECTION_SCRIPT_BODY))
}

/// A locator within a row is accepted when it gives one way of locating, or
/// none where the row may stand for itself, and at most one way of choosing,
/// which needs a way of locating.
pub proof fn accepted_row_locators(v: RowScopedLocatorValidation<'_>)
    ensures
        row_locator_error(v) is None <==> {
            &&& ways(v) <= 1
            &&& choices(v) <= ways(v)
            &&& ways(v) == 1 || v.allow_default_root
        },
{
}

/// The ways of locating and of choosing are counted one for each that is given.
pub proof fn ways_are_counted_one_by_one(v: RowScopedLocatorValidation<'_>)
    ensures
        ways(v) == 0 <==> !v.selector && !v.target_text && !v.role && !v.label && !v.testid,
        ways(v) == 1 ==> v.selector || v.target_text || v.role || v.label || v.testid,
        v.selector && (v.target_text || v.role || v.label || v.testid) ==> ways(v) >= 2,
        v.target_text && (v.role || v.label || v.testid) ==> ways(v) >= 2,
        v.role && (v.label || v.testid) ==> ways(v) >= 2,
        v.label && v.testid ==> ways(v) >= 2,
        ways(v) >= 2 ==> !(v.selector && !v.target_text && !v.role && !v.label && !v.testid),
        choices(v) == 0 <==> !v.first && !v.last && !v.nth,
        choices(v) >= 2 <==> (v.first && v.last) || (v.first && v.nth) || (v.last && v.nth),
{
}

/// A field within a row is located within the row: never by a number or a reference, by one
/// way of locating at most, and by one way of choosing among matches at most.
pub proof fn row_fields_are_located_within_the_row(f: ExtractFieldSpec)
    ensures
        f.index is Some || f.element_ref is Some ==> field_locator_error(f) is Some,
        f.selector is Some && f.role is Some ==> field_locator_error(f) is Some,
        f.first && f.last ==> field_locator_error(f) is Some,
        f.index is None && f.element_ref is None && f.selector is Some && f.target_text is None
            && f.role is None && f.label is None && f.testid is None && !f.last && f.nth is None
            ==> field_locator_error(f) is None,
        f.index is None && f.element_ref is None && f.selector is None && f.target_text is None
            && f.role is None && f.label is None && f.testid is None ==> (field_locator_error(f)
            is None <==> !f.first && !f.last && f.nth is None),
        field_locator_error(f) matches Some(e) ==> (e matches ErrorModel::Domain(x) && x.code
            == ErrorCode::InvalidInput),
{
}

/// A collection has its rows by one way of locating: by `collection` or by `selector`, not
/// by both, or by another way without them.
pub proof fn collections_are_located_in_one_way(c: ExtractCollectionSpec)
    ensures
        c.collection is Some && c.selector is Some ==> root_error(c) is Some,
        c.collection is None && c.selector is None && c.target_text is None && c.role is None
            && c.label is None && c.testid is None ==> root_error(c) is Some,
        (c.collection is Some) != (c.selector is Some) && c.target_text is None && c.role is None
            && c.label is None && c.testid is None && !c.first && !c.last ==> root_error(c) is None,
        c.collection is Some ==> row_selector(c) == text::opt_text(c.collection),
        c.collection is None ==> row_selector(c) == text::opt_text(c.selector),
{
}

/// The page is told about each entry of a row in the order of the spec; the first that is
/// wrong refuses them all.
pub proof fn schemas_go_entry_by_entry(s: Seq<(String, ExtractEntrySpec)>, n: int)
    requires
        0 <= n <= s.len(),
    ensures
        match entry_schemas(s, n) {
            Ok(told) => told.len() == n && forall|i: int|
                0 <= i < n ==> entry_schema((#[trigger] s[i]).0@, s[i].1) == Ok::<
                    JsonModel,
                    ErrorModel,
                >(told[i]),
            Err(e) => exists|k: int| #![trigger s[k]]
                0 <= k < n && entry_schema(s[k].0@, s[k].1) == Err::<JsonModel, ErrorModel>(e)
                    && forall|i: int|
                    0 <= i < k ==> entry_schema((#[trigger] s[i]).0@, s[i].1) is Ok,
        },
    decreases n,
{
    if n > 0 {
        schemas_go_entry_by_entry(s, n - 1);
        assert(s[n - 1] == s[n - 1]);
    }
}

/// The page is told of a field its name, where it is and what is read of it, each under its
/// own name.
pub proof fn fields_are_told_to_the_page(name: Seq<char>, f: ExtractFieldSpec)
    ensures
        ({
            let r = field_schema(name, f);
            &&& json::member(r, "entry_kind"@) == Some(JsonModel::Text("field"@))
            &&& json::member(r, "name"@) == Some(JsonModel::Text(name))
            &&& json::member(r, "selector"@) == Some(
                json::opt_text_model(text::opt_text(f.selector)),
            )
            &&& json::member(r, "target_text"@) == Some(
                json::opt_text_model(text::opt_text(f.target_text)),
            )
            &&& json::member(r, "role"@) == Some(json::opt_text_model(text::opt_text(f.role)))
            &&& json::member(r, "label"@) == Some(json::opt_text_model(text::opt_text(f.label)))
            &&& json::member(r, "testid"@) == Some(json::opt_text_model(text::opt_text(f.testid)))
            &&& json::member(r, "first"@) == Some(JsonModel::Bool(f.first))
            &&& json::member(r, "last"@) == Some(JsonModel::Bool(f.last))
            &&& json::member(r, "nth"@) == Some(field::opt_index(f.nth))
            &&& json::member(r, "kind"@) == Some(JsonModel::Text(spec::kind_name(f.kind)))
            &&& json::member(r, "attribute"@) == Some(
                json::opt_text_model(text::opt_text(f.attribute)),
            )
            &&& json::member(r, "many"@) == Some(JsonModel::Bool(f.many))
        }),
{
    reveal_strlit("entry_kind");
    reveal_strlit("name");
    reveal_strlit("selector");
    reveal_strlit("target_text");
    reveal_strlit("role");
    reveal_strlit("label");
    reveal_strlit("testid");
    reveal_strlit("first");
    reveal_strlit("last");
    reveal_strlit("nth");
    reveal_strlit("kind");
    reveal_strlit("attribute");
    reveal_strlit("many");
    assert("entry_kind"@.len() != "name"@.len());
    assert("entry_kind"@.len() != "selector"@.len());
    assert("entry_kind"@.len() != "target_text"@.len());
    assert("entry_kind"@.len() != "role"@.len());
    assert("entry_kind"@.len() != "label"@.len());
    assert("entry_kind"@.len() != "testid"@.len());
    assert("entry_kind"@.len() != "first"@.len());
    assert("entry_kind"@.len() != "last"@.len());
    assert("entry_kind"@.len() != "nth"@.len());
    assert("entry_kind"@.len() != "kind"@.len());
    assert("entry_kind"@.len() != "attribute"@.len());
    assert("entry_kind"@.len() != "many"@.len());
    assert("name"@.len() != "selector"@.len());
    assert("name"@.len() != "target_text"@.len());
    assert("name"@[0] != "role"@[0]);
    assert("name"@.len() != "label"@.len());
    assert("name"@.len() != "testid"@.len());
    assert("name"@.len() != "first"@.len());
    assert("name"@[0] != "last"@[0]);
    assert("name"@.len() != "nth"@.len());
    assert("name"@[0] != "kind"@[0]);
    assert("name"@.len() != "attribute"@.len());
    assert("name"@[0] != "many"@[0]);
    assert("selector"@.len() != "target_text"@.len());
    assert("selector"@.len() != "role"@.len());
    assert("selector"@.len() != "label"@.len());
    assert("selector"@.len() != "testid"@.len());
    assert("selector"@.len() != "first"@.len());
    assert("selector"@.len() != "last"@.len());
    assert("selector"@.len() != "nth"@.len());
    assert("selector"@.len() != "kind"@.len());
    assert("selector"@.len() != "attribute"@.len());
    assert("selector"@.len() != "many"@.len());
    assert("target_text"@.len() != "role"@.len());
    assert("target_text"@.len() != "label"@.len());
    assert("target_text"@.len() != "testid"@.len());
    assert("target_text"@.len() != "first"@.len());
    assert("target_text"@.len() != "last"@.len());
    assert("target_text"@.len() != "nth"@.len());
    assert("target_text"@.len() != "kind"@.len());
    assert("target_text"@.len() != "attribute"@.len());
    assert("target_text"@.len() != "many"@.len());
    assert("role"@.len() != "label"@.len());
    assert("role"@.len() != "testid"@.len());
    assert("role"@.len() != "first"@.len());
    assert("role"@[0] != "last"@[0]);
    assert("role"@.len() != "nth"@.len());
    assert("role"@[0] != "kind"@[0]);
    assert("role"@.len() != "attribute"@.len());
    assert("role"@[0] != "many"@[0]);
    assert("label"@.len() != "testid"@.len());
    assert("label"@[0] != "first"@[0]);
    assert("label"@.len() != "last"@.len());
    assert("label"@.len() != "nth"@.len());
    assert("label"@.len() != "kind"@.len());
    assert("label"@.len() != "attribute"@.len());
    assert("label"@.len() != "many"@.len());
    assert("testid"@.len() != "first"@.len());
    assert("testid"@.len() != "last"@.len());
    assert("testid"@.len() != "nth"@.len());
    assert("testid"@.len() != "kind"@.len());
    assert("testid"@.len() != "attribute"@.len());
    assert("testid"@.len() != "many"@.len());
    assert("first"@.len() != "last"@.len());
    assert("first"@.len() != "nth"@.len());
    assert("first"@.len() != "kind"@.len());
    assert("first"@.len() != "attribute"@.len());
    assert("first"@.len() != "many"@.len());
    assert("last"@.len() != "nth"@.len());
    assert("last"@[0] != "kind"@[0]);
    assert("last"@.len() != "attribute"@.len());
    assert("last"@[0] != "many"@[0]);
    assert("nth"@.len() != "kind"@.len());
    assert("nth"@.len() != "attribute"@.len());
    assert("nth"@.len() != "many"@.len());
    assert("kind"@.len() != "attribute"@.len());
    assert("kind"@[0] != "many"@[0]);
    assert("attribute"@.len() != "many"@.len());
}

/// The page is told of a collection where its rows are, and of its entries in turn.
pub proof fn collections_are_told_to_the_page(name: Seq<char>, c: ExtractCollectionSpec)
    ensures
        ({
            let root = JsonModel::Object(root_members(c));
            &&& json::member(root, "selector"@) == Some(json::opt_text_model(row_selector(c)))
            &&& json::member(root, "target_text"@) == Some(
                json::opt_text_model(text::opt_text(c.target_text)),
            )
            &&& json::member(root, "role"@) == Some(json::opt_text_model(text::opt_text(c.role)))
            &&& json::member(root, "label"@) == Some(json::opt_text_model(text::opt_text(c.label)))
            &&& json::member(root, "testid"@) == Some(
                json::opt_text_model(text::opt_text(c.testid)),
            )
            &&& json::member(root, "row_scope_selector"@) == Some(
                json::opt_text_model(text::opt_text(c.row_scope_selector)),
            )
            &&& json::member(root, "first"@) == Some(JsonModel::Bool(c.first))
            &&& json::member(root, "last"@) == Some(JsonModel::Bool(c.last))
            &&& json::member(root, "nth"@) == Some(field::opt_index(c.nth))
        }),
        ({
            let entries = entry_schemas(c.fields.entries@, c.fields.entries@.len() as int);
            match entry_schema(name, ExtractEntrySpec::Collection(c)) {
                Ok(told) => entries is Ok && json::member(told, "name"@) == Some(
                    JsonModel::Text(name),
                ) && json::member(told, "entry_kind"@) == Some(JsonModel::Text("collection"@))
                    && json::member(told, "fields"@) == Some(JsonModel::Array(entries->Ok_0)),
                Err(e) => entries == Err::<Seq<JsonModel>, ErrorModel>(e),
            }
        }),
{
    reveal_strlit("selector");
    reveal_strlit("target_text");
    reveal_strlit("role");
    reveal_strlit("label");
    reveal_strlit("testid");
    reveal_strlit("row_scope_selector");
    reveal_strlit("first");
    reveal_strlit("last");
    reveal_strlit("nth");
    assert("selector"@.len() != "target_text"@.len());
    assert("selector"@.len() != "role"@.len());
    assert("selector"@.len() != "label"@.len());
    assert("selector"@.len() != "testid"@.len());
    assert("selector"@.len() != "row_scope_selector"@.len());
    assert("selector"@.len() != "first"@.len());
    assert("selector"@.len() != "last"@.len());
    assert("selector"@.len() != "nth"@.len());
    assert("target_text"@.len() != "role"@.len());
    assert("target_text"@.len() != "label"@.len());
    assert("target_text"@.len() != "testid"@.len());
    assert("target_text"@.len() != "row_scope_selector"@.len());
    assert("target_text"@.len() != "first"@.len());
    assert("target_text"@.len() != "last"@.len());
    assert("target_text"@.len() != "nth"@.len());
    assert("role"@.len() != "label"@.len());
    assert("role"@.len() != "testid"@.len());
    assert("role"@.len() != "row_scope_selector"@.len());
    assert("role"@.len() != "first"@.len());
    assert("role"@[0] != "last"@[0]);
    assert("role"@.len() != "nth"@.len());
    assert("label"@.len() != "testid"@.len());
    assert("label"@.len() != "row_scope_selector"@.len());
    assert("label"@[0] != "first"@[0]);
    assert("label"@.len() != "last"@.len());
    assert("label"@.len() != "nth"@.len());
    assert("testid"@.len() != "row_scope_selector"@.len());
    assert("testid"@.len() != "first"@.len());
    assert("testid"@.len() != "last"@.len());
    assert("testid"@.len() != "nth"@.len());
    assert("row_scope_selector"@.len() != "first"@.len());
    assert("row_scope_selector"@.len() != "last"@.len());
    assert("row_scope_selector"@.len() != "nth"@.len());
    assert("first"@.len() != "last"@.len());
    assert("first"@.len() != "nth"@.len());
    assert("last"@.len() != "nth"@.len());
    reveal_strlit("entry_kind");
    reveal_strlit("name");
    reveal_strlit("fields");
    assert("entry_kind"@.len() != "name"@.len());
    assert("entry_kind"@.len() != "fields"@.len());
    assert("name"@.len() != "fields"@.len());
}

} // verus!
