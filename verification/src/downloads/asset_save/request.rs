//! Which assets to save, and from where.

use vstd::prelude::*;
use crate::error::{self, ErrorCode, ErrorModel, RubError};
use crate::json::{self, Json, JsonModel, JsonObject, NumberModel};
use crate::json_text;
use crate::paths;
use crate::text;
use crate::web;
use super::DownloadSaveRequest;
use super::paths as naming;
use super::paths::NameCounts;

verus! {

/// One asset to save.
#[derive(Debug)]
pub struct AssetSource {
    pub index: u32,
    pub url: String,
    pub source_name: Option<String>,
    pub output_path: String,
}

/// One asset to save, over texts.
#[verifier::ext_equal]
pub struct SourceModel {
    pub index: u32,
    pub url: Seq<char>,
    pub source_name: Option<Seq<char>>,
    pub output_path: Seq<char>,
}

impl View for AssetSource {
    type V = SourceModel;

    open spec fn view(&self) -> SourceModel {
        SourceModel {
            index: self.index,
            url: self.url@,
            source_name: text::opt_text(self.source_name),
            output_path: self.output_path@,
        }
    }
}

impl Clone for AssetSource {
    fn clone(&self) -> (r: AssetSource)
        ensures
            r@ == self@,
    {
        AssetSource {
            index: self.index,
            url: self.url.clone(),
            source_name: text::clone_opt(&self.source_name),
            output_path: self.output_path.clone(),
        }
    }
}

pub open spec fn source_models(v: Seq<AssetSource>) -> Seq<SourceModel> {
    Seq::new(v.len(), |i: int| v[i]@)
}

/// A URL and the name that came with it.
pub open spec fn row_models(v: Seq<(String, Option<String>)>) -> Seq<
    (Seq<char>, Option<Seq<char>>),
> {
    Seq::new(v.len(), |i: int| (v[i].0@, text::opt_text(v[i].1)))
}

/// Whose cookies and which referer a request for an asset carries.
#[derive(Debug)]
pub struct AssetRequestAuthority<'a> {
    pub cookie_lookup_url: &'a str,
    pub referer_url: Option<&'a str>,
}

/// The cookies are those of the asset's own URL; the referer is the page that
/// the client named.
pub fn asset_request_authority<'a>(cookie_url: Option<&'a str>, asset_url: &'a str) -> (r:
    AssetRequestAuthority<'a>)
    ensures
        r.cookie_lookup_url@ == asset_url@,
        json::opt_str_text(r.referer_url) == json::opt_str_text(cookie_url),
{
    AssetRequestAuthority { cookie_lookup_url: asset_url, referer_url: cookie_url }
}

/// Whether a value can list assets.
pub open spec fn listing(value: JsonModel) -> bool {
    value is Array || value is Text
}

/// The `items` of a value, where they can list assets.
pub open spec fn batch_items(value: JsonModel) -> Option<JsonModel> {
    match json::member(value, "items"@) {
        Some(items) => if listing(items) {
            Some(items)
        } else {
            None
        },
        None => None,
    }
}

fn is_listing(value: &Json) -> (r: bool)
    ensures
        r == listing(value@),
{
    matches!(value, Json::Array(_) | Json::Text(_))
}

fn canonical_batch_root(value: &Json) -> (r: Option<&Json>)
    ensures
        json::opt_model(r) == batch_items(value@),
{
    match value.get("items") {
        Some(items) => if is_listing(items) {
            Some(items)
        } else {
            None
        },
        None => None,
    }
}

/// What of the value at a path lists assets.
pub open spec fn listing_at(root: JsonModel, path: Seq<char>) -> Option<JsonModel> {
    match json::at_path(root, path) {
        Some(v) => if batch_items(v) is Some {
            batch_items(v)
        } else if listing(v) {
            Some(v)
        } else {
            None
        },
        None => None,
    }
}

fn find_listing<'a>(root: &'a Json, path: &str) -> (r: Option<&'a Json>)
    ensures
        json::opt_model(r) == listing_at(root@, path@),
{
    match json::lookup_json_path(root, path) {
        Some(v) => match canonical_batch_root(v) {
            Some(items) => Some(items),
            None => if is_listing(v) {
                Some(v)
            } else {
                None
            },
        },
        None => None,
    }
}

/// The error for an input field that is not there.
pub open spec fn no_input_field(file: Seq<char>, path: Seq<char>) -> ErrorModel {
    error::with_context(
        ErrorCode::InvalidInput,
        "download save input_field '"@ + path + "' was not found in the JSON source"@,
        JsonModel::Object(
            Map::<Seq<char>, JsonModel>::empty().insert("file"@, JsonModel::Text(file)).insert(
                "input_field"@,
                JsonModel::Text(path),
            ),
        ),
    )
}

/// The value that lists the assets: where the request says, or at one of the
/// usual places, or else the whole.
pub open spec fn asset_root(
    file: Seq<char>,
    input_field: Option<Seq<char>>,
    root: JsonModel,
) -> Result<JsonModel, ErrorModel> {
    match input_field {
        Some(path) => match json::at_path(root, path) {
            Some(v) => if batch_items(v) is Some {
                Ok(batch_items(v)->0)
            } else {
                Ok(v)
            },
            None => Err(no_input_field(file, path)),
        },
        None => if listing(root) {
            Ok(root)
        } else if batch_items(root) is Some {
            Ok(batch_items(root)->0)
        } else if listing_at(root, "data.result"@) is Some {
            Ok(listing_at(root, "data.result"@)->0)
        } else if listing_at(root, "result"@) is Some {
            Ok(listing_at(root, "result"@)->0)
        } else if listing_at(root, "data"@) is Some {
            Ok(listing_at(root, "data"@)->0)
        } else {
            Ok(root)
        },
    }
}

pub open spec fn json_ref_result(r: Result<&Json, RubError>) -> Result<JsonModel, ErrorModel> {
    match r {
        Ok(j) => Ok(j@),
        Err(e) => Err(e@),
    }
}

pub fn resolve_json_asset_root<'a>(request: &DownloadSaveRequest, root: &'a Json) -> (r: Result<
    &'a Json,
    RubError,
>)
    ensures
        json_ref_result(r) == asset_root(
            request.file@,
            text::opt_text(request.input_field),
            root@,
        ),
{
    if let Some(path) = &request.input_field {
        return match json::lookup_json_path(root, path.as_str()) {
            Some(v) => match canonical_batch_root(v) {
                Some(items) => Ok(items),
                None => Ok(v),
            },
            None => {
                let message = text::cat3(
                    "download save input_field '",
                    path.as_str(),
                    "' was not found in the JSON source",
                );
                let context = JsonObject::new().with(
                    "file",
                    json::text_value(request.file.as_str()),
                ).with("input_field", json::text_value(path.as_str()));
                Err(
                    RubError::domain_with_context(
                        ErrorCode::InvalidInput,
                        message.as_str(),
                        Json::Object(context),
                    ),
                )
            },
        };
    }
    if is_listing(root) {
        return Ok(root);
    }
    if let Some(items) = canonical_batch_root(root) {
        return Ok(items);
    }
    if let Some(v) = find_listing(root, "data.result") {
        return Ok(v);
    }
    if let Some(v) = find_listing(root, "result") {
        return Ok(v);
    }
    if let Some(v) = find_listing(root, "data") {
        return Ok(v);
    }
    Ok(root)
}

pub open spec fn row_context(
    row: JsonModel,
    index: int,
) -> Map<Seq<char>, JsonModel> {
    Map::<Seq<char>, JsonModel>::empty().insert(
        "row_index"@,
        JsonModel::Number(NumberModel::Int(index)),
    ).insert("row"@, row)
}

pub open spec fn row_error(
    index: int,
    what: Seq<char>,
    context: Map<Seq<char>, JsonModel>,
) -> ErrorModel {
    error::with_context(
        ErrorCode::InvalidInput,
        "download save row "@ + text::decimal(index as nat) + what,
        JsonModel::Object(context),
    )
}

fn row_error_value(index: usize, what: &str, context: JsonObject) -> (r: RubError)
    ensures
        r@ == row_error(index as int, what@, context@),
{
    let number = text::decimal_string(index as u64);
    let message = text::cat3("download save row ", number.as_str(), what);
    RubError::domain_with_context(
        ErrorCode::InvalidInput,
        message.as_str(),
        Json::Object(context),
    )
}

/// The value of a row that should be its URL.
pub open spec fn row_url(row: JsonModel, url_field: Option<Seq<char>>) -> Option<JsonModel> {
    match url_field {
        Some(path) => json::at_path(row, path),
        None => if json::member(row, "url"@) is Some {
            json::member(row, "url"@)
        } else {
            json::member(row, "href"@)
        },
    }
}

/// The name that comes with a row.
pub open spec fn row_name(row: JsonModel, name_field: Option<Seq<char>>) -> Option<Seq<char>> {
    match name_field {
        Some(path) => match json::at_path(row, path) {
            Some(v) => json::text_of(v),
            None => None,
        },
        None => None,
    }
}

/// The URL and the name of a row, or what is wrong with the row.
pub open spec fn asset_row(
    row: JsonModel,
    index: int,
    url_field: Option<Seq<char>>,
    name_field: Option<Seq<char>>,
) -> Result<(Seq<char>, Option<Seq<char>>), ErrorModel> {
    let context = row_context(row, index).insert(
        "url_field"@,
        json::opt_text_model(url_field),
    );
    match row {
        JsonModel::Text(url) => Ok((url, None)),
        JsonModel::Object(_) => match row_url(row, url_field) {
            None => Err(
                row_error(
                    index,
                    " did not expose a URL; use --url-field or include a top-level 'url'/'href' field"@,
                    context,
                ),
            ),
            Some(v) => match json::text_of(v) {
                None => Err(row_error(index, " URL field must be a string"@, context)),
                Some(url) => Ok((url, row_name(row, name_field))),
            },
        },
        _ => Err(
            row_error(
                index,
                " must be a string URL or JSON object"@,
                row_context(row, index),
            ),
        ),
    }
}

pub open spec fn row_result(r: Result<(String, Option<String>), RubError>) -> Result<
    (Seq<char>, Option<Seq<char>>),
    ErrorModel,
> {
    match r {
        Ok(row) => Ok((row.0@, text::opt_text(row.1))),
        Err(e) => Err(e@),
    }
}

fn row_context_value(row: &Json, index: usize) -> (r: JsonObject)
    ensures
        r@ == row_context(row@, index as int),
{
    JsonObject::new().with("row_index", json::uint_value(index as u64)).with("row", row.clone())
}

fn find_row_url<'a>(row: &'a Json, url_field: &Option<String>) -> (r: Option<&'a Json>)
    ensures
        json::opt_model(r) == row_url(row@, text::opt_text(*url_field)),
{
    match url_field {
        Some(path) => json::lookup_json_path(row, path.as_str()),
        None => match row.get("url") {
            Some(v) => Some(v),
            None => row.get("href"),
        },
    }
}

fn find_row_name(row: &Json, name_field: &Option<String>) -> (r: Option<String>)
    ensures
        text::opt_text(r) == row_name(row@, text::opt_text(*name_field)),
{
    match name_field {
        Some(path) => match json::lookup_json_path(row, path.as_str()) {
            Some(v) => match v.as_str() {
                Some(s) => Some(s.to_owned()),
                None => None,
            },
            None => None,
        },
        None => None,
    }
}

/// Reads a row of a JSON listing.
pub fn parse_json_asset_row(request: &DownloadSaveRequest, row: &Json, index: usize) -> (r: Result<
    (String, Option<String>),
    RubError,
>)
    ensures
        row_result(r) == asset_row(
            row@,
            index as int,
            text::opt_text(request.url_field),
            text::opt_text(request.name_field),
        ),
{
    match row {
        Json::Text(url) => Ok((url.clone(), None)),
        Json::Object(_) => {
            let context = row_context_value(row, index).with(
                "url_field",
                json::opt_text_value(&request.url_field),
            );
            match find_row_url(row, &request.url_field) {
                None => Err(
                    row_error_value(
                        index,
                        " did not expose a URL; use --url-field or include a top-level 'url'/'href' field",
                        context,
                    ),
                ),
                Some(v) => match v.as_str() {
                    None => Err(row_error_value(index, " URL field must be a string", context)),
                    Some(url) => {
                        let name = find_row_name(row, &request.name_field);
                        Ok((url.to_owned(), name))
                    },
                },
            }
        },
        _ => Err(
            row_error_value(
                index,
                " must be a string URL or JSON object",
                row_context_value(row, index),
            ),
        ),
    }
}

/// The first `n` rows of a listing, or what is wrong with the first bad one.
pub open spec fn asset_rows(
    rows: Seq<JsonModel>,
    n: int,
    url_field: Option<Seq<char>>,
    name_field: Option<Seq<char>>,
) -> Result<Seq<(Seq<char>, Option<Seq<char>>)>, ErrorModel>
    decreases n,
{
    if n <= 0 {
        Ok(seq![])
    } else {
        match asset_rows(rows, n - 1, url_field, name_field) {
            Err(e) => Err(e),
            Ok(front) => match asset_row(rows[n - 1], n - 1, url_field, name_field) {
                Err(e) => Err(e),
                Ok(row) => Ok(front.push(row)),
            },
        }
    }
}

proof fn asset_rows_failed(
    rows: Seq<JsonModel>,
    k: int,
    n: int,
    url_field: Option<Seq<char>>,
    name_field: Option<Seq<char>>,
)
    requires
        k <= n,
        asset_rows(rows, k, url_field, name_field) is Err,
    ensures
        asset_rows(rows, n, url_field, name_field) == asset_rows(rows, k, url_field, name_field),
    decreases n - k,
{
    if k < n {
        asset_rows_failed(rows, k, n - 1, url_field, name_field);
        if n <= 0 {
            assert(asset_rows(rows, k, url_field, name_field) is Ok);
        }
    }
}

pub open spec fn rows_result(r: Result<Vec<(String, Option<String>)>, RubError>) -> Result<
    Seq<(Seq<char>, Option<Seq<char>>)>,
    ErrorModel,
> {
    match r {
        Ok(v) => Ok(row_models(v@)),
        Err(e) => Err(e@),
    }
}

/// The error for a JSON source that lists nothing.
pub open spec fn no_listing(file: Seq<char>, input_field: Option<Seq<char>>) -> ErrorModel {
    error::with_context(
        ErrorCode::InvalidInput,
        "download save JSON input must resolve to an array, string URL, or canonical batch object; use --input-field to select a batch root like data.result"@,
        JsonModel::Object(
            Map::<Seq<char>, JsonModel>::empty().insert("file"@, JsonModel::Text(file)).insert(
                "input_field"@,
                json::opt_text_model(input_field),
            ),
        ),
    )
}

/// The assets that a JSON source lists.
pub open spec fn json_rows(request: DownloadSaveRequest, root: JsonModel) -> Result<
    Seq<(Seq<char>, Option<Seq<char>>)>,
    ErrorModel,
> {
    match asset_root(request.file@, text::opt_text(request.input_field), root) {
        Err(e) => Err(e),
        Ok(JsonModel::Array(rows)) => asset_rows(
            rows,
            rows.len() as int,
            text::opt_text(request.url_field),
            text::opt_text(request.name_field),
        ),
        Ok(JsonModel::Text(url)) => Ok(seq![(url, None)]),
        Ok(_) => Err(no_listing(request.file@, text::opt_text(request.input_field))),
    }
}

/// Reads the assets that a JSON source lists.
pub fn parse_json_asset_sources(request: &DownloadSaveRequest, root: &Json) -> (r: Result<
    Vec<(String, Option<String>)>,
    RubError,
>)
    ensures
        rows_result(r) == json_rows(*request, root@),
{
    let selected = match resolve_json_asset_root(request, root) {
        Ok(v) => v,
        Err(e) => return Err(e),
    };
    match selected {
        Json::Array(values) => {
            let ghost rows = json::items_model(values@);
            let ghost url_field = text::opt_text(request.url_field);
            let ghost name_field = text::opt_text(request.name_field);
            proof {
                json::items_model_len(values@);
            }
            let mut out: Vec<(String, Option<String>)> = Vec::new();
            let mut i: usize = 0;
            assert(row_models(out@) =~= seq![]);
            while i < values.len()
                invariant
                    i <= values@.len(),
                    rows == json::items_model(values@),
                    rows.len() == values@.len(),
                    url_field == text::opt_text(request.url_field),
                    name_field == text::opt_text(request.name_field),
                    json_rows(*request, root@) == asset_rows(
                        rows,
                        rows.len() as int,
                        url_field,
                        name_field,
                    ),
                    asset_rows(rows, i as int, url_field, name_field) == Ok::<
                        Seq<(Seq<char>, Option<Seq<char>>)>,
                        ErrorModel,
                    >(row_models(out@)),
                decreases values@.len() - i,
            {
                proof {
                    json::items_model_at(values@, i as int);
                }
                match parse_json_asset_row(request, &values[i], i) {
                    Ok(row) => {
                        let ghost before = row_models(out@);
                        out.push(row);
                        assert(row_models(out@) =~= before.push((row.0@, text::opt_text(row.1))));
                    },
                    Err(e) => {
                        proof {
                            asset_rows_failed(
                                rows,
                                i + 1,
                                rows.len() as int,
                                url_field,
                                name_field,
                            );
                        }
                        return Err(e);
                    },
                }
                i += 1;
            }
            Ok(out)
        },
        Json::Text(url) => {
            let mut out: Vec<(String, Option<String>)> = Vec::new();
            out.push((url.clone(), None));
            assert(row_models(out@) =~= seq![(url@, None::<Seq<char>>)]);
            Ok(out)
        },
        _ => {
            let context = JsonObject::new().with(
                "file",
                json::text_value(request.file.as_str()),
            ).with("input_field", json::opt_text_value(&request.input_field));
            Err(
                RubError::domain_with_context(
                    ErrorCode::InvalidInput,
                    "download save JSON input must resolve to an array, string URL, or canonical batch object; use --input-field to select a batch root like data.result",
                    Json::Object(context),
                ),
            )
        },
    }
}

/// The lines that are not blank, without the blanks around them.
pub open spec fn text_rows(lines: Seq<Seq<char>>) -> Seq<(Seq<char>, Option<Seq<char>>)>
    decreases lines.len(),
{
    if lines.len() == 0 {
        seq![]
    } else {
        let front = text_rows(lines.drop_last());
        if text::trimmed(lines.last()).len() == 0 {
            front
        } else {
            front.push((text::trimmed(lines.last()), None))
        }
    }
}

/// Reads the assets of a plain list: one URL on each line that is not blank.
pub fn parse_text_asset_sources(raw: &str) -> (r: Result<Vec<(String, Option<String>)>, RubError>)
    ensures
        r is Ok,
        row_models(r->Ok_0@) == text_rows(text::split_on(raw@, '\n')),
{
    let lines = text::split_char(raw, '\n');
    let ghost all = text::texts(lines@);
    let mut out: Vec<(String, Option<String>)> = Vec::new();
    let mut i: usize = 0;
    assert(row_models(out@) =~= text_rows(all.take(0)));
    while i < lines.len()
        invariant
            i <= lines@.len(),
            all == text::texts(lines@),
            row_models(out@) == text_rows(all.take(i as int)),
        decreases lines@.len() - i,
    {
        assert(all.take(i + 1).drop_last() =~= all.take(i as int));
        assert(all.take(i + 1).last() == lines@[i as int]@);
        let line = text::trim(lines[i].as_str());
        if text::chars_of(line).len() > 0 {
            let ghost before = row_models(out@);
            out.push((line.to_owned(), None));
            assert(row_models(out@) =~= before.push((line@, None::<Seq<char>>)));
        }
        i += 1;
    }
    assert(all.take(i as int) =~= all);
    Ok(out)
}

proof fn text_rows_concat(a: Seq<Seq<char>>, b: Seq<Seq<char>>)
    ensures
        text_rows(a + b) == text_rows(a) + text_rows(b),
    decreases b.len(),
{
    if b.len() == 0 {
        assert(a + b =~= a);
        assert(text_rows(a) + text_rows(b) =~= text_rows(a));
    } else {
        assert((a + b).drop_last() =~= a + b.drop_last());
        assert((a + b).last() == b.last());
        text_rows_concat(a, b.drop_last());
        assert(text_rows(a + b) =~= text_rows(a) + text_rows(b));
    }
}

/// The assets of two lists joined by a line break are those of the first, then
/// those of the second.
pub proof fn joined_lists_give_both_rows(a: Seq<char>, b: Seq<char>)
    ensures
        text_rows(text::split_on(a + seq!['\n'] + b, '\n')) == text_rows(text::split_on(a, '\n'))
            + text_rows(text::split_on(b, '\n')),
{
    text::split_on_concat(a, b, '\n');
    text_rows_concat(text::split_on(a, '\n'), text::split_on(b, '\n'));
}

/// Every asset of a plain list has a URL without blanks around it, and no name.
pub proof fn listed_urls_are_trimmed(lines: Seq<Seq<char>>)
    ensures
        forall|i: int|
            0 <= i < text_rows(lines).len() ==> {
                let row = #[trigger] text_rows(lines)[i];
                &&& row.0.len() > 0
                &&& text::trimmed(row.0) == row.0
                &&& row.1 is None
            },
    decreases lines.len(),
{
    if lines.len() > 0 {
        listed_urls_are_trimmed(lines.drop_last());
        text::trimmed_idempotent(lines.last());
        let front = text_rows(lines.drop_last());
        assert forall|i: int| 0 <= i < text_rows(lines).len() implies {
            let row = #[trigger] text_rows(lines)[i];
            &&& row.0.len() > 0
            &&& text::trimmed(row.0) == row.0
            &&& row.1 is None
        } by {
            if i < front.len() {
                assert(text_rows(lines)[i] == front[i]);
            }
        }
    }
}

/// The error for a relative URL without a base.
pub open spec fn relative_url(url: Seq<char>) -> ErrorModel {
    error::with_context(
        ErrorCode::InvalidInput,
        "download save encountered a relative URL; provide --base-url to resolve it"@,
        json::object1("url"@, JsonModel::Text(url)),
    )
}

/// Whether a URL needs no base.
pub open spec fn absolute_url(url: Seq<char>) -> bool {
    text::has_prefix(url, "http://"@) || text::has_prefix(url, "https://"@)
}

/// The URL of an asset below its base, from what parsing the base and joining
/// gave.
pub open spec fn joined_url(
    url: Seq<char>,
    base_url: Seq<char>,
    parsed: Result<Seq<char>, Seq<char>>,
    joined: Result<Seq<char>, Seq<char>>,
) -> Result<Seq<char>, ErrorModel> {
    match parsed {
        Err(cause) => Err(
            error::plain(
                ErrorCode::InvalidInput,
                "download save base URL is invalid: "@ + cause,
            ),
        ),
        Ok(_) => match joined {
            Err(cause) => Err(
                error::with_context(
                    ErrorCode::InvalidInput,
                    "download save could not resolve relative URL '"@ + url + "': "@ + cause,
                    JsonModel::Object(
                        Map::<Seq<char>, JsonModel>::empty().insert(
                            "base_url"@,
                            JsonModel::Text(base_url),
                        ).insert("url"@, JsonModel::Text(url)),
                    ),
                ),
            ),
            Ok(u) => Ok(u),
        },
    }
}

/// The URL of an asset.
pub open spec fn asset_url(url: Seq<char>, base_url: Option<Seq<char>>) -> Result<
    Seq<char>,
    ErrorModel,
> {
    if absolute_url(url) {
        Ok(url)
    } else {
        match base_url {
            None => Err(relative_url(url)),
            Some(base) => joined_url(url, base, web::url_parse(base), web::url_join(base, url)),
        }
    }
}

pub open spec fn url_result(r: Result<String, RubError>) -> Result<Seq<char>, ErrorModel> {
    match r {
        Ok(s) => Ok(s@),
        Err(e) => Err(e@),
    }
}

/// Finishes the URL of an asset below its base.
pub fn finish_asset_url(
    url: &str,
    base_url: &str,
    parsed: Result<String, String>,
    joined: Result<String, String>,
) -> (r: Result<String, RubError>)
    ensures
        url_result(r) == joined_url(
            url@,
            base_url@,
            web::text_result(parsed),
            web::text_result(joined),
        ),
{
    match parsed {
        Err(cause) => {
            let message = text::cat2("download save base URL is invalid: ", cause.as_str());
            Err(RubError::domain(ErrorCode::InvalidInput, message.as_str()))
        },
        Ok(_) => match joined {
            Err(cause) => {
                let head = text::cat3(
                    "download save could not resolve relative URL '",
                    url,
                    "': ",
                );
                let message = text::cat2(head.as_str(), cause.as_str());
                let context = JsonObject::new().with("base_url", json::text_value(base_url)).with(
                    "url",
                    json::text_value(url),
                );
                Err(
                    RubError::domain_with_context(
                        ErrorCode::InvalidInput,
                        message.as_str(),
                        Json::Object(context),
                    ),
                )
            },
            Ok(u) => Ok(u),
        },
    }
}

/// The URL of an asset: an absolute one stands for itself, and a relative one
/// is resolved against the base.
pub fn resolve_asset_url(url: &str, base_url: Option<&str>) -> (r: Result<String, RubError>)
    ensures
        url_result(r) == asset_url(url@, json::opt_str_text(base_url)),
{
    if text::starts_with(url, "http://") || text::starts_with(url, "https://") {
        return Ok(url.to_owned());
    }
    match base_url {
        None => {
            let context = Json::Object(JsonObject::new().with("url", json::text_value(url)));
            Err(
                RubError::domain_with_context(
                    ErrorCode::InvalidInput,
                    "download save encountered a relative URL; provide --base-url to resolve it",
                    context,
                ),
            )
        },
        Some(base) => {
            let parsed = web::parse_url(base);
            let joined = web::join_url(base, url);
            finish_asset_url(url, base, parsed, joined)
        },
    }
}

/// The base name of a planned source.
pub open spec fn base_of(url: Seq<char>, source_name: Option<Seq<char>>) -> Seq<char> {
    naming::base_name(web::url_segments(url), source_name)
}

/// How many of the sources have a base name.
pub open spec fn with_base(sources: Seq<SourceModel>, base: Seq<char>) -> int
    decreases sources.len(),
{
    if sources.len() == 0 {
        0
    } else {
        with_base(sources.drop_last(), base) + (if base_of(
            sources.last().url,
            sources.last().source_name,
        ) == base {
            1int
        } else {
            0int
        })
    }
}

/// The sources for the first `n` rows, or why one of them has no URL.
pub open spec fn planned_sources(
    rows: Seq<(Seq<char>, Option<Seq<char>>)>,
    n: int,
    output_dir: Seq<char>,
    base_url: Option<Seq<char>>,
) -> Result<Seq<SourceModel>, ErrorModel>
    decreases n,
{
    if n <= 0 {
        Ok(seq![])
    } else {
        match planned_sources(rows, n - 1, output_dir, base_url) {
            Err(e) => Err(e),
            Ok(front) => match asset_url(rows[n - 1].0, base_url) {
                Err(e) => Err(e),
                Ok(url) => {
                    let base = base_of(url, rows[n - 1].1);
                    Ok(
                        front.push(
                            SourceModel {
                                index: (n - 1) as u32,
                                url,
                                source_name: rows[n - 1].1,
                                output_path: paths::below(
                                    output_dir,
                                    naming::planned_name(base, with_base(front, base)),
                                ),
                            },
                        ),
                    )
                },
            },
        }
    }
}

proof fn planned_sources_failed(
    rows: Seq<(Seq<char>, Option<Seq<char>>)>,
    k: int,
    n: int,
    output_dir: Seq<char>,
    base_url: Option<Seq<char>>,
)
    requires
        0 <= k <= n,
        planned_sources(rows, k, output_dir, base_url) is Err,
    ensures
        planned_sources(rows, n, output_dir, base_url) == planned_sources(
            rows,
            k,
            output_dir,
            base_url,
        ),
    decreases n - k,
{
    if k < n {
        planned_sources_failed(rows, k, n - 1, output_dir, base_url);
    }
}

proof fn with_base_bounds(sources: Seq<SourceModel>, base: Seq<char>)
    ensures
        0 <= with_base(sources, base) <= sources.len(),
    decreases sources.len(),
{
    if sources.len() > 0 {
        with_base_bounds(sources.drop_last(), base);
    }
}

pub open spec fn sources_result(r: Result<Vec<AssetSource>, RubError>) -> Result<
    Seq<SourceModel>,
    ErrorModel,
> {
    match r {
        Ok(v) => Ok(source_models(v@)),
        Err(e) => Err(e@),
    }
}

fn as_deref(o: &Option<String>) -> (r: Option<&str>)
    ensures
        json::opt_str_text(r) == text::opt_text(*o),
{
    match o {
        Some(s) => Some(s.as_str()),
        None => None,
    }
}

/// Plans the sources for the first `n` rows.
pub fn plan_asset_sources(
    rows: &Vec<(String, Option<String>)>,
    n: usize,
    output_dir: &str,
    base_url: Option<&str>,
) -> (r: Result<Vec<AssetSource>, RubError>)
    requires
        n <= rows@.len(),
    ensures
        sources_result(r) == planned_sources(
            row_models(rows@),
            n as int,
            output_dir@,
            json::opt_str_text(base_url),
        ),
{
    let ghost all = row_models(rows@);
    let ghost base_text = json::opt_str_text(base_url);
    let mut counts = NameCounts::new();
    let mut out: Vec<AssetSource> = Vec::new();
    let mut i: usize = 0;
    assert(source_models(out@) =~= seq![]);
    while i < n
        invariant
            i <= n <= rows@.len(),
            all == row_models(rows@),
            base_text == json::opt_str_text(base_url),
            counts.wf(),
            out@.len() == i,
            planned_sources(all, i as int, output_dir@, base_text) == Ok::<
                Seq<SourceModel>,
                ErrorModel,
            >(source_models(out@)),
            forall|name: Seq<char>|
                naming::times_planned(counts@, name) == #[trigger] with_base(
                    source_models(out@),
                    name,
                ),
        decreases n - i,
    {
        assert(all[i as int] == (rows@[i as int].0@, text::opt_text(rows@[i as int].1)));
        let url = match resolve_asset_url(rows[i].0.as_str(), base_url) {
            Ok(u) => u,
            Err(e) => {
                proof {
                    planned_sources_failed(all, i + 1, n as int, output_dir@, base_text);
                }
                return Err(e);
            },
        };
        let ghost before = source_models(out@);
        let ghost counts_before = counts@;
        let ghost base = base_of(url@, text::opt_text(rows@[i as int].1));
        proof {
            assert forall|name: Seq<char>| counts@.contains_key(name) implies
                #[trigger] counts@[name] < u64::MAX by {
                with_base_bounds(before, name);
                assert(naming::times_planned(counts@, name) == with_base(before, name));
            }
            with_base_bounds(before, base);
            assert(naming::times_planned(counts@, base) == with_base(before, base));
        }
        let output_path = naming::planned_output_path(
            output_dir,
            url.as_str(),
            as_deref(&rows[i].1),
            &mut counts,
        );
        let source = AssetSource {
            index: #[verifier::truncate] (i as u32),
            url,
            source_name: text::clone_opt(&rows[i].1),
            output_path,
        };
        out.push(source);
        proof {
            assert(source_models(out@) =~= before.push(source@));
            assert(source_models(out@).drop_last() =~= before);
            assert forall|name: Seq<char>|
                naming::times_planned(counts@, name) == #[trigger] with_base(
                    source_models(out@),
                    name,
                ) by {
                assert(naming::times_planned(counts_before, name) == with_base(before, name));
            }
        }
        i += 1;
    }
    Ok(out)
}

/// The rows of an asset source file: JSON where it is JSON, and else a plain
/// list.
pub open spec fn source_rows(
    request: DownloadSaveRequest,
    raw: Seq<char>,
    parsed: Option<JsonModel>,
) -> Result<Seq<(Seq<char>, Option<Seq<char>>)>, ErrorModel> {
    match parsed {
        Some(root) => json_rows(request, root),
        None => Ok(text_rows(text::split_on(raw, '\n'))),
    }
}

/// How many rows a limit lets through.
pub open spec fn limited(n: nat, limit: Option<u32>) -> int {
    if limit is Some && limit->0 < n {
        limit->0 as int
    } else {
        n as int
    }
}

/// The sources of an asset source file, from what parsing it as JSON gave.
pub open spec fn loaded(
    request: DownloadSaveRequest,
    raw: Seq<char>,
    parsed: Option<JsonModel>,
) -> Result<Seq<SourceModel>, ErrorModel> {
    match source_rows(request, raw, parsed) {
        Err(e) => Err(e),
        Ok(rows) => if rows.len() == 0 {
            Err(
                error::plain(
                    ErrorCode::InvalidInput,
                    "download save source did not contain any asset URLs"@,
                ),
            )
        } else {
            planned_sources(
                rows,
                limited(rows.len(), request.limit),
                request.output_dir@,
                text::opt_text(request.base_url),
            )
        },
    }
}

/// The sources of an asset source file, from what parsing it as JSON gave.
pub fn sources_from(request: &DownloadSaveRequest, raw: &str, parsed: &Option<Json>) -> (r: Result<
    Vec<AssetSource>,
    RubError,
>)
    ensures
        sources_result(r) == loaded(*request, raw@, json_text::opt_json(*parsed)),
{
    let rows = match parsed {
        Some(root) => parse_json_asset_sources(request, root),
        None => parse_text_asset_sources(raw),
    };
    let rows = match rows {
        Ok(rows) => rows,
        Err(e) => return Err(e),
    };
    assert(row_models(rows@).len() == rows@.len());
    if rows.len() == 0 {
        return Err(
            RubError::domain(
                ErrorCode::InvalidInput,
                "download save source did not contain any asset URLs",
            ),
        );
    }
    let n: usize = match request.limit {
        Some(limit) => if (limit as usize) < rows.len() {
            limit as usize
        } else {
            rows.len()
        },
        None => rows.len(),
    };
    plan_asset_sources(&rows, n, request.output_dir.as_str(), as_deref(&request.base_url))
}

/// Reads an asset source file.
pub fn load_asset_sources(request: &DownloadSaveRequest, raw: &str) -> (r: Result<
    Vec<AssetSource>,
    RubError,
>)
    ensures
        sources_result(r) == loaded(*request, raw@, json_text::json_parse(raw@)),
{
    let parsed = json_text::parse_text(raw);
    sources_from(request, raw, &parsed)
}

/// The error for an asset source file that cannot be read.
pub open spec fn unreadable(file: Seq<char>, not_found: bool, cause: Seq<char>) -> ErrorModel {
    if not_found {
        error::plain(ErrorCode::FileNotFound, "Asset source file not found: "@ + file)
    } else {
        error::plain(
            ErrorCode::InvalidInput,
            "Failed to read asset source file "@ + file + ": "@ + cause,
        )
    }
}

pub fn source_read_error(file: &str, not_found: bool, cause: &str) -> (r: RubError)
    ensures
        r@ == unreadable(file@, not_found, cause@),
{
    if not_found {
        let message = text::cat2("Asset source file not found: ", file);
        RubError::domain(ErrorCode::FileNotFound, message.as_str())
    } else {
        let head = text::cat3("Failed to read asset source file ", file, ": ");
        let message = text::cat2(head.as_str(), cause);
        RubError::domain(ErrorCode::InvalidInput, message.as_str())
    }
}

/// A cookie that a request can carry.
#[derive(Debug)]
pub struct Cookie {
    pub name: String,
    pub value: String,
}

/// The cookies as they stand in a header.
pub open spec fn cookie_pairs(cookies: Seq<Cookie>) -> Seq<Seq<char>> {
    Seq::new(cookies.len(), |i: int| cookies[i].name@ + "="@ + cookies[i].value@)
}

pub open spec fn cookie_text(cookies: Seq<Cookie>) -> Seq<char> {
    text::joined(cookie_pairs(cookies), "; "@)
}

fn cookie_header(cookies: &Vec<Cookie>) -> (r: String)
    ensures
        r@ == cookie_text(cookies@),
{
    let mut pairs: Vec<String> = Vec::new();
    let mut i: usize = 0;
    while i < cookies.len()
        invariant
            i <= cookies@.len(),
            text::texts(pairs@) == cookie_pairs(cookies@).take(i as int),
        decreases cookies@.len() - i,
    {
        let ghost before = text::texts(pairs@);
        let pair = text::cat3(cookies[i].name.as_str(), "=", cookies[i].value.as_str());
        pairs.push(pair);
        assert(text::texts(pairs@) =~= before.push(pair@));
        assert(cookie_pairs(cookies@).take(i + 1) =~= before.push(pair@));
        i += 1;
    }
    assert(cookie_pairs(cookies@).take(i as int) =~= cookie_pairs(cookies@));
    text::join(&pairs, "; ")
}

/// The headers that a request for an asset carries beside the usual ones: where
/// the client named a page, its cookies and that page as referer.
pub open spec fn asset_headers(
    referer_url: Option<Seq<char>>,
    cookies: Seq<Cookie>,
) -> Result<Option<Seq<(Seq<char>, Seq<char>)>>, ErrorModel> {
    match referer_url {
        None => Ok(None),
        Some(referer) => {
            let cookie = cookie_text(cookies);
            if cookie.len() > 0 && !web::header_safe(cookie) {
                Err(
                    ErrorModel::Internal(
                        "cookie header serialization failed: "@ + "failed to parse header value"@,
                    ),
                )
            } else if !web::header_safe(referer) {
                Err(
                    ErrorModel::Internal(
                        "referer header serialization failed: "@ + "failed to parse header value"@,
                    ),
                )
            } else if cookie.len() > 0 {
                Ok(Some(seq![("cookie"@, cookie), ("referer"@, referer)]))
            } else {
                Ok(Some(seq![("referer"@, referer)]))
            }
        },
    }
}

pub open spec fn header_models(v: Seq<(String, String)>) -> Seq<(Seq<char>, Seq<char>)> {
    Seq::new(v.len(), |i: int| (v[i].0@, v[i].1@))
}

pub open spec fn headers_result(r: Result<Option<Vec<(String, String)>>, RubError>) -> Result<
    Option<Seq<(Seq<char>, Seq<char>)>>,
    ErrorModel,
> {
    match r {
        Ok(Some(v)) => Ok(Some(header_models(v@))),
        Ok(None) => Ok(None),
        Err(e) => Err(e@),
    }
}

/// Builds the headers for an asset request, from the cookies of its URL.
pub fn build_request_headers_for_asset(referer_url: Option<&str>, cookies: &Vec<Cookie>) -> (r:
    Result<Option<Vec<(String, String)>>, RubError>)
    ensures
        headers_result(r) == asset_headers(json::opt_str_text(referer_url), cookies@),
{
    let referer = match referer_url {
        Some(url) => url,
        None => return Ok(None),
    };
    let mut headers: Vec<(String, String)> = Vec::new();
    let cookie = cookie_header(cookies);
    if text::chars_of(cookie.as_str()).len() > 0 {
        if let Some(cause) = web::header_value_error(cookie.as_str()) {
            return Err(
                RubError::Internal(
                    text::cat2("cookie header serialization failed: ", cause.as_str()),
                ),
            );
        }
        headers.push(("cookie".to_owned(), cookie.clone()));
    }
    if let Some(cause) = web::header_value_error(referer) {
        return Err(
            RubError::Internal(
                text::cat2("referer header serialization failed: ", cause.as_str()),
            ),
        );
    }
    headers.push(("referer".to_owned(), referer.to_owned()));
    proof {
        if cookie@.len() > 0 {
            assert(header_models(headers@) =~= seq![
                ("cookie"@, cookie_text(cookies@)),
                ("referer"@, referer@),
            ]);
        } else {
            assert(header_models(headers@) =~= seq![("referer"@, referer@)]);
        }
    }
    Ok(Some(headers))
}

/// Without a URL field a row's "url" is its URL, whatever else the row holds; a row
/// without one has its "href".
pub proof fn rows_are_read_by_url_then_href(
    row: Map<Seq<char>, JsonModel>,
    index: int,
    name_field: Option<Seq<char>>,
)
    ensures
        ({
            let r = asset_row(JsonModel::Object(row), index, None, name_field);
            &&& row.dom().contains("url"@) ==> match row["url"@] {
                JsonModel::Text(url) => r matches Ok(read) && read.0 == url,
                _ => r matches Err(ErrorModel::Domain(e)) && e.code == ErrorCode::InvalidInput,
            }
            &&& !row.dom().contains("url"@) && row.dom().contains("href"@) ==> match row["href"@] {
                JsonModel::Text(url) => r matches Ok(read) && read.0 == url,
                _ => r matches Err(ErrorModel::Domain(e)) && e.code == ErrorCode::InvalidInput,
            }
            &&& !row.dom().contains("url"@) && !row.dom().contains("href"@) ==> (r matches Err(
                ErrorModel::Domain(e),
            ) && e.code == ErrorCode::InvalidInput)
        }),
{
}

/// With a URL field a row's URL is the text at that path, and no other member of the
/// row matters.
pub proof fn rows_are_read_by_their_url_field(
    row: JsonModel,
    index: int,
    path: Seq<char>,
    name_field: Option<Seq<char>>,
)
    requires
        row is Object,
    ensures
        ({
            let r = asset_row(row, index, Some(path), name_field);
            &&& r is Ok <==> (json::at_path(row, path) matches Some(JsonModel::Text(_)))
            &&& json::at_path(row, path) matches Some(JsonModel::Text(url)) ==> r->Ok_0.0 == url
        }),
{
}

/// A row's name is the text at the name field, where the field is asked for and is a
/// text; the name does not matter to whether the row can be read, nor to its URL.
pub proof fn rows_are_named_by_their_name_field(
    row: JsonModel,
    index: int,
    url_field: Option<Seq<char>>,
    path: Seq<char>,
)
    requires
        row is Object,
        asset_row(row, index, url_field, None) is Ok,
    ensures
        ({
            let plain = asset_row(row, index, url_field, None);
            let named = asset_row(row, index, url_field, Some(path));
            &&& plain->Ok_0.1 is None
            &&& named is Ok && named->Ok_0.0 == plain->Ok_0.0
            &&& match json::at_path(row, path) {
                Some(JsonModel::Text(name)) => named->Ok_0.1 == Some(name),
                _ => named->Ok_0.1 is None,
            }
        }),
{
}

/// A row that is a text is a URL without a name, and a row that is neither a text nor
/// an object is an error.
pub proof fn plain_rows_are_urls(
    row: JsonModel,
    index: int,
    url_field: Option<Seq<char>>,
    name_field: Option<Seq<char>>,
)
    requires
        !(row is Object),
    ensures
        match row {
            JsonModel::Text(url) => asset_row(row, index, url_field, name_field) == Ok::<
                (Seq<char>, Option<Seq<char>>),
                ErrorModel,
            >((url, None)),
            _ => asset_row(row, index, url_field, name_field) matches Err(ErrorModel::Domain(e))
                && e.code == ErrorCode::InvalidInput,
        },
{
}

/// A list of rows is read row by row, in order, and the first row that cannot be read
/// fails the list.
pub proof fn lists_are_read_row_by_row(
    rows: Seq<JsonModel>,
    n: int,
    url_field: Option<Seq<char>>,
    name_field: Option<Seq<char>>,
)
    requires
        0 <= n <= rows.len(),
    ensures
        match asset_rows(rows, n, url_field, name_field) {
            Ok(read) => read.len() == n && forall|i: int|
                0 <= i < n ==> asset_row(#[trigger] rows[i], i, url_field, name_field) == Ok::<
                    (Seq<char>, Option<Seq<char>>),
                    ErrorModel,
                >(read[i]),
            Err(e) => exists|k: int| #![trigger rows[k]]
                0 <= k < n && asset_row(rows[k], k, url_field, name_field) == Err::<
                    (Seq<char>, Option<Seq<char>>),
                    ErrorModel,
                >(e) && forall|i: int|
                    0 <= i < k ==> asset_row(#[trigger] rows[i], i, url_field, name_field) is Ok,
        },
    decreases n,
{
    if n > 0 {
        lists_are_read_row_by_row(rows, n - 1, url_field, name_field);
        assert(rows[n - 1] == rows[n - 1]);
    }
}

/// A source that is a list is the list, and one that is a text is one URL. Any other
/// lists its assets under "items" before any other place.
pub proof fn sources_list_themselves_or_their_items(
    request: DownloadSaveRequest,
    root: JsonModel,
)
    requires
        request.input_field is None,
    ensures
        ({
            let url_field = text::opt_text(request.url_field);
            let name_field = text::opt_text(request.name_field);
            let r = json_rows(request, root);
            &&& root matches JsonModel::Array(rows) ==> r == asset_rows(
                rows,
                rows.len() as int,
                url_field,
                name_field,
            )
            &&& root matches JsonModel::Text(url) ==> r == Ok::<
                Seq<(Seq<char>, Option<Seq<char>>)>,
                ErrorModel,
            >(seq![(url, None)])
            &&& root matches JsonModel::Object(m) ==> (m.dom().contains("items"@) ==> {
                &&& m["items"@] matches JsonModel::Array(rows) ==> r == asset_rows(
                    rows,
                    rows.len() as int,
                    url_field,
                    name_field,
                )
                &&& m["items"@] matches JsonModel::Text(url) ==> r == Ok::<
                    Seq<(Seq<char>, Option<Seq<char>>)>,
                    ErrorModel,
                >(seq![(url, None)])
            })
            &&& !(root is Array) && !(root is Text) && !(root is Object) ==> r is Err
        }),
{
    if !(root is Object) {
        json::only_objects_have_paths(root, "data.result"@);
        json::only_objects_have_paths(root, "result"@);
        json::only_objects_have_paths(root, "data"@);
    }
}

/// With an input field a source lists its assets at that path, and only there.
pub proof fn sources_list_their_assets_at_the_input_field(
    request: DownloadSaveRequest,
    path: Seq<char>,
    root: JsonModel,
)
    requires
        text::opt_text(request.input_field) == Some(path),
    ensures
        ({
            let r = json_rows(request, root);
            &&& json::at_path(root, path) is None ==> r is Err
            &&& json::at_path(root, path) matches Some(JsonModel::Array(rows)) ==> r == asset_rows(
                rows,
                rows.len() as int,
                text::opt_text(request.url_field),
                text::opt_text(request.name_field),
            )
            &&& json::at_path(root, path) matches Some(JsonModel::Text(url)) ==> r == Ok::<
                Seq<(Seq<char>, Option<Seq<char>>)>,
                ErrorModel,
            >(seq![(url, None)])
            &&& json::at_path(root, path) matches Some(JsonModel::Object(m)) ==> (
            !m.dom().contains("items"@) ==> r is Err)
        }),
{
}

/// A plain list has one asset for each line that is not blank, in the order of the
/// lines, with the line without the blanks around it as its URL and no name.
pub proof fn lines_are_assets(lines: Seq<Seq<char>>, line: Seq<char>)
    ensures
        text::blank(line) ==> text_rows(lines.push(line)) == text_rows(lines),
        !text::blank(line) ==> text_rows(lines.push(line)) == text_rows(lines).push(
            (text::trimmed(line), None),
        ),
        text_rows(seq![]).len() == 0,
{
    text::blank_texts_trim_to_nothing(line);
    assert(lines.push(line).drop_last() =~= lines);
}

/// A source without an input field that lists nothing itself or under "items" lists its
/// assets at the first of "data.result", "result" and "data" that does, and there under
/// "items" before in itself.
pub proof fn usual_places_are_tried_in_order(root: JsonModel, file: Seq<char>)
    requires
        root is Object,
        !(json::member(root, "items"@) matches Some(v) && (v is Array || v is Text)),
    ensures
        ({
            let r = asset_root(file, None, root);
            let at = |path: Seq<char>| listing_at(root, path);
            &&& r is Ok
            &&& at("data.result"@) is Some ==> r->Ok_0 == at("data.result"@)->0
            &&& at("data.result"@) is None && at("result"@) is Some ==> r->Ok_0 == at(
                "result"@,
            )->0
            &&& at("data.result"@) is None && at("result"@) is None && at("data"@) is Some
                ==> r->Ok_0 == at("data"@)->0
            &&& at("data.result"@) is None && at("result"@) is None && at("data"@) is None
                ==> r->Ok_0 == root
        }),
{
}

/// What lists assets at a path: the "items" of an object there where they do, and else
/// the value there where it is a list or a text.
pub proof fn listings_are_lists_or_texts(root: JsonModel, path: Seq<char>)
    ensures
        listing_at(root, path) matches Some(v) ==> v is Array || v is Text,
        json::at_path(root, path) is None ==> listing_at(root, path) is None,
        json::at_path(root, path) matches Some(v) ==> (v is Array || v is Text ==> listing_at(
            root,
            path,
        ) == Some(v)),
        json::at_path(root, path) matches Some(JsonModel::Object(m)) ==> {
            let items = json::member(JsonModel::Object(m), "items"@);
            if items matches Some(x) && (x is Array || x is Text) {
                listing_at(root, path) == items
            } else {
                listing_at(root, path) is None
            }
        },
        json::at_path(root, path) matches Some(v) ==> (v is Null || v is Bool || v is Number
            ==> listing_at(root, path) is None),
{
}

/// An absolute URL stands for itself, whatever the base; a relative one needs a base,
/// and is what joining it to the base gives.
pub proof fn relative_urls_need_a_base(url: Seq<char>, base: Option<Seq<char>>)
    ensures
        ({
            let absolute = (exists|rest: Seq<char>| url == #[trigger] ("http://"@ + rest)) || (
            exists|rest: Seq<char>| url == #[trigger] ("https://"@ + rest));
            &&& absolute ==> asset_url(url, base) == Ok::<Seq<char>, ErrorModel>(url)
            &&& !absolute && base is None ==> (asset_url(url, base) matches Err(
                ErrorModel::Domain(e),
            ) && e.code == ErrorCode::InvalidInput)
            &&& !absolute ==> (base matches Some(b) ==> match (
                web::url_parse(b),
                web::url_join(b, url),
            ) {
                (Ok(_), Ok(joined)) => asset_url(url, base) == Ok::<Seq<char>, ErrorModel>(joined),
                _ => asset_url(url, base) matches Err(ErrorModel::Domain(e)) && e.code
                    == ErrorCode::InvalidInput,
            })
        }),
{
    text::prefixes_start_the_text(url, "http://"@);
    text::prefixes_start_the_text(url, "https://"@);
}

/// Planned sources stand one for one for the rows, numbered from zero in their order,
/// with the URL and the name of the row; the first row without a URL fails the plan.
pub proof fn sources_are_planned_row_by_row(
    rows: Seq<(Seq<char>, Option<Seq<char>>)>,
    n: int,
    output_dir: Seq<char>,
    base_url: Option<Seq<char>>,
)
    requires
        0 <= n <= rows.len(),
        n <= u32::MAX,
    ensures
        match planned_sources(rows, n, output_dir, base_url) {
            Ok(sources) => sources.len() == n && forall|i: int|
                0 <= i < n ==> {
                    let source = #[trigger] sources[i];
                    &&& source.index == i
                    &&& asset_url(rows[i].0, base_url) == Ok::<Seq<char>, ErrorModel>(source.url)
                    &&& source.source_name == rows[i].1
                    &&& source.output_path == paths::below(
                        output_dir,
                        naming::planned_name(
                            base_of(source.url, source.source_name),
                            with_base(sources.take(i), base_of(source.url, source.source_name)),
                        ),
                    )
                },
            Err(e) => exists|k: int| #![trigger rows[k]]
                0 <= k < n && asset_url(rows[k].0, base_url) == Err::<Seq<char>, ErrorModel>(e)
                    && forall|i: int|
                    0 <= i < k ==> asset_url((#[trigger] rows[i]).0, base_url) is Ok,
        },
    decreases n,
{
    if n > 0 {
        sources_are_planned_row_by_row(rows, n - 1, output_dir, base_url);
        match planned_sources(rows, n - 1, output_dir, base_url) {
            Ok(front) => {
                assert(rows[n - 1] == rows[n - 1]);
                assert forall|i: int| 0 <= i < n - 1 implies asset_url(
                    (#[trigger] rows[i]).0,
                    base_url,
                ) is Ok by {
                    assert(front[i].index == i);
                }
                if let Ok(sources) = planned_sources(rows, n, output_dir, base_url) {
                    assert forall|i: int| 0 <= i < n implies {
                        let source = #[trigger] sources[i];
                        &&& source.index == i
                        &&& asset_url(rows[i].0, base_url) == Ok::<Seq<char>, ErrorModel>(
                            source.url,
                        )
                        &&& source.source_name == rows[i].1
                        &&& source.output_path == paths::below(
                            output_dir,
                            naming::planned_name(
                                base_of(source.url, source.source_name),
                                with_base(sources.take(i), base_of(source.url, source.source_name)),
                            ),
                        )
                    } by {
                        if i < n - 1 {
                            assert(sources[i] == front[i]);
                            assert(sources.take(i) =~= front.take(i));
                        } else {
                            assert(sources.take(i) =~= front);
                        }
                    }
                }
            },
            Err(_) => {},
        }
    }
}

/// A source is counted under its own base name and under no other.
pub proof fn sources_count_under_their_own_base(
    sources: Seq<SourceModel>,
    source: SourceModel,
    base: Seq<char>,
)
    ensures
        with_base(seq![], base) == 0,
        with_base(sources.push(source), base) == with_base(sources, base) + if base_of(
            source.url,
            source.source_name,
        ) == base {
            1int
        } else {
            0int
        },
{
    assert(sources.push(source).drop_last() =~= sources);
}

/// A limit lets through as many rows as it says, or all where there are fewer, from the
/// head of the list.
pub proof fn limits_let_the_first_rows_through(n: nat, limit: Option<u32>)
    ensures
        limit is None ==> limited(n, limit) == n,
        limit matches Some(k) ==> (k <= n ==> limited(n, limit) == k),
        limit matches Some(k) ==> (k >= n ==> limited(n, limit) == n),
{
}

/// A source file without an asset is an error; one that is JSON is read as JSON, and any
/// other as a plain list.
pub proof fn files_are_json_or_plain_lists(
    request: DownloadSaveRequest,
    raw: Seq<char>,
    root: JsonModel,
)
    ensures
        source_rows(request, raw, Some(root)) == json_rows(request, root),
        source_rows(request, raw, None) == Ok::<Seq<(Seq<char>, Option<Seq<char>>)>, ErrorModel>(
            text_rows(text::split_on(raw, '\n')),
        ),
        forall|parsed: Option<JsonModel>|
            #![trigger loaded(request, raw, parsed)]
            {
                let rows = source_rows(request, raw, parsed);
                &&& rows matches Err(e) ==> loaded(request, raw, parsed) == Err::<
                    Seq<SourceModel>,
                    ErrorModel,
                >(e)
                &&& rows matches Ok(read) ==> (read.len() == 0 ==> (loaded(request, raw, parsed)
                    matches Err(ErrorModel::Domain(e)) && e.code == ErrorCode::InvalidInput))
            },
{
}

/// Cookies stand in a header as their pairs, with a semicolon and a blank between them.
pub proof fn cookies_stand_side_by_side(cookies: Seq<Cookie>, cookie: Cookie)
    ensures
        cookie_text(seq![]) == Seq::<char>::empty(),
        cookies.len() == 0 ==> cookie_text(cookies.push(cookie)) == cookie.name@ + "="@
            + cookie.value@,
        cookies.len() > 0 ==> cookie_text(cookies.push(cookie)) == cookie_text(cookies) + "; "@
            + cookie.name@ + "="@ + cookie.value@,
{
    let pairs = cookie_pairs(cookies.push(cookie));
    reveal_with_fuel(text::joined, 2);
    assert(cookie_pairs(seq![]) =~= seq![]);
    assert(pairs.drop_last() =~= cookie_pairs(cookies));
    assert(pairs.last() == cookie.name@ + "="@ + cookie.value@);
    if cookies.len() > 0 {
        assert(cookie_text(cookies.push(cookie)) =~= cookie_text(cookies) + "; "@ + cookie.name@
            + "="@ + cookie.value@);
    } else {
        assert(cookie_text(cookies.push(cookie)) =~= cookie.name@ + "="@ + cookie.value@);
    }
}

/// Without a page that the client named a request carries no headers of its own. With
/// one it carries that page as referer, and the cookies exactly where there are any; a
/// page or cookies that no header can hold are an error.
pub proof fn asset_headers_carry_cookies_and_referer(
    referer: Option<Seq<char>>,
    cookies: Seq<Cookie>,
)
    ensures
        ({
            let r = asset_headers(referer, cookies);
            let cookie = cookie_text(cookies);
            &&& referer is None ==> r == Ok::<Option<Seq<(Seq<char>, Seq<char>)>>, ErrorModel>(None)
            &&& referer matches Some(page) ==> {
                &&& r is Ok <==> web::header_safe(page) && (cookie.len() > 0 ==> web::header_safe(
                    cookie,
                ))
                &&& r matches Ok(headers) ==> {
                    &&& headers is Some
                    &&& headers->0.contains(("referer"@, page))
                    &&& headers->0.last() == ("referer"@, page)
                    &&& cookie.len() > 0 ==> headers->0.len() == 2 && headers->0[0] == ("cookie"@, cookie)
                    &&& cookie.len() == 0 ==> headers->0.len() == 1
                }
            }
        }),
{
    if let Ok(Some(headers)) = asset_headers(referer, cookies) {
        assert(headers.last() == headers[headers.len() - 1]);
    }
}

/// A source that cannot be read is not found or is invalid; a row that is no asset, a field
/// that is not there and a URL that leads nowhere are invalid, and are named.
pub proof fn sources_fail_with_their_reason(
    file: Seq<char>,
    path: Seq<char>,
    cause: Seq<char>,
    url: Seq<char>,
    base_url: Seq<char>,
    parsed: Seq<char>,
)
    ensures
        unreadable(file, true, cause) matches ErrorModel::Domain(e) && e.code
            == ErrorCode::FileNotFound,
        unreadable(file, false, cause) matches ErrorModel::Domain(e) && e.code
            == ErrorCode::InvalidInput,
        ({
            &&& no_input_field(file, path) matches ErrorModel::Domain(e)
            &&& e.code == ErrorCode::InvalidInput
            &&& e.context matches Some(c)
            &&& json::member(c, "file"@) == Some(JsonModel::Text(file))
            &&& json::member(c, "input_field"@) == Some(JsonModel::Text(path))
        }),
        ({
            &&& no_listing(file, Some(path)) matches ErrorModel::Domain(e)
            &&& e.code == ErrorCode::InvalidInput
            &&& e.context matches Some(c)
            &&& json::member(c, "file"@) == Some(JsonModel::Text(file))
            &&& json::member(c, "input_field"@) == Some(JsonModel::Text(path))
        }),
        ({
            &&& relative_url(url) matches ErrorModel::Domain(e)
            &&& e.code == ErrorCode::InvalidInput
            &&& e.context matches Some(c)
            &&& json::member(c, "url"@) == Some(JsonModel::Text(url))
        }),
        forall|joined: Result<Seq<char>, Seq<char>>| #[trigger]
            joined_url(url, base_url, Err(cause), joined) matches Err(ErrorModel::Domain(e))
                && e.code == ErrorCode::InvalidInput,
        joined_url(url, base_url, Ok(parsed), Ok(path)) == Ok::<Seq<char>, ErrorModel>(path),
        (joined_url(url, base_url, Ok(parsed), Err(cause)) matches Err(ErrorModel::Domain(e))
            && e.code == ErrorCode::InvalidInput && (e.context matches Some(c) && json::member(
            c,
            "url"@,
        ) == Some(JsonModel::Text(url)) && json::member(c, "base_url"@) == Some(
            JsonModel::Text(base_url),
        ))),
{
    reveal_strlit("file");
    reveal_strlit("input_field");
    assert("file"@.len() != "input_field"@.len());
    reveal_strlit("base_url");
    reveal_strlit("url");
    assert("base_url"@.len() != "url"@.len());
}

} // verus!
