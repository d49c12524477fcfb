//! Where saved assets go.

use vstd::prelude::*;
use crate::json;
use crate::paths;
use crate::text;
use crate::web;

verus! {

/// How saving one asset ended.
#[derive(Clone, Copy, Debug, PartialEq, Eq, Structural)]
pub enum SavedAssetStatus {
    Saved,
    SkippedExisting,
    Failed,
    TimedOut,
}

/// What is known of the output path of an asset.
#[derive(Debug, PartialEq, Eq)]
pub struct SavedAssetOutputPathState {
    pub path_kind: String,
    pub path_authority: String,
    pub upstream_truth: String,
    pub control_role: String,
    pub durability: String,
}

/// What is known of the output path of an asset, over texts.
#[verifier::ext_equal]
pub struct OutputPathModel {
    pub path_kind: Seq<char>,
    pub path_authority: Seq<char>,
    pub upstream_truth: Seq<char>,
    pub control_role: Seq<char>,
    pub durability: Seq<char>,
}

impl View for SavedAssetOutputPathState {
    type V = OutputPathModel;

    open spec fn view(&self) -> OutputPathModel {
        OutputPathModel {
            path_kind: self.path_kind@,
            path_authority: self.path_authority@,
            upstream_truth: self.upstream_truth@,
            control_role: self.control_role@,
            durability: self.durability@,
        }
    }
}

/// What an output path is worth after saving ended.
pub open spec fn output_state(
    status: SavedAssetStatus,
    durability_confirmed: Option<bool>,
) -> OutputPathModel {
    OutputPathModel {
        path_kind: match status {
            SavedAssetStatus::Saved => "saved_artifact"@,
            SavedAssetStatus::SkippedExisting => "existing_file_reference"@,
            _ => "planned_output_reference"@,
        },
        path_authority: "router.download_save.output_path"@,
        upstream_truth: "download_save_entry_result"@,
        control_role: "display_only"@,
        durability: match status {
            SavedAssetStatus::Saved => if durability_confirmed == Some(false) {
                "published"@
            } else {
                "durable"@
            },
            SavedAssetStatus::SkippedExisting => "external_existing_file_reference"@,
            _ => "not_committed"@,
        },
    }
}

pub fn saved_asset_output_path_state(
    status: SavedAssetStatus,
    durability_confirmed: Option<bool>,
) -> (r: SavedAssetOutputPathState)
    ensures
        r@ == output_state(status, durability_confirmed),
{
    let path_kind = match status {
        SavedAssetStatus::Saved => "saved_artifact",
        SavedAssetStatus::SkippedExisting => "existing_file_reference",
        SavedAssetStatus::Failed | SavedAssetStatus::TimedOut => "planned_output_reference",
    };
    let durability = match status {
        SavedAssetStatus::Saved => match durability_confirmed {
            Some(false) => "published",
            _ => "durable",
        },
        SavedAssetStatus::SkippedExisting => "external_existing_file_reference",
        SavedAssetStatus::Failed | SavedAssetStatus::TimedOut => "not_committed",
    };
    SavedAssetOutputPathState {
        path_kind: path_kind.to_owned(),
        path_authority: "router.download_save.output_path".to_owned(),
        upstream_truth: "download_save_entry_result".to_owned(),
        control_role: "display_only".to_owned(),
        durability: durability.to_owned(),
    }
}

/// What is known of the output directory of a batch.
#[derive(Debug, PartialEq, Eq)]
pub struct BulkAssetSaveOutputDirState {
    pub path_kind: String,
    pub path_authority: String,
    pub upstream_truth: String,
    pub control_role: String,
}

pub fn bulk_output_dir_state() -> (r: BulkAssetSaveOutputDirState)
    ensures
        r.path_kind@ == "batch_output_directory"@,
        r.path_authority@ == "router.download_save.output_dir"@,
        r.upstream_truth@ == "download_save_batch_request"@,
        r.control_role@ == "display_only"@,
{
    BulkAssetSaveOutputDirState {
        path_kind: "batch_output_directory".to_owned(),
        path_authority: "router.download_save.output_dir".to_owned(),
        upstream_truth: "download_save_batch_request".to_owned(),
        control_role: "display_only".to_owned(),
    }
}

/// The character that stands for `c` in a file name.
pub open spec fn clean_char(c: char) -> char {
    if text::alphanumeric(c) || c == '.' || c == '_' || c == '-' {
        c
    } else {
        '_'
    }
}

/// Whether a file name may not start or end with `c`.
pub open spec fn edge(c: char) -> bool {
    c == '_' || c == '.'
}

pub open spec fn trim_edge_start(s: Seq<char>) -> Seq<char>
    decreases s.len(),
{
    if s.len() > 0 && edge(s[0]) {
        trim_edge_start(s.skip(1))
    } else {
        s
    }
}

pub open spec fn trim_edge_end(s: Seq<char>) -> Seq<char>
    decreases s.len(),
{
    if s.len() > 0 && edge(s.last()) {
        trim_edge_end(s.drop_last())
    } else {
        s
    }
}

/// A text as a file name: letters, digits, `.`, `_` and `-` stay, everything
/// else becomes `_`, and `_` and `.` go from both ends.
pub open spec fn sanitized(raw: Seq<char>) -> Seq<char> {
    trim_edge_end(trim_edge_start(raw.map_values(|c: char| clean_char(c))))
}

pub fn sanitize_filename(raw: &str) -> (r: String)
    ensures
        r@ == sanitized(raw@),
        !r@.contains('/'),
{
    let chars = text::chars_of(raw);
    let ghost clean = raw@.map_values(|c: char| clean_char(c));
    let mut out: Vec<char> = Vec::new();
    let mut i: usize = 0;
    while i < chars.len()
        invariant
            i <= chars@.len(),
            chars@ == raw@,
            clean == raw@.map_values(|c: char| clean_char(c)),
            out@ == clean.take(i as int),
            forall|j: int| 0 <= j < out@.len() ==> out@[j] != '/',
        decreases chars@.len() - i,
    {
        let c = chars[i];
        let kept = if text::is_alphanumeric(c) || c == '.' || c == '_' || c == '-' {
            c
        } else {
            '_'
        };
        out.push(kept);
        assert(clean.take(i + 1) =~= clean.take(i as int).push(clean[i as int]));
        i += 1;
    }
    assert(clean.take(i as int) =~= clean);
    let mut from: usize = 0;
    assert(clean.skip(0) =~= clean);
    while from < out.len() && (out[from] == '_' || out[from] == '.')
        invariant
            from <= out@.len(),
            out@ == clean,
            trim_edge_start(clean) == trim_edge_start(clean.skip(from as int)),
        decreases out@.len() - from,
    {
        assert(clean.skip(from as int).skip(1) =~= clean.skip(from + 1));
        from += 1;
    }
    let ghost front = clean.skip(from as int);
    assert(trim_edge_start(clean) == front);
    let mut to: usize = out.len();
    assert(out@.subrange(from as int, to as int) =~= front);
    while to > from && (out[to - 1] == '_' || out[to - 1] == '.')
        invariant
            from <= to <= out@.len(),
            out@ == clean,
            trim_edge_end(front) == trim_edge_end(out@.subrange(from as int, to as int)),
        decreases to,
    {
        assert(out@.subrange(from as int, to as int).drop_last() =~= out@.subrange(
            from as int,
            to - 1,
        ));
        to -= 1;
    }
    text::string_of(&out, from, to)
}

/// The name that an extension is known by.
pub open spec fn known_extension(extension: Seq<char>) -> Option<Seq<char>> {
    if text::same_ignoring_ascii_case(extension, "jpg"@) || text::same_ignoring_ascii_case(
        extension,
        "jpeg"@,
    ) {
        Some("jpg"@)
    } else if text::same_ignoring_ascii_case(extension, "png"@) {
        Some("png"@)
    } else if text::same_ignoring_ascii_case(extension, "gif"@) {
        Some("gif"@)
    } else if text::same_ignoring_ascii_case(extension, "webp"@) {
        Some("webp"@)
    } else if text::same_ignoring_ascii_case(extension, "avif"@) {
        Some("avif"@)
    } else if text::same_ignoring_ascii_case(extension, "heic"@) {
        Some("heic"@)
    } else if text::same_ignoring_ascii_case(extension, "heif"@) {
        Some("heif"@)
    } else if text::same_ignoring_ascii_case(extension, "svg"@) {
        Some("svg"@)
    } else if text::same_ignoring_ascii_case(extension, "json"@) {
        Some("json"@)
    } else if text::same_ignoring_ascii_case(extension, "txt"@) {
        Some("txt"@)
    } else if text::same_ignoring_ascii_case(extension, "html"@) || text::same_ignoring_ascii_case(
        extension,
        "htm"@,
    ) {
        Some("html"@)
    } else if text::same_ignoring_ascii_case(extension, "bin"@) {
        Some("bin"@)
    } else {
        None
    }
}

pub fn normalize_known_extension(extension: &str) -> (r: Option<String>)
    ensures
        text::opt_text(r) == known_extension(extension@),
{
    let known = if text::eq_ignore_ascii_case(extension, "jpg") || text::eq_ignore_ascii_case(
        extension,
        "jpeg",
    ) {
        "jpg"
    } else if text::eq_ignore_ascii_case(extension, "png") {
        "png"
    } else if text::eq_ignore_ascii_case(extension, "gif") {
        "gif"
    } else if text::eq_ignore_ascii_case(extension, "webp") {
        "webp"
    } else if text::eq_ignore_ascii_case(extension, "avif") {
        "avif"
    } else if text::eq_ignore_ascii_case(extension, "heic") {
        "heic"
    } else if text::eq_ignore_ascii_case(extension, "heif") {
        "heif"
    } else if text::eq_ignore_ascii_case(extension, "svg") {
        "svg"
    } else if text::eq_ignore_ascii_case(extension, "json") {
        "json"
    } else if text::eq_ignore_ascii_case(extension, "txt") {
        "txt"
    } else if text::eq_ignore_ascii_case(extension, "html") || text::eq_ignore_ascii_case(
        extension,
        "htm",
    ) {
        "html"
    } else if text::eq_ignore_ascii_case(extension, "bin") {
        "bin"
    } else {
        return None;
    };
    Some(known.to_owned())
}

/// The names that known extensions go by.
pub open spec fn is_extension_name(e: Seq<char>) -> bool {
    ||| e == "jpg"@
    ||| e == "png"@
    ||| e == "gif"@
    ||| e == "webp"@
    ||| e == "avif"@
    ||| e == "heic"@
    ||| e == "heif"@
    ||| e == "svg"@
    ||| e == "json"@
    ||| e == "txt"@
    ||| e == "html"@
    ||| e == "bin"@
}

proof fn reveal_extension_names()
    ensures
        "jpg"@ =~= seq!['j', 'p', 'g'],
        "jpeg"@ =~= seq!['j', 'p', 'e', 'g'],
        "png"@ =~= seq!['p', 'n', 'g'],
        "gif"@ =~= seq!['g', 'i', 'f'],
        "webp"@ =~= seq!['w', 'e', 'b', 'p'],
        "avif"@ =~= seq!['a', 'v', 'i', 'f'],
        "heic"@ =~= seq!['h', 'e', 'i', 'c'],
        "heif"@ =~= seq!['h', 'e', 'i', 'f'],
        "svg"@ =~= seq!['s', 'v', 'g'],
        "json"@ =~= seq!['j', 's', 'o', 'n'],
        "txt"@ =~= seq!['t', 'x', 't'],
        "html"@ =~= seq!['h', 't', 'm', 'l'],
        "htm"@ =~= seq!['h', 't', 'm'],
        "bin"@ =~= seq!['b', 'i', 'n'],
{
    reveal_strlit("jpg");
    reveal_strlit("jpeg");
    reveal_strlit("png");
    reveal_strlit("gif");
    reveal_strlit("webp");
    reveal_strlit("avif");
    reveal_strlit("heic");
    reveal_strlit("heif");
    reveal_strlit("svg");
    reveal_strlit("json");
    reveal_strlit("txt");
    reveal_strlit("html");
    reveal_strlit("htm");
    reveal_strlit("bin");
}

/// Two texts of lower-case ASCII letters that agree up to case are equal.
proof fn lower_names_agree(a: Seq<char>, b: Seq<char>)
    requires
        forall|i: int| 0 <= i < a.len() ==> 'a' <= #[trigger] a[i] <= 'z',
        forall|i: int| 0 <= i < b.len() ==> 'a' <= #[trigger] b[i] <= 'z',
    ensures
        text::same_ignoring_ascii_case(a, b) <==> a == b,
{
    if text::same_ignoring_ascii_case(a, b) {
        assert forall|i: int| 0 <= i < a.len() implies a[i] == b[i] by {
            assert(text::ascii_fold(a[i]) == text::ascii_fold(b[i]));
        }
        assert(a =~= b);
    }
}

proof fn extension_names_are_known(e: Seq<char>)
    requires
        is_extension_name(e),
    ensures
        known_extension(e) == Some(e),
        forall|i: int| 0 <= i < e.len() ==> 'a' <= #[trigger] e[i] <= 'z',
{
    reveal_extension_names();
    lower_names_agree(e, "jpg"@);
    lower_names_agree(e, "jpeg"@);
    lower_names_agree(e, "png"@);
    lower_names_agree(e, "gif"@);
    lower_names_agree(e, "webp"@);
    lower_names_agree(e, "avif"@);
    lower_names_agree(e, "heic"@);
    lower_names_agree(e, "heif"@);
    lower_names_agree(e, "svg"@);
    lower_names_agree(e, "json"@);
    lower_names_agree(e, "txt"@);
    lower_names_agree(e, "html"@);
    lower_names_agree(e, "htm"@);
    lower_names_agree(e, "bin"@);
}

/// The name that an extension is known by is known by itself, and is in lower
/// case. These names are jpg, png, gif, webp, avif, heic, heif, svg, json, txt,
/// html and bin, each of which occurs.
pub proof fn known_extensions_are_normal(extension: Seq<char>)
    ensures
        known_extension(extension) matches Some(e) ==> {
            &&& is_extension_name(e)
            &&& known_extension(e) == Some(e)
            &&& forall|i: int| 0 <= i < e.len() ==> 'a' <= #[trigger] e[i] <= 'z'
        },
        is_extension_name(extension) ==> known_extension(extension) == Some(extension),
{
    if let Some(e) = known_extension(extension) {
        extension_names_are_known(e);
    }
    if is_extension_name(extension) {
        extension_names_are_known(extension);
    }
}

/// Extensions that agree up to ASCII case are known by the same name.
pub proof fn case_does_not_matter_to_extensions(a: Seq<char>, b: Seq<char>)
    requires
        text::same_ignoring_ascii_case(a, b),
    ensures
        known_extension(a) == known_extension(b),
{
    text::lowered_ignores_case(a, b);
    same_case_class(a, b, "jpg"@);
    same_case_class(a, b, "jpeg"@);
    same_case_class(a, b, "png"@);
    same_case_class(a, b, "gif"@);
    same_case_class(a, b, "webp"@);
    same_case_class(a, b, "avif"@);
    same_case_class(a, b, "heic"@);
    same_case_class(a, b, "heif"@);
    same_case_class(a, b, "svg"@);
    same_case_class(a, b, "json"@);
    same_case_class(a, b, "txt"@);
    same_case_class(a, b, "html"@);
    same_case_class(a, b, "htm"@);
    same_case_class(a, b, "bin"@);
}

proof fn same_case_class(a: Seq<char>, b: Seq<char>, name: Seq<char>)
    requires
        text::ascii_lowered(a) == text::ascii_lowered(b),
    ensures
        text::same_ignoring_ascii_case(a, name) == text::same_ignoring_ascii_case(b, name),
{
    text::lowered_ignores_case(a, name);
    text::lowered_ignores_case(b, name);
}

/// A name and its extension, where the extension is known.
pub open spec fn split_extension(value: Seq<char>) -> (Seq<char>, Option<Seq<char>>) {
    let stem = paths::stem_of(value);
    let extension = match paths::extension_of(value) {
        Some(e) => known_extension(e),
        None => None,
    };
    if stem is Some && stem->0.len() > 0 && extension is Some {
        (stem->0, extension)
    } else {
        (value, None)
    }
}

pub fn split_known_extension(value: String) -> (r: (String, Option<String>))
    ensures
        (r.0@, text::opt_text(r.1)) == split_extension(value@),
{
    let stem = paths::file_stem(value.as_str());
    let extension = match paths::extension(value.as_str()) {
        Some(e) => normalize_known_extension(e.as_str()),
        None => None,
    };
    match (stem, extension) {
        (Some(stem), Some(extension)) => {
            if text::chars_of(stem.as_str()).len() > 0 {
                (stem, Some(extension))
            } else {
                (value, None)
            }
        },
        _ => (value, None),
    }
}

/// How many characters of a text are letters.
pub open spec fn letters(s: Seq<char>) -> int
    decreases s.len(),
{
    if s.len() == 0 {
        0
    } else {
        letters(s.drop_last()) + (if text::alphabetic(s.last()) {
            1int
        } else {
            0int
        })
    }
}

/// How many characters of a text are ASCII digits.
pub open spec fn digits(s: Seq<char>) -> int
    decreases s.len(),
{
    if s.len() == 0 {
        0
    } else {
        digits(s.drop_last()) + (if !text::alphabetic(s.last()) && text::ascii_digit(s.last()) {
            1int
        } else {
            0int
        })
    }
}

/// Whether a name tells a person something: it has a letter, or three digits.
pub open spec fn meaningful(value: Seq<char>) -> bool {
    letters(value) > 0 || digits(value) >= 3
}

pub fn is_meaningful_filename_stem(value: &str) -> (r: bool)
    ensures
        r == meaningful(value@),
{
    let chars = text::chars_of(value);
    let mut alphabetic_count: usize = 0;
    let mut digit_count: usize = 0;
    let mut i: usize = 0;
    while i < chars.len()
        invariant
            i <= chars@.len(),
            alphabetic_count == letters(chars@.take(i as int)),
            digit_count == digits(chars@.take(i as int)),
            alphabetic_count <= i,
            digit_count <= i,
        decreases chars@.len() - i,
    {
        assert(chars@.take(i + 1).drop_last() =~= chars@.take(i as int));
        let c = chars[i];
        if text::is_alphabetic(c) {
            alphabetic_count += 1;
        } else if '0' <= c && c <= '9' {
            digit_count += 1;
        }
        i += 1;
    }
    assert(chars@.take(i as int) =~= chars@);
    alphabetic_count > 0 || digit_count >= 3
}

/// A name with a number before its extension.
pub open spec fn suffixed(file_name: Seq<char>, sequence: nat) -> Seq<char> {
    let stem = match paths::stem_of(file_name) {
        Some(s) => s,
        None => "asset"@,
    };
    let numbered = stem + seq!['-'] + text::decimal(sequence);
    match paths::extension_of(file_name) {
        Some(e) => numbered + seq!['.'] + e,
        None => numbered,
    }
}

pub fn with_numeric_suffix(file_name: &str, sequence: u64) -> (r: String)
    ensures
        r@ == suffixed(file_name@, sequence as nat),
{
    let mut r = match paths::file_stem(file_name) {
        Some(s) => s,
        None => "asset".to_owned(),
    };
    let ghost stem = r@;
    r.push('-');
    let number = text::decimal_string(sequence);
    r.append(number.as_str());
    assert(r@ =~= stem + seq!['-'] + text::decimal(sequence as nat));
    if let Some(e) = paths::extension(file_name) {
        let ghost numbered = r@;
        r.push('.');
        r.append(e.as_str());
        assert(r@ =~= numbered + seq!['.'] + e@);
    }
    r
}

/// The last segment that is not empty.
pub open spec fn last_segment(segments: Seq<Seq<char>>) -> Option<Seq<char>>
    decreases segments.len(),
{
    if segments.len() == 0 {
        None
    } else if segments.last().len() > 0 {
        Some(segments.last())
    } else {
        last_segment(segments.drop_last())
    }
}

fn find_last_segment(segments: &Vec<String>) -> (r: Option<&str>)
    ensures
        json::opt_str_text(r) == last_segment(text::texts(segments@)),
{
    let ghost all = text::texts(segments@);
    let mut n: usize = segments.len();
    assert(all.take(n as int) =~= all);
    while n > 0
        invariant
            n <= segments@.len(),
            all == text::texts(segments@),
            last_segment(all) == last_segment(all.take(n as int)),
        decreases n,
    {
        assert(all.take(n as int).drop_last() =~= all.take(n - 1));
        assert(all.take(n as int).last() == segments@[n - 1]@);
        if text::chars_of(segments[n - 1].as_str()).len() > 0 {
            return Some(segments[n - 1].as_str());
        }
        n -= 1;
    }
    None
}

/// The segment of a URL that names a file.
pub open spec fn url_name(segments: Option<Seq<Seq<char>>>) -> Seq<char> {
    match segments {
        Some(all) => match last_segment(all) {
            Some(s) => s,
            None => "asset"@,
        },
        None => "asset"@,
    }
}

pub open spec fn nonempty(s: Option<Seq<char>>) -> Option<Seq<char>> {
    if s is Some && s->0.len() > 0 {
        s
    } else {
        None
    }
}

/// The file name for an asset: its own name where that tells something, else
/// the name in its URL, with the extension of the URL, its own, or `bin`.
pub open spec fn base_name(
    segments: Option<Seq<Seq<char>>>,
    source_name: Option<Seq<char>>,
) -> Seq<char> {
    let segment = sanitized(url_name(segments));
    let url_stem = match paths::stem_of(segment) {
        Some(s) => nonempty(Some(sanitized(s))),
        None => None,
    };
    let own = match source_name {
        Some(name) => if sanitized(name).len() > 0 {
            split_extension(sanitized(name))
        } else {
            (Seq::empty(), None)
        },
        None => (Seq::empty(), None),
    };
    let base = if meaningful(own.0) {
        own.0
    } else if url_stem is Some {
        url_stem->0
    } else {
        "asset"@
    };
    let extension = if nonempty(paths::extension_of(segment)) is Some {
        paths::extension_of(segment)->0
    } else if own.1 is Some {
        own.1->0
    } else {
        "bin"@
    };
    base + seq!['.'] + extension
}

fn split_source_name(source_name: Option<&str>) -> (r: (String, Option<String>))
    ensures
        (r.0@, text::opt_text(r.1)) == (match source_name {
            Some(name) => if sanitized(name@).len() > 0 {
                split_extension(sanitized(name@))
            } else {
                (Seq::empty(), None)
            },
            None => (Seq::empty(), None),
        }),
{
    match source_name {
        Some(name) => {
            let clean = sanitize_filename(name);
            if text::chars_of(clean.as_str()).len() > 0 {
                split_known_extension(clean)
            } else {
                (String::new(), None)
            }
        },
        None => (String::new(), None),
    }
}

/// The file name for an asset, from the path segments of its URL.
pub fn filename_from_segments(segments: &Option<Vec<String>>, source_name: Option<&str>) -> (r:
    String)
    ensures
        r@ == base_name(web::opt_texts(*segments), json::opt_str_text(source_name)),
{
    let named = match segments {
        Some(all) => find_last_segment(all),
        None => None,
    };
    let segment = match named {
        Some(s) => sanitize_filename(s),
        None => sanitize_filename("asset"),
    };
    let url_stem = match paths::file_stem(segment.as_str()) {
        Some(stem) => {
            let clean = sanitize_filename(stem.as_str());
            if text::chars_of(clean.as_str()).len() > 0 {
                Some(clean)
            } else {
                None
            }
        },
        None => None,
    };
    let url_extension = match paths::extension(segment.as_str()) {
        Some(e) => if text::chars_of(e.as_str()).len() > 0 {
            Some(e)
        } else {
            None
        },
        None => None,
    };
    let (source_stem, source_extension) = split_source_name(source_name);
    let mut r = if is_meaningful_filename_stem(source_stem.as_str()) {
        source_stem
    } else {
        match url_stem {
            Some(stem) => stem,
            None => "asset".to_owned(),
        }
    };
    let extension = match url_extension {
        Some(e) => e,
        None => match source_extension {
            Some(e) => e,
            None => "bin".to_owned(),
        },
    };
    let ghost base = r@;
    r.push('.');
    r.append(extension.as_str());
    assert(r@ =~= base + seq!['.'] + extension@);
    r
}

/// The file name for an asset.
pub fn build_base_filename(url: &str, source_name: Option<&str>) -> (r: String)
    ensures
        r@ == base_name(web::url_segments(url@), json::opt_str_text(source_name)),
{
    let segments = web::path_segments(url);
    filename_from_segments(&segments, source_name)
}

/// How often each file name was planned.
#[derive(Debug)]
pub struct NameCounts {
    pub entries: Vec<(String, u64)>,
}

pub open spec fn counts_model(entries: Seq<(String, u64)>) -> Map<Seq<char>, u64>
    decreases entries.len(),
{
    if entries.len() == 0 {
        Map::empty()
    } else {
        counts_model(entries.drop_last()).insert(entries.last().0@, entries.last().1)
    }
}

impl View for NameCounts {
    type V = Map<Seq<char>, u64>;

    open spec fn view(&self) -> Map<Seq<char>, u64> {
        counts_model(self.entries@)
    }
}

pub open spec fn distinct_names(entries: Seq<(String, u64)>) -> bool {
    forall|i: int, j: int|
        0 <= i < j < entries.len() ==> (#[trigger] entries[i]).0@ != (#[trigger] entries[j]).0@
}

proof fn counts_model_at(entries: Seq<(String, u64)>, i: int)
    requires
        distinct_names(entries),
        0 <= i < entries.len(),
    ensures
        counts_model(entries).contains_key(entries[i].0@),
        counts_model(entries)[entries[i].0@] == entries[i].1,
    decreases entries.len(),
{
    if i < entries.len() - 1 {
        counts_model_at(entries.drop_last(), i);
        assert(entries.drop_last()[i] == entries[i]);
    }
}

proof fn counts_model_misses(entries: Seq<(String, u64)>, name: Seq<char>)
    requires
        forall|i: int| 0 <= i < entries.len() ==> (#[trigger] entries[i]).0@ != name,
    ensures
        !counts_model(entries).contains_key(name),
    decreases entries.len(),
{
    if entries.len() > 0 {
        assert forall|i: int| 0 <= i < entries.drop_last().len() implies (
        #[trigger] entries.drop_last()[i]).0@ != name by {
            assert(entries[i].0@ != name);
        }
        counts_model_misses(entries.drop_last(), name);
        assert(entries[entries.len() - 1].0@ != name);
    }
}

proof fn counts_model_update(entries: Seq<(String, u64)>, i: int, name: String, count: u64)
    requires
        distinct_names(entries),
        0 <= i < entries.len(),
        entries[i].0@ == name@,
    ensures
        counts_model(entries.update(i, (name, count))) == counts_model(entries).insert(
            name@,
            count,
        ),
        distinct_names(entries.update(i, (name, count))),
    decreases entries.len(),
{
    let new = entries.update(i, (name, count));
    assert forall|a: int, b: int| 0 <= a < b < new.len() implies (#[trigger] new[a]).0@ != (
    #[trigger] new[b]).0@ by {
        assert(entries[a].0@ != entries[b].0@);
    }
    if i == entries.len() - 1 {
        assert(new.drop_last() =~= entries.drop_last());
        assert(counts_model(new) =~= counts_model(entries).insert(name@, count));
    } else {
        assert(distinct_names(entries.drop_last())) by {
            assert forall|a: int, b: int| 0 <= a < b < entries.drop_last().len() implies (
            #[trigger] entries.drop_last()[a]).0@ != (#[trigger] entries.drop_last()[b]).0@ by {
                assert(entries[a].0@ != entries[b].0@);
            }
        }
        counts_model_update(entries.drop_last(), i, name, count);
        assert(new.drop_last() =~= entries.drop_last().update(i, (name, count)));
        assert(entries[i].0@ != entries[entries.len() - 1].0@);
        assert(counts_model(new) =~= counts_model(entries).insert(name@, count));
    }
}

impl NameCounts {
    /// No name is counted twice.
    pub open spec fn wf(self) -> bool {
        distinct_names(self.entries@)
    }

    pub fn new() -> (r: NameCounts)
        ensures
            r.wf(),
            r@ == Map::<Seq<char>, u64>::empty(),
    {
        NameCounts { entries: Vec::new() }
    }

    fn position(&self, name: &str) -> (r: Option<usize>)
        requires
            self.wf(),
        ensures
            match r {
                Some(i) => i < self.entries@.len() && self.entries@[i as int].0@ == name@
                    && self@.contains_key(name@) && self@[name@] == self.entries@[i as int].1,
                None => !self@.contains_key(name@) && forall|i: int|
                    0 <= i < self.entries@.len() ==> (#[trigger] self.entries@[i]).0@ != name@,
            },
    {
        let mut i: usize = 0;
        while i < self.entries.len()
            invariant
                i <= self.entries@.len(),
                self.wf(),
                forall|j: int| 0 <= j < i ==> (#[trigger] self.entries@[j]).0@ != name@,
            decreases self.entries@.len() - i,
        {
            if text::str_eq(self.entries[i].0.as_str(), name) {
                proof {
                    counts_model_at(self.entries@, i as int);
                }
                return Some(i);
            }
            i += 1;
        }
        proof {
            counts_model_misses(self.entries@, name@);
        }
        None
    }

    /// Counts a name once more.
    pub fn count(&mut self, name: &str) -> (r: u64)
        requires
            old(self).wf(),
            old(self)@.contains_key(name@) ==> old(self)@[name@] < u64::MAX,
        ensures
            final(self).wf(),
            r == times_planned(old(self)@, name@) + 1,
            final(self)@ == old(self)@.insert(name@, r),
    {
        match self.position(name) {
            Some(i) => {
                let n: u64 = self.entries[i].1 + 1;
                let owned = name.to_owned();
                proof {
                    counts_model_update(self.entries@, i as int, owned, n);
                }
                self.entries.set(i, (owned, n));
                n
            },
            None => {
                let ghost before = self.entries@;
                self.entries.push((name.to_owned(), 1));
                proof {
                    assert(self.entries@.drop_last() =~= before);
                    assert forall|a: int, b: int| 0 <= a < b < self.entries@.len() implies (
                    #[trigger] self.entries@[a]).0@ != (#[trigger] self.entries@[b]).0@ by {
                        assert(before[a].0@ != name@);
                        if b < before.len() {
                            assert(before[a].0@ != before[b].0@);
                        }
                    }
                }
                1
            },
        }
    }
}

/// How often a name was planned.
pub open spec fn times_planned(counts: Map<Seq<char>, u64>, name: Seq<char>) -> int {
    if counts.contains_key(name) {
        counts[name] as int
    } else {
        0
    }
}

/// The file name for the next asset with a base name.
pub open spec fn planned_name(base: Seq<char>, times: int) -> Seq<char> {
    if times == 0 {
        base
    } else {
        suffixed(base, (times + 1) as nat)
    }
}

/// The output path for an asset with a base name.
pub fn plan_named_path(output_dir: &str, base: String, reserved_names: &mut NameCounts) -> (r:
    String)
    requires
        old(reserved_names).wf(),
        old(reserved_names)@.contains_key(base@) ==> old(reserved_names)@[base@] < u64::MAX,
    ensures
        final(reserved_names).wf(),
        final(reserved_names)@ == old(reserved_names)@.insert(
            base@,
            (times_planned(old(reserved_names)@, base@) + 1) as u64,
        ),
        r@ == paths::below(
            output_dir@,
            planned_name(base@, times_planned(old(reserved_names)@, base@)),
        ),
{
    let times = reserved_names.count(base.as_str());
    if times == 1 {
        paths::join(output_dir, base.as_str())
    } else {
        let name = with_numeric_suffix(base.as_str(), times);
        paths::join(output_dir, name.as_str())
    }
}

/// Plans the output path for an asset: a name that was planned before gets a
/// number.
pub fn planned_output_path(
    output_dir: &str,
    url: &str,
    source_name: Option<&str>,
    reserved_names: &mut NameCounts,
) -> (r: String)
    requires
        old(reserved_names).wf(),
        forall|name: Seq<char>|
            old(reserved_names)@.contains_key(name) ==> #[trigger] old(reserved_names)@[name]
                < u64::MAX,
    ensures
        final(reserved_names).wf(),
        ({
            let base = base_name(web::url_segments(url@), json::opt_str_text(source_name));
            &&& final(reserved_names)@ == old(reserved_names)@.insert(
                base,
                (times_planned(old(reserved_names)@, base) + 1) as u64,
            )
            &&& r@ == paths::below(
                output_dir@,
                planned_name(base, times_planned(old(reserved_names)@, base)),
            )
        }),
{
    let base = build_base_filename(url, source_name);
    plan_named_path(output_dir, base, reserved_names)
}

/// The extension for a media type.
pub open spec fn media_extension(media_type: Seq<char>) -> Option<Seq<char>> {
    if text::same_ignoring_ascii_case(media_type, "image/jpeg"@) {
        Some("jpg"@)
    } else if text::same_ignoring_ascii_case(media_type, "image/png"@) {
        Some("png"@)
    } else if text::same_ignoring_ascii_case(media_type, "image/gif"@) {
        Some("gif"@)
    } else if text::same_ignoring_ascii_case(media_type, "image/webp"@) {
        Some("webp"@)
    } else if text::same_ignoring_ascii_case(media_type, "image/avif"@) {
        Some("avif"@)
    } else if text::same_ignoring_ascii_case(media_type, "image/heic"@) {
        Some("heic"@)
    } else if text::same_ignoring_ascii_case(media_type, "image/heif"@) {
        Some("heif"@)
    } else if text::same_ignoring_ascii_case(media_type, "image/svg+xml"@) {
        Some("svg"@)
    } else if text::same_ignoring_ascii_case(media_type, "application/json"@) {
        Some("json"@)
    } else if text::same_ignoring_ascii_case(media_type, "text/plain"@) {
        Some("txt"@)
    } else if text::same_ignoring_ascii_case(media_type, "text/html"@) {
        Some("html"@)
    } else {
        None
    }
}

fn extension_for_media_type(media_type: &str) -> (r: Option<&'static str>)
    ensures
        json::opt_str_text(r) == media_extension(media_type@),
{
    if text::eq_ignore_ascii_case(media_type, "image/jpeg") {
        Some("jpg")
    } else if text::eq_ignore_ascii_case(media_type, "image/png") {
        Some("png")
    } else if text::eq_ignore_ascii_case(media_type, "image/gif") {
        Some("gif")
    } else if text::eq_ignore_ascii_case(media_type, "image/webp") {
        Some("webp")
    } else if text::eq_ignore_ascii_case(media_type, "image/avif") {
        Some("avif")
    } else if text::eq_ignore_ascii_case(media_type, "image/heic") {
        Some("heic")
    } else if text::eq_ignore_ascii_case(media_type, "image/heif") {
        Some("heif")
    } else if text::eq_ignore_ascii_case(media_type, "image/svg+xml") {
        Some("svg")
    } else if text::eq_ignore_ascii_case(media_type, "application/json") {
        Some("json")
    } else if text::eq_ignore_ascii_case(media_type, "text/plain") {
        Some("txt")
    } else if text::eq_ignore_ascii_case(media_type, "text/html") {
        Some("html")
    } else {
        None
    }
}

/// The extension for the bytes of a content type: what stands before the first
/// `;` is the media type.
pub open spec fn content_extension(content_type: Seq<u8>) -> Option<Seq<char>> {
    match web::header_chars(content_type) {
        Some(value) => media_extension(text::trimmed(text::split_on(value, ';')[0])),
        None => None,
    }
}

pub fn content_type_extension(content_type: &[u8]) -> (r: Option<&'static str>)
    ensures
        json::opt_str_text(r) == content_extension(content_type@),
{
    match web::header_text(content_type) {
        Some(value) => {
            let pieces = text::split_char(value.as_str(), ';');
            assert(text::texts(pieces@).len() == pieces@.len());
            assert(text::texts(pieces@)[0] == pieces@[0]@);
            extension_for_media_type(text::trim(pieces[0].as_str()))
        },
        None => None,
    }
}

/// Whether a run of bytes stands in others at a place.
pub open spec fn bytes_at(bytes: Seq<u8>, at: int, part: Seq<u8>) -> bool {
    at + part.len() <= bytes.len() && bytes.subrange(at, at + part.len()) == part
}

fn has_bytes_at(bytes: &[u8], at: usize, part: &[u8]) -> (r: bool)
    ensures
        r == bytes_at(bytes@, at as int, part@),
{
    if at > bytes.len() || part.len() > bytes.len() - at {
        return false;
    }
    let len: usize = bytes.len();
    let mut i: usize = 0;
    while i < part.len()
        invariant
            i <= part@.len(),
            len == bytes@.len(),
            at + part@.len() <= len,
            forall|j: int| 0 <= j < i ==> bytes@[at + j] == part@[j],
        decreases part@.len() - i,
    {
        if bytes[at + i] != part[i] {
            proof {
                let cut = bytes@.subrange(at as int, at + part@.len());
                assert(cut[i as int] == bytes@[at + i]);
            }
            return false;
        }
        i += 1;
    }
    assert(bytes@.subrange(at as int, at + part@.len()) =~= part@);
    true
}

/// The extension that the first bytes of a file tell.
pub open spec fn sniffed(bytes: Seq<u8>) -> Option<Seq<char>> {
    if bytes_at(bytes, 0, seq![0xFFu8, 0xD8u8, 0xFFu8]) {
        Some("jpg"@)
    } else if bytes_at(
        bytes,
        0,
        seq![0x89u8, 0x50u8, 0x4Eu8, 0x47u8, 0x0Du8, 0x0Au8, 0x1Au8, 0x0Au8],
    ) {
        Some("png"@)
    } else if bytes_at(bytes, 0, seq![0x47u8, 0x49u8, 0x46u8, 0x38u8, 0x37u8, 0x61u8]) || bytes_at(
        bytes,
        0,
        seq![0x47u8, 0x49u8, 0x46u8, 0x38u8, 0x39u8, 0x61u8],
    ) {
        Some("gif"@)
    } else if bytes_at(bytes, 0, seq![0x52u8, 0x49u8, 0x46u8, 0x46u8]) && bytes_at(
        bytes,
        8,
        seq![0x57u8, 0x45u8, 0x42u8, 0x50u8],
    ) {
        Some("webp"@)
    } else if bytes_at(bytes, 4, ftyp(0x61u8, 0x76u8, 0x69u8, 0x66u8)) {
        Some("avif"@)
    } else if bytes_at(bytes, 4, ftyp(0x68u8, 0x65u8, 0x69u8, 0x63u8)) {
        Some("heic"@)
    } else if bytes_at(bytes, 4, ftyp(0x68u8, 0x65u8, 0x69u8, 0x66u8)) {
        Some("heif"@)
    } else {
        None
    }
}

/// The bytes `ftyp` and a brand of four bytes.
pub open spec fn ftyp(a: u8, b: u8, c: u8, d: u8) -> Seq<u8> {
    seq![0x66u8, 0x74u8, 0x79u8, 0x70u8, a, b, c, d]
}

fn has_brand(bytes: &[u8], a: u8, b: u8, c: u8, d: u8) -> (r: bool)
    ensures
        r == bytes_at(bytes@, 4, ftyp(a, b, c, d)),
{
    let brand: [u8; 8] = [0x66, 0x74, 0x79, 0x70, a, b, c, d];
    assert(brand@ =~= ftyp(a, b, c, d));
    has_bytes_at(bytes, 4, &brand)
}

pub fn sniff_content_extension(bytes: &[u8]) -> (r: Option<&'static str>)
    ensures
        json::opt_str_text(r) == sniffed(bytes@),
{
    let jpg: [u8; 3] = [0xFF, 0xD8, 0xFF];
    assert(jpg@ =~= seq![0xFFu8, 0xD8u8, 0xFFu8]);
    if has_bytes_at(bytes, 0, &jpg) {
        return Some("jpg");
    }
    let png: [u8; 8] = [0x89, 0x50, 0x4E, 0x47, 0x0D, 0x0A, 0x1A, 0x0A];
    assert(png@ =~= seq![0x89u8, 0x50u8, 0x4Eu8, 0x47u8, 0x0Du8, 0x0Au8, 0x1Au8, 0x0Au8]);
    if has_bytes_at(bytes, 0, &png) {
        return Some("png");
    }
    let gif87: [u8; 6] = [0x47, 0x49, 0x46, 0x38, 0x37, 0x61];
    assert(gif87@ =~= seq![0x47u8, 0x49u8, 0x46u8, 0x38u8, 0x37u8, 0x61u8]);
    let gif89: [u8; 6] = [0x47, 0x49, 0x46, 0x38, 0x39, 0x61];
    assert(gif89@ =~= seq![0x47u8, 0x49u8, 0x46u8, 0x38u8, 0x39u8, 0x61u8]);
    if has_bytes_at(bytes, 0, &gif87) || has_bytes_at(bytes, 0, &gif89) {
        return Some("gif");
    }
    let riff: [u8; 4] = [0x52, 0x49, 0x46, 0x46];
    assert(riff@ =~= seq![0x52u8, 0x49u8, 0x46u8, 0x46u8]);
    let webp: [u8; 4] = [0x57, 0x45, 0x42, 0x50];
    assert(webp@ =~= seq![0x57u8, 0x45u8, 0x42u8, 0x50u8]);
    if has_bytes_at(bytes, 0, &riff) && has_bytes_at(bytes, 8, &webp) {
        return Some("webp");
    }
    if has_brand(bytes, 0x61, 0x76, 0x69, 0x66) {
        return Some("avif");
    }
    if has_brand(bytes, 0x68, 0x65, 0x69, 0x63) {
        return Some("heic");
    }
    if has_brand(bytes, 0x68, 0x65, 0x69, 0x66) {
        return Some("heif");
    }
    None
}

/// The path with an extension that was found out, where it has none to speak of.
pub open spec fn with_found(path: Seq<char>, found: Option<Seq<char>>) -> Seq<char> {
    if paths::extension_of(path) == Some("bin"@) && found is Some {
        paths::with_ext(path, found->0)
    } else {
        path
    }
}

/// The path after its content type is known.
pub open spec fn reconciled(path: Seq<char>, content_type: Option<Seq<u8>>) -> Seq<char> {
    with_found(
        path,
        match content_type {
            Some(bytes) => content_extension(bytes),
            None => None,
        },
    )
}

/// The path after its content type and its first bytes are known.
pub open spec fn reconciled_with_bytes(
    path: Seq<char>,
    content_type: Option<Seq<u8>>,
    first_chunk: Option<Seq<u8>>,
) -> Seq<char> {
    with_found(
        reconciled(path, content_type),
        match first_chunk {
            Some(bytes) => sniffed(bytes),
            None => None,
        },
    )
}

pub open spec fn opt_bytes(o: Option<&[u8]>) -> Option<Seq<u8>> {
    match o {
        Some(b) => Some(b@),
        None => None,
    }
}

fn apply_found(path: &str, found: Option<&'static str>) -> (r: String)
    ensures
        r@ == with_found(path@, json::opt_str_text(found)),
{
    let is_bin = match paths::extension(path) {
        Some(e) => text::str_eq(e.as_str(), "bin"),
        None => false,
    };
    if !is_bin {
        return path.to_owned();
    }
    match found {
        Some(e) => paths::with_extension(path, e),
        None => path.to_owned(),
    }
}

pub fn reconcile_output_path(path: &str, content_type: Option<&[u8]>) -> (r: String)
    ensures
        r@ == reconciled(path@, opt_bytes(content_type)),
{
    let found = match content_type {
        Some(bytes) => content_type_extension(bytes),
        None => None,
    };
    apply_found(path, found)
}

pub fn reconcile_output_path_with_bytes(
    path: &str,
    content_type: Option<&[u8]>,
    first_chunk: Option<&[u8]>,
) -> (r: String)
    ensures
        r@ == reconciled_with_bytes(path@, opt_bytes(content_type), opt_bytes(first_chunk)),
{
    let first = reconcile_output_path(path, content_type);
    let found = match first_chunk {
        Some(bytes) => sniff_content_extension(bytes),
        None => None,
    };
    apply_found(first.as_str(), found)
}

/// Whether a path is reserved.
pub open spec fn reserved(all: Seq<Seq<char>>, path: Seq<char>) -> bool {
    exists|i: int| 0 <= i < all.len() && paths::same(#[trigger] all[i], path)
}

fn is_reserved(all: &Vec<String>, path: &str) -> (r: bool)
    ensures
        r == reserved(text::texts(all@), path@),
{
    let ghost texts = text::texts(all@);
    let mut i: usize = 0;
    while i < all.len()
        invariant
            i <= all@.len(),
            texts == text::texts(all@),
            forall|j: int| 0 <= j < i ==> !paths::same(#[trigger] texts[j], path@),
        decreases all@.len() - i,
    {
        assert(texts[i as int] == all@[i as int]@);
        if paths::same_path(all[i].as_str(), path) {
            return true;
        }
        i += 1;
    }
    false
}

/// The path with a number in its name.
pub open spec fn numbered(path: Seq<char>, sequence: nat) -> Seq<char> {
    paths::renamed(
        path,
        suffixed(
            match paths::name_of(path) {
                Some(name) => name,
                None => "asset"@,
            },
            sequence,
        ),
    )
}

/// Whether `path` with the number `k` is the first that is free.
pub open spec fn first_free(all: Seq<Seq<char>>, path: Seq<char>, k: nat) -> bool {
    &&& k >= 2
    &&& !reserved(all, numbered(path, k))
    &&& forall|j: nat| 2 <= j < k ==> reserved(all, #[trigger] numbered(path, j))
}

proof fn stem_and_extension(name: Seq<char>)
    requires
        paths::plain_part(name),
    ensures
        paths::stem_of(name) is Some ==> !paths::stem_of(name)->0.contains('/'),
        paths::extension_of(name) is Some ==> !paths::extension_of(name)->0.contains('/'),
{
    if paths::name_of(name) is Some {
        paths::name_is_a_part(name);
        let n = paths::name_of(name)->0;
        paths::last_dot_bounds(n);
        assert forall|i: int| 0 <= i < paths::stem_of(name)->0.len() implies paths::stem_of(
            name,
        )->0[i] != '/' by {
            assert(n.contains(n[i]));
        }
        if paths::extension_of(name) is Some {
            let e = paths::extension_of(name)->0;
            assert forall|i: int| 0 <= i < e.len() implies e[i] != '/' by {
                assert(n.contains(n[paths::last_dot(n) + 1 + i]));
            }
        }
    }
}

/// A numbered name is one part of a path.
proof fn suffixed_is_plain(name: Seq<char>, k: nat)
    requires
        paths::plain_part(name),
    ensures
        paths::plain_part(suffixed(name, k)),
{
    reveal_strlit("asset");
    stem_and_extension(name);
    text::decimal_digits(k);
    let s = suffixed(name, k);
    let stem = match paths::stem_of(name) {
        Some(s) => s,
        None => "asset"@,
    };
    let dec = text::decimal(k);
    assert(s[stem.len() as int] == '-');
    assert forall|i: int| 0 <= i < s.len() implies s[i] != '/' by {
        if i < stem.len() {
            assert(s[i] == stem[i]);
            assert(stem.contains(stem[i]));
        } else if i == stem.len() {
        } else if i <= stem.len() + dec.len() {
            assert(s[i] == dec[i - stem.len() - 1]);
        } else {
            let e = paths::extension_of(name)->0;
            if i > stem.len() + dec.len() + 1 {
                assert(s[i] == e[i - stem.len() - dec.len() - 2]);
                assert(e.contains(e[i - stem.len() - dec.len() - 2]));
            }
        }
    }
    if s == seq!['.'] {
        assert(s.len() >= 2);
    }
}

/// Different numbers give different names.
pub proof fn suffixed_injective(name: Seq<char>, a: nat, b: nat)
    requires
        suffixed(name, a) == suffixed(name, b),
    ensures
        a == b,
{
    let stem = match paths::stem_of(name) {
        Some(s) => s,
        None => "asset"@,
    };
    let da = text::decimal(a);
    let db = text::decimal(b);
    let sa = suffixed(name, a);
    let sb = suffixed(name, b);
    let tail: int = match paths::extension_of(name) {
        Some(e) => 1 + e.len() as int,
        None => 0,
    };
    assert(sa.len() == stem.len() + 1 + da.len() + tail);
    assert(sb.len() == stem.len() + 1 + db.len() + tail);
    assert forall|i: int| 0 <= i < da.len() implies da[i] == db[i] by {
        assert(sa[stem.len() + 1 + i] == da[i]);
        assert(sb[stem.len() + 1 + i] == db[i]);
    }
    assert(da =~= db);
    text::decimal_injective(a, b);
}

proof fn numbered_injective(path: Seq<char>, a: nat, b: nat)
    requires
        paths::same(numbered(path, a), numbered(path, b)),
    ensures
        a == b,
{
    reveal_strlit("asset");
    let name = match paths::name_of(path) {
        Some(name) => name,
        None => "asset"@,
    };
    if paths::name_of(path) is Some {
        paths::name_is_a_part(path);
    } else {
        assert("asset"@.len() == 5);
        assert(paths::plain_part("asset"@));
    }
    suffixed_is_plain(name, a);
    suffixed_is_plain(name, b);
    paths::renaming_is_injective(path, suffixed(name, a), suffixed(name, b));
    suffixed_injective(name, a, b);
}

/// As many numbers as there are reserved paths cannot all be taken.
proof fn taken_numbers_are_few(all: Seq<Seq<char>>, path: Seq<char>, k: nat)
    requires
        k >= 2,
        forall|j: nat| 2 <= j < k ==> reserved(all, #[trigger] numbered(path, j)),
    ensures
        k - 2 <= all.len(),
{
    let keys = Seq::new((k - 2) as nat, |i: int| paths::path_key(numbered(path, (i + 2) as nat)));
    let held = all.map_values(|p: Seq<char>| paths::path_key(p));
    assert(keys.no_duplicates()) by {
        assert forall|i: int, j: int| 0 <= i < keys.len() && 0 <= j < keys.len() && i
            != j implies keys[i] != keys[j] by {
            if keys[i] == keys[j] {
                numbered_injective(path, (i + 2) as nat, (j + 2) as nat);
            }
        }
    }
    assert(keys.to_set().subset_of(held.to_set())) by {
        assert forall|x| keys.to_set().contains(x) implies held.to_set().contains(x) by {
            let i = choose|i: int| 0 <= i < keys.len() && keys[i] == x;
            assert(reserved(all, numbered(path, (i + 2) as nat)));
            let j = choose|j: int|
                0 <= j < all.len() && paths::same(
                    #[trigger] all[j],
                    numbered(path, (i + 2) as nat),
                );
            assert(held[j] == x);
        }
    }
    keys.unique_seq_to_set();
    vstd::seq_lib::seq_to_set_is_finite(held);
    vstd::set_lib::lemma_len_subset(keys.to_set(), held.to_set());
    held.lemma_cardinality_of_set();
}

/// The path itself, or with the first number that is free.
pub fn reserve_unique_output_path(path: &str, reserved_paths: &Vec<String>) -> (r: String)
    requires
        reserved_paths@.len() + 2 < u64::MAX,
    ensures
        !reserved(text::texts(reserved_paths@), path@) ==> r@ == path@,
        reserved(text::texts(reserved_paths@), path@) ==> exists|k: nat|
            #[trigger] first_free(text::texts(reserved_paths@), path@, k) && r@ == numbered(
                path@,
                k,
            ),
{
    if !is_reserved(reserved_paths, path) {
        return path.to_owned();
    }
    let ghost all = text::texts(reserved_paths@);
    let file_name = match paths::file_name(path) {
        Some(name) => name,
        None => "asset".to_owned(),
    };
    let mut sequence: u64 = 2;
    loop
        invariant
            2 <= sequence <= reserved_paths@.len() + 2 < u64::MAX,
            all == text::texts(reserved_paths@),
            file_name@ == (match paths::name_of(path@) {
                Some(name) => name,
                None => "asset"@,
            }),
            forall|j: nat| 2 <= j < sequence ==> reserved(all, #[trigger] numbered(path@, j)),
            reserved(all, path@),
        decreases reserved_paths@.len() + 3 - sequence,
    {
        let name = with_numeric_suffix(file_name.as_str(), sequence);
        let candidate = paths::with_file_name(path, name.as_str());
        assert(candidate@ == numbered(path@, sequence as nat));
        if !is_reserved(reserved_paths, candidate.as_str()) {
            assert(first_free(all, path@, sequence as nat));
            return candidate;
        }
        proof {
            assert forall|j: nat| 2 <= j < sequence + 1 implies reserved(
                all,
                #[trigger] numbered(path@, j),
            ) by {
                if j == sequence {
                    assert(reserved(all, candidate@));
                }
            }
            taken_numbers_are_few(all, path@, (sequence + 1) as nat);
            assert(all.len() == reserved_paths@.len());
        }
        sequence = sequence + 1;
    }
}

/// The reserved paths without one.
pub open spec fn without(all: Seq<Seq<char>>, path: Seq<char>) -> Seq<Seq<char>>
    decreases all.len(),
{
    if all.len() == 0 {
        seq![]
    } else {
        let front = without(all.drop_last(), path);
        if paths::same(all.last(), path) {
            front
        } else {
            front.push(all.last())
        }
    }
}

fn release(all: &Vec<String>, path: &str) -> (r: Vec<String>)
    ensures
        text::texts(r@) == without(text::texts(all@), path@),
        r@.len() <= all@.len(),
{
    let ghost texts = text::texts(all@);
    let mut out: Vec<String> = Vec::new();
    let mut i: usize = 0;
    assert(text::texts(out@) =~= without(texts.take(0), path@));
    while i < all.len()
        invariant
            i <= all@.len(),
            texts == text::texts(all@),
            text::texts(out@) == without(texts.take(i as int), path@),
            out@.len() <= i,
        decreases all@.len() - i,
    {
        assert(texts.take(i + 1).drop_last() =~= texts.take(i as int));
        if !paths::same_path(all[i].as_str(), path) {
            let ghost before = text::texts(out@);
            let kept = all[i].clone();
            out.push(kept);
            assert(text::texts(out@) =~= before.push(kept@));
        }
        i += 1;
    }
    assert(texts.take(i as int) =~= texts);
    out
}

/// Whether `chosen` is what an asset gets in place of its planned path, beside
/// the paths of the others.
pub open spec fn assigned(
    others: Seq<Seq<char>>,
    wanted: Seq<char>,
    chosen: Seq<char>,
) -> bool {
    if reserved(others, wanted) {
        exists|k: nat| #[trigger] first_free(others, wanted, k) && chosen == numbered(wanted, k)
    } else {
        chosen == wanted
    }
}

/// Trades the planned path of an asset for its final one.
pub fn reserve_reconciled_output_path(
    planned_path: &str,
    content_type: Option<&[u8]>,
    first_chunk: Option<&[u8]>,
    reserved_output_paths: &mut Vec<String>,
) -> (r: String)
    requires
        old(reserved_output_paths)@.len() + 2 < u64::MAX,
    ensures
        assigned(
            without(text::texts(old(reserved_output_paths)@), planned_path@),
            reconciled_with_bytes(planned_path@, opt_bytes(content_type), opt_bytes(first_chunk)),
            r@,
        ),
        text::texts(final(reserved_output_paths)@) == without(
            text::texts(old(reserved_output_paths)@),
            planned_path@,
        ).push(r@),
{
    let wanted = reconcile_output_path_with_bytes(planned_path, content_type, first_chunk);
    let mut others = release(reserved_output_paths, planned_path);
    let ghost before = text::texts(others@);
    let chosen = reserve_unique_output_path(wanted.as_str(), &others);
    others.push(chosen.clone());
    assert(text::texts(others@) =~= before.push(chosen@));
    *reserved_output_paths = others;
    chosen
}

/// Whether no path is reserved twice.
pub open spec fn all_different(all: Seq<Seq<char>>) -> bool {
    forall|i: int, j: int|
        0 <= i < j < all.len() ==> !paths::same(#[trigger] all[i], #[trigger] all[j])
}

proof fn without_members(all: Seq<Seq<char>>, path: Seq<char>)
    ensures
        forall|i: int|
            0 <= i < without(all, path).len() ==> all.contains(#[trigger] without(all, path)[i]),
        all_different(all) ==> all_different(without(all, path)),
    decreases all.len(),
{
    if all.len() > 0 {
        let front = all.drop_last();
        without_members(front, path);
        assert forall|i: int| 0 <= i < without(all, path).len() implies all.contains(
            #[trigger] without(all, path)[i],
        ) by {
            if i < without(front, path).len() {
                assert(front.contains(without(front, path)[i]));
                let j = choose|j: int|
                    0 <= j < front.len() && front[j] == without(front, path)[i];
                assert(all[j] == without(all, path)[i]);
            } else {
                assert(all[all.len() - 1] == without(all, path)[i]);
            }
        }
        if all_different(all) {
            assert(all_different(front)) by {
                assert forall|i: int, j: int| 0 <= i < j < front.len() implies !paths::same(
                    #[trigger] front[i],
                    #[trigger] front[j],
                ) by {
                    assert(!paths::same(all[i], all[j]));
                }
            }
            let w = without(all, path);
            assert forall|i: int, j: int| 0 <= i < j < w.len() implies !paths::same(
                #[trigger] w[i],
                #[trigger] w[j],
            ) by {
                let wf = without(front, path);
                assert(w[i] == wf[i]);
                if j < wf.len() {
                    assert(w[j] == wf[j]);
                } else {
                    assert(front.contains(wf[i]));
                    let a = choose|a: int| 0 <= a < front.len() && front[a] == wf[i];
                    assert(all[a] == wf[i]);
                    assert(!paths::same(all[a], all[all.len() - 1]));
                }
            }
        }
    }
}

/// Assets of a batch never share an output path: where the reserved paths are
/// different, they stay different after an asset got its final path.
pub proof fn final_paths_stay_different(
    all: Seq<Seq<char>>,
    planned: Seq<char>,
    wanted: Seq<char>,
    chosen: Seq<char>,
)
    requires
        all_different(all),
        assigned(without(all, planned), wanted, chosen),
    ensures
        all_different(without(all, planned).push(chosen)),
        !reserved(without(all, planned), chosen),
{
    let others = without(all, planned);
    without_members(all, planned);
    let new = others.push(chosen);
    assert forall|i: int, j: int| 0 <= i < j < new.len() implies !paths::same(
        #[trigger] new[i],
        #[trigger] new[j],
    ) by {
        assert(new[i] == others[i]);
        if j < others.len() {
            assert(new[j] == others[j]);
        }
    }
}

/// A base name that is planned twice gives two names.
pub proof fn planned_names_of_one_base_differ(base: Seq<char>, i: int, j: int)
    requires
        paths::name_of(base) == Some(base),
        0 <= i < j,
    ensures
        planned_name(base, i) != planned_name(base, j),
{
    if planned_name(base, i) == planned_name(base, j) {
        if i == 0 {
            let k = (j + 1) as nat;
            text::decimal_digits(k);
            paths::last_dot_bounds(base);
            let s = suffixed(base, k);
            if paths::last_dot(base) > 0 {
                assert(s.len() == paths::last_dot(base) + 1 + text::decimal(k).len() + 1 + (
                base.len() - paths::last_dot(base) - 1));
            } else {
                assert(s.len() == base.len() + 1 + text::decimal(k).len());
            }
            assert(s.len() > base.len());
        } else {
            suffixed_injective(base, (i + 1) as nat, (j + 1) as nat);
        }
    }
}

/// The path of the unfinished file for an output path.
pub open spec fn part_path(path: Seq<char>, stamp: Seq<char>) -> Seq<char> {
    paths::renamed(
        path,
        (match paths::name_of(path) {
            Some(name) => name,
            None => "asset"@,
        }) + ".part-"@ + stamp,
    )
}

/// The path of the unfinished file, with a given time stamp in it.
pub fn temporary_path_at(path: &str, stamp: &str) -> (r: String)
    ensures
        r@ == part_path(path@, stamp@),
{
    let file_name = match paths::file_name(path) {
        Some(name) => name,
        None => "asset".to_owned(),
    };
    let name = text::cat3(file_name.as_str(), ".part-", stamp);
    paths::with_file_name(path, name.as_str())
}

/// Whether a text spells an integer: digits, with a sign before them where it
/// is negative.
pub open spec fn integer_text(s: Seq<char>) -> bool {
    &&& s.len() > 0
    &&& text::ascii_digit(s.last())
    &&& forall|i: int|
        0 <= i < s.len() ==> text::ascii_digit(#[trigger] s[i]) || (i == 0 && s[i] == '-')
}

/// `time::OffsetDateTime::now_utc` and `unix_timestamp_nanos`, in decimal. That
/// it spells an integer is stated; which one, the clock decides.
#[verifier::external_body]
fn timestamp_text() -> (r: String)
    ensures
        integer_text(r@),
{
    time::OffsetDateTime::now_utc().unix_timestamp_nanos().to_string()
}

/// The path of the unfinished file, with the present time in it.
pub fn temporary_path(path: &str) -> (r: String)
    ensures
        exists|stamp: Seq<char>|
            integer_text(stamp) && r@ == #[trigger] part_path(path@, stamp),
{
    let stamp = timestamp_text();
    let r = temporary_path_at(path, stamp.as_str());
    assert(r@ == part_path(path@, stamp@));
    r
}

/// The unfinished file of an asset is never the file it becomes: its name goes
/// on behind that of the file.
pub proof fn unfinished_files_have_a_name_of_their_own(path: Seq<char>, stamp: Seq<char>)
    requires
        integer_text(stamp),
    ensures
        paths::name_of(part_path(path, stamp)) == Some(
            (match paths::name_of(path) {
                Some(name) => name,
                None => "asset"@,
            }) + ".part-"@ + stamp,
        ),
        part_path(path, stamp) != path,
{
    let stem = match paths::name_of(path) {
        Some(name) => name,
        None => "asset"@,
    };
    reveal_strlit("asset");
    reveal_strlit(".part-");
    if paths::name_of(path) is Some {
        paths::name_is_a_part(path);
    }
    let name = stem + ".part-"@ + stamp;
    assert forall|i: int| 0 <= i < name.len() implies name[i] != '/' by {
        if i < stem.len() {
            assert(name[i] == stem[i]);
            assert(stem.contains(stem[i]));
        } else if i < stem.len() + ".part-"@.len() {
            assert(name[i] == ".part-"@[i - stem.len()]);
        } else {
            assert(name[i] == stamp[i - stem.len() - ".part-"@.len()]);
        }
    }
    assert(name.last() == stamp.last());
    if name == seq!['.'] {
        assert(name.len() == 1);
    }
    let dir = if paths::name_of(path) is Some {
        paths::parent_of(path)
    } else {
        path
    };
    paths::name_below(dir, name);
    assert(name.len() > stem.len());
}

/// Remembers the unfinished file of an asset.
pub fn set_tracked_temp_path(slot: &mut Option<String>, value: Option<String>)
    ensures
        *final(slot) == value,
{
    *slot = value;
}

/// Remembers the output path of an asset.
pub fn set_tracked_output_path(slot: &mut Option<String>, path: Option<String>)
    ensures
        *final(slot) == path,
{
    *slot = path;
}

/// The remembered output path of an asset.
pub fn tracked_output_path(slot: &Option<String>) -> (r: Option<String>)
    ensures
        text::opt_text(r) == text::opt_text(*slot),
{
    text::clone_opt(slot)
}

/// Takes the unfinished file of an asset out of its slot, for removal.
pub fn take_tracked_temp_path(slot: &mut Option<String>) -> (r: Option<String>)
    ensures
        r == *old(slot),
        *final(slot) is None,
{
    slot.take()
}

proof fn trim_edge_start_properties(s: Seq<char>)
    ensures
        trim_edge_start(s).len() <= s.len(),
        trim_edge_start(s) == s.skip(s.len() - trim_edge_start(s).len()),
        trim_edge_start(s).len() > 0 ==> !edge(trim_edge_start(s)[0]),
    decreases s.len(),
{
    if s.len() > 0 && edge(s[0]) {
        trim_edge_start_properties(s.skip(1));
        let t = trim_edge_start(s);
        assert(s.skip(1).skip(s.len() - 1 - t.len()) =~= s.skip(s.len() - t.len()));
    } else {
        assert(s.skip(0) =~= s);
    }
}

proof fn trim_edge_end_properties(s: Seq<char>)
    ensures
        trim_edge_end(s).len() <= s.len(),
        trim_edge_end(s) == s.take(trim_edge_end(s).len() as int),
        trim_edge_end(s).len() > 0 ==> !edge(trim_edge_end(s).last()),
    decreases s.len(),
{
    if s.len() > 0 && edge(s.last()) {
        trim_edge_end_properties(s.drop_last());
        let n = trim_edge_end(s).len() as int;
        assert(s.drop_last().take(n) =~= s.take(n));
    } else {
        assert(s.take(s.len() as int) =~= s);
    }
}

/// A file name that was made safe is safe.
pub proof fn sanitizing_is_idempotent(raw: Seq<char>)
    ensures
        sanitized(sanitized(raw)) == sanitized(raw),
{
    let clean = raw.map_values(|c: char| clean_char(c));
    let front = trim_edge_start(clean);
    let s = sanitized(raw);
    trim_edge_start_properties(clean);
    trim_edge_end_properties(front);
    let off = clean.len() - front.len();
    assert forall|i: int| 0 <= i < s.len() implies clean_char(#[trigger] s[i]) == s[i] by {
        assert(s[i] == front[i]);
        assert(front[i] == clean[off + i]);
        assert(clean[off + i] == clean_char(raw[off + i]));
    }
    assert(s.map_values(|c: char| clean_char(c)) =~= s);
    if s.len() > 0 {
        assert(s[0] == front[0]);
    }
    assert(trim_edge_start(s) == s);
    assert(trim_edge_end(s) == s);
}

/// A path of a report is durable exactly where its asset was saved and that it will last
/// was not denied; it is published where that was denied, and not committed where the
/// asset was neither saved nor kept.
pub proof fn durability_follows_the_end(status: SavedAssetStatus, confirmed: Option<bool>)
    ensures
        ({
            let d = output_state(status, confirmed).durability;
            &&& d == "durable"@ <==> status == SavedAssetStatus::Saved && confirmed != Some(false)
            &&& d == "published"@ <==> status == SavedAssetStatus::Saved && confirmed == Some(false)
            &&& d == "external_existing_file_reference"@ <==> status
                == SavedAssetStatus::SkippedExisting
            &&& d == "not_committed"@ <==> status == SavedAssetStatus::Failed || status
                == SavedAssetStatus::TimedOut
        }),
        ({
            let k = output_state(status, confirmed).path_kind;
            &&& k == "saved_artifact"@ <==> status == SavedAssetStatus::Saved
            &&& k == "existing_file_reference"@ <==> status == SavedAssetStatus::SkippedExisting
            &&& k == "planned_output_reference"@ <==> status == SavedAssetStatus::Failed || status
                == SavedAssetStatus::TimedOut
        }),
{
    reveal_strlit("durable");
    reveal_strlit("published");
    reveal_strlit("external_existing_file_reference");
    reveal_strlit("not_committed");
    assert("durable"@.len() != "published"@.len());
    assert("durable"@.len() != "external_existing_file_reference"@.len());
    assert("durable"@.len() != "not_committed"@.len());
    assert("published"@.len() != "external_existing_file_reference"@.len());
    assert("published"@.len() != "not_committed"@.len());
    assert("external_existing_file_reference"@.len() != "not_committed"@.len());
    reveal_strlit("saved_artifact");
    reveal_strlit("existing_file_reference");
    reveal_strlit("planned_output_reference");
    assert("saved_artifact"@.len() != "existing_file_reference"@.len());
    assert("saved_artifact"@.len() != "planned_output_reference"@.len());
    assert("existing_file_reference"@.len() != "planned_output_reference"@.len());
}

/// A safe name is the name with each character that is neither a letter, a digit, `.`,
/// `_` nor `-` replaced by `_`, without `_` and `.` at its ends, and nothing else taken
/// off.
pub proof fn sanitizing_replaces_and_trims(raw: Seq<char>)
    ensures
        forall|i: int|
            0 <= i < sanitized(raw).len() ==> {
                let c = #[trigger] sanitized(raw)[i];
                text::alphanumeric(c) || c == '.' || c == '_' || c == '-'
            },
        sanitized(raw).len() > 0 ==> !edge(sanitized(raw)[0]) && !edge(sanitized(raw).last()),
        exists|from: int, to: int|
            0 <= from <= to <= raw.len() && sanitized(raw).len() == to - from && (forall|i: int|
                from <= i < to ==> sanitized(raw)[i - from] == if text::alphanumeric(raw[i])
                    || raw[i] == '.' || raw[i] == '_' || raw[i] == '-' {
                    raw[i]
                } else {
                    '_'
                }) && #[trigger] cut_off(raw, from, to),
{
    let clean = raw.map_values(|c: char| clean_char(c));
    let tail = trim_edge_start(clean);
    let done = trim_edge_end(tail);
    trim_edge_start_properties(clean);
    trim_edge_end_properties(tail);
    let from = clean.len() - tail.len();
    let to = from + done.len();
    assert forall|i: int| from <= i < to implies done[i - from] == clean_char(raw[i]) by {
        assert(done[i - from] == tail[i - from]);
        assert(tail[i - from] == clean[i]);
    }
    assert forall|i: int| 0 <= i < done.len() implies ({
        let c = #[trigger] done[i];
        text::alphanumeric(c) || c == '.' || c == '_' || c == '-'
    }) by {
        assert(done[i] == clean_char(raw[i + from]));
    }
    if done.len() > 0 {
        assert(done[0] == tail[0]);
    }
    trimmed_edges(clean);
    trimmed_ends(tail);
    assert(cut_off(raw, from, to)) by {
        assert forall|i: int| 0 <= i < from implies edge(clean_char(#[trigger] raw[i])) by {
            assert(edge(clean[i]));
        }
        assert forall|i: int| to <= i < raw.len() implies edge(clean_char(#[trigger] raw[i])) by {
            assert(edge(tail[i - from]));
            assert(tail[i - from] == clean[i]);
        }
    }
}

/// What stands before `from` and from `to` on is what a safe name cannot have at its
/// ends.
pub open spec fn cut_off(raw: Seq<char>, from: int, to: int) -> bool {
    &&& forall|i: int| 0 <= i < from ==> edge(clean_char(#[trigger] raw[i]))
    &&& forall|i: int| to <= i < raw.len() ==> edge(clean_char(#[trigger] raw[i]))
}

proof fn trimmed_edges(s: Seq<char>)
    ensures
        forall|i: int| 0 <= i < s.len() - trim_edge_start(s).len() ==> edge(#[trigger] s[i]),
    decreases s.len(),
{
    if s.len() > 0 && edge(s[0]) {
        let rest = s.skip(1);
        trimmed_edges(rest);
        trim_edge_start_properties(rest);
        assert forall|i: int| 0 <= i < s.len() - trim_edge_start(s).len() implies edge(
            #[trigger] s[i],
        ) by {
            if i > 0 {
                assert(rest[i - 1] == s[i]);
            }
        }
    }
}

proof fn trimmed_ends(s: Seq<char>)
    ensures
        forall|i: int| trim_edge_end(s).len() <= i < s.len() ==> edge(#[trigger] s[i]),
    decreases s.len(),
{
    if s.len() > 0 && edge(s.last()) {
        let rest = s.drop_last();
        trimmed_ends(rest);
        trim_edge_end_properties(rest);
        assert forall|i: int| trim_edge_end(s).len() <= i < s.len() implies edge(
            #[trigger] s[i],
        ) by {
            if i < rest.len() {
                assert(rest[i] == s[i]);
            }
        }
    }
}

/// `jpeg` is known as `jpg` and `htm` as `html`, in any case; every other extension that
/// is known goes by itself in lower case.
pub proof fn known_extensions_are_spelled_out(extension: Seq<char>)
    ensures
        text::same_ignoring_ascii_case(extension, "jpeg"@) ==> known_extension(extension) == Some(
            "jpg"@,
        ),
        text::same_ignoring_ascii_case(extension, "htm"@) ==> known_extension(extension) == Some(
            "html"@,
        ),
        known_extension(extension) matches Some(e) ==> text::same_ignoring_ascii_case(extension, e)
            || text::same_ignoring_ascii_case(extension, "jpeg"@)
            || text::same_ignoring_ascii_case(extension, "htm"@),
        forall|e: Seq<char>| #[trigger]
            is_extension_name(e) && text::same_ignoring_ascii_case(extension, e)
                ==> known_extension(extension) == Some(e),
{
    reveal_extension_names();
    if text::same_ignoring_ascii_case(extension, "jpeg"@) {
        case_does_not_matter_to_extensions(extension, "jpeg"@);
    }
    if text::same_ignoring_ascii_case(extension, "htm"@) {
        case_does_not_matter_to_extensions(extension, "htm"@);
        names_apart("htm"@, "jpg"@, 0);
        names_apart("htm"@, "png"@, 0);
        names_apart("htm"@, "gif"@, 0);
        names_apart("htm"@, "svg"@, 0);
        names_apart("htm"@, "txt"@, 0);
    }
    assert forall|e: Seq<char>| #[trigger]
        is_extension_name(e) && text::same_ignoring_ascii_case(extension, e) implies
        known_extension(extension) == Some(e) by {
        case_does_not_matter_to_extensions(extension, e);
        extension_names_are_known(e);
    }
}

proof fn names_apart(a: Seq<char>, b: Seq<char>, k: int)
    requires
        0 <= k < a.len(),
        0 <= k < b.len(),
        text::ascii_fold(a[k]) != text::ascii_fold(b[k]),
    ensures
        !text::same_ignoring_ascii_case(a, b),
{
}

/// A media type goes with its extension, in any case.
pub proof fn media_types_go_with_their_extensions(m: Seq<char>)
    ensures
        text::same_ignoring_ascii_case(m, "image/jpeg"@) <==> media_extension(m) == Some("jpg"@),
        text::same_ignoring_ascii_case(m, "image/png"@) <==> media_extension(m) == Some("png"@),
        text::same_ignoring_ascii_case(m, "image/gif"@) <==> media_extension(m) == Some("gif"@),
        text::same_ignoring_ascii_case(m, "image/webp"@) <==> media_extension(m) == Some("webp"@),
        text::same_ignoring_ascii_case(m, "image/avif"@) <==> media_extension(m) == Some("avif"@),
        text::same_ignoring_ascii_case(m, "image/heic"@) <==> media_extension(m) == Some("heic"@),
        text::same_ignoring_ascii_case(m, "image/heif"@) <==> media_extension(m) == Some("heif"@),
        text::same_ignoring_ascii_case(m, "image/svg+xml"@) <==> media_extension(m) == Some("svg"@),
        text::same_ignoring_ascii_case(m, "application/json"@) <==> media_extension(m) == Some(
            "json"@,
        ),
        text::same_ignoring_ascii_case(m, "text/plain"@) <==> media_extension(m) == Some("txt"@),
        text::same_ignoring_ascii_case(m, "text/html"@) <==> media_extension(m) == Some("html"@),
{
    reveal_extension_names();
    reveal_strlit("image/jpeg");
    reveal_strlit("image/png");
    reveal_strlit("image/gif");
    reveal_strlit("image/webp");
    reveal_strlit("image/avif");
    reveal_strlit("image/heic");
    reveal_strlit("image/heif");
    reveal_strlit("image/svg+xml");
    reveal_strlit("application/json");
    reveal_strlit("text/plain");
    reveal_strlit("text/html");
    types_apart(m, "image/jpeg"@, "image/png"@, 0);
    types_apart(m, "image/jpeg"@, "image/gif"@, 0);
    types_apart(m, "image/jpeg"@, "image/webp"@, 6);
    types_apart(m, "image/jpeg"@, "image/avif"@, 6);
    types_apart(m, "image/jpeg"@, "image/heic"@, 6);
    types_apart(m, "image/jpeg"@, "image/heif"@, 6);
    types_apart(m, "image/jpeg"@, "image/svg+xml"@, 0);
    types_apart(m, "image/jpeg"@, "application/json"@, 0);
    types_apart(m, "image/jpeg"@, "text/plain"@, 0);
    types_apart(m, "image/jpeg"@, "text/html"@, 0);
    types_apart(m, "image/png"@, "image/gif"@, 6);
    types_apart(m, "image/png"@, "image/webp"@, 0);
    types_apart(m, "image/png"@, "image/avif"@, 0);
    types_apart(m, "image/png"@, "image/heic"@, 0);
    types_apart(m, "image/png"@, "image/heif"@, 0);
    types_apart(m, "image/png"@, "image/svg+xml"@, 0);
    types_apart(m, "image/png"@, "application/json"@, 0);
    types_apart(m, "image/png"@, "text/plain"@, 0);
    types_apart(m, "image/png"@, "text/html"@, 0);
    types_apart(m, "image/gif"@, "image/webp"@, 0);
    types_apart(m, "image/gif"@, "image/avif"@, 0);
    types_apart(m, "image/gif"@, "image/heic"@, 0);
    types_apart(m, "image/gif"@, "image/heif"@, 0);
    types_apart(m, "image/gif"@, "image/svg+xml"@, 0);
    types_apart(m, "image/gif"@, "application/json"@, 0);
    types_apart(m, "image/gif"@, "text/plain"@, 0);
    types_apart(m, "image/gif"@, "text/html"@, 0);
    types_apart(m, "image/webp"@, "image/avif"@, 6);
    types_apart(m, "image/webp"@, "image/heic"@, 6);
    types_apart(m, "image/webp"@, "image/heif"@, 6);
    types_apart(m, "image/webp"@, "image/svg+xml"@, 0);
    types_apart(m, "image/webp"@, "application/json"@, 0);
    types_apart(m, "image/webp"@, "text/plain"@, 0);
    types_apart(m, "image/webp"@, "text/html"@, 0);
    types_apart(m, "image/avif"@, "image/heic"@, 6);
    types_apart(m, "image/avif"@, "image/heif"@, 6);
    types_apart(m, "image/avif"@, "image/svg+xml"@, 0);
    types_apart(m, "image/avif"@, "application/json"@, 0);
    types_apart(m, "image/avif"@, "text/plain"@, 0);
    types_apart(m, "image/avif"@, "text/html"@, 0);
    types_apart(m, "image/heic"@, "image/heif"@, 9);
    types_apart(m, "image/heic"@, "image/svg+xml"@, 0);
    types_apart(m, "image/heic"@, "application/json"@, 0);
    types_apart(m, "image/heic"@, "text/plain"@, 0);
    types_apart(m, "image/heic"@, "text/html"@, 0);
    types_apart(m, "image/heif"@, "image/svg+xml"@, 0);
    types_apart(m, "image/heif"@, "application/json"@, 0);
    types_apart(m, "image/heif"@, "text/plain"@, 0);
    types_apart(m, "image/heif"@, "text/html"@, 0);
    types_apart(m, "image/svg+xml"@, "application/json"@, 0);
    types_apart(m, "image/svg+xml"@, "text/plain"@, 0);
    types_apart(m, "image/svg+xml"@, "text/html"@, 0);
    types_apart(m, "application/json"@, "text/plain"@, 0);
    types_apart(m, "application/json"@, "text/html"@, 0);
    types_apart(m, "text/plain"@, "text/html"@, 0);
    assert("jpg"@[0] != "png"@[0]);
    assert("jpg"@[0] != "gif"@[0]);
    assert("jpg"@.len() != "webp"@.len());
    assert("jpg"@.len() != "avif"@.len());
    assert("jpg"@.len() != "heic"@.len());
    assert("jpg"@.len() != "heif"@.len());
    assert("jpg"@[0] != "svg"@[0]);
    assert("jpg"@.len() != "json"@.len());
    assert("jpg"@[0] != "txt"@[0]);
    assert("jpg"@.len() != "html"@.len());
    assert("png"@[0] != "gif"@[0]);
    assert("png"@.len() != "webp"@.len());
    assert("png"@.len() != "avif"@.len());
    assert("png"@.len() != "heic"@.len());
    assert("png"@.len() != "heif"@.len());
    assert("png"@[0] != "svg"@[0]);
    assert("png"@.len() != "json"@.len());
    assert("png"@[0] != "txt"@[0]);
    assert("png"@.len() != "html"@.len());
    assert("gif"@.len() != "webp"@.len());
    assert("gif"@.len() != "avif"@.len());
    assert("gif"@.len() != "heic"@.len());
    assert("gif"@.len() != "heif"@.len());
    assert("gif"@[0] != "svg"@[0]);
    assert("gif"@.len() != "json"@.len());
    assert("gif"@[0] != "txt"@[0]);
    assert("gif"@.len() != "html"@.len());
    assert("webp"@[0] != "avif"@[0]);
    assert("webp"@[0] != "heic"@[0]);
    assert("webp"@[0] != "heif"@[0]);
    assert("webp"@.len() != "svg"@.len());
    assert("webp"@[0] != "json"@[0]);
    assert("webp"@.len() != "txt"@.len());
    assert("webp"@[0] != "html"@[0]);
    assert("avif"@[0] != "heic"@[0]);
    assert("avif"@[0] != "heif"@[0]);
    assert("avif"@.len() != "svg"@.len());
    assert("avif"@[0] != "json"@[0]);
    assert("avif"@.len() != "txt"@.len());
    assert("avif"@[0] != "html"@[0]);
    assert("heic"@[3] != "heif"@[3]);
    assert("heic"@.len() != "svg"@.len());
    assert("heic"@[0] != "json"@[0]);
    assert("heic"@.len() != "txt"@.len());
    assert("heic"@[1] != "html"@[1]);
    assert("heif"@.len() != "svg"@.len());
    assert("heif"@[0] != "json"@[0]);
    assert("heif"@.len() != "txt"@.len());
    assert("heif"@[1] != "html"@[1]);
    assert("svg"@.len() != "json"@.len());
    assert("svg"@[0] != "txt"@[0]);
    assert("svg"@.len() != "html"@.len());
    assert("json"@.len() != "txt"@.len());
    assert("json"@[0] != "html"@[0]);
    assert("txt"@.len() != "html"@.len());
}

proof fn types_apart(m: Seq<char>, a: Seq<char>, b: Seq<char>, k: int)
    requires
        a.len() != b.len() || (0 <= k < a.len() && text::ascii_fold(a[k]) != text::ascii_fold(b[k])),
    ensures
        !(text::same_ignoring_ascii_case(m, a) && text::same_ignoring_ascii_case(m, b)),
{
    if text::same_ignoring_ascii_case(m, a) && text::same_ignoring_ascii_case(m, b) {
        assert(text::ascii_fold(m[k]) == text::ascii_fold(a[k]));
        assert(text::ascii_fold(m[k]) == text::ascii_fold(b[k]));
    }
}

/// The first bytes tell an extension by the marks of its format, and nothing else.
pub proof fn formats_are_told_by_their_marks(b: Seq<u8>)
    ensures
        sniffed(b) == Some("jpg"@) <==> b.len() >= 3 && b[0] == 0xFF && b[1] == 0xD8 && b[2]
            == 0xFF,
        sniffed(b) == Some("png"@) <==> b.len() >= 8 && b[0] == 0x89 && b[1] == 0x50 && b[2] == 0x4E
            && b[3] == 0x47 && b[4] == 0x0D && b[5] == 0x0A && b[6] == 0x1A && b[7] == 0x0A,
        sniffed(b) == Some("gif"@) <==> b.len() >= 6 && b[0] == 0x47 && b[1] == 0x49 && b[2] == 0x46
            && b[3] == 0x38 && (b[4] == 0x37 || b[4] == 0x39) && b[5] == 0x61,
        sniffed(b) == Some("webp"@) <==> b.len() >= 12 && b[0] == 0x52 && b[1] == 0x49 && b[2]
            == 0x46 && b[3] == 0x46 && b[8] == 0x57 && b[9] == 0x45 && b[10] == 0x42 && b[11]
            == 0x50,
        ({
            let boxed = b.len() >= 12 && b[4] == 0x66 && b[5] == 0x74 && b[6] == 0x79 && b[7] == 0x70;
            &&& sniffed(b) == Some("avif"@) ==> boxed && b[8] == 0x61 && b[9] == 0x76 && b[10]
                == 0x69 && b[11] == 0x66
            &&& sniffed(b) == Some("heic"@) ==> boxed && b[8] == 0x68 && b[9] == 0x65 && b[10]
                == 0x69 && b[11] == 0x63
            &&& sniffed(b) == Some("heif"@) ==> boxed && b[8] == 0x68 && b[9] == 0x65 && b[10]
                == 0x69 && b[11] == 0x66
            &&& boxed && b[8] == 0x61 && b[9] == 0x76 && b[10] == 0x69 && b[11] == 0x66 && b[0] == 0
                ==> sniffed(b) == Some("avif"@)
            &&& boxed && b[8] == 0x68 && b[9] == 0x65 && b[10] == 0x69 && b[11] == 0x63 && b[0] == 0
                ==> sniffed(b) == Some("heic"@)
            &&& boxed && b[8] == 0x68 && b[9] == 0x65 && b[10] == 0x69 && b[11] == 0x66 && b[0] == 0
                ==> sniffed(b) == Some("heif"@)
        }),
        sniffed(b) matches Some(e) ==> is_extension_name(e),
{
    reveal_extension_names();
    assert("jpg"@[0] != "png"@[0]);
    assert("jpg"@[0] != "gif"@[0]);
    assert("jpg"@.len() != "webp"@.len());
    assert("jpg"@.len() != "avif"@.len());
    assert("jpg"@.len() != "heic"@.len());
    assert("jpg"@.len() != "heif"@.len());
    assert("png"@[0] != "gif"@[0]);
    assert("png"@.len() != "webp"@.len());
    assert("png"@.len() != "avif"@.len());
    assert("png"@.len() != "heic"@.len());
    assert("png"@.len() != "heif"@.len());
    assert("gif"@.len() != "webp"@.len());
    assert("gif"@.len() != "avif"@.len());
    assert("gif"@.len() != "heic"@.len());
    assert("gif"@.len() != "heif"@.len());
    assert("webp"@[0] != "avif"@[0]);
    assert("webp"@[0] != "heic"@[0]);
    assert("webp"@[0] != "heif"@[0]);
    assert("avif"@[0] != "heic"@[0]);
    assert("avif"@[0] != "heif"@[0]);
    assert("heic"@[3] != "heif"@[3]);
    marks_at(b, 0, seq![0xFFu8, 0xD8u8, 0xFFu8]);
    marks_at(b, 0, seq![0x89u8, 0x50u8, 0x4Eu8, 0x47u8, 0x0Du8, 0x0Au8, 0x1Au8, 0x0Au8]);
    marks_at(b, 0, seq![0x47u8, 0x49u8, 0x46u8, 0x38u8, 0x37u8, 0x61u8]);
    marks_at(b, 0, seq![0x47u8, 0x49u8, 0x46u8, 0x38u8, 0x39u8, 0x61u8]);
    marks_at(b, 0, seq![0x52u8, 0x49u8, 0x46u8, 0x46u8]);
    marks_at(b, 8, seq![0x57u8, 0x45u8, 0x42u8, 0x50u8]);
    marks_at(b, 4, ftyp(0x61u8, 0x76u8, 0x69u8, 0x66u8));
    marks_at(b, 4, ftyp(0x68u8, 0x65u8, 0x69u8, 0x63u8));
    marks_at(b, 4, ftyp(0x68u8, 0x65u8, 0x69u8, 0x66u8));
}

proof fn marks_at(b: Seq<u8>, at: int, part: Seq<u8>)
    requires
        at >= 0,
    ensures
        bytes_at(b, at, part) <==> at + part.len() <= b.len() && forall|i: int|
            0 <= i < part.len() ==> b[at + i] == #[trigger] part[i],
{
    if bytes_at(b, at, part) {
        assert forall|i: int| 0 <= i < part.len() implies b[at + i] == #[trigger] part[i] by {
            assert(b.subrange(at, at + part.len())[i] == b[at + i]);
        }
    }
    if at + part.len() <= b.len() && (forall|i: int|
        0 <= i < part.len() ==> b[at + i] == #[trigger] part[i]) {
        assert(b.subrange(at, at + part.len()) =~= part);
    }
}

/// What was found out changes a path only where its extension is `bin`; the content type
/// goes before the first bytes.
pub proof fn only_bin_paths_are_changed(
    path: Seq<char>,
    content_type: Option<Seq<u8>>,
    first_chunk: Option<Seq<u8>>,
)
    ensures
        paths::extension_of(path) != Some("bin"@) ==> reconciled_with_bytes(
            path,
            content_type,
            first_chunk,
        ) == path,
        content_type is None && first_chunk is None ==> reconciled_with_bytes(
            path,
            content_type,
            first_chunk,
        ) == path,
        paths::extension_of(path) == Some("bin"@) && content_type is None ==> (first_chunk matches
            Some(b) ==> (sniffed(b) matches Some(e) ==> reconciled_with_bytes(
            path,
            content_type,
            first_chunk,
        ) == paths::with_ext(path, e))),
        paths::extension_of(path) == Some("bin"@) && first_chunk is None ==> (content_type matches
            Some(b) ==> (content_extension(b) matches Some(e) ==> reconciled_with_bytes(
            path,
            content_type,
            first_chunk,
        ) == paths::with_ext(path, e))),
{
}

/// A name tells something exactly where it has a letter or at least three digits; each
/// character counts by itself.
pub proof fn letters_and_digits_are_counted(s: Seq<char>, c: char)
    ensures
        letters(s.push(c)) == letters(s) + if text::alphabetic(c) {
            1int
        } else {
            0int
        },
        digits(s.push(c)) == digits(s) + if !text::alphabetic(c) && '0' <= c <= '9' {
            1int
        } else {
            0int
        },
        letters(seq![]) == 0 && digits(seq![]) == 0,
        letters(s) >= 1 || digits(s) >= 3 <==> meaningful(s),
{
    assert(s.push(c).drop_last() =~= s);
}

/// The name in a URL is its last segment that is not empty, or `asset` where there is
/// none.
pub proof fn urls_are_named_by_their_last_segment(segments: Seq<Seq<char>>)
    ensures
        match last_segment(segments) {
            Some(name) => name.len() > 0 && exists|i: int| #![trigger segments[i]]
                0 <= i < segments.len() && segments[i] == name && forall|j: int|
                    i < j < segments.len() ==> (#[trigger] segments[j]).len() == 0,
            None => forall|i: int| 0 <= i < segments.len() ==> (#[trigger] segments[i]).len() == 0,
        },
        url_name(None) == "asset"@,
        last_segment(segments) is None ==> url_name(Some(segments)) == "asset"@,
        last_segment(segments) is Some ==> Some(url_name(Some(segments))) == last_segment(segments),
    decreases segments.len(),
{
    if segments.len() > 0 {
        if segments.last().len() > 0 {
            assert(segments[segments.len() - 1] == segments.last());
        } else {
            let front = segments.drop_last();
            urls_are_named_by_their_last_segment(front);
            match last_segment(front) {
                Some(name) => {
                    let i = choose|i: int| #![trigger front[i]]
                        0 <= i < front.len() && front[i] == name && forall|j: int|
                            i < j < front.len() ==> (#[trigger] front[j]).len() == 0;
                    assert(segments[i] == name);
                    assert forall|j: int| i < j < segments.len() implies (
                    #[trigger] segments[j]).len() == 0 by {
                        if j < front.len() {
                            assert(front[j] == segments[j]);
                        }
                    }
                },
                None => {
                    assert forall|j: int| 0 <= j < segments.len() implies (
                    #[trigger] segments[j]).len() == 0 by {
                        if j < front.len() {
                            assert(front[j] == segments[j]);
                        }
                    }
                },
            }
        }
    }
}

/// The file name of an asset is its own name where that tells something, else the name in
/// its URL; its extension is the one in the URL, else its own where that is known, else
/// `bin`.
pub proof fn own_names_go_before_url_names(
    segments: Option<Seq<Seq<char>>>,
    source_name: Option<Seq<char>>,
)
    ensures
        ({
            let r = base_name(segments, source_name);
            let segment = sanitized(url_name(segments));
            &&& exists|stem: Seq<char>, ext: Seq<char>|
                r == #[trigger] (stem + seq!['.'] + ext) && (nonempty(paths::extension_of(segment))
                    matches Some(e) ==> ext == e) && (nonempty(paths::extension_of(segment)) is None
                    && source_name is None ==> ext == "bin"@) && (source_name matches Some(name)
                    ==> (meaningful(split_extension(sanitized(name)).0) && sanitized(name).len() > 0
                    ==> stem == split_extension(sanitized(name)).0))
        }),
{
    let segment = sanitized(url_name(segments));
    let url_stem = match paths::stem_of(segment) {
        Some(s) => nonempty(Some(sanitized(s))),
        None => None,
    };
    let own = match source_name {
        Some(name) => if sanitized(name).len() > 0 {
            split_extension(sanitized(name))
        } else {
            (Seq::empty(), None)
        },
        None => (Seq::empty(), None),
    };
    let stem = if meaningful(own.0) {
        own.0
    } else if url_stem is Some {
        url_stem->0
    } else {
        "asset"@
    };
    let ext = if nonempty(paths::extension_of(segment)) is Some {
        paths::extension_of(segment)->0
    } else if own.1 is Some {
        own.1->0
    } else {
        "bin"@
    };
    assert(base_name(segments, source_name) == stem + seq!['.'] + ext);
}

/// A first use of a base name takes it as it is; each later one takes the number of the
/// use.
pub proof fn later_uses_are_numbered(base: Seq<char>, times: int)
    requires
        times >= 0,
    ensures
        times == 0 ==> planned_name(base, times) == base,
        times > 0 ==> planned_name(base, times) == suffixed(base, (times + 1) as nat),
{
}

/// The number of a name stands before its extension.
pub proof fn numbers_stand_before_the_extension(name: Seq<char>, n: nat)
    requires
        paths::name_of(name) == Some(name),
    ensures
        ({
            let stem = paths::stem_of(name)->0;
            match paths::extension_of(name) {
                Some(e) => name == stem + seq!['.'] + e && suffixed(name, n) == stem + seq!['-']
                    + text::decimal(n) + seq!['.'] + e,
                None => name == stem && suffixed(name, n) == stem + seq!['-'] + text::decimal(n),
            }
        }),
{
    paths::names_are_stem_and_extension(name);
}

/// Giving up a path takes that path from those that are reserved, however it is spelled,
/// and no other.
pub proof fn only_the_given_up_path_goes(
    all: Seq<Seq<char>>,
    other: Seq<char>,
    path: Seq<char>,
)
    ensures
        without(seq![], path).len() == 0,
        paths::same(other, path) ==> without(all.push(other), path) == without(all, path),
        !paths::same(other, path) ==> without(all.push(other), path) == without(all, path).push(
            other,
        ),
{
    assert(all.push(other).drop_last() =~= all);
}

/// An asset gets the path that it wants where no other has it; else the path with the first
/// number from two on that no other has.
pub proof fn assets_get_what_they_want_where_it_is_free(
    others: Seq<Seq<char>>,
    wanted: Seq<char>,
    chosen: Seq<char>,
)
    requires
        assigned(others, wanted, chosen),
    ensures
        !reserved(others, wanted) <==> chosen == wanted && !reserved(others, chosen),
        reserved(others, wanted) ==> exists|k: nat|
            k >= 2 && chosen == #[trigger] numbered(wanted, k) && !reserved(others, chosen)
                && forall|j: nat| 2 <= j < k ==> reserved(others, #[trigger] numbered(wanted, j)),
{
    if reserved(others, wanted) {
        let k = choose|k: nat| #[trigger] first_free(others, wanted, k) && chosen == numbered(
            wanted,
            k,
        );
        assert(chosen == numbered(wanted, k));
    }
}

/// A numbered path has the name with the number, within the same directory.
pub proof fn numbered_paths_stay_in_their_directory(
    dir: Seq<char>,
    name: Seq<char>,
    n: nat,
)
    requires
        paths::plain_part(name),
        name != seq!['.', '.'],
        dir.len() > 0,
        paths::strip_end(dir) == dir,
        paths::plain_part(suffixed(name, n)),
    ensures
        numbered(dir + seq!['/'] + name, n) == dir + seq!['/'] + suffixed(name, n),
{
    paths::renaming_stays_in_the_directory(dir, name, suffixed(name, n));
}

} // verus!
