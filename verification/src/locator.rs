//! How a request names the elements that it means.

use vstd::prelude::*;
use crate::error::{self, ErrorCode, ErrorModel, RubError};
use crate::json::{self, Json, JsonModel, JsonObject, NumberModel};
use crate::text;

verus! {

/// The locator of a request, as the client wrote it.
#[derive(Debug)]
pub struct LocatorRequestArgs {
    pub index: Option<u32>,
    pub element_ref: Option<String>,
    pub selector: Option<String>,
    pub target_text: Option<String>,
    pub role: Option<String>,
    pub label: Option<String>,
    pub testid: Option<String>,
    pub visible: bool,
    pub prefer_enabled: bool,
    pub topmost: bool,
    pub first: bool,
    pub last: bool,
    pub nth: Option<u32>,
}

impl Default for LocatorRequestArgs {
    fn default() -> (r: LocatorRequestArgs)
        ensures
            r.index is None && r.element_ref is None && r.selector is None,
            r.target_text is None && r.role is None && r.label is None && r.testid is None,
            !r.visible && !r.prefer_enabled && !r.topmost && !r.first && !r.last,
            r.nth is None,
    {
        LocatorRequestArgs {
            index: None,
            element_ref: None,
            selector: None,
            target_text: None,
            role: None,
            label: None,
            testid: None,
            visible: false,
            prefer_enabled: false,
            topmost: false,
            first: false,
            last: false,
            nth: None,
        }
    }
}

/// The members with `key` set to the text, where there is one.
pub open spec fn text_if(
    m: Map<Seq<char>, JsonModel>,
    key: Seq<char>,
    value: Option<Seq<char>>,
) -> Map<Seq<char>, JsonModel> {
    match value {
        Some(s) => m.insert(key, JsonModel::Text(s)),
        None => m,
    }
}

/// The members with `key` set to the number, where there is one.
pub open spec fn number_if(
    m: Map<Seq<char>, JsonModel>,
    key: Seq<char>,
    value: Option<u32>,
) -> Map<Seq<char>, JsonModel> {
    match value {
        Some(n) => m.insert(key, JsonModel::Number(NumberModel::Int(n as int))),
        None => m,
    }
}

/// The members with `key` set, where the flag is.
pub open spec fn flag_if(m: Map<Seq<char>, JsonModel>, key: Seq<char>, flag: bool) -> Map<
    Seq<char>,
    JsonModel,
> {
    if flag {
        m.insert(key, JsonModel::Bool(true))
    } else {
        m
    }
}

/// The members of a locator: what the client gave, under its names.
pub open spec fn locator_members(a: LocatorRequestArgs) -> Map<Seq<char>, JsonModel> {
    let m = number_if(Map::empty(), "index"@, a.index);
    let m = text_if(m, "element_ref"@, text::opt_text(a.element_ref));
    let m = text_if(m, "selector"@, text::opt_text(a.selector));
    let m = text_if(m, "target_text"@, text::opt_text(a.target_text));
    let m = text_if(m, "role"@, text::opt_text(a.role));
    let m = text_if(m, "label"@, text::opt_text(a.label));
    let m = text_if(m, "testid"@, text::opt_text(a.testid));
    let m = flag_if(m, "visible"@, a.visible);
    let m = flag_if(m, "prefer_enabled"@, a.prefer_enabled);
    let m = flag_if(m, "topmost"@, a.topmost);
    let m = flag_if(m, "first"@, a.first);
    let m = flag_if(m, "last"@, a.last);
    number_if(m, "nth"@, a.nth)
}

fn insert_text_if(o: &mut JsonObject, key: &str, value: &Option<String>)
    ensures
        final(o)@ == text_if(old(o)@, key@, text::opt_text(*value)),
{
    if let Some(s) = value {
        o.insert(key, json::text_value(s.as_str()));
    }
}

fn insert_number_if(o: &mut JsonObject, key: &str, value: Option<u32>)
    ensures
        final(o)@ == number_if(old(o)@, key@, value),
{
    if let Some(n) = value {
        o.insert(key, json::uint_value(n as u64));
    }
}

fn insert_flag_if(o: &mut JsonObject, key: &str, flag: bool)
    ensures
        final(o)@ == flag_if(old(o)@, key@, flag),
{
    if flag {
        o.insert(key, Json::Bool(true));
    }
}

/// The locator as the members of a request.
pub fn locator_json(args: &LocatorRequestArgs) -> (r: JsonObject)
    ensures
        r@ == locator_members(*args),
{
    let mut o = JsonObject::new();
    insert_number_if(&mut o, "index", args.index);
    insert_text_if(&mut o, "element_ref", &args.element_ref);
    insert_text_if(&mut o, "selector", &args.selector);
    insert_text_if(&mut o, "target_text", &args.target_text);
    insert_text_if(&mut o, "role", &args.role);
    insert_text_if(&mut o, "label", &args.label);
    insert_text_if(&mut o, "testid", &args.testid);
    insert_flag_if(&mut o, "visible", args.visible);
    insert_flag_if(&mut o, "prefer_enabled", args.prefer_enabled);
    insert_flag_if(&mut o, "topmost", args.topmost);
    insert_flag_if(&mut o, "first", args.first);
    insert_flag_if(&mut o, "last", args.last);
    insert_number_if(&mut o, "nth", args.nth);
    o
}

impl LocatorRequestArgs {
    /// The request names an element.
    pub open spec fn requested(self) -> bool {
        ||| self.index is Some
        ||| self.element_ref is Some
        ||| self.selector is Some
        ||| self.target_text is Some
        ||| self.role is Some
        ||| self.label is Some
        ||| self.testid is Some
    }

    /// Whether the request names an element.
    pub fn is_requested(&self) -> (r: bool)
        ensures
            r == self.requested(),
    {
        self.index.is_some() || self.element_ref.is_some() || self.selector.is_some()
            || self.target_text.is_some() || self.role.is_some() || self.label.is_some()
            || self.testid.is_some()
    }
}

/// Which of several matches is meant.
#[derive(Clone, Copy, Debug, PartialEq, Eq, Structural)]
pub enum LocatorSelection {
    First,
    Last,
    Nth(u32),
}

/// What a request looks for.
#[derive(Debug)]
pub enum CanonicalLocator {
    Index { index: u32 },
    Ref { element_ref: String },
    Selector { css: String, selection: Option<LocatorSelection> },
    TargetText { text: String, selection: Option<LocatorSelection> },
    Role { role: String, selection: Option<LocatorSelection> },
    Label { label: String, selection: Option<LocatorSelection> },
    TestId { testid: String, selection: Option<LocatorSelection> },
}

/// What a request looks for, over texts.
pub enum LocatorModel {
    Index(u32),
    Ref(Seq<char>),
    Selector(Seq<char>, Option<LocatorSelection>),
    TargetText(Seq<char>, Option<LocatorSelection>),
    Role(Seq<char>, Option<LocatorSelection>),
    Label(Seq<char>, Option<LocatorSelection>),
    TestId(Seq<char>, Option<LocatorSelection>),
}

impl View for CanonicalLocator {
    type V = LocatorModel;

    open spec fn view(&self) -> LocatorModel {
        match self {
            CanonicalLocator::Index { index } => LocatorModel::Index(*index),
            CanonicalLocator::Ref { element_ref } => LocatorModel::Ref(element_ref@),
            CanonicalLocator::Selector { css, selection } => LocatorModel::Selector(
                css@,
                *selection,
            ),
            CanonicalLocator::TargetText { text, selection } => LocatorModel::TargetText(
                text@,
                *selection,
            ),
            CanonicalLocator::Role { role, selection } => LocatorModel::Role(role@, *selection),
            CanonicalLocator::Label { label, selection } => LocatorModel::Label(label@, *selection),
            CanonicalLocator::TestId { testid, selection } => LocatorModel::TestId(
                testid@,
                *selection,
            ),
        }
    }
}

/// Which of several matches the locator means; a number or a reference means
/// one element anyway.
pub open spec fn selection_of(l: LocatorModel) -> Option<LocatorSelection> {
    match l {
        LocatorModel::Index(_) | LocatorModel::Ref(_) => None,
        LocatorModel::Selector(_, s) => s,
        LocatorModel::TargetText(_, s) => s,
        LocatorModel::Role(_, s) => s,
        LocatorModel::Label(_, s) => s,
        LocatorModel::TestId(_, s) => s,
    }
}

impl CanonicalLocator {
    /// Which of several matches is meant.
    pub fn selection(&self) -> (r: Option<LocatorSelection>)
        ensures
            r == selection_of(self@),
    {
        match self {
            CanonicalLocator::Index { .. } | CanonicalLocator::Ref { .. } => None,
            CanonicalLocator::Selector { selection, .. } => *selection,
            CanonicalLocator::TargetText { selection, .. } => *selection,
            CanonicalLocator::Role { selection, .. } => *selection,
            CanonicalLocator::Label { selection, .. } => *selection,
            CanonicalLocator::TestId { selection, .. } => *selection,
        }
    }

    /// Whether the locator speaks of what only the accessibility tree knows.
    pub fn requires_a11y_snapshot(&self) -> (r: bool)
        ensures
            r == (self@ is Role || self@ is Label),
    {
        matches!(self, CanonicalLocator::Role { .. } | CanonicalLocator::Label { .. })
    }
}

/// The number under `key`, where it is one of 32 bits.
pub open spec fn number_member(args: JsonModel, key: Seq<char>) -> Option<u32> {
    match json::member(args, key) {
        Some(v) => match json::uint_of(v) {
            Some(n) => if n <= u32::MAX {
                Some(n as u32)
            } else {
                None
            },
            None => None,
        },
        None => None,
    }
}

fn get_number(args: &Json, key: &str) -> (r: Option<u32>)
    ensures
        r == number_member(args@, key@),
{
    match args.get(key) {
        Some(v) => match v.as_u64() {
            Some(n) => if n <= u32::MAX as u64 {
                Some(n as u32)
            } else {
                None
            },
            None => None,
        },
        None => None,
    }
}

pub open spec fn flag_member(args: JsonModel, key: Seq<char>) -> bool {
    json::member(args, key) == Some(JsonModel::Bool(true))
}

/// Whether the member `key` is true.
pub fn get_flag(args: &Json, key: &str) -> (r: bool)
    ensures
        r == flag_member(args@, key@),
{
    match args.get(key) {
        Some(v) => matches!(v, Json::Bool(true)),
        None => false,
    }
}

/// The reference of an element, under either of its names.
pub open spec fn ref_member(args: JsonModel) -> Option<Seq<char>> {
    match json::text_member(args, "element_ref"@) {
        Some(s) => Some(s),
        None => json::text_member(args, "ref"@),
    }
}

pub open spec fn one_if(b: bool) -> int {
    if b {
        1
    } else {
        0
    }
}

/// How many locators a request gives.
pub open spec fn locator_count(args: JsonModel) -> int {
    one_if(number_member(args, "index"@) is Some) + one_if(ref_member(args) is Some) + one_if(
        json::text_member(args, "selector"@) is Some,
    ) + one_if(json::text_member(args, "target_text"@) is Some) + one_if(
        json::text_member(args, "role"@) is Some,
    ) + one_if(json::text_member(args, "label"@) is Some) + one_if(
        json::text_member(args, "testid"@) is Some,
    )
}

/// How many selections a request gives.
pub open spec fn selection_count(args: JsonModel) -> int {
    one_if(flag_member(args, "first"@)) + one_if(flag_member(args, "last"@)) + one_if(
        number_member(args, "nth"@) is Some,
    )
}

pub open spec fn requested_selection(args: JsonModel) -> Option<LocatorSelection> {
    if flag_member(args, "first"@) {
        Some(LocatorSelection::First)
    } else if flag_member(args, "last"@) {
        Some(LocatorSelection::Last)
    } else {
        match number_member(args, "nth"@) {
            Some(n) => Some(LocatorSelection::Nth(n)),
            None => None,
        }
    }
}

/// The locator of a request that gives one.
pub open spec fn requested_locator(args: JsonModel) -> Option<LocatorModel> {
    let s = requested_selection(args);
    if number_member(args, "index"@) is Some {
        Some(LocatorModel::Index(number_member(args, "index"@)->0))
    } else if ref_member(args) is Some {
        Some(LocatorModel::Ref(ref_member(args)->0))
    } else if json::text_member(args, "selector"@) is Some {
        Some(LocatorModel::Selector(json::text_member(args, "selector"@)->0, s))
    } else if json::text_member(args, "target_text"@) is Some {
        Some(LocatorModel::TargetText(json::text_member(args, "target_text"@)->0, s))
    } else if json::text_member(args, "role"@) is Some {
        Some(LocatorModel::Role(json::text_member(args, "role"@)->0, s))
    } else if json::text_member(args, "label"@) is Some {
        Some(LocatorModel::Label(json::text_member(args, "label"@)->0, s))
    } else if json::text_member(args, "testid"@) is Some {
        Some(LocatorModel::TestId(json::text_member(args, "testid"@)->0, s))
    } else {
        None
    }
}

pub open spec fn opt_locator(o: Option<CanonicalLocator>) -> Option<LocatorModel> {
    match o {
        Some(l) => Some(l@),
        None => None,
    }
}

/// What reading the locator of a request gives: a request may name its element
/// in one way only, and select one of its matches in one way only.
pub open spec fn parse_outcome(
    args: JsonModel,
    r: Result<Option<CanonicalLocator>, RubError>,
) -> bool {
    match r {
        Ok(l) => parsed(args) == Ok::<Option<LocatorModel>, ErrorModel>(opt_locator(l)),
        Err(e) => parsed(args) == Err::<Option<LocatorModel>, ErrorModel>(e@),
    }
}

/// What reading the locator of a request gives.
pub open spec fn parsed(args: JsonModel) -> Result<Option<LocatorModel>, ErrorModel> {
    if locator_count(args) > 1 {
        Err(
            error::plain(
                ErrorCode::InvalidInput,
                "Provide exactly one of index, ref, selector, target_text, role, label, or testid"@,
            ),
        )
    } else if selection_count(args) > 1 {
        Err(
            error::plain(
                ErrorCode::InvalidInput,
                "Provide at most one of first, last, or nth"@,
            ),
        )
    } else {
        Ok(requested_locator(args))
    }
}

fn get_ref(args: &Json) -> (r: Option<&str>)
    ensures
        json::opt_str_text(r) == ref_member(args@),
{
    match args.get_str("element_ref") {
        Some(s) => Some(s),
        None => args.get_str("ref"),
    }
}

fn count_if(b: bool) -> (r: u32)
    ensures
        r == one_if(b),
        r <= 1,
{
    if b {
        1
    } else {
        0
    }
}

/// Reads the locator of a request.
pub fn parse_canonical_locator(args: &Json) -> (r: Result<Option<CanonicalLocator>, RubError>)
    ensures
        parse_outcome(args@, r),
{
    let index = get_number(args, "index");
    let element_ref = get_ref(args);
    let selector = args.get_str("selector");
    let target_text = args.get_str("target_text");
    let role = args.get_str("role");
    let label = args.get_str("label");
    let testid = args.get_str("testid");
    let locators: u32 = count_if(index.is_some()) + count_if(element_ref.is_some()) + count_if(
        selector.is_some(),
    ) + count_if(target_text.is_some()) + count_if(role.is_some()) + count_if(label.is_some())
        + count_if(testid.is_some());
    if locators > 1 {
        return Err(
            RubError::domain(
                ErrorCode::InvalidInput,
                "Provide exactly one of index, ref, selector, target_text, role, label, or testid",
            ),
        );
    }
    let first = get_flag(args, "first");
    let last = get_flag(args, "last");
    let nth = get_number(args, "nth");
    let selections: u32 = count_if(first) + count_if(last) + count_if(nth.is_some());
    if selections > 1 {
        return Err(
            RubError::domain(
                ErrorCode::InvalidInput,
                "Provide at most one of first, last, or nth",
            ),
        );
    }
    let selection = if first {
        Some(LocatorSelection::First)
    } else if last {
        Some(LocatorSelection::Last)
    } else {
        match nth {
            Some(n) => Some(LocatorSelection::Nth(n)),
            None => None,
        }
    };
    if let Some(index) = index {
        return Ok(Some(CanonicalLocator::Index { index }));
    }
    if let Some(s) = element_ref {
        return Ok(Some(CanonicalLocator::Ref { element_ref: s.to_owned() }));
    }
    if let Some(s) = selector {
        return Ok(Some(CanonicalLocator::Selector { css: s.to_owned(), selection }));
    }
    if let Some(s) = target_text {
        return Ok(Some(CanonicalLocator::TargetText { text: s.to_owned(), selection }));
    }
    if let Some(s) = role {
        return Ok(Some(CanonicalLocator::Role { role: s.to_owned(), selection }));
    }
    if let Some(s) = label {
        return Ok(Some(CanonicalLocator::Label { label: s.to_owned(), selection }));
    }
    if let Some(s) = testid {
        return Ok(Some(CanonicalLocator::TestId { testid: s.to_owned(), selection }));
    }
    Ok(None)
}

/// The members that spell a locator.
pub open spec fn canonical_members(l: LocatorModel) -> Map<Seq<char>, JsonModel> {
    let empty = Map::<Seq<char>, JsonModel>::empty();
    let m = match l {
        LocatorModel::Index(n) => empty.insert(
            "index"@,
            JsonModel::Number(NumberModel::Int(n as int)),
        ),
        LocatorModel::Ref(s) => empty.insert("element_ref"@, JsonModel::Text(s)),
        LocatorModel::Selector(s, _) => empty.insert("selector"@, JsonModel::Text(s)),
        LocatorModel::TargetText(s, _) => empty.insert("target_text"@, JsonModel::Text(s)),
        LocatorModel::Role(s, _) => empty.insert("role"@, JsonModel::Text(s)),
        LocatorModel::Label(s, _) => empty.insert("label"@, JsonModel::Text(s)),
        LocatorModel::TestId(s, _) => empty.insert("testid"@, JsonModel::Text(s)),
    };
    match selection_of(l) {
        Some(LocatorSelection::First) => m.insert("first"@, JsonModel::Bool(true)),
        Some(LocatorSelection::Last) => m.insert("last"@, JsonModel::Bool(true)),
        Some(LocatorSelection::Nth(n)) => m.insert(
            "nth"@,
            JsonModel::Number(NumberModel::Int(n as int)),
        ),
        None => m,
    }
}

/// Spells a locator as the members of a request.
pub fn canonical_locator_json(locator: &CanonicalLocator) -> (r: Json)
    ensures
        r@ == JsonModel::Object(canonical_members(locator@)),
{
    let mut o = JsonObject::new();
    match locator {
        CanonicalLocator::Index { index } => {
            o.insert("index", json::uint_value(*index as u64));
        },
        CanonicalLocator::Ref { element_ref } => {
            o.insert("element_ref", json::text_value(element_ref.as_str()));
        },
        CanonicalLocator::Selector { css, .. } => {
            o.insert("selector", json::text_value(css.as_str()));
        },
        CanonicalLocator::TargetText { text, .. } => {
            o.insert("target_text", json::text_value(text.as_str()));
        },
        CanonicalLocator::Role { role, .. } => {
            o.insert("role", json::text_value(role.as_str()));
        },
        CanonicalLocator::Label { label, .. } => {
            o.insert("label", json::text_value(label.as_str()));
        },
        CanonicalLocator::TestId { testid, .. } => {
            o.insert("testid", json::text_value(testid.as_str()));
        },
    }
    match locator.selection() {
        Some(LocatorSelection::First) => {
            o.insert("first", Json::Bool(true));
        },
        Some(LocatorSelection::Last) => {
            o.insert("last", Json::Bool(true));
        },
        Some(LocatorSelection::Nth(n)) => {
            o.insert("nth", json::uint_value(n as u64));
        },
        None => {},
    }
    Json::Object(o)
}

proof fn member_names_are_distinct()
    ensures
        "index"@.len() == 5 && "index"@[0] == 'i',
        "element_ref"@.len() == 11 && "element_ref"@[0] == 'e',
        "ref"@.len() == 3 && "ref"@[0] == 'r',
        "selector"@.len() == 8 && "selector"@[0] == 's',
        "target_text"@.len() == 11 && "target_text"@[0] == 't',
        "role"@.len() == 4 && "role"@[0] == 'r',
        "label"@.len() == 5 && "label"@[0] == 'l',
        "testid"@.len() == 6 && "testid"@[0] == 't',
        "first"@.len() == 5 && "first"@[0] == 'f',
        "last"@.len() == 4 && "last"@[0] == 'l',
        "nth"@.len() == 3 && "nth"@[0] == 'n',
{
    reveal_strlit("index");
    reveal_strlit("element_ref");
    reveal_strlit("ref");
    reveal_strlit("selector");
    reveal_strlit("target_text");
    reveal_strlit("role");
    reveal_strlit("label");
    reveal_strlit("testid");
    reveal_strlit("first");
    reveal_strlit("last");
    reveal_strlit("nth");
}

/// Reading what was spelled gives the locator back.
pub proof fn locator_round_trip(l: LocatorModel)
    ensures
        requested_locator(JsonModel::Object(canonical_members(l))) == Some(l),
        locator_count(JsonModel::Object(canonical_members(l))) == 1,
        selection_count(JsonModel::Object(canonical_members(l))) <= 1,
{
    member_names_are_distinct();
}

/// A locator is read from the one member that gives it, and from no other; a request
/// that gives none names no element.
pub proof fn locators_are_read_from_their_members(args: JsonModel)
    requires
        parsed(args) is Ok,
    ensures
        ({
            let r = parsed(args)->Ok_0;
            let s = requested_selection(args);
            let given = |key: Seq<char>| json::text_member(args, key);
            &&& forall|n: u32|
                r == Some(LocatorModel::Index(n)) <==> #[trigger] number_member(args, "index"@)
                    == Some(n)
            &&& r matches Some(LocatorModel::Ref(x)) ==> given("element_ref"@) == Some(x) || (given(
                "element_ref"@,
            ) is None && given("ref"@) == Some(x))
            &&& given("element_ref"@) is Some || given("ref"@) is Some ==> (r matches Some(l) && l
                is Ref)
            &&& given("selector"@) matches Some(x) ==> r == Some(LocatorModel::Selector(x, s))
            &&& given("target_text"@) matches Some(x) ==> r == Some(LocatorModel::TargetText(x, s))
            &&& given("role"@) matches Some(x) ==> r == Some(LocatorModel::Role(x, s))
            &&& given("label"@) matches Some(x) ==> r == Some(LocatorModel::Label(x, s))
            &&& given("testid"@) matches Some(x) ==> r == Some(LocatorModel::TestId(x, s))
            &&& r is None <==> number_member(args, "index"@) is None && given("element_ref"@) is None
                && given("ref"@) is None && given("selector"@) is None && given("target_text"@)
                is None && given("role"@) is None && given("label"@) is None && given("testid"@)
                is None
            &&& r matches Some(l) ==> (selection_of(l) is Some ==> selection_of(l) == s)
        }),
{
}

/// A request that names its element in two ways, or selects in two ways, is refused, and
/// no other is.
pub proof fn requests_name_their_element_once(args: JsonModel)
    ensures
        ({
            let count = |b: bool|
                if b {
                    1int
                } else {
                    0int
                };
            let given = |key: Seq<char>| count(json::text_member(args, key) is Some);
            let number = |key: Seq<char>| count(number_member(args, key) is Some);
            let flag = |key: Seq<char>|
                count(json::member(args, key) == Some(JsonModel::Bool(true)));
            let named = number("index"@) + count(
                json::text_member(args, "element_ref"@) is Some || json::text_member(
                    args,
                    "ref"@,
                ) is Some,
            ) + given("selector"@) + given("target_text"@) + given("role"@) + given("label"@)
                + given("testid"@);
            let selected = flag("first"@) + flag("last"@) + number("nth"@);
            &&& parsed(args) is Err <==> named >= 2 || selected >= 2
            &&& parsed(args) matches Err(ErrorModel::Domain(e)) ==> e.code
                == ErrorCode::InvalidInput
        }),
{
}

/// A selection is the one that the request gives.
pub proof fn selections_are_read_from_their_members(args: JsonModel)
    requires
        parsed(args) is Ok,
    ensures
        requested_selection(args) == Some(LocatorSelection::First) <==> json::member(
            args,
            "first"@,
        ) == Some(JsonModel::Bool(true)),
        requested_selection(args) == Some(LocatorSelection::Last) <==> json::member(args, "last"@)
            == Some(JsonModel::Bool(true)),
        forall|n: u32|
            requested_selection(args) == Some(LocatorSelection::Nth(n)) <==> #[trigger]
                number_member(args, "nth"@) == Some(n),
{
}

/// A number is read exactly where it is a whole number that fits.
pub proof fn numbers_are_read_where_they_fit(args: JsonModel, key: Seq<char>, n: u32)
    ensures
        number_member(args, key) == Some(n) <==> json::uint_member(args, key) == Some(n as u64),
        json::member(args, key) == Some(json::number(n as int)) ==> number_member(args, key)
            == Some(n),
{
}

/// Reading what a client gave, once it is written as the members of a request, gives it
/// back, each thing under its own name.
pub proof fn written_requests_read_back(a: LocatorRequestArgs)
    ensures
        ({
            let r = JsonModel::Object(locator_members(a));
            &&& number_member(r, "index"@) == a.index
            &&& json::text_member(r, "element_ref"@) == text::opt_text(a.element_ref)
            &&& json::text_member(r, "selector"@) == text::opt_text(a.selector)
            &&& json::text_member(r, "target_text"@) == text::opt_text(a.target_text)
            &&& json::text_member(r, "role"@) == text::opt_text(a.role)
            &&& json::text_member(r, "label"@) == text::opt_text(a.label)
            &&& json::text_member(r, "testid"@) == text::opt_text(a.testid)
            &&& flag_member(r, "visible"@) == a.visible
            &&& flag_member(r, "prefer_enabled"@) == a.prefer_enabled
            &&& flag_member(r, "topmost"@) == a.topmost
            &&& flag_member(r, "first"@) == a.first
            &&& flag_member(r, "last"@) == a.last
            &&& number_member(r, "nth"@) == a.nth
        }),
{
    reveal_strlit("index");
    reveal_strlit("element_ref");
    reveal_strlit("ref");
    reveal_strlit("selector");
    reveal_strlit("target_text");
    reveal_strlit("role");
    reveal_strlit("label");
    reveal_strlit("testid");
    reveal_strlit("visible");
    reveal_strlit("prefer_enabled");
    reveal_strlit("topmost");
    reveal_strlit("first");
    reveal_strlit("last");
    reveal_strlit("nth");
    assert("index"@.len() != "element_ref"@.len());
    assert("index"@.len() != "ref"@.len());
    assert("index"@.len() != "selector"@.len());
    assert("index"@.len() != "target_text"@.len());
    assert("index"@.len() != "role"@.len());
    assert("index"@[0] != "label"@[0]);
    assert("index"@.len() != "testid"@.len());
    assert("index"@.len() != "visible"@.len());
    assert("index"@.len() != "prefer_enabled"@.len());
    assert("index"@.len() != "topmost"@.len());
    assert("index"@[0] != "first"@[0]);
    assert("index"@.len() != "last"@.len());
    assert("index"@.len() != "nth"@.len());
    assert("element_ref"@.len() != "ref"@.len());
    assert("element_ref"@.len() != "selector"@.len());
    assert("element_ref"@[0] != "target_text"@[0]);
    assert("element_ref"@.len() != "role"@.len());
    assert("element_ref"@.len() != "label"@.len());
    assert("element_ref"@.len() != "testid"@.len());
    assert("element_ref"@.len() != "visible"@.len());
    assert("element_ref"@.len() != "prefer_enabled"@.len());
    assert("element_ref"@.len() != "topmost"@.len());
    assert("element_ref"@.len() != "first"@.len());
    assert("element_ref"@.len() != "last"@.len());
    assert("element_ref"@.len() != "nth"@.len());
    assert("ref"@.len() != "selector"@.len());
    assert("ref"@.len() != "target_text"@.len());
    assert("ref"@.len() != "role"@.len());
    assert("ref"@.len() != "label"@.len());
    assert("ref"@.len() != "testid"@.len());
    assert("ref"@.len() != "visible"@.len());
    assert("ref"@.len() != "prefer_enabled"@.len());
    assert("ref"@.len() != "topmost"@.len());
    assert("ref"@.len() != "first"@.len());
    assert("ref"@.len() != "last"@.len());
    assert("ref"@[0] != "nth"@[0]);
    assert("selector"@.len() != "target_text"@.len());
    assert("selector"@.len() != "role"@.len());
    assert("selector"@.len() != "label"@.len());
    assert("selector"@.len() != "testid"@.len());
    assert("selector"@.len() != "visible"@.len());
    assert("selector"@.len() != "prefer_enabled"@.len());
    assert("selector"@.len() != "topmost"@.len());
    assert("selector"@.len() != "first"@.len());
    assert("selector"@.len() != "last"@.len());
    assert("selector"@.len() != "nth"@.len());
    assert("target_text"@.len() != "role"@.len());
    assert("target_text"@.len() != "label"@.len());
    assert("target_text"@.len() != "testid"@.len());
    assert("target_text"@.len() != "visible"@.len());
    assert("target_text"@.len() != "prefer_enabled"@.len());
    assert("target_text"@.len() != "topmost"@.len());
    assert("target_text"@.len() != "first"@.len());
    assert("target_text"@.len() != "last"@.len());
    assert("target_text"@.len() != "nth"@.len());
    assert("role"@.len() != "label"@.len());
    assert("role"@.len() != "testid"@.len());
    assert("role"@.len() != "visible"@.len());
    assert("role"@.len() != "prefer_enabled"@.len());
    assert("role"@.len() != "topmost"@.len());
    assert("role"@.len() != "first"@.len());
    assert("role"@[0] != "last"@[0]);
    assert("role"@.len() != "nth"@.len());
    assert("label"@.len() != "testid"@.len());
    assert("label"@.len() != "visible"@.len());
    assert("label"@.len() != "prefer_enabled"@.len());
    assert("label"@.len() != "topmost"@.len());
    assert("label"@[0] != "first"@[0]);
    assert("label"@.len() != "last"@.len());
    assert("label"@.len() != "nth"@.len());
    assert("testid"@.len() != "visible"@.len());
    assert("testid"@.len() != "prefer_enabled"@.len());
    assert("testid"@.len() != "topmost"@.len());
    assert("testid"@.len() != "first"@.len());
    assert("testid"@.len() != "last"@.len());
    assert("testid"@.len() != "nth"@.len());
    assert("visible"@.len() != "prefer_enabled"@.len());
    assert("visible"@[0] != "topmost"@[0]);
    assert("visible"@.len() != "first"@.len());
    assert("visible"@.len() != "last"@.len());
    assert("visible"@.len() != "nth"@.len());
    assert("prefer_enabled"@.len() != "topmost"@.len());
    assert("prefer_enabled"@.len() != "first"@.len());
    assert("prefer_enabled"@.len() != "last"@.len());
    assert("prefer_enabled"@.len() != "nth"@.len());
    assert("topmost"@.len() != "first"@.len());
    assert("topmost"@.len() != "last"@.len());
    assert("topmost"@.len() != "nth"@.len());
    assert("first"@.len() != "last"@.len());
    assert("first"@.len() != "nth"@.len());
    assert("last"@.len() != "nth"@.len());
}

} // verus!
