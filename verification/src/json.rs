//! JSON values as the router reads and builds them.
//!
//! A number that is not an integer is kept as the text that spells it.

use vstd::prelude::*;
use crate::text;

verus! {

/// A JSON number: an integer, or the text of any other number.
#[derive(Debug)]
pub enum JsonNumber {
    PosInt(u64),
    NegInt(i64),
    Float(String),
}

/// A JSON value.
#[derive(Debug)]
pub enum Json {
    Null,
    Bool(bool),
    Number(JsonNumber),
    Text(String),
    Array(Vec<Json>),
    Object(JsonObject),
}

/// A JSON object: named members, the later of two with one name winning.
#[derive(Debug)]
pub struct JsonObject {
    pub entries: Vec<(String, Json)>,
}

/// What a JSON number denotes.
pub enum NumberModel {
    Int(int),
    Float(Seq<char>),
}

/// What a JSON value denotes.
#[verifier::ext_equal]
pub enum JsonModel {
    Null,
    Bool(bool),
    Number(NumberModel),
    Text(Seq<char>),
    Array(Seq<JsonModel>),
    Object(Map<Seq<char>, JsonModel>),
}

pub open spec fn number_model(n: JsonNumber) -> NumberModel {
    match n {
        JsonNumber::PosInt(u) => NumberModel::Int(u as int),
        JsonNumber::NegInt(i) => NumberModel::Int(i as int),
        JsonNumber::Float(s) => NumberModel::Float(s@),
    }
}

pub open spec fn json_model(j: Json) -> JsonModel
    decreases j,
{
    match j {
        Json::Null => JsonModel::Null,
        Json::Bool(b) => JsonModel::Bool(b),
        Json::Number(n) => JsonModel::Number(number_model(n)),
        Json::Text(s) => JsonModel::Text(s@),
        Json::Array(v) => JsonModel::Array(items_model(v@)),
        Json::Object(o) => JsonModel::Object(entries_model(o.entries@)),
    }
}

pub open spec fn items_model(s: Seq<Json>) -> Seq<JsonModel>
    decreases s,
{
    if s.len() == 0 {
        seq![]
    } else {
        items_model(s.drop_last()).push(json_model(s.last()))
    }
}

pub open spec fn entries_model(s: Seq<(String, Json)>) -> Map<Seq<char>, JsonModel>
    decreases s,
{
    if s.len() == 0 {
        Map::empty()
    } else {
        entries_model(s.drop_last()).insert(s.last().0@, json_model(s.last().1))
    }
}

pub proof fn items_model_len(s: Seq<Json>)
    ensures
        items_model(s).len() == s.len(),
    decreases s.len(),
{
    if s.len() > 0 {
        items_model_len(s.drop_last());
    }
}

/// The model of an item of an array.
pub proof fn items_model_at(s: Seq<Json>, i: int)
    requires
        0 <= i < s.len(),
    ensures
        items_model(s).len() == s.len(),
        items_model(s)[i] == s[i]@,
    decreases s.len(),
{
    items_model_len(s);
    items_model_len(s.drop_last());
    if i < s.len() - 1 {
        items_model_at(s.drop_last(), i);
    }
}

impl View for Json {
    type V = JsonModel;

    open spec fn view(&self) -> JsonModel {
        json_model(*self)
    }
}

impl View for JsonObject {
    type V = Map<Seq<char>, JsonModel>;

    open spec fn view(&self) -> Map<Seq<char>, JsonModel> {
        entries_model(self.entries@)
    }
}

/// What an optional borrowed value denotes.
pub open spec fn opt_model(o: Option<&Json>) -> Option<JsonModel> {
    match o {
        Some(j) => Some(j@),
        None => None,
    }
}

/// The member of an object that has the name `key`; nothing else has members.
pub open spec fn member(j: JsonModel, key: Seq<char>) -> Option<JsonModel> {
    match j {
        JsonModel::Object(m) => m.get(key),
        _ => None,
    }
}

/// The text that a value is, if it is one.
pub open spec fn text_of(j: JsonModel) -> Option<Seq<char>> {
    match j {
        JsonModel::Text(s) => Some(s),
        _ => None,
    }
}

/// The member `key`, where it is a text.
pub open spec fn text_member(j: JsonModel, key: Seq<char>) -> Option<Seq<char>> {
    match member(j, key) {
        Some(v) => text_of(v),
        None => None,
    }
}

/// An integer as a value.
pub open spec fn number(n: int) -> JsonModel {
    JsonModel::Number(NumberModel::Int(n))
}

/// The truth value that a value is, if it is one.
pub open spec fn bool_of(j: JsonModel) -> Option<bool> {
    match j {
        JsonModel::Bool(b) => Some(b),
        _ => None,
    }
}

/// The non-negative integer of 64 bits that a value is, if it is one.
pub open spec fn uint_of(j: JsonModel) -> Option<u64> {
    match j {
        JsonModel::Number(NumberModel::Int(n)) => if 0 <= n <= u64::MAX {
            Some(n as u64)
        } else {
            None
        },
        _ => None,
    }
}

/// The number under `key`.
pub open spec fn uint_member(j: JsonModel, key: Seq<char>) -> Option<u64> {
    match member(j, key) {
        Some(v) => uint_of(v),
        None => None,
    }
}

pub open spec fn opt_str_text(o: Option<&str>) -> Option<Seq<char>> {
    match o {
        Some(s) => Some(s@),
        None => None,
    }
}

impl Clone for JsonNumber {
    fn clone(&self) -> (r: JsonNumber)
        ensures
            number_model(r) == number_model(*self),
    {
        match self {
            JsonNumber::PosInt(u) => JsonNumber::PosInt(*u),
            JsonNumber::NegInt(i) => JsonNumber::NegInt(*i),
            JsonNumber::Float(s) => JsonNumber::Float(s.clone()),
        }
    }
}

impl Clone for Json {
    fn clone(&self) -> (r: Json)
        ensures
            r@ == self@,
        decreases self,
    {
        match self {
            Json::Null => Json::Null,
            Json::Bool(b) => Json::Bool(*b),
            Json::Number(n) => Json::Number(n.clone()),
            Json::Text(s) => Json::Text(s.clone()),
            Json::Array(v) => {
                let mut out: Vec<Json> = Vec::new();
                let mut i: usize = 0;
                while i < v.len()
                    invariant
                        i <= v@.len(),
                        *self == Json::Array(*v),
                        items_model(out@) == items_model(v@.take(i as int)),
                    decreases v@.len() - i,
                {
                    let ghost before = out@;
                    assert(decreases_to!(*self => self->Array_0));
                    assert(decreases_to!(v => v@));
                    assert(decreases_to!(v@ => v@[i as int]));
                    assert(decreases_to!(self => v@[i as int]));
                    let item = v[i].clone();
                    out.push(item);
                    assert(out@.drop_last() =~= before);
                    assert(v@.take(i + 1).drop_last() =~= v@.take(i as int));
                    i += 1;
                }
                assert(v@.take(i as int) =~= v@);
                Json::Array(out)
            },
            Json::Object(o) => {
                let mut out: Vec<(String, Json)> = Vec::new();
                let mut i: usize = 0;
                while i < o.entries.len()
                    invariant
                        i <= o.entries@.len(),
                        *self == Json::Object(*o),
                        entries_model(out@) == entries_model(o.entries@.take(i as int)),
                    decreases o.entries@.len() - i,
                {
                    let ghost before = out@;
                    let entry = &o.entries[i];
                    let key = entry.0.clone();
                    assert(decreases_to!(*self => self->Object_0));
                    assert(decreases_to!(o => o.entries));
                    assert(decreases_to!(o.entries => o.entries@));
                    assert(decreases_to!(o.entries@ => o.entries@[i as int]));
                    assert(decreases_to!(o.entries@[i as int] => o.entries@[i as int].1));
                    assert(decreases_to!(self => o.entries@[i as int].1));
                    let value = entry.1.clone();
                    out.push((key, value));
                    assert(out@.drop_last() =~= before);
                    assert(o.entries@.take(i + 1).drop_last() =~= o.entries@.take(i as int));
                    i += 1;
                }
                assert(o.entries@.take(i as int) =~= o.entries@);
                Json::Object(JsonObject { entries: out })
            },
        }
    }
}

impl Json {
    /// The member of an object that has the name `key`.
    pub fn get(&self, key: &str) -> (r: Option<&Json>)
        ensures
            opt_model(r) == member(self@, key@),
    {
        match self {
            Json::Object(o) => o.get(key),
            _ => None,
        }
    }

    /// The text that the value is.
    pub fn as_str(&self) -> (r: Option<&str>)
        ensures
            opt_str_text(r) == text_of(self@),
    {
        match self {
            Json::Text(s) => Some(s.as_str()),
            _ => None,
        }
    }

    /// The truth value that the value is.
    pub fn as_bool(&self) -> (r: Option<bool>)
        ensures
            r == bool_of(self@),
    {
        match self {
            Json::Bool(b) => Some(*b),
            _ => None,
        }
    }

    /// The non-negative integer that the value is.
    pub fn as_u64(&self) -> (r: Option<u64>)
        ensures
            r == uint_of(self@),
    {
        match self {
            Json::Number(JsonNumber::PosInt(n)) => Some(*n),
            Json::Number(JsonNumber::NegInt(n)) => if *n >= 0 {
                Some(*n as u64)
            } else {
                None
            },
            _ => None,
        }
    }

    /// The number under `key`.
    pub fn get_uint(&self, key: &str) -> (r: Option<u64>)
        ensures
            r == uint_member(self@, key@),
    {
        match self.get(key) {
            Some(v) => v.as_u64(),
            None => None,
        }
    }

    /// The member `key`, where it is a text.
    pub fn get_str(&self, key: &str) -> (r: Option<&str>)
        ensures
            opt_str_text(r) == text_member(self@, key@),
    {
        match self.get(key) {
            Some(v) => v.as_str(),
            None => None,
        }
    }
}

proof fn entries_model_skips(s: Seq<(String, Json)>, n: int, key: Seq<char>)
    requires
        0 <= n <= s.len(),
        forall|j: int| n <= j < s.len() ==> (#[trigger] s[j]).0@ != key,
    ensures
        entries_model(s).get(key) == entries_model(s.take(n)).get(key),
    decreases s.len(),
{
    if n < s.len() {
        assert(s.drop_last().take(n) =~= s.take(n));
        assert forall|j: int| n <= j < s.drop_last().len() implies (#[trigger] s.drop_last()[j]).0@
            != key by {
            assert(s.drop_last()[j] == s[j]);
        }
        entries_model_skips(s.drop_last(), n, key);
        assert(s[s.len() - 1].0@ != key);
    } else {
        assert(s.take(n) =~= s);
    }
}

proof fn entries_model_update(s: Seq<(String, Json)>, i: int, key: String, value: Json)
    requires
        0 <= i < s.len(),
        s[i].0@ == key@,
        forall|j: int| i < j < s.len() ==> (#[trigger] s[j]).0@ != key@,
    ensures
        entries_model(s.update(i, (key, value))) == entries_model(s).insert(key@, value@),
    decreases s.len(),
{
    let t = s.update(i, (key, value));
    if i == s.len() - 1 {
        assert(t.drop_last() =~= s.drop_last());
        assert(entries_model(t) =~= entries_model(s).insert(key@, value@));
    } else {
        assert(t.drop_last() =~= s.drop_last().update(i, (key, value)));
        assert forall|j: int| i < j < s.drop_last().len() implies (#[trigger] s.drop_last()[j]).0@
            != key@ by {
            assert(s.drop_last()[j] == s[j]);
        }
        entries_model_update(s.drop_last(), i, key, value);
        assert(s[s.len() - 1].0@ != key@);
        assert(entries_model(t) =~= entries_model(s).insert(key@, value@));
    }
}

/// The entry that decides a member.
pub proof fn member_at(s: Seq<(String, Json)>, i: int)
    requires
        0 <= i < s.len(),
        forall|j: int| i < j < s.len() ==> (#[trigger] s[j]).0@ != s[i].0@,
    ensures
        entries_model(s).contains_key(s[i].0@),
        entries_model(s)[s[i].0@] == s[i].1@,
{
    entries_model_skips(s, i + 1, s[i].0@);
    assert(s.take(i + 1).last() == s[i]);
    assert(entries_model(s).get(s[i].0@) == Some(s[i].1@));
}

/// A name without an entry names no member.
pub proof fn member_absent(s: Seq<(String, Json)>, key: Seq<char>)
    requires
        forall|j: int| 0 <= j < s.len() ==> (#[trigger] s[j]).0@ != key,
    ensures
        !entries_model(s).contains_key(key),
{
    entries_model_skips(s, 0, key);
    assert(entries_model(s).get(key) == None::<JsonModel>);
}

impl JsonObject {
    pub fn new() -> (r: JsonObject)
        ensures
            r@ == Map::<Seq<char>, JsonModel>::empty(),
    {
        JsonObject { entries: Vec::new() }
    }

    /// The position of the entry that decides the member `key`.
    pub(crate) fn position(&self, key: &str) -> (r: Option<usize>)
        ensures
            match r {
                Some(i) => {
                    &&& i < self.entries@.len()
                    &&& self.entries@[i as int].0@ == key@
                    &&& forall|j: int|
                        i < j < self.entries@.len() ==> (#[trigger] self.entries@[j]).0@ != key@
                },
                None => forall|j: int|
                    0 <= j < self.entries@.len() ==> (#[trigger] self.entries@[j]).0@ != key@,
            },
    {
        let mut i: usize = self.entries.len();
        while i > 0
            invariant
                i <= self.entries@.len(),
                forall|j: int|
                    i <= j < self.entries@.len() ==> (#[trigger] self.entries@[j]).0@ != key@,
            decreases i,
        {
            i -= 1;
            if text::str_eq(self.entries[i].0.as_str(), key) {
                return Some(i);
            }
        }
        None
    }

    /// The member with the name `key`.
    pub fn get(&self, key: &str) -> (r: Option<&Json>)
        ensures
            opt_model(r) == self@.get(key@),
    {
        match self.position(key) {
            Some(i) => {
                proof {
                    let s = self.entries@;
                    entries_model_skips(s, i + 1, key@);
                    assert(s.take(i + 1).drop_last() =~= s.take(i as int));
                    assert(s.take(i + 1).last() == s[i as int]);
                }
                Some(&self.entries[i].1)
            },
            None => {
                proof {
                    entries_model_skips(self.entries@, 0, key@);
                    assert(self.entries@.take(0) =~= seq![]);
                }
                None
            },
        }
    }

    /// Sets the member `key`, replacing the one that has the name already.
    pub fn insert(&mut self, key: &str, value: Json)
        ensures
            final(self)@ == old(self)@.insert(key@, value@),
    {
        match self.position(key) {
            Some(i) => {
                let name = key.to_owned();
                proof {
                    entries_model_update(self.entries@, i as int, name, value);
                }
                self.entries.set(i, (name, value));
            },
            None => {
                let ghost before = self.entries@;
                self.entries.push((key.to_owned(), value));
                assert(self.entries@.drop_last() =~= before);
            },
        }
    }

    /// Sets every member of `other`, replacing those that share a name.
    pub fn extend(&mut self, other: &JsonObject)
        ensures
            final(self)@ == old(self)@.union_prefer_right(other@),
    {
        let mut i: usize = 0;
        assert(other.entries@.take(0) =~= seq![]);
        assert(self@ =~= self@.union_prefer_right(entries_model(other.entries@.take(0))));
        while i < other.entries.len()
            invariant
                i <= other.entries@.len(),
                self@ == old(self)@.union_prefer_right(
                    entries_model(other.entries@.take(i as int)),
                ),
            decreases other.entries@.len() - i,
        {
            let entry = &other.entries[i];
            let ghost done = entries_model(other.entries@.take(i as int));
            let ghost before = self@;
            let value = entry.1.clone();
            self.insert(entry.0.as_str(), value);
            proof {
                assert(other.entries@.take(i + 1).drop_last() =~= other.entries@.take(i as int));
                assert(old(self)@.union_prefer_right(done).insert(entry.0@, entry.1@)
                    =~= old(self)@.union_prefer_right(done.insert(entry.0@, entry.1@)));
            }
            i += 1;
        }
        assert(other.entries@.take(i as int) =~= other.entries@);
    }

    /// The object without the member `key`.
    pub fn without(&self, key: &str) -> (r: JsonObject)
        ensures
            r@ == self@.remove(key@),
    {
        let mut out = JsonObject::new();
        let mut i: usize = 0;
        assert(self.entries@.take(0) =~= seq![]);
        assert(out@ =~= entries_model(self.entries@.take(0)).remove(key@));
        while i < self.entries.len()
            invariant
                i <= self.entries@.len(),
                out@ == entries_model(self.entries@.take(i as int)).remove(key@),
            decreases self.entries@.len() - i,
        {
            let entry = &self.entries[i];
            let ghost done = entries_model(self.entries@.take(i as int));
            assert(self.entries@.take(i + 1).drop_last() =~= self.entries@.take(i as int));
            if !text::str_eq(entry.0.as_str(), key) {
                let value = entry.1.clone();
                out.insert(entry.0.as_str(), value);
                assert(done.remove(key@).insert(entry.0@, entry.1@) =~= done.insert(
                    entry.0@,
                    entry.1@,
                ).remove(key@));
            } else {
                assert(done.remove(key@) =~= done.insert(entry.0@, entry.1@).remove(key@));
            }
            i += 1;
        }
        assert(self.entries@.take(i as int) =~= self.entries@);
        out
    }

    /// Whether there is no member.
    pub fn is_empty(&self) -> (r: bool)
        ensures
            r == (self@ == Map::<Seq<char>, JsonModel>::empty()),
    {
        proof {
            if self.entries@.len() > 0 {
                assert(self@.dom().contains(self.entries@.last().0@));
            }
        }
        self.entries.len() == 0
    }

    /// The object with the member `key` set.
    pub fn with(self, key: &str, value: Json) -> (r: JsonObject)
        ensures
            r@ == self@.insert(key@, value@),
    {
        let mut out = self;
        out.insert(key, value);
        out
    }
}

/// A text value.
pub fn text_value(s: &str) -> (r: Json)
    ensures
        r@ == JsonModel::Text(s@),
{
    Json::Text(s.to_owned())
}

/// A non-negative integer value.
pub fn uint_value(n: u64) -> (r: Json)
    ensures
        r@ == JsonModel::Number(NumberModel::Int(n as int)),
{
    Json::Number(JsonNumber::PosInt(n))
}

/// A number that is not an integer, by its text.
pub fn float_value(s: &str) -> (r: Json)
    ensures
        r@ == JsonModel::Number(NumberModel::Float(s@)),
{
    Json::Number(JsonNumber::Float(s.to_owned()))
}

/// What an optional text denotes: `null` where there is none.
pub open spec fn opt_text_model(o: Option<Seq<char>>) -> JsonModel {
    match o {
        Some(s) => JsonModel::Text(s),
        None => JsonModel::Null,
    }
}

/// A text value, or `null`.
pub fn opt_text_value(o: &Option<String>) -> (r: Json)
    ensures
        r@ == opt_text_model(text::opt_text(*o)),
{
    match o {
        Some(s) => text_value(s.as_str()),
        None => Json::Null,
    }
}

/// What an optional truth value denotes: `null` where there is none.
pub open spec fn opt_bool_model(o: Option<bool>) -> JsonModel {
    match o {
        Some(b) => JsonModel::Bool(b),
        None => JsonModel::Null,
    }
}

/// A truth value, or `null`.
pub fn opt_bool_value(o: Option<bool>) -> (r: Json)
    ensures
        r@ == opt_bool_model(o),
{
    match o {
        Some(b) => Json::Bool(b),
        None => Json::Null,
    }
}

/// The object with one member.
pub open spec fn object1(k: Seq<char>, v: JsonModel) -> JsonModel {
    JsonModel::Object(Map::empty().insert(k, v))
}

/// The list of the given texts.
pub open spec fn texts_model(s: Seq<Seq<char>>) -> JsonModel {
    JsonModel::Array(s.map_values(|t: Seq<char>| JsonModel::Text(t)))
}

/// The list of the given texts.
pub fn texts_value(v: &Vec<String>) -> (r: Json)
    ensures
        r@ == texts_model(text::texts(v@)),
{
    let mut items: Vec<Json> = Vec::new();
    let ghost all = text::texts(v@).map_values(|t: Seq<char>| JsonModel::Text(t));
    let mut i: usize = 0;
    while i < v.len()
        invariant
            i <= v@.len(),
            all == text::texts(v@).map_values(|t: Seq<char>| JsonModel::Text(t)),
            items_model(items@) == all.take(i as int),
        decreases v@.len() - i,
    {
        let ghost before = items@;
        items.push(text_value(v[i].as_str()));
        assert(items@.drop_last() =~= before);
        assert(all.take(i + 1) =~= all.take(i as int).push(all[i as int]));
        i += 1;
    }
    assert(all.take(i as int) =~= all);
    Json::Array(items)
}

/// Whether texts come in their order, none twice.
pub open spec fn strictly_ordered(s: Seq<Seq<char>>) -> bool {
    forall|i: int, j: int|
        0 <= i < j < s.len() ==> text::lex_le(#[trigger] s[i], #[trigger] s[j]) && s[i] != s[j]
}

/// Whether texts are the names of the members, in their order.
pub open spec fn lists_keys(s: Seq<Seq<char>>, m: Map<Seq<char>, JsonModel>) -> bool {
    strictly_ordered(s) && forall|k: Seq<char>| #[trigger] s.contains(k) <==> m.contains_key(k)
}

/// The names of the members in their order.
pub open spec fn ordered_keys(m: Map<Seq<char>, JsonModel>) -> Seq<Seq<char>> {
    choose|s: Seq<Seq<char>>| lists_keys(s, m)
}

proof fn front_lists_keys(s: Seq<Seq<char>>, m: Map<Seq<char>, JsonModel>)
    requires
        lists_keys(s, m),
        s.len() > 0,
    ensures
        lists_keys(s.drop_last(), m.remove(s.last())),
{
    let front = s.drop_last();
    assert forall|i: int, j: int| 0 <= i < j < front.len() implies text::lex_le(
        #[trigger] front[i],
        #[trigger] front[j],
    ) && front[i] != front[j] by {
        assert(text::lex_le(s[i], s[j]) && s[i] != s[j]);
    }
    assert forall|k: Seq<char>| #[trigger] front.contains(k) <==> m.remove(s.last()).contains_key(
        k,
    ) by {
        if front.contains(k) {
            let i = choose|i: int| 0 <= i < front.len() && front[i] == k;
            assert(s[i] == k);
            assert(s.contains(k));
            assert(s[i] != s[s.len() - 1]);
        }
        if m.remove(s.last()).contains_key(k) {
            assert(s.contains(k));
            let i = choose|i: int| 0 <= i < s.len() && s[i] == k;
            assert(front[i] == k);
        }
    }
}

/// The names of the members have one order.
pub proof fn key_lists_are_equal(
    a: Seq<Seq<char>>,
    b: Seq<Seq<char>>,
    m: Map<Seq<char>, JsonModel>,
)
    requires
        lists_keys(a, m),
        lists_keys(b, m),
    ensures
        a == b,
    decreases a.len(),
{
    if a.len() == 0 {
        if b.len() > 0 {
            assert(b.contains(b[0]));
            assert(a.contains(b[0]));
        }
        assert(a =~= b);
    } else {
        let x = a.last();
        assert(a.contains(a[a.len() - 1]));
        assert(b.contains(x));
        let y = b.last();
        assert(b.contains(b[b.len() - 1]));
        assert(a.contains(y));
        let i = choose|i: int| 0 <= i < a.len() && a[i] == y;
        let j = choose|j: int| 0 <= j < b.len() && b[j] == x;
        if x != y {
            assert(text::lex_le(a[i], a[a.len() - 1]));
            assert(text::lex_le(b[j], b[b.len() - 1]));
            text::lex_le_antisymmetric(x, y);
        }
        front_lists_keys(a, m);
        front_lists_keys(b, m);
        key_lists_are_equal(a.drop_last(), b.drop_last(), m.remove(x));
        assert(a =~= a.drop_last().push(x));
        assert(b =~= b.drop_last().push(y));
    }
}

proof fn inserting_keeps_strict(s: Seq<Seq<char>>, t: Seq<char>)
    requires
        strictly_ordered(s),
        !s.contains(t),
    ensures
        strictly_ordered(text::lex_insert(s, t)),
        forall|k: Seq<char>| #[trigger]
            text::lex_insert(s, t).contains(k) <==> s.contains(k) || k == t,
    decreases s.len(),
{
    let r = text::lex_insert(s, t);
    if s.len() == 0 || text::lex_le(s.last(), t) {
        assert forall|i: int, j: int| 0 <= i < j < r.len() implies text::lex_le(
            #[trigger] r[i],
            #[trigger] r[j],
        ) && r[i] != r[j] by {
            if j == s.len() {
                assert(s.contains(s[i]));
                if i < s.len() - 1 {
                    assert(text::lex_le(s[i], s[s.len() - 1]));
                    text::lex_le_transitive(s[i], s.last(), t);
                }
            } else {
                assert(text::lex_le(s[i], s[j]) && s[i] != s[j]);
            }
        }
        assert forall|k: Seq<char>| #[trigger] r.contains(k) <==> s.contains(k) || k == t by {
            if s.contains(k) {
                let i = choose|i: int| 0 <= i < s.len() && s[i] == k;
                assert(r[i] == k);
            }
            if k == t {
                assert(r[s.len() as int] == k);
            }
            if r.contains(k) {
                let i = choose|i: int| 0 <= i < r.len() && r[i] == k;
                if i < s.len() {
                    assert(s[i] == k);
                }
            }
        }
    } else {
        let front = s.drop_last();
        let inner = text::lex_insert(front, t);
        let top = s.last();
        assert(s.contains(s[s.len() - 1]));
        assert forall|k: Seq<char>| front.contains(k) implies s.contains(k) && text::lex_le(
            k,
            top,
        ) && k != top by {
            let i = choose|i: int| 0 <= i < front.len() && front[i] == k;
            assert(s[i] == k);
            assert(text::lex_le(s[i], s[s.len() - 1]) && s[i] != s[s.len() - 1]);
        }
        assert forall|i: int, j: int| 0 <= i < j < front.len() implies text::lex_le(
            #[trigger] front[i],
            #[trigger] front[j],
        ) && front[i] != front[j] by {
            assert(text::lex_le(s[i], s[j]) && s[i] != s[j]);
        }
        inserting_keeps_strict(front, t);
        text::lex_le_total(top, t);
        assert forall|i: int, j: int| 0 <= i < j < r.len() implies text::lex_le(
            #[trigger] r[i],
            #[trigger] r[j],
        ) && r[i] != r[j] by {
            if j == inner.len() {
                assert(inner.contains(inner[i]));
            } else {
                assert(text::lex_le(inner[i], inner[j]) && inner[i] != inner[j]);
            }
        }
        assert forall|k: Seq<char>| #[trigger] r.contains(k) <==> s.contains(k) || k == t by {
            if s.contains(k) {
                let i = choose|i: int| 0 <= i < s.len() && s[i] == k;
                if i < front.len() {
                    assert(front[i] == k);
                    assert(inner.contains(k));
                    let j = choose|j: int| 0 <= j < inner.len() && inner[j] == k;
                    assert(r[j] == k);
                } else {
                    assert(r[inner.len() as int] == k);
                }
            }
            if k == t {
                assert(inner.contains(k));
                let j = choose|j: int| 0 <= j < inner.len() && inner[j] == k;
                assert(r[j] == k);
            }
            if r.contains(k) {
                let j = choose|j: int| 0 <= j < r.len() && r[j] == k;
                if j < inner.len() {
                    assert(inner[j] == k);
                    assert(inner.contains(k));
                }
            }
        }
    }
}

/// Finitely many members have an order.
pub proof fn ordered_keys_list_the_keys(m: Map<Seq<char>, JsonModel>)
    requires
        m.dom().finite(),
    ensures
        lists_keys(ordered_keys(m), m),
    decreases m.dom().len(),
{
    if m.dom().len() == 0 {
        let none = Seq::<Seq<char>>::empty();
        assert forall|k: Seq<char>| #[trigger] none.contains(k) <==> m.contains_key(k) by {
            if m.contains_key(k) {
                assert(m.dom() =~= Set::empty());
            }
        }
        assert(lists_keys(none, m));
    } else {
        let x = m.dom().choose();
        let rest = m.remove(x);
        ordered_keys_list_the_keys(rest);
        let s = ordered_keys(rest);
        assert(!rest.contains_key(x));
        inserting_keeps_strict(s, x);
        let all = text::lex_insert(s, x);
        assert forall|k: Seq<char>| #[trigger] all.contains(k) <==> m.contains_key(k) by {
            assert(s.contains(k) <==> rest.contains_key(k));
        }
        assert(lists_keys(all, m));
    }
}

/// Members with the same names have the same order.
pub proof fn same_names_same_order(a: Map<Seq<char>, JsonModel>, b: Map<Seq<char>, JsonModel>)
    requires
        a.dom().finite(),
        a.dom() == b.dom(),
    ensures
        ordered_keys(a) == ordered_keys(b),
{
    ordered_keys_list_the_keys(a);
    ordered_keys_list_the_keys(b);
    assert forall|k: Seq<char>| #[trigger] ordered_keys(b).contains(k) <==> a.contains_key(k) by {
        assert(a.dom().contains(k) <==> b.dom().contains(k));
    }
    key_lists_are_equal(ordered_keys(a), ordered_keys(b), a);
}

proof fn entries_model_domain(s: Seq<(String, Json)>)
    ensures
        forall|k: Seq<char>| #[trigger]
            entries_model(s).contains_key(k) <==> exists|i: int|
                0 <= i < s.len() && (#[trigger] s[i]).0@ == k,
        entries_model(s).dom().finite(),
    decreases s.len(),
{
    if s.len() > 0 {
        let front = s.drop_last();
        entries_model_domain(front);
        assert forall|k: Seq<char>| #[trigger] entries_model(s).contains_key(k) <==> exists|i: int|
            0 <= i < s.len() && (#[trigger] s[i]).0@ == k by {
            if entries_model(s).contains_key(k) {
                if k == s.last().0@ {
                    assert(s[s.len() - 1].0@ == k);
                } else {
                    assert(entries_model(front).contains_key(k));
                    let i = choose|i: int| 0 <= i < front.len() && (#[trigger] front[i]).0@ == k;
                    assert(s[i].0@ == k);
                }
            }
            if exists|i: int| 0 <= i < s.len() && (#[trigger] s[i]).0@ == k {
                let i = choose|i: int| 0 <= i < s.len() && (#[trigger] s[i]).0@ == k;
                if i < front.len() {
                    assert(front[i].0@ == k);
                    assert(entries_model(front).contains_key(k));
                }
            }
        }
    }
}

impl JsonObject {
    /// An object has finitely many members.
    pub proof fn finite(&self)
        ensures
            self@.dom().finite(),
    {
        entries_model_domain(self.entries@);
    }

    /// The names of the members in their order.
    pub fn sorted_keys(&self) -> (r: Vec<String>)
        ensures
            text::texts(r@) == ordered_keys(self@),
            lists_keys(text::texts(r@), self@),
    {
        let mut names: Vec<String> = Vec::new();
        let mut i: usize = 0;
        while i < self.entries.len()
            invariant
                i <= self.entries@.len(),
                names@.len() == i,
                forall|j: int| 0 <= j < i ==> (#[trigger] names@[j])@ == self.entries@[j].0@,
            decreases self.entries@.len() - i,
        {
            let name = self.entries[i].0.clone();
            names.push(name);
            i += 1;
        }
        let sorted = text::sort_texts(&names);
        let ghost raw = text::texts(names@);
        let ghost all = text::texts(sorted@);
        proof {
            text::lex_sorted_is_a_sort(raw);
            all.to_multiset_ensures();
            raw.to_multiset_ensures();
            entries_model_domain(self.entries@);
            assert forall|k: Seq<char>| #[trigger] all.contains(k) <==> self@.contains_key(k) by {
                assert(all.to_multiset().count(k) > 0 <==> all.contains(k));
                assert(raw.to_multiset().count(k) > 0 <==> raw.contains(k));
                if raw.contains(k) {
                    let j = choose|j: int| 0 <= j < raw.len() && raw[j] == k;
                    assert(names@[j]@ == k);
                    assert(self.entries@[j].0@ == k);
                }
                if self@.contains_key(k) {
                    let j = choose|j: int|
                        0 <= j < self.entries@.len() && (#[trigger] self.entries@[j]).0@ == k;
                    assert(names@[j]@ == k);
                    assert(raw[j] == k);
                }
            }
        }
        let mut out: Vec<String> = Vec::new();
        let mut n: usize = 0;
        while n < sorted.len()
            invariant
                n <= sorted@.len(),
                all == text::texts(sorted@),
                forall|a: int, b: int|
                    0 <= a < b < all.len() ==> text::lex_le(#[trigger] all[a], #[trigger] all[b]),
                strictly_ordered(text::texts(out@)),
                forall|k: Seq<char>| #[trigger]
                    text::texts(out@).contains(k) <==> all.take(n as int).contains(k),
                n > 0 ==> out@.len() > 0 && out@[out@.len() - 1]@ == all[n - 1],
            decreases sorted@.len() - n,
        {
            let fresh = if out.len() == 0 {
                true
            } else {
                !text::str_eq(out[out.len() - 1].as_str(), sorted[n].as_str())
            };
            let ghost before = text::texts(out@);
            let ghost name = all[n as int];
            assert(sorted@[n as int]@ == name);
            if fresh {
                out.push(sorted[n].clone());
            }
            proof {
                let after = text::texts(out@);
                if fresh {
                    assert(after =~= before.push(name));
                    assert forall|a: int, b: int| 0 <= a < b < after.len() implies text::lex_le(
                        #[trigger] after[a],
                        #[trigger] after[b],
                    ) && after[a] != after[b] by {
                        if b == before.len() {
                            assert(before.contains(before[a]));
                            assert(all.take(n as int).contains(before[a]));
                            let j = choose|j: int|
                                0 <= j < n && all.take(n as int)[j] == before[a];
                            assert(text::lex_le(all[j], all[n as int]));
                            let top = before[before.len() - 1];
                            assert(top == out@[before.len() - 1]@);
                            assert(top == all[n - 1]);
                            if before[a] == name {
                                assert(text::lex_le(all[n - 1], all[n as int]));
                                if a < before.len() - 1 {
                                    assert(text::lex_le(before[a], top));
                                    text::lex_le_antisymmetric(name, top);
                                }
                            }
                        } else {
                            assert(text::lex_le(before[a], before[b]) && before[a] != before[b]);
                        }
                    }
                }
                assert forall|k: Seq<char>| #[trigger] after.contains(k) <==> all.take(
                    n + 1,
                ).contains(k) by {
                    let shorter = all.take(n as int);
                    let longer = all.take(n + 1);
                    if after.contains(k) {
                        let j = choose|j: int| 0 <= j < after.len() && after[j] == k;
                        if j < before.len() {
                            assert(before[j] == k);
                            assert(before.contains(k));
                            assert(shorter.contains(k));
                            let q = choose|q: int| 0 <= q < n && shorter[q] == k;
                            assert(longer[q] == k);
                        } else {
                            assert(longer[n as int] == k);
                        }
                    }
                    if longer.contains(k) {
                        let q = choose|q: int| 0 <= q < n + 1 && longer[q] == k;
                        if q < n {
                            assert(shorter[q] == k);
                            assert(shorter.contains(k));
                            assert(before.contains(k));
                            let j = choose|j: int| 0 <= j < before.len() && before[j] == k;
                            assert(after[j] == k);
                        } else if fresh {
                            assert(after[before.len() as int] == k);
                        } else {
                            assert(after[after.len() - 1] == k);
                        }
                    }
                }
            }
            n += 1;
        }
        proof {
            assert(all.take(n as int) =~= all);
            assert(lists_keys(text::texts(out@), self@));
            key_lists_are_equal(text::texts(out@), ordered_keys(self@), self@);
        }
        out
    }
}

/// The members that lead from one value into another.
pub open spec fn path_member(value: JsonModel, segments: Seq<Seq<char>>) -> Option<JsonModel>
    decreases segments.len(),
{
    if segments.len() == 0 {
        Some(value)
    } else {
        match path_member(value, segments.drop_last()) {
            Some(v) => if segments.last().len() == 0 {
                None
            } else {
                member(v, segments.last())
            },
            None => None,
        }
    }
}

/// The value at the end of a path of members with dots between them.
pub open spec fn at_path(value: JsonModel, path: Seq<char>) -> Option<JsonModel> {
    path_member(value, text::split_on(path, '.'))
}

proof fn path_member_prefix(value: JsonModel, segments: Seq<Seq<char>>, k: int)
    requires
        0 <= k <= segments.len(),
        path_member(value, segments.take(k)) is None,
    ensures
        path_member(value, segments) is None,
    decreases segments.len(),
{
    if k == segments.len() {
        assert(segments.take(k) =~= segments);
    } else {
        assert(segments.drop_last().take(k) =~= segments.take(k));
        path_member_prefix(value, segments.drop_last(), k);
    }
}

/// Follows a path of members with dots between them.
pub fn lookup_json_path<'a>(value: &'a Json, path: &str) -> (r: Option<&'a Json>)
    ensures
        opt_model(r) == at_path(value@, path@),
{
    let segments = text::split_char(path, '.');
    let ghost all = text::texts(segments@);
    let mut current: &'a Json = value;
    let mut i: usize = 0;
    while i < segments.len()
        invariant
            i <= segments@.len(),
            all == text::texts(segments@),
            all == text::split_on(path@, '.'),
            path_member(value@, all.take(i as int)) == Some(current@),
        decreases segments@.len() - i,
    {
        assert(all.take(i + 1).drop_last() =~= all.take(i as int));
        assert(all.take(i + 1).last() == segments@[i as int]@);
        if text::chars_of(segments[i].as_str()).len() == 0 {
            proof {
                path_member_prefix(value@, all, i + 1);
            }
            return None;
        }
        match current.get(segments[i].as_str()) {
            Some(next) => {
                current = next;
            },
            None => {
                proof {
                    path_member_prefix(value@, all, i + 1);
                }
                return None;
            },
        }
        i += 1;
    }
    assert(all.take(i as int) =~= all);
    Some(current)
}

/// Copies the items of an array.
pub fn clone_items(items: &Vec<Json>) -> (r: Vec<Json>)
    ensures
        items_model(r@) == items_model(items@),
{
    let mut out: Vec<Json> = Vec::new();
    let mut i: usize = 0;
    assert(items@.take(0) =~= out@);
    while i < items.len()
        invariant
            i <= items@.len(),
            items_model(out@) == items_model(items@.take(i as int)),
        decreases items@.len() - i,
    {
        let ghost before = out@;
        out.push(items[i].clone());
        assert(out@.drop_last() =~= before);
        assert(items@.take(i + 1).drop_last() =~= items@.take(i as int));
        i += 1;
    }
    assert(items@.take(i as int) =~= items@);
    out
}

/// The list of the given words.
pub fn words_value(words: &Vec<&'static str>) -> (r: Json)
    ensures
        r@ == texts_model(words@.map_values(|s: &'static str| s@)),
{
    let mut items: Vec<Json> = Vec::new();
    let ghost names = words@.map_values(|s: &'static str| s@);
    let ghost all = names.map_values(|t: Seq<char>| JsonModel::Text(t));
    let mut i: usize = 0;
    while i < words.len()
        invariant
            i <= words@.len(),
            names == words@.map_values(|s: &'static str| s@),
            all == names.map_values(|t: Seq<char>| JsonModel::Text(t)),
            items_model(items@) == all.take(i as int),
        decreases words@.len() - i,
    {
        let ghost before = items@;
        items.push(text_value(words[i]));
        assert(items@.drop_last() =~= before);
        assert(all.take(i + 1) =~= all.take(i as int).push(all[i as int]));
        i += 1;
    }
    assert(all.take(i as int) =~= all);
    Json::Array(items)
}

impl Clone for JsonObject {
    fn clone(&self) -> (r: JsonObject)
        ensures
            r@ == self@,
    {
        let ghost all = self.entries@;
        let mut out: Vec<(String, Json)> = Vec::new();
        let mut i: usize = 0;
        assert(all.take(0) =~= out@);
        while i < self.entries.len()
            invariant
                i <= all.len(),
                all == self.entries@,
                entries_model(out@) == entries_model(all.take(i as int)),
            decreases all.len() - i,
        {
            let ghost before = out@;
            let key = self.entries[i].0.clone();
            let value = self.entries[i].1.clone();
            out.push((key, value));
            assert(out@.drop_last() =~= before);
            assert(all.take(i + 1).drop_last() =~= all.take(i as int));
            i += 1;
        }
        assert(all.take(i as int) =~= all);
        JsonObject { entries: out }
    }
}

/// A path without a dot names a member.
pub proof fn short_paths_are_members(value: JsonModel, path: Seq<char>)
    requires
        path.len() > 0,
        !path.contains('.'),
    ensures
        at_path(value, path) == member(value, path),
{
    text::find_char_bounds(path, '.');
    let i = text::find_char(path, '.');
    if i < path.len() {
        assert(path[i] == '.');
        assert(path.contains('.'));
    }
    let one = text::split_on(path, '.');
    assert(one =~= seq![path]);
    assert(one.drop_last() =~= seq![]);
    assert(path_member(value, one.drop_last()) == Some(value));
}

/// A path leads on from where its beginning leads: what stands behind a dot is
/// looked up in what stands at the path before it.
pub proof fn paths_lead_on(value: JsonModel, path: Seq<char>, name: Seq<char>)
    requires
        name.len() > 0,
        !name.contains('.'),
    ensures
        at_path(value, path + seq!['.'] + name) == match at_path(value, path) {
            Some(v) => member(v, name),
            None => None,
        },
{
    let whole = path + seq!['.'] + name;
    text::split_on_append(path, name, '.');
    let parts = text::split_on(whole, '.');
    assert(parts.drop_last() =~= text::split_on(path, '.'));
    assert(parts.last() == name);
}

/// Only objects have members and paths that lead into them.
pub proof fn only_objects_have_paths(value: JsonModel, path: Seq<char>)
    requires
        !(value is Object),
    ensures
        at_path(value, path) is None,
{
    text::pieces_join_to_the_text(path, '.');
    let parts = text::split_on(path, '.');
    let first = parts.take(1);
    assert(first.drop_last() =~= seq![]);
    assert(path_member(value, first.drop_last()) == Some(value));
    path_member_prefix(value, parts, 1);
}

/// A member of an object is what the object has under that name.
pub proof fn members_are_looked_up_by_name(
    m: Map<Seq<char>, JsonModel>,
    key: Seq<char>,
    v: JsonModel,
)
    ensures
        member(JsonModel::Object(m), key) is Some <==> m.dom().contains(key),
        m.dom().contains(key) ==> member(JsonModel::Object(m), key) == Some(m[key]),
        member(JsonModel::Object(m.insert(key, v)), key) == Some(v),
        forall|j: JsonModel| !(j is Object) ==> #[trigger] member(j, key) is None,
{
}

/// A value is read as a text, a truth value or a number exactly where it is one; a number
/// where it is a whole one from zero on that fits in 64 bits.
pub proof fn values_are_read_as_what_they_are(j: JsonModel, n: int)
    ensures
        text_of(j) is Some <==> j is Text,
        text_of(j) matches Some(s) ==> j == JsonModel::Text(s),
        bool_of(j) is Some <==> j is Bool,
        bool_of(j) matches Some(b) ==> j == JsonModel::Bool(b),
        uint_of(j) matches Some(k) ==> j == number(k as int),
        uint_of(number(n)) is Some <==> 0 <= n <= u64::MAX,
        !(j is Number) ==> uint_of(j) is None,
{
}

} // verus!
