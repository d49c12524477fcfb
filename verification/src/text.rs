//! Text as sequences of characters: the string operations the router needs,
//! each with the sequence it computes.

use vstd::prelude::*;
use vstd::string::*;

verus! {

/// `String::push`: appends one character at the end.
pub assume_specification[ String::push ](s: &mut String, c: char)
    ensures
        final(s)@ == old(s)@.push(c),
;

/// `==` on `str`: true exactly when both hold the same characters.
#[verifier::external_body]
pub(crate) fn str_eq(a: &str, b: &str) -> (r: bool)
    ensures
        r == (a@ == b@),
{
    a == b
}

/// Whether all characters of a text are ASCII.
pub open spec fn ascii(s: Seq<char>) -> bool {
    forall|i: int| 0 <= i < s.len() ==> (#[trigger] s[i] as int) < 128
}

/// A character with its ASCII letter in lower case.
pub open spec fn ascii_lower(c: char) -> char {
    if 'A' <= c <= 'Z' {
        (c as int + 32) as char
    } else {
        c
    }
}

/// A character with its ASCII letter in upper case.
pub open spec fn ascii_upper(c: char) -> char {
    if 'a' <= c <= 'z' {
        (c as int - 32) as char
    } else {
        c
    }
}

/// A text with its ASCII letters in lower case.
pub open spec fn ascii_lowered(s: Seq<char>) -> Seq<char> {
    Seq::new(s.len(), |i: int| ascii_lower(s[i]))
}

/// A text with its ASCII letters in upper case.
pub open spec fn ascii_uppered(s: Seq<char>) -> Seq<char> {
    Seq::new(s.len(), |i: int| ascii_upper(s[i]))
}

/// `str::to_lowercase`: the Unicode lowercase mapping of a text.
pub uninterp spec fn unicode_lowercase(s: Seq<char>) -> Seq<char>;

/// A text in lower case: of ASCII text the letters; of other text what the
/// Unicode mapping gives.
pub open spec fn lowercase(s: Seq<char>) -> Seq<char> {
    if ascii(s) {
        ascii_lowered(s)
    } else {
        unicode_lowercase(s)
    }
}

/// `str::to_lowercase`. Of ASCII text it changes the letters `A` to `Z` alone,
/// each to its lower case; of other text its Unicode mapping is named by
/// `unicode_lowercase`.
#[verifier::external_body]
pub(crate) fn to_lowercase(s: &str) -> (r: String)
    ensures
        ascii(s@) ==> r@ == ascii_lowered(s@),
        !ascii(s@) ==> r@ == unicode_lowercase(s@),
{
    s.to_lowercase()
}

/// `str::to_uppercase`: the Unicode uppercase mapping of a text.
pub uninterp spec fn unicode_uppercase(s: Seq<char>) -> Seq<char>;

/// A text in upper case: of ASCII text the letters; of other text what the
/// Unicode mapping gives.
pub open spec fn uppercase(s: Seq<char>) -> Seq<char> {
    if ascii(s) {
        ascii_uppered(s)
    } else {
        unicode_uppercase(s)
    }
}

/// `str::to_uppercase`. Of ASCII text it changes the letters `a` to `z` alone,
/// each to its upper case; of other text its Unicode mapping is named by
/// `unicode_uppercase`.
#[verifier::external_body]
pub(crate) fn to_uppercase(s: &str) -> (r: String)
    ensures
        ascii(s@) ==> r@ == ascii_uppered(s@),
        !ascii(s@) ==> r@ == unicode_uppercase(s@),
{
    s.to_uppercase()
}

/// `char::is_alphanumeric`: the Unicode classes Alphabetic and Numeric.
pub uninterp spec fn alphanumeric(c: char) -> bool;

/// Whether a character is an ASCII letter.
pub open spec fn ascii_letter(c: char) -> bool {
    'a' <= c <= 'z' || 'A' <= c <= 'Z'
}

/// Whether a character is an ASCII digit.
pub open spec fn ascii_digit(c: char) -> bool {
    '0' <= c <= '9'
}

/// `char::is_alphanumeric`, whose Unicode table is named by `alphanumeric`. Of
/// the ASCII characters it holds the letters and the digits.
#[verifier::external_body]
pub(crate) fn is_alphanumeric(c: char) -> (r: bool)
    ensures
        r == alphanumeric(c),
        (c as u32) < 128 ==> r == (ascii_letter(c) || ascii_digit(c)),
{
    c.is_alphanumeric()
}

/// `char::is_alphabetic`: the Unicode class Alphabetic.
pub uninterp spec fn alphabetic(c: char) -> bool;

/// `char::is_alphabetic`, whose Unicode table is named by `alphabetic`. Of the
/// ASCII characters it holds the letters.
#[verifier::external_body]
pub(crate) fn is_alphabetic(c: char) -> (r: bool)
    ensures
        r == alphabetic(c),
        (c as u32) < 128 ==> r == ascii_letter(c),
{
    c.is_alphabetic()
}

/// The characters with the Unicode property White_Space.
pub open spec fn whitespace(c: char) -> bool {
    ||| 9 <= c as int <= 13
    ||| c as int == 0x20
    ||| c as int == 0x85
    ||| c as int == 0xA0
    ||| c as int == 0x1680
    ||| 0x2000 <= c as int <= 0x200A
    ||| c as int == 0x2028
    ||| c as int == 0x2029
    ||| c as int == 0x202F
    ||| c as int == 0x205F
    ||| c as int == 0x3000
}

pub fn is_whitespace(c: char) -> (r: bool)
    ensures
        r == whitespace(c),
{
    let u: u32 = c as u32;
    (9 <= u && u <= 13) || u == 0x20 || u == 0x85 || u == 0xA0 || u == 0x1680
        || (0x2000 <= u && u <= 0x200A) || u == 0x2028 || u == 0x2029 || u == 0x202F
        || u == 0x205F || u == 0x3000
}

/// The characters of a text, in order.
pub fn chars_of(s: &str) -> (r: Vec<char>)
    ensures
        r@ == s@,
{
    let mut out: Vec<char> = Vec::new();
    for c in it: s.chars()
        invariant
            out@ == it.seq().take(it.index() as int),
            it.seq() == s@,
    {
        out.push(c);
    }
    out
}

/// The text that `chars[from..to]` spells.
pub fn string_of(chars: &Vec<char>, from: usize, to: usize) -> (r: String)
    requires
        from <= to <= chars@.len(),
    ensures
        r@ == chars@.subrange(from as int, to as int),
{
    let mut out = String::new();
    let mut i: usize = from;
    while i < to
        invariant
            from <= i <= to <= chars@.len(),
            out@ == chars@.subrange(from as int, i as int),
        decreases to - i,
    {
        out.push(chars[i]);
        i += 1;
    }
    out
}

/// `s` without its leading whitespace.
pub open spec fn trim_start(s: Seq<char>) -> Seq<char>
    decreases s.len(),
{
    if s.len() > 0 && whitespace(s[0]) {
        trim_start(s.drop_first())
    } else {
        s
    }
}

/// `s` without its trailing whitespace.
pub open spec fn trim_end(s: Seq<char>) -> Seq<char>
    decreases s.len(),
{
    if s.len() > 0 && whitespace(s.last()) {
        trim_end(s.drop_last())
    } else {
        s
    }
}

/// `s` without the whitespace at both ends.
pub open spec fn trimmed(s: Seq<char>) -> Seq<char> {
    trim_end(trim_start(s))
}

/// `s` without the whitespace at both ends.
pub fn trim(s: &str) -> (r: &str)
    ensures
        r@ == trimmed(s@),
{
    let chars = chars_of(s);
    let n: usize = chars.len();
    let mut from: usize = 0;
    assert(chars@.skip(0) =~= chars@);
    while from < n && is_whitespace(chars[from])
        invariant
            from <= n == chars@.len(),
            trim_start(chars@) == trim_start(chars@.skip(from as int)),
        decreases n - from,
    {
        proof {
            assert(chars@.skip(from as int).drop_first() =~= chars@.skip(from + 1));
        }
        from += 1;
    }
    let mut to: usize = n;
    assert(chars@.subrange(from as int, to as int) =~= chars@.skip(from as int));
    while to > from && is_whitespace(chars[to - 1])
        invariant
            from <= to <= n == chars@.len(),
            trim_end(chars@.skip(from as int)) == trim_end(chars@.subrange(from as int, to as int)),
        decreases to,
    {
        proof {
            assert(chars@.subrange(from as int, to as int).drop_last() =~= chars@.subrange(
                from as int,
                to - 1,
            ));
        }
        to -= 1;
    }
    s.substring_char(from, to)
}

/// Trimming twice is trimming once.
pub proof fn trimmed_idempotent(s: Seq<char>)
    ensures
        trimmed(trimmed(s)) == trimmed(s),
{
    trim_start_stops(s);
    trim_end_stops(trim_start(s));
}

proof fn trim_start_stops(s: Seq<char>)
    ensures
        trim_start(s).len() > 0 ==> !whitespace(trim_start(s)[0]),
    decreases s.len(),
{
    if s.len() > 0 && whitespace(s[0]) {
        trim_start_stops(s.drop_first());
    }
}

proof fn trim_end_stops(s: Seq<char>)
    ensures
        trim_end(s).len() > 0 ==> !whitespace(trim_end(s).last()),
        trim_end(s).len() <= s.len(),
        trim_end(s).len() > 0 ==> trim_end(s)[0] == s[0],
    decreases s.len(),
{
    if s.len() > 0 && whitespace(s.last()) {
        trim_end_stops(s.drop_last());
    }
}

/// The number of characters before the first whitespace.
pub open spec fn word_len(s: Seq<char>) -> int
    decreases s.len(),
{
    if s.len() == 0 || whitespace(s[0]) {
        0
    } else {
        1 + word_len(s.drop_first())
    }
}

pub proof fn word_len_bounds(s: Seq<char>)
    ensures
        0 <= word_len(s) <= s.len(),
        s.len() > 0 && !whitespace(s[0]) ==> word_len(s) > 0,
    decreases s.len(),
{
    if s.len() > 0 && !whitespace(s[0]) {
        word_len_bounds(s.drop_first());
    }
}

pub proof fn trim_start_len(s: Seq<char>)
    ensures
        trim_start(s).len() <= s.len(),
        trim_start(s).len() > 0 ==> !whitespace(trim_start(s)[0]),
    decreases s.len(),
{
    if s.len() > 0 && whitespace(s[0]) {
        trim_start_len(s.drop_first());
    }
}

/// The maximal runs of characters that are not whitespace.
pub open spec fn words(s: Seq<char>) -> Seq<Seq<char>>
    decreases s.len(),
    via words_decreases
{
    let t = trim_start(s);
    if t.len() == 0 {
        seq![]
    } else {
        seq![t.take(word_len(t))] + words(t.skip(word_len(t)))
    }
}

#[via_fn]
proof fn words_decreases(s: Seq<char>) {
    let t = trim_start(s);
    trim_start_len(s);
    word_len_bounds(t);
}

/// The texts of a list of strings.
pub open spec fn texts(v: Seq<String>) -> Seq<Seq<char>> {
    v.map_values(|s: String| s@)
}

/// The text of an optional string.
pub open spec fn opt_text(o: Option<String>) -> Option<Seq<char>> {
    match o {
        Some(s) => Some(s@),
        None => None,
    }
}

/// The parts in order, with `sep` between neighbours.
pub open spec fn joined(parts: Seq<Seq<char>>, sep: Seq<char>) -> Seq<char>
    decreases parts.len(),
{
    if parts.len() == 0 {
        seq![]
    } else if parts.len() == 1 {
        parts[0]
    } else {
        joined(parts.drop_last(), sep) + sep + parts.last()
    }
}

/// Joins the parts with `sep` between neighbours.
pub fn join(parts: &Vec<String>, sep: &str) -> (r: String)
    ensures
        r@ == joined(texts(parts@), sep@),
{
    let mut out = String::new();
    let mut i: usize = 0;
    while i < parts.len()
        invariant
            i <= parts@.len(),
            out@ == joined(texts(parts@).take(i as int), sep@),
        decreases parts@.len() - i,
    {
        let ghost next = texts(parts@).take(i + 1);
        assert(next.drop_last() =~= texts(parts@).take(i as int));
        if i > 0 {
            out.append(sep);
        }
        out.append(parts[i].as_str());
        i += 1;
    }
    assert(texts(parts@).take(i as int) =~= texts(parts@));
    out
}

/// Splits a text into its runs of non-whitespace characters.
pub fn split_whitespace(s: &str) -> (r: Vec<String>)
    ensures
        texts(r@) == words(s@),
{
    let chars = chars_of(s);
    let n: usize = chars.len();
    let mut out: Vec<String> = Vec::new();
    let mut i: usize = 0;
    assert(chars@.skip(0) =~= chars@);
    assert(texts(out@) + words(chars@) =~= words(chars@));
    while i < n
        invariant
            i <= n == chars@.len(),
            texts(out@) + words(chars@.skip(i as int)) == words(chars@),
        decreases n - i,
    {
        let ghost rest = chars@.skip(i as int);
        if is_whitespace(chars[i]) {
            assert(rest.drop_first() =~= chars@.skip(i + 1));
            assert(trim_start(rest) == trim_start(chars@.skip(i + 1)));
            i += 1;
        } else {
            let start: usize = i;
            assert(chars@.skip(i as int) =~= rest);
            while i < n && !is_whitespace(chars[i])
                invariant
                    start <= i <= n == chars@.len(),
                    rest == chars@.skip(start as int),
                    word_len(rest) == (i - start) + word_len(chars@.skip(i as int)),
                decreases n - i,
            {
                assert(chars@.skip(i as int).drop_first() =~= chars@.skip(i + 1));
                i += 1;
            }
            assert(word_len(chars@.skip(i as int)) == 0);
            let word = string_of(&chars, start, i);
            proof {
                assert(trim_start(rest) == rest);
                assert(rest.take(i - start) =~= chars@.subrange(start as int, i as int));
                assert(rest.skip(i - start) =~= chars@.skip(i as int));
                word_len_bounds(rest);
            }
            let ghost before = texts(out@);
            out.push(word);
            assert(texts(out@) =~= before.push(word@));
            assert(before.push(word@) + words(chars@.skip(i as int)) =~= before + (seq![word@]
                + words(chars@.skip(i as int))));
        }
    }
    assert(chars@.skip(n as int) =~= Seq::<char>::empty());
    assert(texts(out@) + Seq::<Seq<char>>::empty() =~= texts(out@));
    out
}

pub fn cat2(a: &str, b: &str) -> (r: String)
    ensures
        r@ == a@ + b@,
{
    let mut out = a.to_owned();
    out.append(b);
    out
}

pub fn cat3(a: &str, b: &str, c: &str) -> (r: String)
    ensures
        r@ == a@ + b@ + c@,
{
    let mut out = cat2(a, b);
    out.append(c);
    out
}

pub fn cat5(a: &str, b: &str, c: &str, d: &str, e: &str) -> (r: String)
    ensures
        r@ == a@ + b@ + c@ + d@ + e@,
{
    let mut out = cat3(a, b, c);
    out.append(d);
    out.append(e);
    out
}

/// The number whose lowercase form an ASCII letter has, or the character's own.
pub open spec fn ascii_fold(c: char) -> int {
    if 'A' <= c <= 'Z' {
        c as int + 32
    } else {
        c as int
    }
}

fn fold_ascii(c: char) -> (r: u32)
    ensures
        r == ascii_fold(c),
{
    if 'A' <= c && c <= 'Z' {
        c as u32 + 32
    } else {
        c as u32
    }
}

/// The two texts agree up to the case of ASCII letters.
pub open spec fn same_ignoring_ascii_case(a: Seq<char>, b: Seq<char>) -> bool {
    &&& a.len() == b.len()
    &&& forall|i: int| 0 <= i < a.len() ==> ascii_fold(#[trigger] a[i]) == ascii_fold(b[i])
}

/// Compares two texts up to the case of ASCII letters.
pub fn eq_ignore_ascii_case(a: &str, b: &str) -> (r: bool)
    ensures
        r == same_ignoring_ascii_case(a@, b@),
{
    let x = chars_of(a);
    let y = chars_of(b);
    if x.len() != y.len() {
        return false;
    }
    let mut i: usize = 0;
    while i < x.len()
        invariant
            i <= x@.len() == y@.len(),
            x@ == a@,
            y@ == b@,
            forall|j: int| 0 <= j < i ==> ascii_fold(#[trigger] x@[j]) == ascii_fold(y@[j]),
        decreases x@.len() - i,
    {
        if fold_ascii(x[i]) != fold_ascii(y[i]) {
            assert(ascii_fold(a@[i as int]) != ascii_fold(b@[i as int]));
            return false;
        }
        i += 1;
    }
    true
}

/// `part` stands in `s` at position `at`.
pub open spec fn occurs_at(s: Seq<char>, part: Seq<char>, at: int) -> bool {
    0 <= at && at + part.len() <= s.len() && s.subrange(at, at + part.len()) == part
}

/// `part` stands somewhere in `s`.
pub open spec fn occurs(s: Seq<char>, part: Seq<char>) -> bool {
    exists|at: int| occurs_at(s, part, at)
}

fn chars_match_at(s: &Vec<char>, part: &Vec<char>, at: usize) -> (r: bool)
    requires
        at + part@.len() <= s@.len(),
    ensures
        r == occurs_at(s@, part@, at as int),
{
    let n: usize = s.len();
    let mut i: usize = 0;
    while i < part.len()
        invariant
            i <= part@.len(),
            at + part@.len() <= n == s@.len(),
            s@.subrange(at as int, at + i) == part@.take(i as int),
        decreases part@.len() - i,
    {
        if s[at + i] != part[i] {
            assert(s@.subrange(at as int, at + part@.len())[i as int] != part@[i as int]);
            return false;
        }
        assert(s@.subrange(at as int, at + i + 1) =~= s@.subrange(at as int, at + i).push(
            s@[at + i],
        ));
        assert(part@.take(i + 1) =~= part@.take(i as int).push(part@[i as int]));
        i += 1;
    }
    assert(part@.take(i as int) =~= part@);
    true
}

/// Whether `part` stands somewhere in `s`.
pub fn contains(s: &str, part: &str) -> (r: bool)
    ensures
        r == occurs(s@, part@),
{
    let x = chars_of(s);
    let y = chars_of(part);
    if y.len() > x.len() {
        return false;
    }
    let last: usize = x.len() - y.len();
    let mut at: usize = 0;
    while at <= last
        invariant
            at <= last + 1,
            last + y@.len() == x@.len(),
            x@ == s@,
            y@ == part@,
            forall|j: int| 0 <= j < at ==> !occurs_at(x@, y@, j),
        decreases last + 1 - at,
    {
        if chars_match_at(&x, &y, at) {
            return true;
        }
        if at == last {
            return false;
        }
        at += 1;
    }
    false
}

/// `s` begins with `prefix`.
pub open spec fn has_prefix(s: Seq<char>, prefix: Seq<char>) -> bool {
    prefix.len() <= s.len() && s.take(prefix.len() as int) == prefix
}

/// Whether `s` begins with `prefix`.
pub fn starts_with(s: &str, prefix: &str) -> (r: bool)
    ensures
        r == has_prefix(s@, prefix@),
{
    let x = chars_of(s);
    let y = chars_of(prefix);
    if y.len() > x.len() {
        return false;
    }
    assert(x@.subrange(0, y@.len() as int) =~= x@.take(y@.len() as int));
    chars_match_at(&x, &y, 0)
}

/// The position of the first `c` in `s`, or the length of `s` without one.
pub open spec fn find_char(s: Seq<char>, c: char) -> int
    decreases s.len(),
{
    if s.len() == 0 || s[0] == c {
        0
    } else {
        1 + find_char(s.drop_first(), c)
    }
}

pub proof fn find_char_bounds(s: Seq<char>, c: char)
    ensures
        0 <= find_char(s, c) <= s.len(),
        find_char(s, c) < s.len() ==> s[find_char(s, c)] == c,
        forall|i: int| 0 <= i < find_char(s, c) ==> s[i] != c,
    decreases s.len(),
{
    if s.len() > 0 && s[0] != c {
        find_char_bounds(s.drop_first(), c);
        assert forall|i: int| 0 <= i < find_char(s, c) implies s[i] != c by {
            if i > 0 {
                assert(s[i] == s.drop_first()[i - 1]);
            }
        }
    }
}

/// The pieces of `s` between the occurrences of `c`.
pub open spec fn split_on(s: Seq<char>, c: char) -> Seq<Seq<char>>
    decreases s.len(),
    via split_on_decreases
{
    let at = find_char(s, c);
    if at >= s.len() {
        seq![s]
    } else {
        seq![s.take(at)] + split_on(s.skip(at + 1), c)
    }
}

#[via_fn]
proof fn split_on_decreases(s: Seq<char>, c: char) {
    find_char_bounds(s, c);
}

/// Splits a text at every `c`.
pub fn split_char(s: &str, c: char) -> (r: Vec<String>)
    ensures
        texts(r@) == split_on(s@, c),
{
    let chars = chars_of(s);
    let n: usize = chars.len();
    let mut out: Vec<String> = Vec::new();
    let mut start: usize = 0;
    let mut i: usize = 0;
    assert(chars@.skip(0) =~= chars@);
    assert(texts(out@) + split_on(chars@, c) =~= split_on(chars@, c));
    while i < n
        invariant
            start <= i <= n == chars@.len(),
            texts(out@) + split_on(chars@.skip(start as int), c) == split_on(chars@, c),
            find_char(chars@.skip(start as int), c) == (i - start) + find_char(
                chars@.skip(i as int),
                c,
            ),
        decreases n - i,
    {
        let ghost rest = chars@.skip(start as int);
        assert(chars@.skip(i as int).drop_first() =~= chars@.skip(i + 1));
        if chars[i] == c {
            assert(find_char(rest, c) == i - start);
            assert(rest.take(i - start) =~= chars@.subrange(start as int, i as int));
            assert(rest.skip(i - start + 1) =~= chars@.skip(i + 1));
            let piece = string_of(&chars, start, i);
            let ghost before = texts(out@);
            out.push(piece);
            assert(texts(out@) =~= before.push(piece@));
            assert(before.push(piece@) + split_on(chars@.skip(i + 1), c) =~= before + (seq![piece@]
                + split_on(chars@.skip(i + 1), c)));
            start = i + 1;
        }
        i += 1;
    }
    let ghost rest = chars@.skip(start as int);
    assert(chars@.skip(n as int) =~= Seq::<char>::empty());
    assert(find_char(rest, c) == rest.len());
    let piece = string_of(&chars, start, n);
    assert(rest =~= chars@.subrange(start as int, n as int));
    let ghost before = texts(out@);
    out.push(piece);
    assert(texts(out@) =~= before + seq![piece@]);
    out
}

/// The decimal digit `d`.
pub open spec fn digit(d: int) -> char {
    if d == 0 {
        '0'
    } else if d == 1 {
        '1'
    } else if d == 2 {
        '2'
    } else if d == 3 {
        '3'
    } else if d == 4 {
        '4'
    } else if d == 5 {
        '5'
    } else if d == 6 {
        '6'
    } else if d == 7 {
        '7'
    } else if d == 8 {
        '8'
    } else {
        '9'
    }
}

/// `n` in decimal, without leading zeros.
pub open spec fn decimal(n: nat) -> Seq<char>
    decreases n,
{
    if n < 10 {
        seq![digit(n as int)]
    } else {
        decimal(n / 10).push(digit((n % 10) as int))
    }
}

/// Writes a number in decimal.
pub fn decimal_string(n: u64) -> (r: String)
    ensures
        r@ == decimal(n as nat),
    decreases n,
{
    let mut out = if n < 10 {
        String::new()
    } else {
        decimal_string(n / 10)
    };
    let d: u64 = n % 10;
    out.push(
        if d == 0 {
            '0'
        } else if d == 1 {
            '1'
        } else if d == 2 {
            '2'
        } else if d == 3 {
            '3'
        } else if d == 4 {
            '4'
        } else if d == 5 {
            '5'
        } else if d == 6 {
            '6'
        } else if d == 7 {
            '7'
        } else if d == 8 {
            '8'
        } else {
            '9'
        },
    );
    proof {
        if n < 10 {
            assert(out@ =~= seq![digit(n as int)]);
        }
    }
    out
}

/// A copy of an optional string.
pub fn clone_opt(o: &Option<String>) -> (r: Option<String>)
    ensures
        opt_text(r) == opt_text(*o),
{
    match o {
        Some(s) => Some(s.clone()),
        None => None,
    }
}

/// A copy of a list of strings.
pub fn clone_texts(v: &Vec<String>) -> (r: Vec<String>)
    ensures
        texts(r@) == texts(v@),
{
    let mut out: Vec<String> = Vec::new();
    let mut i: usize = 0;
    while i < v.len()
        invariant
            i <= v@.len(),
            out@ == v@.take(i as int),
        decreases v@.len() - i,
    {
        let copy = v[i].clone();
        out.push(copy);
        i += 1;
    }
    assert(out@ =~= v@);
    out
}

/// `a` does not come after `b` in the order of texts: by the first character in
/// which they differ, and a prefix before what it begins.
pub open spec fn lex_le(a: Seq<char>, b: Seq<char>) -> bool
    decreases a.len(),
{
    if a.len() == 0 {
        true
    } else if b.len() == 0 {
        false
    } else if a[0] != b[0] {
        a[0] < b[0]
    } else {
        lex_le(a.drop_first(), b.drop_first())
    }
}

/// Compares two texts in their order.
pub fn text_le(a: &str, b: &str) -> (r: bool)
    ensures
        r == lex_le(a@, b@),
{
    let x = chars_of(a);
    let y = chars_of(b);
    let mut i: usize = 0;
    assert(x@.skip(0) =~= x@);
    assert(y@.skip(0) =~= y@);
    while i < x.len() && i < y.len()
        invariant
            i <= x@.len(),
            i <= y@.len(),
            x@ == a@,
            y@ == b@,
            lex_le(x@, y@) == lex_le(x@.skip(i as int), y@.skip(i as int)),
        decreases x@.len() - i,
    {
        assert(x@.skip(i as int).drop_first() =~= x@.skip(i + 1));
        assert(y@.skip(i as int).drop_first() =~= y@.skip(i + 1));
        if x[i] != y[i] {
            return x[i] < y[i];
        }
        i += 1;
    }
    i == x.len()
}

pub proof fn lex_le_total(a: Seq<char>, b: Seq<char>)
    ensures
        lex_le(a, b) || lex_le(b, a),
    decreases a.len(),
{
    if a.len() > 0 && b.len() > 0 && a[0] == b[0] {
        lex_le_total(a.drop_first(), b.drop_first());
    }
}

pub proof fn lex_le_transitive(a: Seq<char>, b: Seq<char>, c: Seq<char>)
    requires
        lex_le(a, b),
        lex_le(b, c),
    ensures
        lex_le(a, c),
    decreases a.len(),
{
    if a.len() > 0 && b.len() > 0 && c.len() > 0 && a[0] == b[0] && b[0] == c[0] {
        lex_le_transitive(a.drop_first(), b.drop_first(), c.drop_first());
    }
}

/// `s` with `t` put behind the texts that do not come after it.
pub open spec fn lex_insert(s: Seq<Seq<char>>, t: Seq<char>) -> Seq<Seq<char>>
    decreases s.len(),
{
    if s.len() == 0 || lex_le(s.last(), t) {
        s.push(t)
    } else {
        lex_insert(s.drop_last(), t).push(s.last())
    }
}

/// The texts in their order.
pub open spec fn lex_sorted(s: Seq<Seq<char>>) -> Seq<Seq<char>>
    decreases s.len(),
{
    if s.len() == 0 {
        s
    } else {
        lex_insert(lex_sorted(s.drop_last()), s.last())
    }
}

fn insert_text(out: &mut Vec<String>, t: String)
    ensures
        texts(final(out)@) == lex_insert(texts(old(out)@), t@),
{
    let ghost all = texts(out@);
    let mut at: usize = out.len();
    assert(all.take(at as int) =~= all);
    assert(lex_insert(all, t@) + all.skip(at as int) =~= lex_insert(all, t@));
    while at > 0 && !text_le(out[at - 1].as_str(), t.as_str())
        invariant
            at <= out@.len(),
            all == texts(out@),
            lex_insert(all, t@) == lex_insert(all.take(at as int), t@) + all.skip(at as int),
        decreases at,
    {
        proof {
            let s = all.take(at as int);
            assert(s.drop_last() =~= all.take(at - 1));
            assert(s.last() == all[at - 1]);
            assert(lex_insert(s.drop_last(), t@).push(s.last()) + all.skip(at as int)
                =~= lex_insert(s.drop_last(), t@) + all.skip(at - 1));
        }
        at -= 1;
    }
    proof {
        let s = all.take(at as int);
        if at > 0 {
            assert(s.last() == all[at - 1]);
        }
        assert(lex_insert(s, t@) == s.push(t@));
        assert(s.push(t@) + all.skip(at as int) =~= all.insert(at as int, t@));
    }
    out.insert(at, t);
    assert(texts(out@) =~= all.insert(at as int, t@));
}

/// Puts texts in their order.
pub fn sort_texts(v: &Vec<String>) -> (r: Vec<String>)
    ensures
        texts(r@) == lex_sorted(texts(v@)),
{
    let ghost all = texts(v@);
    let mut out: Vec<String> = Vec::new();
    let mut i: usize = 0;
    assert(texts(out@) =~= lex_sorted(all.take(0)));
    while i < v.len()
        invariant
            i <= v@.len(),
            all == texts(v@),
            texts(out@) == lex_sorted(all.take(i as int)),
        decreases v@.len() - i,
    {
        assert(all.take(i + 1).drop_last() =~= all.take(i as int));
        insert_text(&mut out, v[i].clone());
        i += 1;
    }
    assert(all.take(i as int) =~= all);
    out
}

/// Sorted texts are in their order, and none is lost or added.
pub proof fn lex_sorted_is_a_sort(s: Seq<Seq<char>>)
    ensures
        lex_sorted(s).to_multiset() == s.to_multiset(),
        forall|i: int, j: int|
            0 <= i < j < lex_sorted(s).len() ==> lex_le(
                #[trigger] lex_sorted(s)[i],
                #[trigger] lex_sorted(s)[j],
            ),
    decreases s.len(),
{
    broadcast use vstd::seq_lib::group_to_multiset_ensures;

    if s.len() > 0 {
        let front = s.drop_last();
        lex_sorted_is_a_sort(front);
        lex_insert_sorts(lex_sorted(front), s.last());
        assert(s =~= front.push(s.last()));
        assert(front.push(s.last()).to_multiset() =~= front.to_multiset().insert(s.last()));
    }
}

proof fn lex_insert_sorts(s: Seq<Seq<char>>, t: Seq<char>)
    requires
        forall|i: int, j: int|
            0 <= i < j < s.len() ==> lex_le(#[trigger] s[i], #[trigger] s[j]),
    ensures
        lex_insert(s, t).to_multiset() == s.to_multiset().insert(t),
        forall|i: int, j: int|
            0 <= i < j < lex_insert(s, t).len() ==> lex_le(
                #[trigger] lex_insert(s, t)[i],
                #[trigger] lex_insert(s, t)[j],
            ),
    decreases s.len(),
{
    broadcast use vstd::seq_lib::group_to_multiset_ensures;

    let r = lex_insert(s, t);
    if s.len() == 0 || lex_le(s.last(), t) {
        assert(s.push(t).to_multiset() =~= s.to_multiset().insert(t));
        assert forall|i: int, j: int| 0 <= i < j < r.len() implies lex_le(
            #[trigger] r[i],
            #[trigger] r[j],
        ) by {
            if j == s.len() && i < s.len() - 1 {
                assert(lex_le(s[i], s[s.len() - 1]));
                lex_le_transitive(s[i], s.last(), t);
            }
        }
    } else {
        let front = s.drop_last();
        assert forall|i: int, j: int| 0 <= i < j < front.len() implies lex_le(
            #[trigger] front[i],
            #[trigger] front[j],
        ) by {
            assert(front[i] == s[i] && front[j] == s[j]);
        }
        lex_insert_sorts(front, t);
        lex_le_total(s.last(), t);
        let inner = lex_insert(front, t);
        assert(s =~= front.push(s.last()));
        assert(front.push(s.last()).to_multiset() =~= front.to_multiset().insert(s.last()));
        assert(inner.push(s.last()).to_multiset() =~= inner.to_multiset().insert(s.last()));
        assert(s.to_multiset().insert(t) =~= front.to_multiset().insert(t).insert(s.last()));
        assert forall|i: int, j: int| 0 <= i < j < r.len() implies lex_le(
            #[trigger] r[i],
            #[trigger] r[j],
        ) by {
            if j < inner.len() {
                assert(r[i] == inner[i] && r[j] == inner[j]);
            } else {
                assert(inner.to_multiset().count(inner[i]) > 0);
                if inner[i] != t {
                    assert(front.to_multiset().count(inner[i]) > 0);
                    let m = choose|m: int| 0 <= m < front.len() && front[m] == inner[i];
                    assert(s[m] == inner[i]);
                    assert(lex_le(s[m], s[s.len() - 1]));
                }
            }
        }
    }
}

proof fn find_char_append(p: Seq<char>, q: Seq<char>, c: char)
    ensures
        find_char(p + q, c) == (if find_char(p, c) < p.len() {
            find_char(p, c)
        } else {
            p.len() + find_char(q, c)
        }),
    decreases p.len(),
{
    if p.len() == 0 {
        assert(p + q =~= q);
    } else if p[0] != c {
        assert((p + q).drop_first() =~= p.drop_first() + q);
        find_char_append(p.drop_first(), q, c);
    }
}

/// Texts joined by a separator have the pieces of the first, then those of the
/// second.
pub proof fn split_on_concat(p: Seq<char>, q: Seq<char>, c: char)
    ensures
        split_on(p + seq![c] + q, c) == split_on(p, c) + split_on(q, c),
    decreases p.len(),
{
    let rest = seq![c] + q;
    let whole = p + seq![c] + q;
    assert(whole =~= p + rest);
    find_char_append(p, rest, c);
    find_char_bounds(p, c);
    assert(rest[0] == c);
    let at = find_char(p, c);
    if at < p.len() {
        assert(whole.take(at) =~= p.take(at));
        assert(whole.skip(at + 1) =~= p.skip(at + 1) + seq![c] + q);
        split_on_concat(p.skip(at + 1), q, c);
        assert(split_on(whole, c) =~= split_on(p, c) + split_on(q, c));
    } else {
        assert(whole.take(p.len() as int) =~= p);
        assert(whole.skip(p.len() as int + 1) =~= q);
        assert(split_on(whole, c) =~= split_on(p, c) + split_on(q, c));
    }
}

/// Behind a separator, a piece without one is the last piece.
pub proof fn split_on_append(p: Seq<char>, piece: Seq<char>, c: char)
    requires
        !piece.contains(c),
    ensures
        split_on(p + seq![c] + piece, c) == split_on(p, c).push(piece),
{
    split_on_concat(p, piece, c);
    find_char_bounds(piece, c);
    if find_char(piece, c) < piece.len() {
        assert(piece.contains(piece[find_char(piece, c)]));
    }
    assert(split_on(p, c) + seq![piece] =~= split_on(p, c).push(piece));
}

proof fn digit_injective(a: int, b: int)
    requires
        0 <= a < 10,
        0 <= b < 10,
        digit(a) == digit(b),
    ensures
        a == b,
{
}

/// Different numbers are written differently.
pub proof fn decimal_injective(a: nat, b: nat)
    requires
        decimal(a) == decimal(b),
    ensures
        a == b,
    decreases a,
{
    decimal_len(a);
    decimal_len(b);
    if a < 10 && b < 10 {
        assert(decimal(a) == seq![digit(a as int)]);
        assert(decimal(b) == seq![digit(b as int)]);
        assert(decimal(a)[0] == digit(a as int));
        assert(decimal(b)[0] == digit(b as int));
        digit_injective(a as int, b as int);
    } else if a >= 10 && b >= 10 {
        assert(decimal(a) == decimal(a / 10).push(digit((a % 10) as int)));
        assert(decimal(b) == decimal(b / 10).push(digit((b % 10) as int)));
        assert(decimal(a).last() == digit((a % 10) as int));
        assert(decimal(b).last() == digit((b % 10) as int));
        digit_injective((a % 10) as int, (b % 10) as int);
        assert(decimal(a).drop_last() =~= decimal(a / 10));
        assert(decimal(b).drop_last() =~= decimal(b / 10));
        decimal_injective(a / 10, b / 10);
    } else {
        decimal_len(a / 10);
        decimal_len(b / 10);
    }
}

proof fn decimal_len(n: nat)
    ensures
        decimal(n).len() >= 1,
    decreases n,
{
    if n >= 10 {
        decimal_len(n / 10);
    }
}

/// The decimal writing of a number holds digits only.
pub proof fn decimal_digits(n: nat)
    ensures
        decimal(n).len() >= 1,
        forall|i: int| 0 <= i < decimal(n).len() ==> '0' <= #[trigger] decimal(n)[i] <= '9',
    decreases n,
{
    if n >= 10 {
        decimal_digits(n / 10);
    }
}

/// Texts that come before each other in the order of texts are equal.
pub proof fn lex_le_antisymmetric(a: Seq<char>, b: Seq<char>)
    requires
        lex_le(a, b),
        lex_le(b, a),
    ensures
        a == b,
    decreases a.len(),
{
    if a.len() == 0 || b.len() == 0 {
        assert(a =~= b);
    } else {
        lex_le_antisymmetric(a.drop_first(), b.drop_first());
        assert(a =~= seq![a[0]] + a.drop_first());
        assert(b =~= seq![b[0]] + b.drop_first());
    }
}

/// Why a text is no integer.
#[derive(Clone, Copy, Debug, PartialEq, Eq, Structural)]
pub enum IntError {
    Empty,
    InvalidDigit,
    TooLarge,
    TooSmall,
}

pub open spec fn int_error_text(e: IntError) -> Seq<char> {
    match e {
        IntError::Empty => "cannot parse integer from empty string"@,
        IntError::InvalidDigit => "invalid digit found in string"@,
        IntError::TooLarge => "number too large to fit in target type"@,
        IntError::TooSmall => "number too small to fit in target type"@,
    }
}

pub fn int_error_str(e: IntError) -> (r: &'static str)
    ensures
        r@ == int_error_text(e),
{
    match e {
        IntError::Empty => "cannot parse integer from empty string",
        IntError::InvalidDigit => "invalid digit found in string",
        IntError::TooLarge => "number too large to fit in target type",
        IntError::TooSmall => "number too small to fit in target type",
    }
}

/// The number that the first `n` characters of a text of digits spell.
pub open spec fn digits_value(s: Seq<char>, n: int) -> int
    decreases n,
{
    if n <= 0 {
        0
    } else {
        digits_value(s, n - 1) * 10 + (s[n - 1] as int - '0' as int)
    }
}

/// What reading the first `n` of some digits as a number gives: the first thing
/// that is wrong, a character or the size, or the number.
pub open spec fn digits_read(s: Seq<char>, n: int, negative: bool) -> Result<int, IntError>
    decreases n,
{
    if n <= 0 {
        Ok(0)
    } else {
        match digits_read(s, n - 1, negative) {
            Err(e) => Err(e),
            Ok(front) => if !ascii_digit(s[n - 1]) {
                Err(IntError::InvalidDigit)
            } else {
                let digit = s[n - 1] as int - '0' as int;
                if negative {
                    if front * 10 - digit < i64::MIN {
                        Err(IntError::TooSmall)
                    } else {
                        Ok(front * 10 - digit)
                    }
                } else if front * 10 + digit > i64::MAX {
                    Err(IntError::TooLarge)
                } else {
                    Ok(front * 10 + digit)
                }
            },
        }
    }
}

/// What reading a text as an integer of 64 bits gives: an optional sign, and
/// digits.
pub open spec fn int_read(s: Seq<char>) -> Result<int, IntError> {
    if s.len() == 0 {
        Err(IntError::Empty)
    } else if s.len() == 1 && (s[0] == '+' || s[0] == '-') {
        Err(IntError::InvalidDigit)
    } else if s[0] == '-' {
        digits_read(s.skip(1), s.len() - 1, true)
    } else if s[0] == '+' {
        digits_read(s.skip(1), s.len() - 1, false)
    } else {
        digits_read(s, s.len() as int, false)
    }
}

proof fn digits_read_failed(s: Seq<char>, k: int, n: int, negative: bool)
    requires
        0 <= k <= n,
        digits_read(s, k, negative) is Err,
    ensures
        digits_read(s, n, negative) == digits_read(s, k, negative),
    decreases n - k,
{
    if k < n {
        digits_read_failed(s, k, n - 1, negative);
    }
}

fn read_digits(chars: &Vec<char>, from: usize, negative: bool) -> (r: Result<i64, IntError>)
    requires
        from <= chars@.len(),
    ensures
        match r {
            Ok(n) => digits_read(
                chars@.skip(from as int),
                chars@.len() - from,
                negative,
            ) == Ok::<int, IntError>(n as int),
            Err(e) => digits_read(
                chars@.skip(from as int),
                chars@.len() - from,
                negative,
            ) == Err::<int, IntError>(e),
        },
{
    let ghost s = chars@.skip(from as int);
    let mut acc: i64 = 0;
    let mut i: usize = from;
    while i < chars.len()
        invariant
            from <= i <= chars@.len(),
            s == chars@.skip(from as int),
            digits_read(s, i - from, negative) == Ok::<int, IntError>(acc as int),
            negative ==> acc <= 0,
            !negative ==> acc >= 0,
        decreases chars@.len() - i,
    {
        let c = chars[i];
        assert(s[i - from] == c);
        if c < '0' || c > '9' {
            proof {
                digits_read_failed(s, i - from + 1, chars@.len() - from, negative);
            }
            return Err(IntError::InvalidDigit);
        }
        let digit: i64 = (c as u32 - '0' as u32) as i64;
        let wide: i128 = if negative {
            acc as i128 * 10 - digit as i128
        } else {
            acc as i128 * 10 + digit as i128
        };
        if wide < i64::MIN as i128 {
            proof {
                digits_read_failed(s, i - from + 1, chars@.len() - from, negative);
            }
            return Err(IntError::TooSmall);
        }
        if wide > i64::MAX as i128 {
            proof {
                digits_read_failed(s, i - from + 1, chars@.len() - from, negative);
            }
            return Err(IntError::TooLarge);
        }
        acc = wide as i64;
        i += 1;
    }
    Ok(acc)
}

/// Reads a text as an integer of 64 bits.
pub fn parse_int(s: &str) -> (r: Result<i64, IntError>)
    ensures
        match r {
            Ok(n) => int_read(s@) == Ok::<int, IntError>(n as int),
            Err(e) => int_read(s@) == Err::<int, IntError>(e),
        },
{
    let chars = chars_of(s);
    if chars.len() == 0 {
        return Err(IntError::Empty);
    }
    if chars.len() == 1 && (chars[0] == '+' || chars[0] == '-') {
        return Err(IntError::InvalidDigit);
    }
    if chars[0] == '-' {
        return read_digits(&chars, 1, true);
    }
    if chars[0] == '+' {
        return read_digits(&chars, 1, false);
    }
    assert(chars@.skip(0) =~= chars@);
    read_digits(&chars, 0, false)
}

proof fn digits_value_bounds(s: Seq<char>, n: int)
    requires
        0 <= n <= s.len(),
        forall|i: int| 0 <= i < n ==> ascii_digit(#[trigger] s[i]),
    ensures
        digits_value(s, n) >= 0,
    decreases n,
{
    if n > 0 {
        digits_value_bounds(s, n - 1);
    }
}

proof fn digits_value_grows(s: Seq<char>, k: int, n: int)
    requires
        0 <= k <= n <= s.len(),
        forall|i: int| 0 <= i < n ==> ascii_digit(#[trigger] s[i]),
    ensures
        digits_value(s, k) <= digits_value(s, n),
    decreases n - k,
{
    if k < n {
        digits_value_grows(s, k, n - 1);
        digits_value_bounds(s, n - 1);
    }
}

proof fn digits_read_value(s: Seq<char>, n: int)
    requires
        0 <= n <= s.len(),
        forall|i: int| 0 <= i < n ==> ascii_digit(#[trigger] s[i]),
        digits_value(s, n) <= i64::MAX,
    ensures
        digits_read(s, n, false) == Ok::<int, IntError>(digits_value(s, n)),
    decreases n,
{
    if n > 0 {
        digits_value_grows(s, n - 1, n);
        digits_read_value(s, n - 1);
    }
}

proof fn decimal_value(n: nat)
    ensures
        digits_value(decimal(n), decimal(n).len() as int) == n,
    decreases n,
{
    if n < 10 {
        let d = decimal(n);
        assert(d == seq![digit(n as int)]);
        assert(d[0] == digit(n as int));
        assert(digits_value(d, 0) == 0);
        assert(digits_value(d, 1) == d[0] as int - '0' as int);
    } else {
        let front = decimal(n / 10);
        let d = decimal(n);
        assert(d == front.push(digit((n % 10) as int)));
        decimal_value(n / 10);
        digits_value_prefix(front, d, front.len() as int);
        assert(d[front.len() as int] == digit((n % 10) as int));
        assert(digits_value(d, d.len() as int) == digits_value(d, front.len() as int) * 10 + (
        d[front.len() as int] as int - '0' as int));
    }
}

proof fn digits_value_prefix(a: Seq<char>, b: Seq<char>, n: int)
    requires
        0 <= n <= a.len(),
        n <= b.len(),
        forall|i: int| 0 <= i < n ==> a[i] == b[i],
    ensures
        digits_value(a, n) == digits_value(b, n),
    decreases n,
{
    if n > 0 {
        digits_value_prefix(a, b, n - 1);
    }
}

/// Reading a number that was written in decimal gives the number.
pub proof fn decimal_reads_back(n: nat)
    requires
        n <= i64::MAX,
    ensures
        int_read(decimal(n)) == Ok::<int, IntError>(n as int),
{
    let d = decimal(n);
    decimal_digits(n);
    decimal_value(n);
    digits_read_value(d, d.len() as int);
    assert('0' <= d[0] <= '9');
}

/// Whether a text is made of whitespace alone.
pub open spec fn blank(s: Seq<char>) -> bool {
    forall|i: int| 0 <= i < s.len() ==> whitespace(#[trigger] s[i])
}

/// Whether a text is one word: it is not empty and has no whitespace.
pub open spec fn is_word(s: Seq<char>) -> bool {
    s.len() > 0 && forall|i: int| 0 <= i < s.len() ==> !whitespace(#[trigger] s[i])
}

proof fn trim_start_of_blank(w: Seq<char>, y: Seq<char>)
    requires
        blank(w),
    ensures
        trim_start(w + y) == trim_start(y),
    decreases w.len(),
{
    if w.len() == 0 {
        assert(w + y =~= y);
    } else {
        assert(whitespace(w[0]));
        assert((w + y)[0] == w[0]);
        assert((w + y).drop_first() =~= w.drop_first() + y);
        assert forall|i: int| 0 <= i < w.drop_first().len() implies whitespace(
            #[trigger] w.drop_first()[i],
        ) by {
            assert(w.drop_first()[i] == w[i + 1]);
        }
        trim_start_of_blank(w.drop_first(), y);
    }
}

proof fn trim_start_concat(x: Seq<char>, y: Seq<char>)
    requires
        trim_start(x).len() > 0,
    ensures
        trim_start(x + y) == trim_start(x) + y,
    decreases x.len(),
{
    assert((x + y)[0] == x[0]);
    if whitespace(x[0]) {
        assert((x + y).drop_first() =~= x.drop_first() + y);
        trim_start_concat(x.drop_first(), y);
    }
}

proof fn trim_start_all(x: Seq<char>)
    requires
        trim_start(x).len() == 0,
    ensures
        blank(x),
    decreases x.len(),
{
    if x.len() > 0 {
        trim_start_all(x.drop_first());
        assert forall|i: int| 0 <= i < x.len() implies whitespace(#[trigger] x[i]) by {
            if i > 0 {
                assert(x[i] == x.drop_first()[i - 1]);
            }
        }
    }
}

proof fn word_len_concat(t: Seq<char>, y: Seq<char>)
    requires
        y.len() == 0 || whitespace(y[0]),
    ensures
        word_len(t + y) == word_len(t),
    decreases t.len(),
{
    if t.len() == 0 {
        assert(t + y =~= y);
    } else {
        assert((t + y)[0] == t[0]);
        assert((t + y).drop_first() =~= t.drop_first() + y);
        word_len_concat(t.drop_first(), y);
    }
}

proof fn word_len_is_a_word(t: Seq<char>)
    ensures
        forall|i: int| 0 <= i < word_len(t) ==> !whitespace(#[trigger] t[i]),
    decreases t.len(),
{
    if t.len() > 0 && !whitespace(t[0]) {
        word_len_bounds(t);
        word_len_is_a_word(t.drop_first());
        assert forall|i: int| 0 <= i < word_len(t) implies !whitespace(#[trigger] t[i]) by {
            if i > 0 {
                assert(t[i] == t.drop_first()[i - 1]);
            }
        }
    }
}

/// Around whitespace, the words of a text are those before it, then those
/// behind it: how much whitespace it is, and of which kind, does not matter.
pub proof fn words_around_blanks(x: Seq<char>, w: Seq<char>, y: Seq<char>)
    requires
        blank(w),
        w.len() > 0 || x.len() == 0 || y.len() == 0,
    ensures
        words(x + w + y) == words(x) + words(y),
    decreases x.len(),
{
    let whole = x + w + y;
    assert(whole =~= x + (w + y));
    let t = trim_start(x);
    trim_start_len(x);
    if t.len() == 0 {
        trim_start_all(x);
        trim_start_of_blank(x, w + y);
        trim_start_of_blank(w, y);
        assert(trim_start(whole) == trim_start(y));
        assert(words(whole) =~= words(x) + words(y));
    } else {
        trim_start_concat(x, w + y);
        if w.len() > 0 {
            assert(whitespace(w[0]));
            assert((w + y)[0] == w[0]);
        } else {
            assert(w + y =~= seq![]);
        }
        word_len_concat(t, w + y);
        word_len_bounds(t);
        let n = word_len(t);
        let u = t + (w + y);
        assert(trim_start(whole) == u);
        assert(u.take(n) =~= t.take(n));
        assert(u.skip(n) =~= t.skip(n) + w + y);
        words_around_blanks(t.skip(n), w, y);
        assert(words(whole) =~= words(x) + words(y));
    }
}

/// The words of a text are words.
pub proof fn words_are_words(s: Seq<char>)
    ensures
        forall|i: int| 0 <= i < words(s).len() ==> is_word(#[trigger] words(s)[i]),
    decreases s.len(),
{
    let t = trim_start(s);
    trim_start_len(s);
    if t.len() > 0 {
        word_len_bounds(t);
        word_len_is_a_word(t);
        let n = word_len(t);
        words_are_words(t.skip(n));
        assert forall|i: int| 0 <= i < words(s).len() implies is_word(#[trigger] words(s)[i]) by {
            if i > 0 {
                assert(words(s)[i] == words(t.skip(n))[i - 1]);
            } else {
                assert(words(s)[0] == t.take(n));
            }
        }
    }
}

proof fn words_of_word(w: Seq<char>)
    requires
        is_word(w),
    ensures
        words(w) == seq![w],
{
    assert(!whitespace(w[0]));
    word_len_bounds(w);
    whole_word_len(w);
    assert(w.take(w.len() as int) =~= w);
    let rest = w.skip(w.len() as int);
    assert(rest.len() == 0);
    assert(trim_start(rest).len() == 0);
    assert(words(rest) =~= seq![]);
    assert(words(w) =~= seq![w]);
}

proof fn whole_word_len(w: Seq<char>)
    requires
        forall|i: int| 0 <= i < w.len() ==> !whitespace(#[trigger] w[i]),
    ensures
        word_len(w) == w.len(),
    decreases w.len(),
{
    if w.len() > 0 {
        assert(!whitespace(w[0]));
        let rest = w.drop_first();
        assert forall|i: int| 0 <= i < rest.len() implies !whitespace(#[trigger] rest[i]) by {
            assert(rest[i] == w[i + 1]);
        }
        whole_word_len(rest);
    }
}

/// Words with a space between them are found again.
pub proof fn words_of_joined(parts: Seq<Seq<char>>)
    requires
        forall|i: int| 0 <= i < parts.len() ==> is_word(#[trigger] parts[i]),
    ensures
        words(joined(parts, " "@)) == parts,
    decreases parts.len(),
{
    reveal_strlit(" ");
    assert(" "@ =~= seq![' ']);
    if parts.len() == 0 {
        let empty = joined(parts, " "@);
        assert(trim_start(empty).len() == 0);
        assert(words(empty) =~= parts);
    } else if parts.len() == 1 {
        words_of_word(parts[0]);
        assert(words(parts[0]) =~= parts);
    } else {
        let front = parts.drop_last();
        assert forall|i: int| 0 <= i < front.len() implies is_word(#[trigger] front[i]) by {
            assert(front[i] == parts[i]);
        }
        words_of_joined(front);
        words_of_word(parts.last());
        words_around_blanks(joined(front, " "@), " "@, parts.last());
        assert(front + seq![parts.last()] =~= parts);
    }
}

/// Whether the whitespace of a text is single spaces with something on both
/// sides.
pub open spec fn single_spaced(s: Seq<char>) -> bool {
    forall|i: int|
        0 <= i < s.len() && whitespace(#[trigger] s[i]) ==> {
            &&& s[i] == ' '
            &&& 0 < i < s.len() - 1
            &&& !whitespace(s[i - 1])
            &&& !whitespace(s[i + 1])
        }
}

/// Words with a space between them are single-spaced.
pub proof fn joined_words_are_single_spaced(parts: Seq<Seq<char>>)
    requires
        forall|i: int| 0 <= i < parts.len() ==> is_word(#[trigger] parts[i]),
    ensures
        single_spaced(joined(parts, " "@)),
        parts.len() > 0 ==> joined(parts, " "@).len() > 0,
    decreases parts.len(),
{
    reveal_strlit(" ");
    assert(" "@ =~= seq![' ']);
    if parts.len() == 1 {
        assert(is_word(parts[0]));
    } else if parts.len() > 1 {
        let front = parts.drop_last();
        assert forall|i: int| 0 <= i < front.len() implies is_word(#[trigger] front[i]) by {
            assert(front[i] == parts[i]);
        }
        joined_words_are_single_spaced(front);
        let f = joined(front, " "@);
        let w = parts.last();
        assert(is_word(parts[parts.len() - 1]));
        let s = joined(parts, " "@);
        assert(s =~= f + seq![' '] + w);
        assert(!whitespace(w[0]));
        assert(!whitespace(f.last())) by {
            if whitespace(f[f.len() - 1]) {
                assert(false);
            }
        }
        assert forall|i: int| 0 <= i < s.len() && whitespace(#[trigger] s[i]) implies {
            &&& s[i] == ' '
            &&& 0 < i < s.len() - 1
            &&& !whitespace(s[i - 1])
            &&& !whitespace(s[i + 1])
        } by {
            if i < f.len() {
                assert(s[i] == f[i]);
                assert(s[i - 1] == f[i - 1]);
                assert(s[i + 1] == f[i + 1]);
            } else if i == f.len() {
                assert(s[i - 1] == f.last());
                assert(s[i + 1] == w[0]);
            } else {
                assert(s[i] == w[i - f.len() - 1]);
            }
        }
    }
}

proof fn lowering_keeps_whitespace(c: char)
    ensures
        whitespace(ascii_lower(c)) == whitespace(c),
        (c as int) < 128 ==> (ascii_lower(c) as int) < 128,
        ascii_lower(ascii_lower(c)) == ascii_lower(c),
        !('A' <= ascii_lower(c) <= 'Z'),
        ascii_lower(c) as int == ascii_fold(c),
{
}

proof fn trim_start_lowered(s: Seq<char>)
    ensures
        trim_start(ascii_lowered(s)) == ascii_lowered(trim_start(s)),
    decreases s.len(),
{
    if s.len() > 0 {
        lowering_keeps_whitespace(s[0]);
        assert(ascii_lowered(s).drop_first() =~= ascii_lowered(s.drop_first()));
        trim_start_lowered(s.drop_first());
    } else {
        assert(ascii_lowered(s) =~= s);
    }
}

proof fn word_len_lowered(s: Seq<char>)
    ensures
        word_len(ascii_lowered(s)) == word_len(s),
    decreases s.len(),
{
    if s.len() > 0 {
        lowering_keeps_whitespace(s[0]);
        assert(ascii_lowered(s).drop_first() =~= ascii_lowered(s.drop_first()));
        word_len_lowered(s.drop_first());
    }
}

/// The parts with their ASCII letters in lower case.
pub open spec fn parts_lowered(parts: Seq<Seq<char>>) -> Seq<Seq<char>> {
    Seq::new(parts.len(), |i: int| ascii_lowered(parts[i]))
}

/// Lower case does not change where words begin and end.
pub proof fn words_lowered(s: Seq<char>)
    ensures
        words(ascii_lowered(s)) == parts_lowered(words(s)),
    decreases s.len(),
{
    let t = trim_start(s);
    trim_start_len(s);
    trim_start_lowered(s);
    if t.len() == 0 {
        assert(words(ascii_lowered(s)) =~= parts_lowered(words(s)));
    } else {
        word_len_lowered(t);
        word_len_bounds(t);
        let n = word_len(t);
        let u = ascii_lowered(t);
        assert(u.take(n) =~= ascii_lowered(t.take(n)));
        assert(u.skip(n) =~= ascii_lowered(t.skip(n)));
        words_lowered(t.skip(n));
        assert(words(ascii_lowered(s)) =~= parts_lowered(words(s)));
    }
}

/// Lower case can be taken before or after joining with spaces.
pub proof fn joined_lowered(parts: Seq<Seq<char>>)
    ensures
        joined(parts_lowered(parts), " "@) == ascii_lowered(joined(parts, " "@)),
    decreases parts.len(),
{
    reveal_strlit(" ");
    assert(" "@ =~= seq![' ']);
    if parts.len() > 1 {
        joined_lowered(parts.drop_last());
        assert(parts_lowered(parts).drop_last() =~= parts_lowered(parts.drop_last()));
        assert(joined(parts_lowered(parts), " "@) =~= ascii_lowered(joined(parts, " "@)));
    } else {
        assert(joined(parts_lowered(parts), " "@) =~= ascii_lowered(joined(parts, " "@)));
    }
}

/// Texts that agree up to ASCII case are the same in lower case.
pub proof fn lowered_ignores_case(a: Seq<char>, b: Seq<char>)
    ensures
        same_ignoring_ascii_case(a, b) <==> ascii_lowered(a) == ascii_lowered(b),
{
    if same_ignoring_ascii_case(a, b) {
        assert forall|i: int| 0 <= i < a.len() implies ascii_lower(#[trigger] a[i]) == ascii_lower(
            b[i],
        ) by {
            lowering_keeps_whitespace(a[i]);
            lowering_keeps_whitespace(b[i]);
            assert(ascii_lower(a[i]) as int == ascii_lower(b[i]) as int);
        }
        assert(ascii_lowered(a) =~= ascii_lowered(b));
    }
    if ascii_lowered(a) == ascii_lowered(b) {
        assert(a.len() == ascii_lowered(a).len());
        assert(b.len() == ascii_lowered(b).len());
        assert forall|i: int| 0 <= i < a.len() implies ascii_fold(#[trigger] a[i]) == ascii_fold(
            b[i],
        ) by {
            lowering_keeps_whitespace(a[i]);
            lowering_keeps_whitespace(b[i]);
            assert(ascii_lowered(a)[i] == ascii_lowered(b)[i]);
        }
    }
}

/// Text in lower case is ASCII where the text is, has no capital, is as much
/// spaced, and stays as it is.
pub proof fn lowered_is_lower(s: Seq<char>)
    ensures
        ascii(ascii_lowered(s)) == ascii(s),
        forall|i: int| 0 <= i < s.len() ==> !('A' <= #[trigger] ascii_lowered(s)[i] <= 'Z'),
        ascii_lowered(ascii_lowered(s)) == ascii_lowered(s),
        single_spaced(s) ==> single_spaced(ascii_lowered(s)),
{
    let l = ascii_lowered(s);
    assert forall|i: int| 0 <= i < s.len() implies {
        &&& !('A' <= #[trigger] l[i] <= 'Z')
        &&& ascii_lower(l[i]) == l[i]
        &&& whitespace(l[i]) == whitespace(s[i])
        &&& ((l[i] as int) < 128) == ((s[i] as int) < 128)
        &&& s[i] == ' ' ==> l[i] == ' '
    } by {
        lowering_keeps_whitespace(s[i]);
    }
    assert(ascii_lowered(l) =~= l);
    if ascii(l) {
        assert forall|i: int| 0 <= i < s.len() implies (#[trigger] s[i] as int) < 128 by {
            assert((l[i] as int) < 128);
        }
    }
    if single_spaced(s) {
        assert forall|i: int| 0 <= i < l.len() && whitespace(#[trigger] l[i]) implies {
            &&& l[i] == ' '
            &&& 0 < i < l.len() - 1
            &&& !whitespace(l[i - 1])
            &&& !whitespace(l[i + 1])
        } by {
            assert(whitespace(s[i]));
        }
    }
}

/// Joined words of an ASCII text are ASCII.
pub proof fn spaced_words_are_ascii(s: Seq<char>)
    requires
        ascii(s),
    ensures
        ascii(joined(words(s), " "@)),
{
    words_of_ascii(s);
    joined_ascii(words(s));
}

proof fn trim_start_is_a_tail(s: Seq<char>)
    ensures
        trim_start(s).len() <= s.len(),
        trim_start(s) == s.skip(s.len() - trim_start(s).len()),
    decreases s.len(),
{
    if s.len() > 0 && whitespace(s[0]) {
        trim_start_is_a_tail(s.drop_first());
        let n = trim_start(s).len();
        assert(s.drop_first().skip(s.len() - 1 - n) =~= s.skip(s.len() - n));
    } else {
        assert(s.skip(0) =~= s);
    }
}

proof fn words_of_ascii(s: Seq<char>)
    requires
        ascii(s),
    ensures
        forall|i: int| 0 <= i < words(s).len() ==> ascii(#[trigger] words(s)[i]),
    decreases s.len(),
{
    let t = trim_start(s);
    trim_start_len(s);
    trim_start_is_a_tail(s);
    if t.len() > 0 {
        word_len_bounds(t);
        let n = word_len(t);
        let from = s.len() - t.len();
        assert forall|i: int| 0 <= i < t.len() implies (#[trigger] t[i] as int) < 128 by {
            assert(t[i] == s[from + i]);
        }
        words_of_ascii(t.skip(n));
        assert forall|i: int| 0 <= i < words(s).len() implies ascii(#[trigger] words(s)[i]) by {
            if i > 0 {
                assert(words(s)[i] == words(t.skip(n))[i - 1]);
            } else {
                assert(words(s)[0] == t.take(n));
            }
        }
    }
}

proof fn joined_ascii(parts: Seq<Seq<char>>)
    requires
        forall|i: int| 0 <= i < parts.len() ==> ascii(#[trigger] parts[i]),
    ensures
        ascii(joined(parts, " "@)),
    decreases parts.len(),
{
    reveal_strlit(" ");
    assert(" "@ =~= seq![' ']);
    if parts.len() == 1 {
        assert(ascii(parts[0]));
    } else if parts.len() > 1 {
        let front = parts.drop_last();
        assert forall|i: int| 0 <= i < front.len() implies ascii(#[trigger] front[i]) by {
            assert(front[i] == parts[i]);
        }
        joined_ascii(front);
        assert(ascii(parts[parts.len() - 1]));
    }
}

/// A text of blanks trims to nothing, and any other to a text that starts and ends
/// with no blank.
pub proof fn blank_texts_trim_to_nothing(s: Seq<char>)
    ensures
        trimmed(s).len() == 0 <==> blank(s),
        !blank(s) ==> !whitespace(trimmed(s)[0]) && !whitespace(trimmed(s).last()),
{
    trimming_takes_off_blanks(s);
    let (i, j) = choose|i: int, j: int|
        0 <= i <= j <= s.len() && trimmed(s) == #[trigger] s.subrange(i, j) && (forall|k: int|
            0 <= k < i ==> whitespace(#[trigger] s[k])) && (forall|k: int|
            j <= k < s.len() ==> whitespace(#[trigger] s[k])) && (i < j ==> !whitespace(s[i])
            && !whitespace(s[j - 1]));
    if i == j {
        assert forall|k: int| 0 <= k < s.len() implies whitespace(#[trigger] s[k]) by {}
    } else {
        assert(!whitespace(s[i]));
    }
}

/// Trimming takes blanks off the two ends of a text and nothing else.
pub proof fn trimming_takes_off_blanks(s: Seq<char>)
    ensures
        exists|i: int, j: int|
            0 <= i <= j <= s.len() && trimmed(s) == #[trigger] s.subrange(i, j) && (forall|k: int|
                0 <= k < i ==> whitespace(#[trigger] s[k])) && (forall|k: int|
                j <= k < s.len() ==> whitespace(#[trigger] s[k])) && (i < j ==> !whitespace(s[i])
                && !whitespace(s[j - 1])),
{
    trim_start_takes_off_blanks(s);
    let i = choose|i: int|
        0 <= i <= s.len() && trim_start(s) == #[trigger] s.skip(i) && (forall|k: int|
            0 <= k < i ==> whitespace(#[trigger] s[k])) && (i < s.len() ==> !whitespace(s[i]));
    let rest = s.skip(i);
    trim_end_takes_off_blanks(rest);
    let n = choose|n: int|
        0 <= n <= rest.len() && trim_end(rest) == #[trigger] rest.take(n) && (forall|k: int|
            n <= k < rest.len() ==> whitespace(#[trigger] rest[k])) && (n > 0 ==> !whitespace(
            rest[n - 1],
        ));
    assert(rest.take(n) =~= s.subrange(i, i + n));
    assert forall|k: int| i + n <= k < s.len() implies whitespace(#[trigger] s[k]) by {
        assert(rest[k - i] == s[k]);
    }
    if n > 0 {
        assert(rest[n - 1] == s[i + n - 1]);
    }
}

proof fn trim_start_takes_off_blanks(s: Seq<char>)
    ensures
        exists|i: int|
            0 <= i <= s.len() && trim_start(s) == #[trigger] s.skip(i) && (forall|k: int|
                0 <= k < i ==> whitespace(#[trigger] s[k])) && (i < s.len() ==> !whitespace(s[i])),
    decreases s.len(),
{
    if s.len() > 0 && whitespace(s[0]) {
        let t = s.drop_first();
        trim_start_takes_off_blanks(t);
        let i = choose|i: int|
            0 <= i <= t.len() && trim_start(t) == #[trigger] t.skip(i) && (forall|k: int|
                0 <= k < i ==> whitespace(#[trigger] t[k])) && (i < t.len() ==> !whitespace(t[i]));
        assert(t.skip(i) =~= s.skip(i + 1));
        assert forall|k: int| 0 <= k < i + 1 implies whitespace(#[trigger] s[k]) by {
            if k > 0 {
                assert(t[k - 1] == s[k]);
            }
        }
    } else {
        assert(s.skip(0) =~= s);
    }
}

proof fn trim_end_takes_off_blanks(s: Seq<char>)
    ensures
        exists|n: int|
            0 <= n <= s.len() && trim_end(s) == #[trigger] s.take(n) && (forall|k: int|
                n <= k < s.len() ==> whitespace(#[trigger] s[k])) && (n > 0 ==> !whitespace(
                s[n - 1],
            )),
    decreases s.len(),
{
    if s.len() > 0 && whitespace(s.last()) {
        let t = s.drop_last();
        trim_end_takes_off_blanks(t);
        let n = choose|n: int|
            0 <= n <= t.len() && trim_end(t) == #[trigger] t.take(n) && (forall|k: int|
                n <= k < t.len() ==> whitespace(#[trigger] t[k])) && (n > 0 ==> !whitespace(
                t[n - 1],
            ));
        assert(t.take(n) =~= s.take(n));
        assert forall|k: int| n <= k < s.len() implies whitespace(#[trigger] s[k]) by {
            if k < t.len() {
                assert(t[k] == s[k]);
            }
        }
    } else {
        assert(s.take(s.len() as int) =~= s);
    }
}

/// The pieces of a text, joined by what it was split on, are the text again, and
/// no piece holds what it was split on.
pub proof fn pieces_join_to_the_text(s: Seq<char>, c: char)
    ensures
        split_on(s, c).len() > 0,
        joined(split_on(s, c), seq![c]) == s,
        forall|i: int| 0 <= i < split_on(s, c).len() ==> !(#[trigger] split_on(s, c)[i]).contains(c),
    decreases s.len(),
{
    let i = find_char(s, c);
    find_char_bounds(s, c);
    let parts = split_on(s, c);
    if i < s.len() {
        let rest = s.skip(i + 1);
        pieces_join_to_the_text(rest, c);
        joined_front(s.take(i), split_on(rest, c), seq![c]);
        assert(parts =~= seq![s.take(i)] + split_on(rest, c));
        assert(s.take(i) + seq![c] + rest =~= s);
        assert forall|k: int| 0 <= k < parts.len() implies !(#[trigger] parts[k]).contains(c) by {
            if k > 0 {
                assert(parts[k] == split_on(rest, c)[k - 1]);
            }
        }
    } else {
        assert(parts =~= seq![s]);
        assert(seq![s].drop_last() =~= seq![]);
    }
}

proof fn joined_front(first: Seq<char>, rest: Seq<Seq<char>>, sep: Seq<char>)
    requires
        rest.len() > 0,
    ensures
        joined(seq![first] + rest, sep) == first + sep + joined(rest, sep),
    decreases rest.len(),
{
    let all = seq![first] + rest;
    reveal_with_fuel(joined, 2);
    if rest.len() == 1 {
        assert(all.drop_last() =~= seq![first]);
        assert(joined(all, sep) =~= first + sep + joined(rest, sep));
    } else {
        joined_front(first, rest.drop_last(), sep);
        assert(all.drop_last() =~= seq![first] + rest.drop_last());
        assert(joined(all, sep) =~= first + sep + joined(rest, sep));
    }
}

/// Texts that are the same up to the case of ASCII letters have the same length,
/// and differ only where one has a letter in the other case.
pub proof fn same_texts_differ_in_case_alone(a: Seq<char>, b: Seq<char>)
    ensures
        same_ignoring_ascii_case(a, b) <==> a.len() == b.len() && forall|i: int|
            0 <= i < a.len() ==> {
                ||| (#[trigger] a[i]) == b[i]
                ||| 'a' <= a[i] <= 'z' && b[i] as int == a[i] as int - 32
                ||| 'a' <= b[i] <= 'z' && a[i] as int == b[i] as int - 32
            },
        same_ignoring_ascii_case(a, a),
        same_ignoring_ascii_case(a, b) == same_ignoring_ascii_case(b, a),
{
}

/// A text occurs in another exactly where the other is something before it, the
/// text, and something behind it.
pub proof fn occurring_texts_stand_within(s: Seq<char>, part: Seq<char>)
    ensures
        occurs(s, part) <==> exists|p: Seq<char>, q: Seq<char>| s == #[trigger] (p + part + q),
        forall|p: Seq<char>, q: Seq<char>| occurs(#[trigger] (p + part + q), part),
{
    if occurs(s, part) {
        let at = choose|at: int| occurs_at(s, part, at);
        let p = s.take(at);
        let q = s.skip(at + part.len());
        assert(p + part + q =~= s);
    }
    assert forall|p: Seq<char>, q: Seq<char>| occurs(#[trigger] (p + part + q), part) by {
        assert((p + part + q).subrange(p.len() as int, (p.len() + part.len()) as int) =~= part);
        assert(occurs_at(p + part + q, part, p.len() as int));
    }
}

/// A text has another as its prefix exactly where it is the other with something
/// behind it.
pub proof fn prefixes_start_the_text(s: Seq<char>, prefix: Seq<char>)
    ensures
        has_prefix(s, prefix) <==> exists|q: Seq<char>| s == #[trigger] (prefix + q),
{
    if has_prefix(s, prefix) {
        let q = s.skip(prefix.len() as int);
        assert(prefix + q =~= s);
    }
    if exists|q: Seq<char>| s == #[trigger] (prefix + q) {
        let q = choose|q: Seq<char>| s == #[trigger] (prefix + q);
        assert((prefix + q).take(prefix.len() as int) =~= prefix);
        assert((prefix + q).subrange(0, prefix.len() as int) =~= prefix);
    }
}

/// A number in decimal has no blank in it or around it, with a sign or without.
pub proof fn decimals_have_no_blanks(n: nat)
    ensures
        trimmed(decimal(n)) == decimal(n),
        trimmed("-"@ + decimal(n)) == "-"@ + decimal(n),
{
    let d = decimal(n);
    decimal_digits(n);
    reveal_strlit("-");
    let m = "-"@ + d;
    assert('0' <= d[0] <= '9');
    assert('0' <= d[d.len() - 1] <= '9');
    assert(m[0] == '-');
    assert(m.last() == d[d.len() - 1]);
}

proof fn negative_digits_read_value(s: Seq<char>, n: int)
    requires
        0 <= n <= s.len(),
        forall|i: int| 0 <= i < n ==> ascii_digit(#[trigger] s[i]),
        digits_value(s, n) <= i64::MAX,
    ensures
        digits_read(s, n, true) == Ok::<int, IntError>(-digits_value(s, n)),
    decreases n,
{
    if n > 0 {
        digits_value_grows(s, n - 1, n);
        negative_digits_read_value(s, n - 1);
    }
}

/// Reading a number that was written in decimal behind a minus gives the number
/// below zero.
pub proof fn negated_decimal_reads_back(n: nat)
    requires
        n <= i64::MAX,
    ensures
        int_read("-"@ + decimal(n)) == Ok::<int, IntError>(-n),
{
    let d = decimal(n);
    reveal_strlit("-");
    decimal_digits(n);
    decimal_value(n);
    negative_digits_read_value(d, d.len() as int);
    assert(("-"@ + d).skip(1) =~= d);
}

/// Each digit more makes a number ten times as large, and adds itself.
pub proof fn digits_count_by_their_place(s: Seq<char>, c: char)
    ensures
        digits_value(s.push(c), s.len() as int + 1) == 10 * digits_value(s, s.len() as int) + (
        c as int - '0' as int),
        digits_value(seq![], 0) == 0,
{
    same_digits(s, s.push(c), s.len() as int);
}

proof fn same_digits(a: Seq<char>, b: Seq<char>, n: int)
    requires
        0 <= n <= a.len(),
        n <= b.len(),
        forall|i: int| 0 <= i < n ==> a[i] == b[i],
    ensures
        digits_value(a, n) == digits_value(b, n),
    decreases n,
{
    if n > 0 {
        same_digits(a, b, n - 1);
    }
}

proof fn digits_are_read(s: Seq<char>, n: int, negative: bool)
    requires
        0 <= n <= s.len(),
    ensures
        digits_read(s, n, negative) matches Ok(v) ==> (forall|i: int|
            0 <= i < n ==> '0' <= #[trigger] s[i] <= '9') && v == (if negative {
            -digits_value(s, n)
        } else {
            digits_value(s, n)
        }) && i64::MIN <= v <= i64::MAX,
        (forall|i: int| 0 <= i < n ==> '0' <= #[trigger] s[i] <= '9') ==> digits_value(s, n) >= 0 && (
        digits_read(s, n, negative) is Ok <==> (if negative {
            -digits_value(s, n) >= i64::MIN
        } else {
            digits_value(s, n) <= i64::MAX
        })),
        digits_read(s, n, negative) matches Err(e) ==> e == IntError::InvalidDigit || e == (
        if negative {
            IntError::TooSmall
        } else {
            IntError::TooLarge
        }),
    decreases n,
{
    if n > 0 {
        digits_are_read(s, n - 1, negative);
    }
}

/// An integer is read exactly from digits behind an optional sign whose number fits in 64
/// bits, and is that number.
pub proof fn integers_are_digits_behind_a_sign(d: Seq<char>)
    ensures
        ({
            let all = d.len() > 0 && forall|i: int| 0 <= i < d.len() ==> '0' <= #[trigger] d[i] <= '9';
            let n = digits_value(d, d.len() as int);
            let bare = d.len() == 0 || (d[0] != '+' && d[0] != '-');
            &&& bare ==> (int_read(d) is Ok <==> all && n <= i64::MAX)
            &&& bare ==> (int_read(d) matches Ok(v) ==> v == n)
            &&& int_read(seq!['+'] + d) is Ok <==> all && n <= i64::MAX
            &&& int_read(seq!['+'] + d) matches Ok(v) ==> v == n
            &&& int_read(seq!['-'] + d) is Ok <==> all && -n >= i64::MIN
            &&& int_read(seq!['-'] + d) matches Ok(v) ==> v == -n
            &&& int_read(d) == Err::<int, IntError>(IntError::Empty) <==> d.len() == 0
        }),
{
    let n = d.len() as int;
    digits_are_read(d, n, false);
    digits_are_read(d, n, true);
    assert((seq!['+'] + d).skip(1) =~= d);
    assert((seq!['-'] + d).skip(1) =~= d);
    if n > 0 {
        digits_are_read(d.skip(1), n - 1, false);
        digits_are_read(d.skip(1), n - 1, true);
    }
}

/// Letters change case and nothing else does: what is put in upper case is in lower case
/// again what it was in lower case.
pub proof fn cases_undo_each_other(s: Seq<char>)
    ensures
        ascii_lowered(ascii_uppered(s)) == ascii_lowered(s),
        ascii_uppered(ascii_lowered(s)) == ascii_uppered(s),
        ascii_lowered(s).len() == s.len() && ascii_uppered(s).len() == s.len(),
        same_ignoring_ascii_case(s, ascii_lowered(s)),
        same_ignoring_ascii_case(s, ascii_uppered(s)),
        forall|i: int|
            0 <= i < s.len() && !('A' <= s[i] <= 'Z') ==> #[trigger] ascii_lowered(s)[i] == s[i],
        forall|i: int|
            0 <= i < s.len() && !('a' <= s[i] <= 'z') ==> #[trigger] ascii_uppered(s)[i] == s[i],
        ascii(s) ==> lowercase(s) == ascii_lowered(s) && uppercase(s) == ascii_uppered(s),
{
    assert(ascii_lowered(ascii_uppered(s)) =~= ascii_lowered(s));
    assert(ascii_uppered(ascii_lowered(s)) =~= ascii_uppered(s));
}

/// Each reason why a text is no integer is told in its own words.
pub proof fn integer_errors_say_what_is_wrong(x: IntError)
    ensures
        x == IntError::Empty ==> int_error_text(x) == "cannot parse integer from empty string"@,
        x == IntError::InvalidDigit ==> int_error_text(x) == "invalid digit found in string"@,
        x == IntError::TooLarge ==> int_error_text(x) == "number too large to fit in target type"@,
        x == IntError::TooSmall ==> int_error_text(x) == "number too small to fit in target type"@,
{
}

} // verus!
