//! File paths with `/` between their parts.

use vstd::prelude::*;
use crate::text;

verus! {

/// The path without what says nothing at its end: separators, and `.` behind a
/// separator.
pub open spec fn strip_end(s: Seq<char>) -> Seq<char>
    decreases s.len(),
{
    if s.len() > 0 && s.last() == '/' {
        strip_end(s.drop_last())
    } else if s.len() > 1 && s.last() == '.' && s[s.len() - 2] == '/' {
        strip_end(s.take(s.len() - 2))
    } else {
        s
    }
}

/// Where the last part of a path starts.
pub open spec fn name_start(s: Seq<char>) -> int
    decreases s.len(),
{
    if s.len() == 0 || s.last() == '/' {
        s.len() as int
    } else {
        name_start(s.drop_last())
    }
}

/// The last part of a path, where it names something.
pub open spec fn name_of(s: Seq<char>) -> Option<Seq<char>> {
    let t = strip_end(s);
    let name = t.skip(name_start(t));
    if name.len() == 0 || name == seq!['.'] || name == seq!['.', '.'] {
        None
    } else {
        Some(name)
    }
}

/// Where the last dot of a name stands; before the name where there is none.
pub open spec fn last_dot(name: Seq<char>) -> int
    decreases name.len(),
{
    if name.len() == 0 {
        -1
    } else if name.last() == '.' {
        name.len() - 1
    } else {
        last_dot(name.drop_last())
    }
}

/// How long the stem of a name is: all of it, without an extension.
pub open spec fn stem_len(name: Seq<char>) -> int {
    if last_dot(name) > 0 {
        last_dot(name)
    } else {
        name.len() as int
    }
}

/// The name of a path without its extension.
pub open spec fn stem_of(s: Seq<char>) -> Option<Seq<char>> {
    match name_of(s) {
        Some(name) => Some(name.take(stem_len(name))),
        None => None,
    }
}

/// What stands behind the last dot of a name, unless the dot comes first.
pub open spec fn extension_of(s: Seq<char>) -> Option<Seq<char>> {
    match name_of(s) {
        Some(name) => if last_dot(name) > 0 {
            Some(name.skip(last_dot(name) + 1))
        } else {
            None
        },
        None => None,
    }
}

/// What stands before the name of a path.
pub open spec fn parent_of(s: Seq<char>) -> Seq<char> {
    let t = strip_end(s);
    let before = t.take(name_start(t));
    if strip_end(before).len() == 0 && before.len() > 0 {
        seq!['/']
    } else {
        strip_end(before)
    }
}

/// A path below another. An absolute path stands for itself.
pub open spec fn below(dir: Seq<char>, path: Seq<char>) -> Seq<char> {
    if path.len() > 0 && path[0] == '/' {
        path
    } else if dir.len() > 0 && dir.last() != '/' {
        dir + seq!['/'] + path
    } else {
        dir + path
    }
}

/// The path with another name.
pub open spec fn renamed(s: Seq<char>, name: Seq<char>) -> Seq<char> {
    below(
        if name_of(s) is Some {
            parent_of(s)
        } else {
            s
        },
        name,
    )
}

/// The path with another extension.
pub open spec fn with_ext(s: Seq<char>, extension: Seq<char>) -> Seq<char> {
    match name_of(s) {
        Some(name) => {
            let t = strip_end(s);
            let stem = t.take(name_start(t) + stem_len(name));
            if extension.len() == 0 {
                stem
            } else {
                stem + seq!['.'] + extension
            }
        },
        None => s,
    }
}

proof fn strip_end_len(s: Seq<char>)
    ensures
        strip_end(s).len() <= s.len(),
        strip_end(s) == s.take(strip_end(s).len() as int),
    decreases s.len(),
{
    if s.len() > 0 && s.last() == '/' {
        strip_end_len(s.drop_last());
        let n = strip_end(s).len() as int;
        assert(s.drop_last().take(n) =~= s.take(n));
    } else if s.len() > 1 && s.last() == '.' && s[s.len() - 2] == '/' {
        strip_end_len(s.take(s.len() - 2));
        let n = strip_end(s).len() as int;
        assert(s.take(s.len() - 2).take(n) =~= s.take(n));
    } else {
        assert(s.take(s.len() as int) =~= s);
    }
}

proof fn name_start_bounds(s: Seq<char>)
    ensures
        0 <= name_start(s) <= s.len(),
        forall|i: int| name_start(s) <= i < s.len() ==> s[i] != '/',
    decreases s.len(),
{
    if s.len() > 0 && s.last() != '/' {
        name_start_bounds(s.drop_last());
        assert forall|i: int| name_start(s) <= i < s.len() implies s[i] != '/' by {
            if i < s.len() - 1 {
                assert(s.drop_last()[i] == s[i]);
            }
        }
    }
}

pub proof fn last_dot_bounds(name: Seq<char>)
    ensures
        -1 <= last_dot(name) < name.len(),
    decreases name.len(),
{
    if name.len() > 0 && name.last() != '.' {
        last_dot_bounds(name.drop_last());
    }
}

/// The length of a path without what says nothing at its end.
fn stripped_len(chars: &Vec<char>, from: usize) -> (r: usize)
    requires
        from <= chars@.len(),
    ensures
        r <= from,
        strip_end(chars@.take(from as int)) == chars@.take(r as int),
{
    let mut n: usize = from;
    loop
        invariant
            n <= from <= chars@.len(),
            strip_end(chars@.take(from as int)) == strip_end(chars@.take(n as int)),
        ensures
            n <= from,
            strip_end(chars@.take(from as int)) == chars@.take(n as int),
        decreases n,
    {
        let ghost t = chars@.take(n as int);
        if n > 0 && chars[n - 1] == '/' {
            assert(t.drop_last() =~= chars@.take(n - 1));
            n = n - 1;
        } else if n > 1 && chars[n - 1] == '.' && chars[n - 2] == '/' {
            assert(t.take(t.len() - 2) =~= chars@.take(n - 2));
            n = n - 2;
        } else {
            break;
        }
    }
    n
}

/// Where the last part of a path starts.
fn name_start_index(chars: &Vec<char>, len: usize) -> (r: usize)
    requires
        len <= chars@.len(),
    ensures
        r <= len,
        r == name_start(chars@.take(len as int)),
{
    let mut n: usize = len;
    while n > 0 && chars[n - 1] != '/'
        invariant
            n <= len <= chars@.len(),
            name_start(chars@.take(len as int)) == name_start(chars@.take(n as int)),
        decreases n,
    {
        assert(chars@.take(n as int).drop_last() =~= chars@.take(n - 1));
        n = n - 1;
    }
    n
}

/// Where the last dot of a name stands, if behind its first character.
fn inner_dot(chars: &Vec<char>, from: usize, to: usize) -> (r: Option<usize>)
    requires
        from <= to <= chars@.len(),
    ensures
        match r {
            Some(i) => from < i < to && i - from == last_dot(
                chars@.subrange(from as int, to as int),
            ),
            None => last_dot(chars@.subrange(from as int, to as int)) <= 0,
        },
{
    let mut n: usize = to;
    while n > from
        invariant
            from <= n <= to <= chars@.len(),
            last_dot(chars@.subrange(from as int, to as int)) == last_dot(
                chars@.subrange(from as int, n as int),
            ),
        decreases n,
    {
        let ghost t = chars@.subrange(from as int, n as int);
        if chars[n - 1] == '.' {
            if n - 1 > from {
                return Some(n - 1);
            }
            return None;
        }
        assert(t.drop_last() =~= chars@.subrange(from as int, n - 1));
        n = n - 1;
    }
    None
}

/// Where the name of a path stands in it.
fn name_range(chars: &Vec<char>) -> (r: Option<(usize, usize)>)
    ensures
        match r {
            Some((from, to)) => from < to <= chars@.len() && strip_end(chars@) == chars@.take(
                to as int,
            ) && from == name_start(strip_end(chars@)) && name_of(chars@) == Some(
                chars@.subrange(from as int, to as int),
            ),
            None => name_of(chars@) is None,
        },
{
    let to = stripped_len(chars, chars.len());
    assert(chars@.take(chars@.len() as int) =~= chars@);
    let from = name_start_index(chars, to);
    let ghost t = strip_end(chars@);
    assert(t.skip(name_start(t)) =~= chars@.subrange(from as int, to as int));
    if from == to {
        return None;
    }
    if to - from == 1 && chars[from] == '.' {
        assert(chars@.subrange(from as int, to as int) =~= seq!['.']);
        return None;
    }
    if to - from == 2 && chars[from] == '.' && chars[from + 1] == '.' {
        assert(chars@.subrange(from as int, to as int) =~= seq!['.', '.']);
        return None;
    }
    proof {
        let name = chars@.subrange(from as int, to as int);
        if name == seq!['.'] {
            assert(name[0] == '.');
        }
        if name == seq!['.', '.'] {
            assert(name[0] == '.' && name[1] == '.');
        }
    }
    Some((from, to))
}

/// The last part of a path, where it names something.
pub fn file_name(path: &str) -> (r: Option<String>)
    ensures
        text::opt_text(r) == name_of(path@),
{
    let chars = text::chars_of(path);
    match name_range(&chars) {
        Some((from, to)) => Some(text::string_of(&chars, from, to)),
        None => None,
    }
}

/// The name of a path without its extension.
pub fn file_stem(path: &str) -> (r: Option<String>)
    ensures
        text::opt_text(r) == stem_of(path@),
{
    let chars = text::chars_of(path);
    match name_range(&chars) {
        Some((from, to)) => {
            let ghost name = chars@.subrange(from as int, to as int);
            match inner_dot(&chars, from, to) {
                Some(i) => {
                    assert(chars@.subrange(from as int, i as int) =~= name.take(stem_len(name)));
                    Some(text::string_of(&chars, from, i))
                },
                None => {
                    assert(name =~= name.take(stem_len(name)));
                    Some(text::string_of(&chars, from, to))
                },
            }
        },
        None => None,
    }
}

/// The extension of a path.
pub fn extension(path: &str) -> (r: Option<String>)
    ensures
        text::opt_text(r) == extension_of(path@),
{
    let chars = text::chars_of(path);
    match name_range(&chars) {
        Some((from, to)) => {
            let ghost name = chars@.subrange(from as int, to as int);
            match inner_dot(&chars, from, to) {
                Some(i) => {
                    assert(chars@.subrange(i + 1, to as int) =~= name.skip(last_dot(name) + 1));
                    Some(text::string_of(&chars, i + 1, to))
                },
                None => None,
            }
        },
        None => None,
    }
}

/// A path below another.
pub fn join(dir: &str, path: &str) -> (r: String)
    ensures
        r@ == below(dir@, path@),
{
    let inner = text::chars_of(path);
    if inner.len() > 0 && inner[0] == '/' {
        return path.to_owned();
    }
    let outer = text::chars_of(dir);
    if outer.len() > 0 && outer[outer.len() - 1] != '/' {
        let mut r = dir.to_owned();
        r.push('/');
        r.append(path);
        assert(r@ =~= dir@ + seq!['/'] + path@);
        r
    } else {
        text::cat2(dir, path)
    }
}

/// The path with another name.
pub fn with_file_name(path: &str, name: &str) -> (r: String)
    ensures
        r@ == renamed(path@, name@),
{
    let chars = text::chars_of(path);
    match name_range(&chars) {
        Some((from, to)) => {
            let end = stripped_len(&chars, from);
            let ghost t = strip_end(chars@);
            assert(t.take(name_start(t)) =~= chars@.take(from as int));
            if end == 0 && from > 0 {
                proof {
                    reveal_strlit("/");
                }
                assert("/"@ =~= seq!['/']);
                join("/", name)
            } else {
                assert(chars@.subrange(0, end as int) =~= chars@.take(end as int));
                let parent = text::string_of(&chars, 0, end);
                join(parent.as_str(), name)
            }
        },
        None => join(path, name),
    }
}

/// The path with another extension.
pub fn with_extension(path: &str, extension: &str) -> (r: String)
    ensures
        r@ == with_ext(path@, extension@),
{
    let chars = text::chars_of(path);
    match name_range(&chars) {
        Some((from, to)) => {
            let ghost t = strip_end(chars@);
            let ghost name = chars@.subrange(from as int, to as int);
            let end = match inner_dot(&chars, from, to) {
                Some(i) => i,
                None => to,
            };
            assert(end == from + stem_len(name));
            assert(t.take(name_start(t) + stem_len(name)) =~= chars@.subrange(0, end as int));
            let mut r = text::string_of(&chars, 0, end);
            if text::chars_of(extension).len() == 0 {
                return r;
            }
            let ghost stem = r@;
            r.push('.');
            r.append(extension);
            assert(r@ =~= stem + seq!['.'] + extension@);
            r
        },
        None => path.to_owned(),
    }
}

/// The parts of a path that count, of its first `n` pieces: separators in a row
/// are one, and `.` counts only at the start of a relative path.
pub open spec fn counting(pieces: Seq<Seq<char>>, n: int) -> Seq<Seq<char>>
    decreases n,
{
    if n <= 0 {
        seq![]
    } else {
        let front = counting(pieces, n - 1);
        if pieces[n - 1].len() == 0 || (pieces[n - 1] == seq!['.'] && n > 1) {
            front
        } else {
            front.push(pieces[n - 1])
        }
    }
}

/// What two spellings of one path have in common: whether it is absolute, and
/// its parts.
pub open spec fn path_key(s: Seq<char>) -> (bool, Seq<Seq<char>>) {
    let pieces = text::split_on(s, '/');
    (s.len() > 0 && s[0] == '/', counting(pieces, pieces.len() as int))
}

/// Whether two texts spell one path.
pub open spec fn same(a: Seq<char>, b: Seq<char>) -> bool {
    path_key(a) == path_key(b)
}

fn counts(piece: &str, first: bool) -> (r: bool)
    ensures
        r == !(piece@.len() == 0 || (piece@ == seq!['.'] && !first)),
{
    let chars = text::chars_of(piece);
    if chars.len() == 0 {
        return false;
    }
    if !first && chars.len() == 1 && chars[0] == '.' {
        assert(piece@ =~= seq!['.']);
        return false;
    }
    proof {
        if piece@ == seq!['.'] {
            assert(piece@[0] == '.' && piece@.len() == 1);
        }
    }
    true
}

fn parts(path: &str) -> (r: Vec<String>)
    ensures
        text::texts(r@) == path_key(path@).1,
{
    let pieces = text::split_char(path, '/');
    let ghost all = text::texts(pieces@);
    let mut out: Vec<String> = Vec::new();
    let mut i: usize = 0;
    assert(text::texts(out@) =~= counting(all, 0));
    while i < pieces.len()
        invariant
            i <= pieces@.len(),
            all == text::texts(pieces@),
            text::texts(out@) == counting(all, i as int),
        decreases pieces@.len() - i,
    {
        if counts(pieces[i].as_str(), i == 0) {
            let ghost before = text::texts(out@);
            let piece = pieces[i].clone();
            out.push(piece);
            assert(text::texts(out@) =~= before.push(piece@));
        }
        i += 1;
    }
    out
}

fn is_absolute(path: &str) -> (r: bool)
    ensures
        r == path_key(path@).0,
{
    let chars = text::chars_of(path);
    chars.len() > 0 && chars[0] == '/'
}

/// Whether two texts spell one path.
pub fn same_path(a: &str, b: &str) -> (r: bool)
    ensures
        r == same(a@, b@),
{
    if is_absolute(a) != is_absolute(b) {
        return false;
    }
    let x = parts(a);
    let y = parts(b);
    let ghost xs = text::texts(x@);
    let ghost ys = text::texts(y@);
    if x.len() != y.len() {
        assert(xs.len() != ys.len());
        return false;
    }
    let mut i: usize = 0;
    while i < x.len()
        invariant
            i <= x@.len(),
            x@.len() == y@.len(),
            xs == text::texts(x@),
            ys == text::texts(y@),
            xs == path_key(a@).1,
            ys == path_key(b@).1,
            forall|j: int| 0 <= j < i ==> xs[j] == ys[j],
        decreases x@.len() - i,
    {
        if !text::str_eq(x[i].as_str(), y[i].as_str()) {
            assert(xs[i as int] != ys[i as int]);
            return false;
        }
        i += 1;
    }
    assert(xs =~= ys);
    true
}

/// Whether a text can stand as one part of a path.
pub open spec fn plain_part(name: Seq<char>) -> bool {
    name.len() > 0 && !name.contains('/') && name != seq!['.']
}

proof fn counting_prefix(pieces: Seq<Seq<char>>, more: Seq<Seq<char>>, n: int)
    requires
        0 <= n <= pieces.len(),
        n <= more.len(),
        forall|i: int| 0 <= i < n ==> pieces[i] == more[i],
    ensures
        counting(pieces, n) == counting(more, n),
    decreases n,
{
    if n > 0 {
        counting_prefix(pieces, more, n - 1);
    }
}

proof fn split_on_nonempty(s: Seq<char>, c: char)
    ensures
        text::split_on(s, c).len() > 0,
{
}

/// A name below a directory adds one part to the directory's parts.
pub proof fn below_adds_a_part(dir: Seq<char>, name: Seq<char>)
    requires
        plain_part(name),
    ensures
        path_key(below(dir, name)) == (path_key(dir).0, path_key(dir).1.push(name)),
{
    if name[0] == '/' {
        assert(name.contains(name[0]));
    }
    let whole = below(dir, name);
    if dir.len() == 0 {
        assert(whole =~= name);
        text::find_char_bounds(name, '/');
        if text::find_char(name, '/') < name.len() {
            assert(name.contains(name[text::find_char(name, '/')]));
        }
        assert(text::split_on(name, '/') == seq![name]);
        assert(text::split_on(dir, '/') == seq![dir]);
        assert(counting(seq![name], 0) =~= seq![]);
        assert(counting(seq![dir], 0) =~= seq![]);
        assert(counting(seq![name], 1) =~= seq![name]);
        assert(counting(seq![dir], 1) =~= seq![]);
        assert(path_key(dir).1.push(name) =~= seq![name]);
    } else if dir.last() != '/' {
        text::split_on_append(dir, name, '/');
        let pieces = text::split_on(dir, '/');
        let more = text::split_on(whole, '/');
        split_on_nonempty(dir, '/');
        counting_prefix(pieces, more, pieces.len() as int);
    } else {
        let q = dir.drop_last();
        let empty = Seq::<char>::empty();
        assert(dir =~= q + seq!['/'] + empty);
        assert(whole =~= q + seq!['/'] + name);
        text::split_on_append(q, name, '/');
        text::split_on_append(q, empty, '/');
        split_on_nonempty(q, '/');
        let pieces = text::split_on(q, '/');
        counting_prefix(pieces, text::split_on(whole, '/'), pieces.len() as int);
        counting_prefix(pieces, text::split_on(dir, '/'), pieces.len() as int);
    }
}

/// The name of a path is one part of it.
pub proof fn name_is_a_part(s: Seq<char>)
    requires
        name_of(s) is Some,
    ensures
        plain_part(name_of(s)->0),
        name_of(s)->0 != seq!['.', '.'],
{
    let t = strip_end(s);
    name_start_bounds(t);
    let name = t.skip(name_start(t));
    assert forall|i: int| 0 <= i < name.len() implies name[i] != '/' by {
        assert(t[name_start(t) + i] != '/');
    }
}

proof fn name_start_of_tail(dir: Seq<char>, name: Seq<char>)
    requires
        !name.contains('/'),
        dir.len() == 0 || dir.last() == '/',
    ensures
        name_start(dir + name) == dir.len(),
    decreases name.len(),
{
    if name.len() == 0 {
        assert(dir + name =~= dir);
    } else {
        let whole = dir + name;
        assert(name.contains(name[name.len() - 1]));
        assert(whole.last() == name.last());
        assert(whole.drop_last() =~= dir + name.drop_last());
        assert forall|i: int| 0 <= i < name.drop_last().len() implies name.drop_last()[i] != '/' by {
            assert(name.contains(name[i]));
        }
        name_start_of_tail(dir, name.drop_last());
    }
}

/// A path below a directory has the name it was given.
pub proof fn name_below(dir: Seq<char>, name: Seq<char>)
    requires
        plain_part(name),
        name.last() != '.',
    ensures
        name_of(below(dir, name)) == Some(name),
{
    assert(name.contains(name[0]));
    assert(name.contains(name[name.len() - 1]));
    let whole = below(dir, name);
    let before = if dir.len() > 0 && dir.last() != '/' {
        dir + seq!['/']
    } else {
        dir
    };
    assert(whole =~= before + name);
    assert(whole.last() == name.last());
    assert(strip_end(whole) == whole);
    name_start_of_tail(before, name);
    assert(whole.skip(before.len() as int) =~= name);
}

/// Paths that differ in a plain name alone are different.
pub proof fn renaming_is_injective(s: Seq<char>, a: Seq<char>, b: Seq<char>)
    requires
        plain_part(a),
        plain_part(b),
        same(renamed(s, a), renamed(s, b)),
    ensures
        a == b,
{
    let dir = if name_of(s) is Some {
        parent_of(s)
    } else {
        s
    };
    below_adds_a_part(dir, a);
    below_adds_a_part(dir, b);
    let parts = path_key(dir).1;
    assert(parts.push(a).last() == parts.push(b).last());
}

/// A name is its stem, and behind a dot its extension where it has one. An extension has
/// no dot in it, and a name that starts with its only dot has none.
pub proof fn names_are_stem_and_extension(s: Seq<char>)
    requires
        name_of(s) is Some,
    ensures
        stem_of(s) is Some,
        stem_of(s)->0.len() > 0,
        match extension_of(s) {
            Some(e) => name_of(s)->0 == stem_of(s)->0 + seq!['.'] + e && !e.contains('.'),
            None => name_of(s)->0 == stem_of(s)->0 && forall|i: int|
                1 <= i < name_of(s)->0.len() ==> (#[trigger] name_of(s)->0[i]) != '.',
        },
{
    let name = name_of(s)->0;
    let at = last_dot(name);
    last_dot_bounds(name);
    last_dot_is_last(name);
    name_is_a_part(s);
    if at > 0 {
        assert(name =~= name.take(at) + seq!['.'] + name.skip(at + 1));
        let e = name.skip(at + 1);
        assert forall|i: int| 0 <= i < e.len() implies e[i] != '.' by {
            assert(e[i] == name[at + 1 + i]);
        }
    } else {
        assert(name.take(name.len() as int) =~= name);
    }
}

proof fn last_dot_is_last(name: Seq<char>)
    ensures
        last_dot(name) >= 0 ==> name[last_dot(name)] == '.',
        forall|i: int| last_dot(name) < i < name.len() ==> (#[trigger] name[i]) != '.',
    decreases name.len(),
{
    if name.len() > 0 && name.last() != '.' {
        let front = name.drop_last();
        last_dot_is_last(front);
        last_dot_bounds(front);
        assert forall|i: int| last_dot(name) < i < name.len() implies (#[trigger] name[i])
            != '.' by {
            if i < front.len() {
                assert(front[i] == name[i]);
            }
        }
    }
}

/// A path below a directory goes on behind it with one separator; an absolute path, and
/// any path below nothing, stands for itself.
pub proof fn paths_go_on_behind_their_directory(dir: Seq<char>, path: Seq<char>)
    ensures
        path.len() > 0 && path[0] == '/' ==> below(dir, path) == path,
        dir.len() == 0 ==> below(dir, path) == path,
        !(path.len() > 0 && path[0] == '/') && dir.len() > 0 && dir.last() == '/' ==> below(
            dir,
            path,
        ) == dir + path,
        !(path.len() > 0 && path[0] == '/') && dir.len() > 0 && dir.last() != '/' ==> below(
            dir,
            path,
        ) == dir + seq!['/'] + path,
{
    if dir.len() == 0 {
        assert(dir + path =~= path);
    }
}

/// Ends that say nothing go: what stays is how the path begins, it ends in no separator,
/// and what goes is separators and dots.
pub proof fn ends_that_say_nothing_go(s: Seq<char>)
    ensures
        strip_end(s).len() <= s.len(),
        s.take(strip_end(s).len() as int) == strip_end(s),
        strip_end(s).len() > 0 ==> strip_end(s).last() != '/',
        forall|i: int| strip_end(s).len() <= i < s.len() ==> #[trigger] s[i] == '/' || s[i] == '.',
        s.len() > 0 && s.last() != '/' && s.last() != '.' ==> strip_end(s) == s,
    decreases s.len(),
{
    if s.len() > 0 && s.last() == '/' {
        let t = s.drop_last();
        ends_that_say_nothing_go(t);
        assert(s.take(strip_end(t).len() as int) =~= t.take(strip_end(t).len() as int));
        assert forall|i: int| strip_end(s).len() <= i < s.len() implies #[trigger] s[i] == '/'
            || s[i] == '.' by {
            if i < t.len() {
                assert(t[i] == s[i]);
            }
        }
    } else if s.len() > 1 && s.last() == '.' && s[s.len() - 2] == '/' {
        let t = s.take(s.len() - 2);
        ends_that_say_nothing_go(t);
        assert(s.take(strip_end(t).len() as int) =~= t.take(strip_end(t).len() as int));
        assert forall|i: int| strip_end(s).len() <= i < s.len() implies #[trigger] s[i] == '/'
            || s[i] == '.' by {
            if i < t.len() {
                assert(t[i] == s[i]);
            }
        }
    } else {
        assert(s.take(s.len() as int) =~= s);
    }
}

/// The name of a path begins behind its last separator.
pub proof fn names_begin_behind_the_last_separator(s: Seq<char>)
    ensures
        0 <= name_start(s) <= s.len(),
        forall|i: int| name_start(s) <= i < s.len() ==> #[trigger] s[i] != '/',
        name_start(s) > 0 ==> s[name_start(s) - 1] == '/',
    decreases s.len(),
{
    if s.len() > 0 && s.last() != '/' {
        let t = s.drop_last();
        names_begin_behind_the_last_separator(t);
        assert forall|i: int| name_start(s) <= i < s.len() implies #[trigger] s[i] != '/' by {
            if i < t.len() {
                assert(t[i] == s[i]);
            }
        }
    }
}

/// Another extension takes the place of the old one, and nothing before it changes.
pub proof fn extensions_are_exchanged(s: Seq<char>, extension: Seq<char>)
    ensures
        ({
            let bare = with_ext(s, seq![]);
            &&& name_of(s) is None ==> with_ext(s, extension) == s
            &&& name_of(s) is Some && extension.len() > 0 ==> with_ext(s, extension) == bare + seq![
                '.',
            ] + extension
            &&& extension_of(s) matches Some(e) ==> strip_end(s) == bare + seq!['.'] + e
            &&& name_of(s) is Some && extension_of(s) is None ==> strip_end(s) == bare
        }),
{
    let t = strip_end(s);
    names_begin_behind_the_last_separator(t);
    if let Some(name) = name_of(s) {
        last_dot_bounds(name);
        let bare = with_ext(s, seq![]);
        let d = last_dot(name);
        if d > 0 {
            dots_stand_where_they_are_found(name);
            assert(t =~= bare + seq!['.'] + name.skip(d + 1));
        } else {
            assert(t =~= bare);
        }
    }
}

proof fn dots_stand_where_they_are_found(name: Seq<char>)
    requires
        last_dot(name) >= 0,
    ensures
        last_dot(name) < name.len(),
        name[last_dot(name)] == '.',
    decreases name.len(),
{
    if name.last() != '.' {
        dots_stand_where_they_are_found(name.drop_last());
    }
}

/// A path gets another name within the same directory.
pub proof fn renaming_stays_in_the_directory(
    dir: Seq<char>,
    old_name: Seq<char>,
    name: Seq<char>,
)
    requires
        plain_part(old_name),
        old_name != seq!['.', '.'],
        plain_part(name),
        dir.len() > 0,
        strip_end(dir) == dir,
    ensures
        name_of(dir + seq!['/'] + old_name) == Some(old_name),
        parent_of(dir + seq!['/'] + old_name) == dir,
        renamed(dir + seq!['/'] + old_name, name) == dir + seq!['/'] + name,
        renamed(old_name, name) == name,
{
    let s = dir + seq!['/'] + old_name;
    let k = dir.len() as int + 1;
    ends_that_say_nothing_go(dir);
    assert(s.last() == old_name.last());
    assert(old_name.contains(old_name.last()));
    assert(s.last() != '/');
    if s.last() == '.' && s[s.len() - 2] == '/' {
        if old_name.len() == 1 {
            assert(old_name =~= seq!['.']);
        } else {
            assert(old_name[old_name.len() - 2] == '/');
            assert(old_name.contains('/'));
        }
    }
    assert(strip_end(s) == s);
    names_begin_behind_the_last_separator(s);
    assert forall|i: int| k <= i < s.len() implies #[trigger] s[i] != '/' by {
        assert(s[i] == old_name[i - k]);
        assert(old_name.contains(old_name[i - k]));
    }
    assert(s[k - 1] == '/');
    assert(name_start(s) == k);
    assert(s.skip(k) =~= old_name);
    assert(s.take(k) =~= dir + seq!['/']);
    let before = dir + seq!['/'];
    assert(before.drop_last() =~= dir);
    assert(strip_end(before) == dir);
    assert(name.contains(name[0]));
    assert(below(dir, name) =~= dir + seq!['/'] + name);
    names_begin_behind_the_last_separator(old_name);
    if old_name.last() == '.' && old_name.len() > 1 && old_name[old_name.len() - 2] == '/' {
        assert(old_name.contains('/'));
    }
    assert(strip_end(old_name) == old_name);
    if name_start(old_name) > 0 {
        assert(old_name.contains(old_name[name_start(old_name) - 1]));
    }
    assert(old_name.skip(0) =~= old_name);
    assert(old_name.take(0) =~= Seq::<char>::empty());
    assert(strip_end(Seq::<char>::empty()) =~= Seq::<char>::empty());
    assert(below(Seq::<char>::empty(), name) =~= name);
}

} // verus!
