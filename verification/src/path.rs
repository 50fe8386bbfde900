//! File paths as text.
//!
//! A path is a string whose components are separated by `/`. Repeated separators,
//! a trailing separator and a trailing `.` component do not count: `a/b`, `a//b/`
//! and `a/b/.` name the same file. The functions here take a path apart (file name,
//! stem, extension, parent) and put one together (`join`, `with_extension`). They
//! read a path as `std::path::Path` reads it on Unix, and change it as
//! `PathBuf::set_extension` and `PathBuf::push` do there.

use vstd::prelude::*;
use crate::text::{chars_of, string_of, sub_chars};

verus! {

/// The character that separates the components of a path.
pub const SEPARATOR: char = '/';

/// The index of the last `c` in `s`, or -1 where `s` holds none.
pub open spec fn last_index_of(s: Seq<char>, c: char) -> int
    decreases s.len(),
{
    if s.len() == 0 {
        -1
    } else if s.last() == c {
        s.len() - 1
    } else {
        last_index_of(s.drop_last(), c)
    }
}

/// `p` without what does not count at its end: separators, and `.` components
/// that follow a separator.
pub open spec fn strip_trailing(p: Seq<char>) -> Seq<char>
    decreases p.len(),
{
    if p.len() > 0 && p.last() == SEPARATOR {
        strip_trailing(p.drop_last())
    } else if p.len() >= 2 && p.last() == '.' && p[p.len() - 2] == SEPARATOR {
        strip_trailing(p.drop_last())
    } else {
        p
    }
}

/// The last component of `p`: what follows the last separator that counts.
pub open spec fn last_component(p: Seq<char>) -> Seq<char> {
    let t = strip_trailing(p);
    t.subrange(last_index_of(t, SEPARATOR) + 1, t.len() as int)
}

/// The file name of `p`: its last component, unless there is none or it is `.`
/// or `..`.
pub open spec fn file_name(p: Seq<char>) -> Option<Seq<char>> {
    let name = last_component(p);
    if name.len() == 0 || name == seq!['.'] || name == seq!['.', '.'] {
        None
    } else {
        Some(name)
    }
}

/// The extension of `p`: what follows the last `.` of the file name. There is none
/// where the path has no file name, the name has no `.`, or its only `.` comes first.
pub open spec fn extension(p: Seq<char>) -> Option<Seq<char>> {
    match file_name(p) {
        None => None,
        Some(name) => {
            let dot = last_index_of(name, '.');
            if dot <= 0 {
                None
            } else {
                Some(name.subrange(dot + 1, name.len() as int))
            }
        },
    }
}

/// The stem of `p`: the file name without its extension and the `.` before it.
pub open spec fn file_stem(p: Seq<char>) -> Option<Seq<char>> {
    match file_name(p) {
        None => None,
        Some(name) => {
            let dot = last_index_of(name, '.');
            if dot <= 0 {
                Some(name)
            } else {
                Some(name.subrange(0, dot))
            }
        },
    }
}

/// The path of the directory that holds `p`: `p` without its last component. The
/// empty path and the root have none; a path of one component has the empty parent.
pub open spec fn parent(p: Seq<char>) -> Option<Seq<char>> {
    let t = strip_trailing(p);
    if t.len() == 0 {
        None
    } else {
        let head = t.subrange(0, last_index_of(t, SEPARATOR) + 1);
        let dir = strip_trailing(head);
        if dir.len() == 0 && head.len() > 0 {
            Some(seq![SEPARATOR])
        } else {
            Some(dir)
        }
    }
}

/// `p` with the extension of its file name replaced by `ext`, or with `.` and `ext`
/// added where the name has none. An empty `ext` only removes. A path without a file
/// name is left as it is.
pub open spec fn with_extension(p: Seq<char>, ext: Seq<char>) -> Seq<char> {
    match file_stem(p) {
        None => p,
        Some(stem) => {
            let t = strip_trailing(p);
            let base = t.subrange(0, last_index_of(t, SEPARATOR) + 1 + stem.len());
            if ext.len() == 0 {
                base
            } else {
                base + seq!['.'] + ext
            }
        },
    }
}

/// The path `rel` seen from the directory `base`: `rel` itself where it starts at the
/// root, else `base`, a separator where `base` needs one, and `rel`.
pub open spec fn join(base: Seq<char>, rel: Seq<char>) -> Seq<char> {
    if rel.len() > 0 && rel[0] == SEPARATOR {
        rel
    } else if base.len() == 0 || base.last() == SEPARATOR {
        base + rel
    } else {
        base + seq![SEPARATOR] + rel
    }
}

/// Where the last `c` of a sequence is, and that nothing after it is a `c`.
pub proof fn lemma_last_index_of(s: Seq<char>, c: char)
    ensures
        -1 <= last_index_of(s, c) < s.len(),
        last_index_of(s, c) >= 0 ==> s[last_index_of(s, c)] == c,
        forall|j: int| last_index_of(s, c) < j < s.len() ==> s[j] != c,
    decreases s.len(),
{
    if s.len() > 0 && s.last() != c {
        let t = s.drop_last();
        lemma_last_index_of(t, c);
        assert forall|j: int| last_index_of(s, c) < j < s.len() implies s[j] != c by {
            if j < t.len() {
                assert(t[j] != c);
            }
        }
    }
}

/// A `c` with no `c` behind it is the last one.
pub proof fn lemma_last_index_is(s: Seq<char>, c: char, at: int)
    requires
        -1 <= at < s.len(),
        at >= 0 ==> s[at] == c,
        forall|j: int| at < j < s.len() ==> s[j] != c,
    ensures
        last_index_of(s, c) == at,
    decreases s.len(),
{
    if s.len() > 0 && s.last() != c {
        lemma_last_index_is(s.drop_last(), c, at);
    }
}

/// A path that `strip_trailing` leaves as it is: it ends neither in a separator nor
/// in a `.` component behind one.
pub open spec fn is_stripped(p: Seq<char>) -> bool {
    &&& !(p.len() > 0 && p.last() == SEPARATOR)
    &&& !(p.len() >= 2 && p.last() == '.' && p[p.len() - 2] == SEPARATOR)
}

/// What `strip_trailing` gives has nothing left to strip.
pub proof fn lemma_strip_trailing_is_stripped(p: Seq<char>)
    ensures
        is_stripped(strip_trailing(p)),
        strip_trailing(strip_trailing(p)) == strip_trailing(p),
    decreases p.len(),
{
    if !is_stripped(p) {
        lemma_strip_trailing_is_stripped(p.drop_last());
    }
}

/// A file name holds no separator, and is a path that is its own file name.
pub proof fn lemma_file_name_is_plain(p: Seq<char>)
    requires
        file_name(p) is Some,
    ensures
        forall|j: int| 0 <= j < file_name(p)->0.len() ==> file_name(p)->0[j] != SEPARATOR,
        strip_trailing(p).len() > 0,
        strip_trailing(file_name(p)->0) == file_name(p)->0,
        last_index_of(file_name(p)->0, SEPARATOR) == -1,
        file_name(file_name(p)->0) == file_name(p),
        file_stem(file_name(p)->0) == file_stem(p),
        file_stem(p) is Some,
        0 < file_stem(p)->0.len() <= file_name(p)->0.len(),
        file_stem(p)->0 == file_name(p)->0.take(file_stem(p)->0.len() as int),
{
    let t = strip_trailing(p);
    let k = last_index_of(t, SEPARATOR);
    lemma_last_index_of(t, SEPARATOR);
    let name = file_name(p)->0;
    assert(name == t.subrange(k + 1, t.len() as int));
    assert forall|j: int| 0 <= j < name.len() implies name[j] != SEPARATOR by {
        assert(name[j] == t[k + 1 + j]);
    }
    lemma_last_index_is(name, SEPARATOR, -1);
    assert(is_stripped(name));
    assert(name.subrange(0, name.len() as int) == name);
    lemma_last_index_of(name, '.');
}

/// The index just behind the last `c` among the first `end` characters of `v`.
fn after_last(v: &Vec<char>, end: usize, c: char) -> (i: usize)
    requires
        end <= v.len(),
    ensures
        i == last_index_of(v@.take(end as int), c) + 1,
        i <= end,
{
    let mut i: usize = end;
    while i > 0 && v[i - 1] != c
        invariant
            i <= end <= v.len(),
            last_index_of(v@.take(end as int), c) == last_index_of(v@.take(i as int), c),
        decreases i,
    {
        assert(v@.take(i as int).drop_last() == v@.take(i - 1));
        i -= 1;
    }
    i
}

/// How many of the first `end` characters of `v` are left by `strip_trailing`.
fn stripped_len(v: &Vec<char>, end: usize) -> (n: usize)
    requires
        end <= v.len(),
    ensures
        n <= end,
        strip_trailing(v@.take(end as int)) == v@.take(n as int),
{
    let mut n: usize = end;
    loop
        invariant
            n <= end <= v.len(),
            strip_trailing(v@.take(end as int)) == strip_trailing(v@.take(n as int)),
        ensures
            n <= end,
            strip_trailing(v@.take(end as int)) == v@.take(n as int),
        decreases n,
    {
        let cut = if n > 0 && v[n - 1] == SEPARATOR {
            true
        } else {
            n >= 2 && v[n - 1] == '.' && v[n - 2] == SEPARATOR
        };
        if !cut {
            break;
        }
        assert(v@.take(n as int).drop_last() == v@.take(n - 1));
        n -= 1;
    }
    n
}

/// Where the last component of `v` starts and ends.
fn last_component_bounds(v: &Vec<char>) -> (b: (usize, usize))
    ensures
        b.0 <= b.1 <= v.len(),
        strip_trailing(v@) == v@.take(b.1 as int),
        b.0 == last_index_of(strip_trailing(v@), SEPARATOR) + 1,
        last_component(v@) == v@.subrange(b.0 as int, b.1 as int),
{
    assert(v@.take(v.len() as int) == v@);
    let end = stripped_len(v, v.len());
    let start = after_last(v, end, SEPARATOR);
    assert(v@.take(end as int).subrange(start as int, end as int) == v@.subrange(
        start as int,
        end as int,
    ));
    (start, end)
}

/// Where the file name of `v` starts and ends, where it has one.
fn file_name_bounds(v: &Vec<char>) -> (b: Option<(usize, usize)>)
    ensures
        match b {
            Some((start, end)) => {
                &&& start < end <= v.len()
                &&& strip_trailing(v@) == v@.take(end as int)
                &&& start == last_index_of(strip_trailing(v@), SEPARATOR) + 1
                &&& file_name(v@) == Some(v@.subrange(start as int, end as int))
            },
            None => file_name(v@) is None,
        },
{
    let (start, end) = last_component_bounds(v);
    let len = end - start;
    let ghost name = v@.subrange(start as int, end as int);
    if len == 0 {
        None
    } else if len == 1 && v[start] == '.' {
        assert(name =~= seq!['.']);
        None
    } else if len == 2 && v[start] == '.' && v[start + 1] == '.' {
        assert(name =~= seq!['.', '.']);
        None
    } else {
        assert(name != seq!['.']) by {
            if name == seq!['.'] {
                assert(name.len() == 1 && name[0] == '.');
            }
        }
        assert(name != seq!['.', '.']) by {
            if name == seq!['.', '.'] {
                assert(name.len() == 2 && name[0] == '.' && name[1] == '.');
            }
        }
        Some((start, end))
    }
}

/// Where the stem of `v` starts, where it ends, and where the file name ends, where
/// `v` has a file name. The extension, if any, lies one behind the end of the stem.
fn stem_bounds(v: &Vec<char>) -> (b: Option<(usize, usize, usize)>)
    ensures
        match b {
            Some((start, dot, end)) => {
                &&& start < end <= v.len()
                &&& start <= dot <= end
                &&& strip_trailing(v@) == v@.take(end as int)
                &&& start == last_index_of(strip_trailing(v@), SEPARATOR) + 1
                &&& file_name(v@) == Some(v@.subrange(start as int, end as int))
                &&& file_stem(v@) == Some(v@.subrange(start as int, dot as int))
                &&& dot < end ==> extension(v@) == Some(v@.subrange(dot + 1, end as int))
                &&& dot == end ==> extension(v@) is None
            },
            None => file_name(v@) is None,
        },
{
    match file_name_bounds(v) {
        None => None,
        Some((start, end)) => {
            let ghost name = v@.subrange(start as int, end as int);
            let mut i: usize = end;
            assert(name.take((end - start) as int) == name);
            while i > start && v[i - 1] != '.'
                invariant
                    start <= i <= end <= v.len(),
                    name == v@.subrange(start as int, end as int),
                    last_index_of(name, '.') == last_index_of(name.take(i - start), '.'),
                decreases i,
            {
                assert(name.take(i - start).drop_last() == name.take(i - start - 1));
                i -= 1;
            }
            proof {
                if i > start {
                    assert(name.take(i - start).last() == '.');
                }
            }
            // `i` lies one behind the last `.` of the name, or at its start.
            if i <= start + 1 {
                assert(name.subrange(0, name.len() as int) == name);
                Some((start, end, end))
            } else {
                assert(name.subrange(0, i - 1 - start) == v@.subrange(start as int, i - 1));
                assert(name.subrange(i - start, name.len() as int) == v@.subrange(
                    i as int,
                    end as int,
                ));
                Some((start, i - 1, end))
            }
        },
    }
}

/// The file name of the path `p`.
pub fn file_name_of(p: &str) -> (r: Option<String>)
    ensures
        r is Some <==> file_name(p@) is Some,
        r matches Some(name) ==> file_name(p@) == Some(name@),
{
    let v = chars_of(p);
    match file_name_bounds(&v) {
        None => None,
        Some((start, end)) => {
            let name = sub_chars(&v, start, end);
            Some(string_of(&name))
        },
    }
}

/// The extension of the path `p`.
pub fn extension_of(p: &str) -> (r: Option<String>)
    ensures
        r is Some <==> extension(p@) is Some,
        r matches Some(ext) ==> extension(p@) == Some(ext@),
{
    let v = chars_of(p);
    match stem_bounds(&v) {
        None => None,
        Some((_start, dot, end)) => {
            if dot < end {
                let ext = sub_chars(&v, dot + 1, end);
                Some(string_of(&ext))
            } else {
                None
            }
        },
    }
}

/// The parent of the path `p`.
pub fn parent_of(p: &str) -> (r: Option<String>)
    ensures
        r is Some <==> parent(p@) is Some,
        r matches Some(dir) ==> parent(p@) == Some(dir@),
{
    let v = chars_of(p);
    let (start, end) = last_component_bounds(&v);
    if end == 0 {
        return None;
    }
    assert(v@.take(end as int).subrange(0, start as int) == v@.take(start as int));
    let keep = stripped_len(&v, start);
    if keep == 0 && start > 0 {
        let mut root: Vec<char> = Vec::new();
        root.push(SEPARATOR);
        assert(root@ == seq![SEPARATOR]);
        Some(string_of(&root))
    } else {
        let dir = sub_chars(&v, 0, keep);
        assert(v@.subrange(0, keep as int) == v@.take(keep as int));
        Some(string_of(&dir))
    }
}

/// The path `p` with its extension replaced by `ext`.
pub fn with_extension_of(p: &str, ext: &str) -> (r: String)
    ensures
        r@ == with_extension(p@, ext@),
{
    let v = chars_of(p);
    match stem_bounds(&v) {
        None => string_of(&v),
        Some((_start, dot, _end)) => {
            let mut out = sub_chars(&v, 0, dot);
            let e = chars_of(ext);
            if e.len() > 0 {
                out.push('.');
                let mut i: usize = 0;
                while i < e.len()
                    invariant
                        i <= e.len(),
                        out@ == v@.subrange(0, dot as int) + seq!['.'] + e@.take(i as int),
                    decreases e.len() - i,
                {
                    out.push(e[i]);
                    i += 1;
                    assert(e@.take(i as int) == e@.take(i - 1).push(e@[i - 1]));
                }
                assert(e@.take(e.len() as int) == e@);
            }
            proof {
                let t = strip_trailing(v@);
                let stem = file_stem(v@).unwrap();
                assert(t.subrange(0, last_index_of(t, SEPARATOR) + 1 + stem.len()) == v@.subrange(
                    0,
                    dot as int,
                ));
            }
            string_of(&out)
        },
    }
}

/// The path `rel` seen from the directory `base`.
pub fn join_paths(base: &str, rel: &str) -> (r: String)
    ensures
        r@ == join(base@, rel@),
{
    let b = chars_of(base);
    let l = chars_of(rel);
    if l.len() > 0 && l[0] == SEPARATOR {
        return string_of(&l);
    }
    let mut out = sub_chars(&b, 0, b.len());
    assert(out@ == b@);
    if b.len() > 0 && b[b.len() - 1] != SEPARATOR {
        out.push(SEPARATOR);
    }
    let ghost head = out@;
    let mut i: usize = 0;
    while i < l.len()
        invariant
            i <= l.len(),
            out@ == head + l@.take(i as int),
        decreases l.len() - i,
    {
        out.push(l[i]);
        i += 1;
        assert(l@.take(i as int) == l@.take(i - 1).push(l@[i - 1]));
    }
    assert(l@.take(l.len() as int) == l@);
    string_of(&out)
}

} // verus!
