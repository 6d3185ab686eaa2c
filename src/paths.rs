//! Path strings: separator normalisation, joining and the last component.

use vstd::prelude::*;
use crate::models::opt_view;
use crate::text::{chars_of, replace_char, replace_chars, split_chars, split_on, string_of};

verus! {

/// The separator convention of a path.
#[derive(Clone, Copy, PartialEq, Eq, Structural, Debug)]
pub enum PathStyle {
    /// Backslash separators; a forward slash separates as well.
    Windows,
    /// Forward-slash separators.
    Unix,
}

/// Whether `c` separates path components in `style`.
pub open spec fn is_separator(c: char, style: PathStyle) -> bool {
    c == '/' || (style == PathStyle::Windows && c == '\\')
}

/// The separator that `style` writes.
pub open spec fn separator_of(style: PathStyle) -> char {
    match style {
        PathStyle::Windows => '\\',
        PathStyle::Unix => '/',
    }
}

/// The pieces that are not empty, in order.
pub open spec fn nonempty_parts(parts: Seq<Seq<char>>) -> Seq<Seq<char>>
    decreases parts.len(),
{
    if parts.len() == 0 {
        parts
    } else if parts.last().len() == 0 {
        nonempty_parts(parts.drop_last())
    } else {
        nonempty_parts(parts.drop_last()).push(parts.last())
    }
}

/// The pieces joined with `sep` between each two.
pub open spec fn join_parts(parts: Seq<Seq<char>>, sep: char) -> Seq<char>
    decreases parts.len(),
{
    if parts.len() == 0 {
        Seq::empty()
    } else if parts.len() == 1 {
        parts[0]
    } else {
        join_parts(parts.drop_last(), sep) + seq![sep] + parts.last()
    }
}

/// A path with every `other` turned into `sep`, runs of separators collapsed
/// to one, a trailing separator dropped, and one leading separator kept where
/// the path starts with one.
pub open spec fn collapsed(path: Seq<char>, sep: char, other: char) -> Seq<char> {
    let p = replace_char(path, other, sep);
    let body = join_parts(nonempty_parts(split_on(p, sep)), sep);
    if p.len() > 0 && p[0] == sep {
        seq![sep] + body
    } else {
        body
    }
}

/// A path in Windows form: backslash separators, none doubled.
pub open spec fn windows_normalized(path: Seq<char>) -> Seq<char> {
    collapsed(path, '\\', '/')
}

/// A path in Unix form: forward-slash separators, none doubled.
pub open spec fn unix_normalized(path: Seq<char>) -> Seq<char> {
    collapsed(path, '/', '\\')
}

/// A path normalised for `style`.
pub open spec fn normalized(path: Seq<char>, style: PathStyle) -> Seq<char> {
    match style {
        PathStyle::Windows => windows_normalized(path),
        PathStyle::Unix => unix_normalized(path),
    }
}

/// Whether `c` does not occur in `s`.
pub open spec fn free_of(s: Seq<char>, c: char) -> bool {
    forall|i: int| 0 <= i < s.len() ==> s[i] != c
}

/// Whether `sep` never occurs twice in a row in `s`.
pub open spec fn no_doubled(s: Seq<char>, sep: char) -> bool {
    forall|i: int| 0 <= i < s.len() - 1 ==> !(#[trigger] s[i] == sep && s[i + 1] == sep)
}

proof fn lemma_split_free(s: Seq<char>, sep: char, c: char)
    requires
        c == sep || free_of(s, c),
    ensures
        forall|k: int| 0 <= k < split_on(s, sep).len() ==> free_of(#[trigger] split_on(s, sep)[k], c),
    decreases s.len(),
{
    if s.len() > 0 {
        let t = s.drop_last();
        lemma_split_free(t, sep, c);
        crate::text::lemma_split_on_nonempty(t, sep);
        let p = split_on(t, sep);
        if s.last() != sep {
            let q = p.update(p.len() - 1, p.last().push(s.last()));
            assert(s.last() != c);
            assert forall|k: int| 0 <= k < q.len() implies free_of(#[trigger] q[k], c) by {
                if k == p.len() - 1 {
                    assert(free_of(p[k], c));
                }
            }
        } else {
            let q = p.push(Seq::<char>::empty());
            assert forall|k: int| 0 <= k < q.len() implies free_of(#[trigger] q[k], c) by {
                if k < p.len() {
                    assert(q[k] == p[k]);
                }
            }
        }
    }
}

proof fn lemma_nonempty_free(ps: Seq<Seq<char>>, c: char)
    requires
        forall|k: int| 0 <= k < ps.len() ==> free_of(#[trigger] ps[k], c),
    ensures
        forall|k: int| 0 <= k < nonempty_parts(ps).len() ==> free_of(#[trigger] nonempty_parts(ps)[k], c)
            && nonempty_parts(ps)[k].len() > 0,
    decreases ps.len(),
{
    if ps.len() > 0 {
        let t = ps.drop_last();
        assert forall|k: int| 0 <= k < t.len() implies free_of(#[trigger] t[k], c) by {
            assert(t[k] == ps[k]);
        }
        lemma_nonempty_free(t, c);
        if ps.last().len() > 0 {
            let n = nonempty_parts(t);
            let q = n.push(ps.last());
            assert(free_of(ps[ps.len() - 1], c));
            assert forall|k: int| 0 <= k < q.len() implies free_of(#[trigger] q[k], c) && q[k].len() > 0 by {
                if k < n.len() {
                    assert(q[k] == n[k]);
                }
            }
        }
    }
}

proof fn lemma_join_clean(parts: Seq<Seq<char>>, sep: char, c: char)
    requires
        c != sep,
        forall|k: int| 0 <= k < parts.len() ==> (#[trigger] parts[k]).len() > 0 && free_of(parts[k], sep)
            && free_of(parts[k], c),
    ensures
        no_doubled(join_parts(parts, sep), sep),
        free_of(join_parts(parts, sep), c),
        parts.len() > 0 ==> join_parts(parts, sep).len() > 0 && join_parts(parts, sep)[0] != sep
            && join_parts(parts, sep).last() != sep,
    decreases parts.len(),
{
    if parts.len() == 1 {
        assert(parts[0].len() > 0 && free_of(parts[0], sep) && free_of(parts[0], c));
        assert(parts[0][0] != sep);
        assert(parts[0][parts[0].len() - 1] != sep);
    } else if parts.len() > 1 {
        let t = parts.drop_last();
        assert forall|k: int| 0 <= k < t.len() implies (#[trigger] t[k]).len() > 0 && free_of(t[k], sep)
            && free_of(t[k], c) by {
            assert(t[k] == parts[k]);
        }
        lemma_join_clean(t, sep, c);
        let j = join_parts(t, sep);
        let l = parts.last();
        assert(l.len() > 0 && free_of(l, sep) && free_of(l, c));
        let r = j + seq![sep] + l;
        assert(join_parts(parts, sep) == r);
        assert forall|i: int| 0 <= i < r.len() - 1 implies !(#[trigger] r[i] == sep && r[i + 1] == sep) by {
            if i < j.len() - 1 {
                assert(r[i] == j[i] && r[i + 1] == j[i + 1]);
            } else if i == j.len() - 1 {
                assert(r[i] == j[i]);
            } else if i == j.len() {
                assert(r[i + 1] == l[0]);
            } else {
                assert(r[i] == l[i - j.len() - 1]);
            }
        }
        assert forall|i: int| 0 <= i < r.len() implies r[i] != c by {
            if i < j.len() {
                assert(r[i] == j[i]);
            } else if i > j.len() {
                assert(r[i] == l[i - j.len() - 1]);
            }
        }
        assert(r[0] == j[0]);
        assert(r.last() == l.last());
    }
}

/// A collapsed path holds no `other` and never two separators in a row.
pub proof fn lemma_collapsed_clean(path: Seq<char>, sep: char, other: char)
    requires
        sep != other,
    ensures
        free_of(collapsed(path, sep, other), other),
        no_doubled(collapsed(path, sep, other), sep),
{
    let p = replace_char(path, other, sep);
    assert(free_of(p, other));
    lemma_split_free(p, sep, sep);
    lemma_split_free(p, sep, other);
    let ps = split_on(p, sep);
    lemma_nonempty_free(ps, sep);
    lemma_nonempty_free(ps, other);
    let ns = nonempty_parts(ps);
    lemma_join_clean(ns, sep, other);
    let body = join_parts(ns, sep);
    if p.len() > 0 && p[0] == sep {
        let r = seq![sep] + body;
        assert forall|i: int| 0 <= i < r.len() - 1 implies !(#[trigger] r[i] == sep && r[i + 1] == sep) by {
            if i == 0 {
                assert(r[1] == body[0]);
            } else {
                assert(r[i] == body[i - 1] && r[i + 1] == body[i]);
            }
        }
        assert forall|i: int| 0 <= i < r.len() implies r[i] != other by {
            if i > 0 {
                assert(r[i] == body[i - 1]);
            }
        }
    }
}

/// The pieces that are not empty.
fn nonempty_chars(parts: Vec<Vec<char>>) -> (r: Vec<Vec<char>>)
    ensures
        r@.len() == nonempty_parts(parts@.map_values(|p: Vec<char>| p@)).len(),
        forall|k: int| 0 <= k < r@.len() ==> #[trigger] r@[k]@ == nonempty_parts(
            parts@.map_values(|p: Vec<char>| p@),
        )[k],
{
    let ghost all = parts@.map_values(|p: Vec<char>| p@);
    let mut r: Vec<Vec<char>> = Vec::new();
    let mut i: usize = 0;
    let n = parts.len();
    while i < n
        invariant
            n == all.len(),
            i <= n,
            parts@.len() == n,
            forall|k: int| 0 <= k < n ==> #[trigger] parts@[k]@ == all[k],
            r@.len() == nonempty_parts(all.subrange(0, i as int)).len(),
            forall|k: int| 0 <= k < r@.len() ==> #[trigger] r@[k]@ == nonempty_parts(all.subrange(0, i as int))[k],
        decreases n - i,
    {
        assert(all.subrange(0, i + 1).drop_last() =~= all.subrange(0, i as int));
        let piece = crate::text::slice_chars(&parts[i], 0, parts[i].len());
        assert(piece@ =~= all[i as int]);
        if piece.len() > 0 {
            r.push(piece);
        }
        i = i + 1;
    }
    assert(all.subrange(0, n as int) =~= all);
    r
}

/// The pieces joined with `sep`.
pub(crate) fn join_chars(parts: &Vec<Vec<char>>, sep: char) -> (r: Vec<char>)
    ensures
        r@ == join_parts(parts@.map_values(|p: Vec<char>| p@), sep),
{
    let ghost all = parts@.map_values(|p: Vec<char>| p@);
    if parts.len() == 0 {
        return Vec::new();
    }
    let mut r = crate::text::slice_chars(&parts[0], 0, parts[0].len());
    assert(all.subrange(0, 1).len() == 1);
    assert(r@ =~= join_parts(all.subrange(0, 1), sep));
    let mut i: usize = 1;
    while i < parts.len()
        invariant
            1 <= i <= parts.len(),
            all == parts@.map_values(|p: Vec<char>| p@),
            r@ == join_parts(all.subrange(0, i as int), sep),
        decreases parts.len() - i,
    {
        assert(all.subrange(0, i + 1).drop_last() =~= all.subrange(0, i as int));
        let ghost before = r@;
        r.push(sep);
        let mut k: usize = 0;
        while k < parts[i].len()
            invariant
                i < parts.len(),
                k <= parts[i as int]@.len(),
                r@ == before + seq![sep] + parts[i as int]@.subrange(0, k as int),
            decreases parts[i as int]@.len() - k,
        {
            r.push(parts[i][k]);
            k = k + 1;
            assert(r@ =~= before + seq![sep] + parts[i as int]@.subrange(0, k as int));
        }
        assert(parts[i as int]@.subrange(0, k as int) =~= all[i as int]);
        i = i + 1;
    }
    assert(all.subrange(0, parts.len() as int) =~= all);
    r
}

/// Turns each `other` of `path` into `sep` and collapses the separators.
fn collapse_separators(path: &str, sep: char, other: char) -> (r: String)
    ensures
        r@ == collapsed(path@, sep, other),
{
    let chars = chars_of(path);
    let slashed = replace_chars(&chars, other, sep);
    let pieces = split_chars(&slashed, sep);
    assert(pieces@.map_values(|p: Vec<char>| p@) =~= split_on(slashed@, sep));
    let kept = nonempty_chars(pieces);
    assert(kept@.map_values(|p: Vec<char>| p@) =~= nonempty_parts(split_on(slashed@, sep)));
    let body = join_chars(&kept, sep);
    if slashed.len() > 0 && slashed[0] == sep {
        let mut out: Vec<char> = vec![sep];
        let mut i: usize = 0;
        while i < body.len()
            invariant
                i <= body.len(),
                out@ == seq![sep] + body@.subrange(0, i as int),
            decreases body.len() - i,
        {
            out.push(body[i]);
            i = i + 1;
            assert(out@ =~= seq![sep] + body@.subrange(0, i as int));
        }
        assert(body@.subrange(0, body.len() as int) =~= body@);
        string_of(&out)
    } else {
        string_of(&body)
    }
}

/// Normalises `path` to Windows form.
pub fn normalize_windows_path(path: &str) -> (r: String)
    ensures
        r@ == windows_normalized(path@),
        free_of(r@, '/'),
        no_doubled(r@, '\\'),
{
    proof {
        lemma_collapsed_clean(path@, '\\', '/');
    }
    collapse_separators(path, '\\', '/')
}

/// Normalises `path` to Unix form.
pub fn normalize_unix_path(path: &str) -> (r: String)
    ensures
        r@ == unix_normalized(path@),
        free_of(r@, '\\'),
        no_doubled(r@, '/'),
{
    proof {
        lemma_collapsed_clean(path@, '/', '\\');
    }
    collapse_separators(path, '/', '\\')
}

/// Normalises `path` for `style`.
pub fn normalize_for_style(path: &str, style: PathStyle) -> (r: String)
    ensures
        r@ == normalized(path@, style),
{
    match style {
        PathStyle::Windows => normalize_windows_path(path),
        PathStyle::Unix => normalize_unix_path(path),
    }
}

/// Relies on `std::path::MAIN_SEPARATOR`: the separator of the platform the
/// library was built for (a backslash on Windows).
#[verifier::external_body]
fn main_separator() -> (r: char) {
    std::path::MAIN_SEPARATOR
}

impl PathStyle {
    /// The convention of the platform the library runs on.
    pub fn native() -> (r: PathStyle) {
        if main_separator() == '\\' {
            PathStyle::Windows
        } else {
            PathStyle::Unix
        }
    }
}

/// Normalises `path` for the platform the library runs on.
pub fn normalize_path_separators(path: &str) -> (r: String)
    ensures
        (r@ == windows_normalized(path@) && free_of(r@, '/') && no_doubled(r@, '\\')) || (r@
            == unix_normalized(path@) && free_of(r@, '\\') && no_doubled(r@, '/')),
{
    match PathStyle::native() {
        PathStyle::Windows => normalize_windows_path(path),
        PathStyle::Unix => normalize_unix_path(path),
    }
}


/// `rel` appended to `base` with one separator between them; a `rel` that
/// starts with a separator stands alone.
pub open spec fn joined(base: Seq<char>, rel: Seq<char>, style: PathStyle) -> Seq<char> {
    if rel.len() > 0 && is_separator(rel[0], style) {
        rel
    } else if base.len() == 0 || is_separator(base.last(), style) {
        base + rel
    } else {
        base + seq![separator_of(style)] + rel
    }
}

/// Appends `rel` to `base`.
pub fn join_path(base: &str, rel: &str, style: PathStyle) -> (r: String)
    ensures
        r@ == joined(base@, rel@, style),
{
    let b = chars_of(base);
    let mut out = chars_of(base);
    let tail = chars_of(rel);
    let sep = match style {
        PathStyle::Windows => '\\',
        PathStyle::Unix => '/',
    };
    if tail.len() > 0 && (tail[0] == '/' || (style == PathStyle::Windows && tail[0] == '\\')) {
        return string_of(&tail);
    }
    if b.len() > 0 {
        let last = b[b.len() - 1];
        if !(last == '/' || (style == PathStyle::Windows && last == '\\')) {
            out.push(sep);
        }
    }
    let ghost head = out@;
    let mut i: usize = 0;
    while i < tail.len()
        invariant
            i <= tail.len(),
            out@ == head + tail@.subrange(0, i as int),
        decreases tail.len() - i,
    {
        out.push(tail[i]);
        i = i + 1;
        assert(out@ =~= head + tail@.subrange(0, i as int));
    }
    assert(tail@.subrange(0, tail.len() as int) =~= tail@);
    string_of(&out)
}

/// `path` without its trailing separators.
pub open spec fn without_trailing_separators(path: Seq<char>, style: PathStyle) -> Seq<char>
    decreases path.len(),
{
    if path.len() > 0 && is_separator(path.last(), style) {
        without_trailing_separators(path.drop_last(), style)
    } else {
        path
    }
}

/// The text after the last separator of `path`.
pub open spec fn after_last_separator(path: Seq<char>, style: PathStyle) -> Seq<char>
    decreases path.len(),
{
    if path.len() == 0 || is_separator(path.last(), style) {
        Seq::empty()
    } else {
        after_last_separator(path.drop_last(), style).push(path.last())
    }
}

/// The last component of `path`, trailing separators ignored; none where it is empty.
pub open spec fn file_name(path: Seq<char>, style: PathStyle) -> Option<Seq<char>> {
    let c = after_last_separator(without_trailing_separators(path, style), style);
    if c.len() == 0 {
        None
    } else {
        Some(c)
    }
}

/// The last component of `path`.
pub fn path_file_name(path: &str, style: PathStyle) -> (r: Option<String>)
    ensures
        opt_view(r) == file_name(path@, style),
{
    let p = chars_of(path);
    let mut end: usize = p.len();
    assert(p@.subrange(0, end as int) =~= p@);
    while end > 0 && (p[end - 1] == '/' || (style == PathStyle::Windows && p[end - 1] == '\\'))
        invariant
            end <= p.len(),
            without_trailing_separators(p@, style) == without_trailing_separators(p@.subrange(0, end as int), style),
        decreases end,
    {
        assert(p@.subrange(0, end as int).drop_last() =~= p@.subrange(0, end - 1));
        end = end - 1;
    }
    let ghost trimmed = p@.subrange(0, end as int);
    assert(without_trailing_separators(p@, style) == trimmed);
    let mut start: usize = end;
    while start > 0 && !(p[start - 1] == '/' || (style == PathStyle::Windows && p[start - 1] == '\\'))
        invariant
            start <= end <= p.len(),
            trimmed == p@.subrange(0, end as int),
            after_last_separator(trimmed, style) == after_last_separator(p@.subrange(0, start as int), style)
                + p@.subrange(start as int, end as int),
        decreases start,
    {
        assert(p@.subrange(0, start as int).drop_last() =~= p@.subrange(0, start - 1));
        assert(p@.subrange(start - 1, end as int) =~= seq![p@[start - 1]] + p@.subrange(start as int, end as int));
        assert(after_last_separator(p@.subrange(0, start as int), style) =~= after_last_separator(p@.subrange(0, start - 1), style).push(p@[start - 1]));
        assert(after_last_separator(p@.subrange(0, start - 1), style).push(p@[start - 1]) + p@.subrange(start as int, end as int)
            =~= after_last_separator(p@.subrange(0, start - 1), style) + p@.subrange(start - 1, end as int));
        start = start - 1;
    }
    assert(after_last_separator(p@.subrange(0, start as int), style) =~= Seq::empty());
    assert(after_last_separator(trimmed, style) =~= p@.subrange(start as int, end as int));
    if start == end {
        None
    } else {
        let name = crate::text::slice_chars(&p, start, end);
        Some(string_of(&name))
    }
}

} // verus!
