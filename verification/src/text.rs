//! Text primitives over character sequences: whitespace, trimming, line
//! splitting, searching and removal, each with the meaning that the standard
//! library's string methods of the same name give it.
use vstd::prelude::*;

verus! {

/// Unicode `White_Space`, the set that `char::is_whitespace`, `str::trim` and
/// `str::split_whitespace` treat as whitespace.
pub open spec fn is_space(c: char) -> bool {
    ||| ('\u{9}' <= c && c <= '\u{d}')
    ||| c == ' '
    ||| c == '\u{85}'
    ||| c == '\u{a0}'
    ||| c == '\u{1680}'
    ||| ('\u{2000}' <= c && c <= '\u{200a}')
    ||| c == '\u{2028}'
    ||| c == '\u{2029}'
    ||| c == '\u{202f}'
    ||| c == '\u{205f}'
    ||| c == '\u{3000}'
}

/// `s` with its leading whitespace removed.
pub open spec fn trim_start(s: Seq<char>) -> Seq<char>
    decreases s.len(),
{
    if s.len() > 0 && is_space(s[0]) {
        trim_start(s.drop_first())
    } else {
        s
    }
}

/// `s` with its trailing whitespace removed.
pub open spec fn trim_end(s: Seq<char>) -> Seq<char>
    decreases s.len(),
{
    if s.len() > 0 && is_space(s.last()) {
        trim_end(s.drop_last())
    } else {
        s
    }
}

/// `s` with leading and trailing whitespace removed (`str::trim`).
pub open spec fn trim(s: Seq<char>) -> Seq<char> {
    trim_end(trim_start(s))
}

/// Whether `s` begins with `p`.
pub open spec fn starts_with(s: Seq<char>, p: Seq<char>) -> bool {
    p.len() <= s.len() && s.take(p.len() as int) == p
}

/// Whether `s` ends with `p`.
pub open spec fn ends_with(s: Seq<char>, p: Seq<char>) -> bool {
    p.len() <= s.len() && s.skip(s.len() - p.len()) == p
}

/// Whether `p` occurs in `s` at position `i`.
pub open spec fn occurs_at(s: Seq<char>, p: Seq<char>, i: int) -> bool {
    0 <= i && i + p.len() <= s.len() && s.subrange(i, i + p.len()) == p
}

/// Whether `p` occurs anywhere in `s` (`str::contains`).
pub open spec fn contains(s: Seq<char>, p: Seq<char>) -> bool {
    exists|i: int| occurs_at(s, p, i)
}

/// `s` with every occurrence of the non-empty `p` removed, scanning from the
/// left without overlap (`str::replace(p, "")`).
pub open spec fn remove_all(s: Seq<char>, p: Seq<char>) -> Seq<char>
    decreases s.len(),
{
    if p.len() == 0 || s.len() == 0 {
        s
    } else if starts_with(s, p) {
        remove_all(s.skip(p.len() as int), p)
    } else {
        seq![s[0]] + remove_all(s.drop_first(), p)
    }
}

/// The pieces of `s` between occurrences of `sep`; always at least one piece
/// (`str::split(sep)`).
pub open spec fn pieces(s: Seq<char>, sep: char) -> Seq<Seq<char>>
    decreases s.len(),
{
    if s.len() == 0 {
        seq![Seq::<char>::empty()]
    } else {
        let rest = pieces(s.drop_last(), sep);
        if s.last() == sep {
            rest.push(Seq::<char>::empty())
        } else {
            rest.update(rest.len() - 1, rest.last().push(s.last()))
        }
    }
}

/// The pieces of `s` between newline characters.
pub open spec fn line_pieces(s: Seq<char>) -> Seq<Seq<char>> {
    pieces(s, '\n')
}

/// A line without the carriage return that ended it, if any.
pub open spec fn strip_cr(l: Seq<char>) -> Seq<char> {
    if l.len() > 0 && l.last() == '\r' {
        l.drop_last()
    } else {
        l
    }
}

/// The lines of `s` (`str::lines`): pieces between `'\n'`, a `'\r'` directly
/// before a `'\n'` dropped, and no empty last line after a final `'\n'`.
pub open spec fn lines(s: Seq<char>) -> Seq<Seq<char>> {
    let p = line_pieces(s);
    let done = p.drop_last().map_values(|l: Seq<char>| strip_cr(l));
    if p.last().len() == 0 {
        done
    } else {
        done.push(p.last())
    }
}

/// Index of the first whitespace character of `s`, or its length.
pub open spec fn first_space(s: Seq<char>) -> int
    decreases s.len(),
{
    if s.len() == 0 || is_space(s[0]) {
        0
    } else {
        1 + first_space(s.drop_first())
    }
}

/// The first whitespace-separated word of `s`, or the empty sequence
/// (`s.split_whitespace().next().unwrap_or("")`).
pub open spec fn first_word(s: Seq<char>) -> Seq<char> {
    let t = trim_start(s);
    t.take(first_space(t))
}

/// The views of a sequence of character vectors.
pub open spec fn views(v: Seq<Vec<char>>) -> Seq<Seq<char>> {
    v.map_values(|x: Vec<char>| x@)
}

pub proof fn lemma_pieces_nonempty(s: Seq<char>, sep: char)
    ensures
        pieces(s, sep).len() >= 1,
    decreases s.len(),
{
    if s.len() > 0 {
        lemma_pieces_nonempty(s.drop_last(), sep);
    }
}

/// The pieces of `v` between occurrences of `sep` (`str::split`).
pub fn split_chars(v: &Vec<char>, sep: char) -> (r: Vec<Vec<char>>)
    ensures
        views(r@) == pieces(v@, sep),
{
    let mut out: Vec<Vec<char>> = Vec::new();
    let mut cur: Vec<char> = Vec::new();
    let mut i: usize = 0;
    assert(v@.take(0) =~= Seq::<char>::empty());
    while i < v.len()
        invariant
            i <= v.len(),
            pieces(v@.take(i as int), sep).len() >= 1,
            views(out@) == pieces(v@.take(i as int), sep).drop_last(),
            cur@ == pieces(v@.take(i as int), sep).last(),
        decreases v.len() - i,
    {
        let ghost before = pieces(v@.take(i as int), sep);
        let c = v[i];
        assert(v@.take(i + 1).drop_last() =~= v@.take(i as int));
        assert(v@.take(i + 1).last() == c);
        if c == sep {
            let ghost old_views = views(out@);
            out.push(cur);
            assert(views(out@) =~= old_views.push(before.last()));
            cur = Vec::new();
            assert(views(out@) =~= before);
        } else {
            cur.push(c);
            let ghost after = pieces(v@.take(i + 1), sep);
            assert(after.drop_last() =~= before.drop_last());
        }
        i += 1;
    }
    assert(v@.take(v.len() as int) =~= v@);
    let ghost old_views = views(out@);
    out.push(cur);
    assert(views(out@) =~= old_views.push(pieces(v@, sep).last()));
    assert(views(out@) =~= pieces(v@, sep));
    out
}

pub proof fn lemma_first_space_bounds(s: Seq<char>)
    ensures
        0 <= first_space(s) <= s.len(),
        forall|k: int| 0 <= k < first_space(s) ==> !is_space(#[trigger] s[k]),
        first_space(s) < s.len() ==> is_space(s[first_space(s)]),
    decreases s.len(),
{
    if s.len() > 0 && !is_space(s[0]) {
        lemma_first_space_bounds(s.drop_first());
        assert forall|k: int| 0 <= k < first_space(s) implies !is_space(#[trigger] s[k]) by {
            if k > 0 {
                assert(s[k] == s.drop_first()[k - 1]);
            }
        }
    }
}

/// Whether `c` is whitespace (`char::is_whitespace`).
pub fn is_space_char(c: char) -> (b: bool)
    ensures
        b == is_space(c),
{
    ('\u{9}' <= c && c <= '\u{d}') || c == ' ' || c == '\u{85}' || c == '\u{a0}' || c
        == '\u{1680}' || ('\u{2000}' <= c && c <= '\u{200a}') || c == '\u{2028}' || c
        == '\u{2029}' || c == '\u{202f}' || c == '\u{205f}' || c == '\u{3000}'
}

/// The characters of `s`, in order.
pub fn chars_of(s: &str) -> (v: Vec<char>)
    ensures
        v@ == s@,
{
    let mut v: Vec<char> = Vec::new();
    for c in it: s.chars()
        invariant
            v@ == it.seq().take(it.index() as int),
            it.seq() == s@,
    {
        v.push(c);
    }
    v
}

/// Appends `c` to `s` (`String::push`).
#[verifier::external_body]
pub(crate) fn push_char(s: &mut String, c: char)
    ensures
        final(s)@ == old(s)@.push(c),
{
    s.push(c);
}

/// The string made of the characters of `v`.
pub fn string_of(v: &Vec<char>) -> (s: String)
    ensures
        s@ == v@,
{
    let mut s = String::new();
    let mut i: usize = 0;
    while i < v.len()
        invariant
            i <= v.len(),
            s@ == v@.take(i as int),
        decreases v.len() - i,
    {
        push_char(&mut s, v[i]);
        assert(v@.take(i + 1) =~= v@.take(i as int).push(v@[i as int]));
        i += 1;
    }
    assert(v@.take(v.len() as int) =~= v@);
    s
}

/// A fresh string with the characters of `s`.
pub fn owned(s: &str) -> (r: String)
    ensures
        r@ == s@,
{
    let v = chars_of(s);
    string_of(&v)
}

/// The concatenation of `a` and `b`.
pub fn concat(a: &str, b: &str) -> (r: String)
    ensures
        r@ == a@ + b@,
{
    let mut v = chars_of(a);
    let w = chars_of(b);
    let mut i: usize = 0;
    while i < w.len()
        invariant
            i <= w.len(),
            w@ == b@,
            v@ == a@ + b@.take(i as int),
        decreases w.len() - i,
    {
        v.push(w[i]);
        assert(b@.take(i + 1) =~= b@.take(i as int).push(b@[i as int]));
        i += 1;
    }
    assert(b@.take(b@.len() as int) =~= b@);
    string_of(&v)
}

/// The characters of `v` from `lo` up to `hi`.
pub fn sub_chars(v: &Vec<char>, lo: usize, hi: usize) -> (r: Vec<char>)
    requires
        lo <= hi <= v.len(),
    ensures
        r@ == v@.subrange(lo as int, hi as int),
{
    let mut r: Vec<char> = Vec::new();
    let mut i = lo;
    while i < hi
        invariant
            lo <= i <= hi <= v.len(),
            r@ == v@.subrange(lo as int, i as int),
        decreases hi - i,
    {
        r.push(v[i]);
        assert(v@.subrange(lo as int, i + 1) =~= v@.subrange(lo as int, i as int).push(
            v@[i as int],
        ));
        i += 1;
    }
    r
}

/// Whether `a` and `b` hold the same characters.
pub fn chars_eq(a: &Vec<char>, b: &Vec<char>) -> (r: bool)
    ensures
        r == (a@ == b@),
{
    if a.len() != b.len() {
        return false;
    }
    let mut i: usize = 0;
    while i < a.len()
        invariant
            a.len() == b.len(),
            i <= a.len(),
            forall|k: int| 0 <= k < i ==> a@[k] == b@[k],
        decreases a.len() - i,
    {
        if a[i] != b[i] {
            return false;
        }
        i += 1;
    }
    assert(a@ =~= b@);
    true
}

/// Whether `a` and `b` are the same text.
pub fn str_eq(a: &str, b: &str) -> (r: bool)
    ensures
        r == (a@ == b@),
{
    let x = chars_of(a);
    let y = chars_of(b);
    chars_eq(&x, &y)
}

/// Whether `p` occurs in `v` at position `i`.
pub fn occurs_at_exec(v: &Vec<char>, p: &Vec<char>, i: usize) -> (r: bool)
    ensures
        r == occurs_at(v@, p@, i as int),
{
    if i > v.len() || p.len() > v.len() - i {
        return false;
    }
    let mut k: usize = 0;
    while k < p.len()
        invariant
            i + p.len() <= v.len(),
            k <= p.len(),
            forall|j: int| 0 <= j < k ==> v@[i + j] == p@[j],
        decreases p.len() - k,
    {
        if v[i + k] != p[k] {
            assert(v@.subrange(i as int, i + p.len())[k as int] != p@[k as int]);
            return false;
        }
        k += 1;
    }
    assert(v@.subrange(i as int, i + p.len()) =~= p@);
    true
}

/// Whether `p` occurs in `v`.
pub fn contains_chars(v: &Vec<char>, p: &Vec<char>) -> (r: bool)
    ensures
        r == contains(v@, p@),
{
    if p.len() > v.len() {
        return false;
    }
    let last = v.len() - p.len();
    let mut i: usize = 0;
    loop
        invariant
            last == v.len() - p.len(),
            i <= last,
            forall|j: int| 0 <= j < i ==> !occurs_at(v@, p@, j),
        decreases last - i,
    {
        if occurs_at_exec(v, p, i) {
            return true;
        }
        if i == last {
            assert forall|j: int| #[trigger] occurs_at(v@, p@, j) implies false by {
                assert(j <= last);
            }
            return false;
        }
        i += 1;
    }
}

/// Whether `needle` occurs in `hay` (`str::contains`).
pub fn str_contains(hay: &str, needle: &str) -> (r: bool)
    ensures
        r == contains(hay@, needle@),
{
    let h = chars_of(hay);
    let n = chars_of(needle);
    contains_chars(&h, &n)
}

/// Whether `v` begins with `p`.
pub fn starts_with_chars(v: &Vec<char>, p: &Vec<char>) -> (r: bool)
    ensures
        r == starts_with(v@, p@),
{
    let r = occurs_at_exec(v, p, 0);
    proof {
        if p@.len() <= v@.len() {
            assert(v@.subrange(0, p@.len() as int) =~= v@.take(p@.len() as int));
        }
    }
    r
}

/// Whether `v` ends with `p`.
pub fn ends_with_chars(v: &Vec<char>, p: &Vec<char>) -> (r: bool)
    ensures
        r == ends_with(v@, p@),
{
    if p.len() > v.len() {
        return false;
    }
    let r = occurs_at_exec(v, p, v.len() - p.len());
    assert(v@.subrange(v.len() - p.len(), v.len() as int) =~= v@.skip(v.len() - p.len()));
    r
}

/// Index of the first occurrence of `c` in `v`, if any.
pub fn find_char(v: &Vec<char>, c: char) -> (r: Option<usize>)
    ensures
        match r {
            Some(i) => i < v.len() && v@[i as int] == c && forall|k: int|
                0 <= k < i ==> v@[k] != c,
            None => forall|k: int| 0 <= k < v.len() ==> v@[k] != c,
        },
{
    let mut i: usize = 0;
    while i < v.len()
        invariant
            i <= v.len(),
            forall|k: int| 0 <= k < i ==> v@[k] != c,
        decreases v.len() - i,
    {
        if v[i] == c {
            return Some(i);
        }
        i += 1;
    }
    None
}

proof fn lemma_trim_start_skip(s: Seq<char>, i: int)
    requires
        0 <= i < s.len(),
        is_space(s[i]),
    ensures
        trim_start(s.skip(i)) == trim_start(s.skip(i + 1)),
{
    assert(s.skip(i).drop_first() =~= s.skip(i + 1));
}

proof fn lemma_trim_end_take(s: Seq<char>, j: int)
    requires
        0 < j <= s.len(),
        is_space(s[j - 1]),
    ensures
        trim_end(s.take(j)) == trim_end(s.take(j - 1)),
{
    assert(s.take(j).drop_last() =~= s.take(j - 1));
}

/// `v` with leading and trailing whitespace removed.
pub fn trim_chars(v: &Vec<char>) -> (r: Vec<char>)
    ensures
        r@ == trim(v@),
{
    let mut a: usize = 0;
    assert(v@.skip(0) =~= v@);
    while a < v.len() && is_space_char(v[a])
        invariant
            a <= v.len(),
            trim_start(v@) == trim_start(v@.skip(a as int)),
        decreases v.len() - a,
    {
        proof {
            lemma_trim_start_skip(v@, a as int);
        }
        a += 1;
    }
    let ghost u = v@.skip(a as int);
    assert(trim_start(v@) == u);
    let mut b: usize = v.len();
    assert(u.take(v.len() - a) =~= u);
    while b > a && is_space_char(v[b - 1])
        invariant
            a <= b <= v.len(),
            u == v@.skip(a as int),
            trim_end(u) == trim_end(u.take(b - a)),
        decreases b,
    {
        proof {
            assert(u[b - a - 1] == v@[b - 1]);
            lemma_trim_end_take(u, b - a);
        }
        b -= 1;
    }
    proof {
        let t = u.take(b - a);
        assert(t =~= v@.subrange(a as int, b as int));
        if t.len() > 0 {
            assert(t.last() == v@[b - 1]);
        }
        assert(trim_end(t) == t);
        assert(u.take(v.len() - a) =~= u);
    }
    sub_chars(v, a, b)
}

/// `s` with leading and trailing whitespace removed (`str::trim`).
pub fn trim_str(s: &str) -> (r: Vec<char>)
    ensures
        r@ == trim(s@),
{
    let v = chars_of(s);
    trim_chars(&v)
}

/// Whether `s` is empty or all whitespace (`s.trim().is_empty()`).
pub fn is_blank(s: &str) -> (r: bool)
    ensures
        r == (trim(s@).len() == 0),
{
    let t = trim_str(s);
    t.len() == 0
}


/// The lines of `v` (`str::lines`).
pub fn lines_of(v: &Vec<char>) -> (r: Vec<Vec<char>>)
    ensures
        views(r@) == lines(v@),
{
    let mut out: Vec<Vec<char>> = Vec::new();
    let mut cur: Vec<char> = Vec::new();
    let mut i: usize = 0;
    assert(v@.take(0) =~= Seq::<char>::empty());
    while i < v.len()
        invariant
            i <= v.len(),
            line_pieces(v@.take(i as int)).len() >= 1,
            views(out@) == line_pieces(v@.take(i as int)).drop_last().map_values(
                |l: Seq<char>| strip_cr(l),
            ),
            cur@ == line_pieces(v@.take(i as int)).last(),
        decreases v.len() - i,
    {
        let ghost before = line_pieces(v@.take(i as int));
        let c = v[i];
        assert(v@.take(i + 1).drop_last() =~= v@.take(i as int));
        assert(v@.take(i + 1).last() == c);
        if c == '\n' {
            let mut line = cur;
            if line.len() > 0 && line[line.len() - 1] == '\r' {
                line.pop();
            }
            assert(line@ == strip_cr(before.last()));
            let ghost old_views = views(out@);
            out.push(line);
            assert(views(out@) =~= old_views.push(strip_cr(before.last())));
            cur = Vec::new();
            proof {
                let after = line_pieces(v@.take(i + 1));
                assert(after == before.push(Seq::<char>::empty()));
                assert(after.drop_last() =~= before);
                assert(before.map_values(|l: Seq<char>| strip_cr(l)) =~= before.drop_last().map_values(
                    |l: Seq<char>| strip_cr(l),
                ).push(strip_cr(before.last())));
                assert(views(out@) =~= after.drop_last().map_values(|l: Seq<char>| strip_cr(l)));
            }
        } else {
            cur.push(c);
            proof {
                let after = line_pieces(v@.take(i + 1));
                assert(after == before.update(before.len() - 1, before.last().push(c)));
                assert(after.drop_last() =~= before.drop_last());
                assert(views(out@) =~= after.drop_last().map_values(|l: Seq<char>| strip_cr(l)));
            }
        }
        i += 1;
    }
    assert(v@.take(v.len() as int) =~= v@);
    if cur.len() > 0 {
        out.push(cur);
        assert(views(out@) =~= lines(v@));
    } else {
        assert(views(out@) =~= lines(v@));
    }
    out
}

/// The lines of `s` (`str::lines`).
pub fn lines_of_str(s: &str) -> (r: Vec<Vec<char>>)
    ensures
        views(r@) == lines(s@),
{
    let v = chars_of(s);
    lines_of(&v)
}

/// The first whitespace-separated word of `v`, or nothing.
pub fn first_word_chars(v: &Vec<char>) -> (r: Vec<char>)
    ensures
        r@ == first_word(v@),
{
    let mut a: usize = 0;
    assert(v@.skip(0) =~= v@);
    while a < v.len() && is_space_char(v[a])
        invariant
            a <= v.len(),
            trim_start(v@) == trim_start(v@.skip(a as int)),
        decreases v.len() - a,
    {
        proof {
            lemma_trim_start_skip(v@, a as int);
        }
        a += 1;
    }
    let ghost t = v@.skip(a as int);
    assert(trim_start(v@) == t);
    let mut b = a;
    while b < v.len() && !is_space_char(v[b])
        invariant
            a <= b <= v.len(),
            t == v@.skip(a as int),
            forall|k: int| a <= k < b ==> !is_space(v@[k]),
        decreases v.len() - b,
    {
        b += 1;
    }
    proof {
        lemma_first_space_bounds(t);
        let f = first_space(t);
        assert forall|k: int| 0 <= k < b - a implies !is_space(#[trigger] t[k]) by {
            assert(t[k] == v@[a + k]);
        }
        if f < b - a {
            assert(is_space(t[f]));
        }
        if b < v.len() {
            assert(t[b - a] == v@[b as int]);
        }
        assert(f == b - a);
        assert(t.take(f) =~= v@.subrange(a as int, b as int));
    }
    sub_chars(v, a, b)
}

/// The first whitespace-separated word of `s`, or nothing.
pub fn first_word_str(s: &str) -> (r: Vec<char>)
    ensures
        r@ == first_word(s@),
{
    let v = chars_of(s);
    first_word_chars(&v)
}

proof fn lemma_remove_all_step(s: Seq<char>, p: Seq<char>, i: int)
    requires
        p.len() > 0,
        0 <= i < s.len(),
    ensures
        starts_with(s.skip(i), p) ==> remove_all(s.skip(i), p) == remove_all(s.skip(i + p.len()), p),
        !starts_with(s.skip(i), p) ==> remove_all(s.skip(i), p) == seq![s[i]] + remove_all(s.skip(i + 1), p),
{
    let t = s.skip(i);
    if starts_with(t, p) {
        assert(t.skip(p.len() as int) =~= s.skip(i + p.len()));
    } else {
        assert(t.drop_first() =~= s.skip(i + 1));
    }
}

/// `v` with every occurrence of the non-empty `p` removed, left to right.
pub fn remove_all_chars(v: &Vec<char>, p: &Vec<char>) -> (r: Vec<char>)
    requires
        p.len() > 0,
    ensures
        r@ == remove_all(v@, p@),
{
    let mut out: Vec<char> = Vec::new();
    let mut i: usize = 0;
    assert(v@.skip(0) =~= v@);
    while i < v.len()
        invariant
            p.len() > 0,
            i <= v.len(),
            remove_all(v@, p@) == out@ + remove_all(v@.skip(i as int), p@),
        decreases v.len() - i,
    {
        proof {
            lemma_remove_all_step(v@, p@, i as int);
        }
        if occurs_at_exec(v, p, i) {
            assert(v@.skip(i as int).take(p.len() as int) =~= v@.subrange(i as int, i + p.len()));
            i += p.len();
        } else {
            assert(!starts_with(v@.skip(i as int), p@)) by {
                if p.len() <= v@.skip(i as int).len() {
                    assert(v@.skip(i as int).take(p.len() as int) =~= v@.subrange(i as int, i + p.len()));
                }
            }
            out.push(v[i]);
            i += 1;
        }
    }
    assert(v@.skip(i as int) =~= Seq::<char>::empty());
    assert(out@ + Seq::<char>::empty() =~= out@);
    out
}


/// What `str::to_lowercase` returns for `s`: its Unicode lowercase mapping,
/// which depends on `s` alone.
pub uninterp spec fn lowercase(s: Seq<char>) -> Seq<char>;

/// `str::to_lowercase`: the result is `lowercase` of the argument.
#[verifier::external_body]
pub(crate) fn to_lowercase(s: &str) -> (r: String)
    ensures
        r@ == lowercase(s@),
{
    s.to_lowercase()
}

/// The views of a sequence of strings.
pub open spec fn string_views(v: Seq<String>) -> Seq<Seq<char>> {
    v.map_values(|x: String| x@)
}

/// The view of an optional string.
pub open spec fn opt_view(o: Option<String>) -> Option<Seq<char>> {
    match o {
        Some(s) => Some(s@),
        None => None,
    }
}


/// The UTF-8 bytes of a character sequence.
pub open spec fn utf8(s: Seq<char>) -> Seq<u8> {
    vstd::utf8::encode_utf8(s)
}

/// Whether byte offset `i` of `s` starts a character or is its end.
pub open spec fn at_char_boundary(s: Seq<char>, i: int) -> bool {
    vstd::utf8::is_char_boundary(utf8(s), i)
}

/// The characters of `s` before byte offset `p`.
pub open spec fn before_byte(s: Seq<char>, p: int) -> Seq<char> {
    vstd::utf8::decode_utf8(utf8(s).take(p))
}

/// The characters of `s` from byte offset `p` on.
pub open spec fn after_byte(s: Seq<char>, p: int) -> Seq<char> {
    vstd::utf8::decode_utf8(utf8(s).skip(p))
}

/// `s` split at byte offset `p`, which must be a character boundary
/// (`str::split_at`).
pub fn split_at_byte(s: &str, p: usize) -> (r: (String, String))
    requires
        at_char_boundary(s@, p as int),
    ensures
        r.0@ == before_byte(s@, p as int),
        r.1@ == after_byte(s@, p as int),
{
    let (a, b) = s.split_at(p);
    proof {
        vstd::utf8::encode_utf8_decode_utf8(a@);
        vstd::utf8::encode_utf8_decode_utf8(b@);
        assert(utf8(s@).take(p as int) =~= utf8(s@).subrange(0, p as int));
        assert(utf8(s@).skip(p as int) =~= utf8(s@).subrange(p as int, utf8(s@).len() as int));
    }
    (a.to_owned(), b.to_owned())
}

/// `n` spaces.
pub open spec fn spaces(n: nat) -> Seq<char> {
    Seq::new(n, |i: int| ' ')
}

/// `s` centred in a field `width` characters wide, as `format!("{:^w$}")`
/// lays it out: the padding is split in two, the smaller half before `s`.
pub open spec fn centered(s: Seq<char>, width: nat) -> Seq<char> {
    let pad: nat = if s.len() < width {
        (width - s.len()) as nat
    } else {
        0
    };
    spaces(pad / 2) + s + spaces((pad - pad / 2) as nat)
}

/// `s` centred in a field `width` characters wide.
pub fn center(s: &str, width: usize) -> (r: String)
    ensures
        r@ == centered(s@, width as nat),
{
    let v = chars_of(s);
    let pad: usize = if v.len() < width {
        width - v.len()
    } else {
        0
    };
    let left: usize = pad / 2;
    let right: usize = pad - left;
    let mut out: Vec<char> = Vec::new();
    let mut i: usize = 0;
    while i < left
        invariant
            i <= left,
            out@ == spaces(i as nat),
        decreases left - i,
    {
        out.push(' ');
        assert(out@ =~= spaces((i + 1) as nat));
        i += 1;
    }
    let mut j: usize = 0;
    while j < v.len()
        invariant
            j <= v.len(),
            v@ == s@,
            out@ == spaces(left as nat) + v@.take(j as int),
        decreases v.len() - j,
    {
        out.push(v[j]);
        assert(v@.take(j + 1) =~= v@.take(j as int).push(v@[j as int]));
        assert(out@ =~= spaces(left as nat) + v@.take(j + 1));
        j += 1;
    }
    assert(v@.take(v.len() as int) =~= v@);
    let mut k: usize = 0;
    while k < right
        invariant
            k <= right,
            out@ == spaces(left as nat) + s@ + spaces(k as nat),
        decreases right - k,
    {
        out.push(' ');
        assert(out@ =~= spaces(left as nat) + s@ + spaces((k + 1) as nat));
        k += 1;
    }
    string_of(&out)
}

/// The decimal digits.
pub open spec fn digit_chars() -> Seq<char> {
    seq!['0', '1', '2', '3', '4', '5', '6', '7', '8', '9']
}

/// `n` written in decimal.
pub open spec fn decimal(n: nat) -> Seq<char>
    decreases n,
{
    if n < 10 {
        seq![digit_chars()[n as int]]
    } else {
        decimal(n / 10).push(digit_chars()[(n % 10) as int])
    }
}

fn digit(d: usize) -> (c: char)
    requires
        d < 10,
    ensures
        c == digit_chars()[d as int],
{
    if d == 0 {
        '0'
    } else if d == 1 {
        '1'
    } else if d == 2 {
        '2'
    } else if d == 3 {
        '3'
    } else if d == 4 {
        '4'
    } else if d == 5 {
        '5'
    } else if d == 6 {
        '6'
    } else if d == 7 {
        '7'
    } else if d == 8 {
        '8'
    } else {
        '9'
    }
}

fn decimal_chars(n: usize) -> (v: Vec<char>)
    ensures
        v@ == decimal(n as nat),
    decreases n,
{
    if n < 10 {
        vec![digit(n)]
    } else {
        let mut v = decimal_chars(n / 10);
        v.push(digit(n % 10));
        v
    }
}

/// `n` written in decimal (`usize::to_string`).
pub fn decimal_string(n: usize) -> (s: String)
    ensures
        s@ == decimal(n as nat),
{
    let v = decimal_chars(n);
    string_of(&v)
}

/// The last character boundary of `s` before byte offset `p` (0 when `p`
/// is 0).
pub open spec fn prev_boundary(s: Seq<char>, p: int) -> int
    decreases p,
{
    if p <= 0 {
        0
    } else if at_char_boundary(s, p - 1) {
        p - 1
    } else {
        prev_boundary(s, p - 1)
    }
}

/// The first character boundary of `s` after byte offset `p` (the end when
/// there is none).
pub open spec fn next_boundary(s: Seq<char>, p: int) -> int
    decreases utf8(s).len() - p,
{
    if p >= utf8(s).len() {
        utf8(s).len() as int
    } else if at_char_boundary(s, p + 1) {
        p + 1
    } else {
        next_boundary(s, p + 1)
    }
}

/// Left arrow: the cursor moves back over one character.
pub open spec fn cursor_left(s: Seq<char>, p: usize) -> usize {
    if p > 0 {
        prev_boundary(s, p as int) as usize
    } else {
        p
    }
}

/// Right arrow: the cursor moves on over one character.
pub open spec fn cursor_right(s: Seq<char>, p: usize) -> usize {
    if p < utf8(s).len() {
        next_boundary(s, p as int) as usize
    } else {
        p
    }
}

/// Backspace: the character before the cursor is removed and the cursor
/// moves to where it began.
pub open spec fn backspace_at(s: Seq<char>, p: usize) -> (Seq<char>, usize) {
    if p > 0 {
        let q = prev_boundary(s, p as int);
        (before_byte(s, q) + after_byte(s, p as int), q as usize)
    } else {
        (s, p)
    }
}

/// Delete: the character after the cursor is removed.
pub open spec fn delete_at(s: Seq<char>, p: usize) -> (Seq<char>, usize) {
    if p < utf8(s).len() {
        (before_byte(s, p as int) + after_byte(s, next_boundary(s, p as int)), p)
    } else {
        (s, p)
    }
}

/// Typing `c`: it is inserted at the cursor, which moves past it.
pub open spec fn typed_at(s: Seq<char>, p: usize, c: char) -> (Seq<char>, usize) {
    (
        before_byte(s, p as int) + seq![c] + after_byte(s, p as int),
        (p + utf8(seq![c]).len()) as usize,
    )
}

proof fn lemma_encode_concat(a: Seq<char>, b: Seq<char>)
    ensures
        utf8(a + b) == utf8(a) + utf8(b),
    decreases a.len(),
{
    if a.len() == 0 {
        assert(a + b =~= b);
        assert(utf8(a) =~= Seq::<u8>::empty());
        assert(utf8(a) + utf8(b) =~= utf8(b));
    } else {
        lemma_encode_concat(a.drop_first(), b);
        assert((a + b).drop_first() =~= a.drop_first() + b);
        assert((a + b)[0] == a[0]);
        assert(utf8(a + b) =~= vstd::utf8::encode_scalar(a[0] as u32) + utf8(a.drop_first() + b));
        assert(utf8(a) =~= vstd::utf8::encode_scalar(a[0] as u32) + utf8(a.drop_first()));
    }
}

proof fn lemma_boundary_concat(x: Seq<u8>, y: Seq<u8>)
    requires
        vstd::utf8::valid_utf8(x),
        vstd::utf8::valid_utf8(y),
    ensures
        vstd::utf8::valid_utf8(x + y),
        vstd::utf8::is_char_boundary(x + y, x.len() as int),
{
    vstd::utf8::valid_utf8_concat(x, y);
    if y.len() == 0 {
        assert(x + y =~= x);
        vstd::utf8::is_char_boundary_start_end_of_seq(x);
    } else {
        assert((x + y)[x.len() as int] == y[0]);
        vstd::utf8::is_char_boundary_iff_is_leading_byte(x + y, x.len() as int);
    }
}

proof fn lemma_split_parts(s: Seq<char>, p: int)
    requires
        at_char_boundary(s, p),
    ensures
        0 <= p <= utf8(s).len(),
        utf8(before_byte(s, p)) == utf8(s).take(p),
        utf8(after_byte(s, p)) == utf8(s).skip(p),
        vstd::utf8::valid_utf8(utf8(s).take(p)),
        vstd::utf8::valid_utf8(utf8(s).skip(p)),
{
    let b = utf8(s);
    vstd::utf8::encode_utf8_valid_utf8(s);
    vstd::utf8::valid_utf8_split(b, p);
    assert(b.take(p) =~= b.subrange(0, p));
    assert(b.skip(p) =~= b.subrange(p, b.len() as int));
    vstd::utf8::decode_utf8_encode_utf8(b.take(p));
    vstd::utf8::decode_utf8_encode_utf8(b.skip(p));
}

/// Joining the text before one boundary to the text after a later one keeps
/// the bytes on either side, and the joint is a boundary.
proof fn lemma_join(s: Seq<char>, q: int, p: int)
    requires
        at_char_boundary(s, q),
        at_char_boundary(s, p),
        q <= p,
    ensures
        utf8(before_byte(s, q) + after_byte(s, p)) == utf8(s).take(q) + utf8(s).skip(p),
        at_char_boundary(before_byte(s, q) + after_byte(s, p), q),
{
    lemma_split_parts(s, q);
    lemma_split_parts(s, p);
    lemma_encode_concat(before_byte(s, q), after_byte(s, p));
    lemma_boundary_concat(utf8(s).take(q), utf8(s).skip(p));
}

/// Typing `c` at a boundary puts its encoding there, and the cursor after
/// it is a boundary.
proof fn lemma_typed(s: Seq<char>, p: int, c: char)
    requires
        at_char_boundary(s, p),
    ensures
        utf8(before_byte(s, p) + seq![c]) == utf8(s).take(p) + utf8(seq![c]),
        utf8(before_byte(s, p) + seq![c] + after_byte(s, p)) == utf8(s).take(p) + utf8(
            seq![c],
        ) + utf8(s).skip(p),
        at_char_boundary(before_byte(s, p) + seq![c] + after_byte(s, p), p + utf8(seq![c]).len()),
        at_char_boundary(before_byte(s, p) + seq![c] + after_byte(s, p), p),
{
    let e = utf8(seq![c]);
    lemma_split_parts(s, p);
    vstd::utf8::encode_utf8_valid_utf8(seq![c]);
    lemma_encode_concat(before_byte(s, p), seq![c]);
    lemma_encode_concat(before_byte(s, p) + seq![c], after_byte(s, p));
    lemma_boundary_concat(utf8(s).take(p), e);
    lemma_boundary_concat(utf8(s).take(p) + e, utf8(s).skip(p));
    let x = utf8(s).take(p) + e + utf8(s).skip(p);
    assert(x =~= utf8(s).take(p) + (e + utf8(s).skip(p)));
    vstd::utf8::valid_utf8_concat(e, utf8(s).skip(p));
    lemma_boundary_concat(utf8(s).take(p), e + utf8(s).skip(p));
}

/// The start and the end of a text are character boundaries.
pub proof fn lemma_boundary_ends(s: Seq<char>)
    ensures
        at_char_boundary(s, 0),
        at_char_boundary(s, utf8(s).len() as int),
{
    vstd::utf8::encode_utf8_valid_utf8(s);
    vstd::utf8::is_char_boundary_start_end_of_seq(utf8(s));
}

/// The previous boundary is a boundary before `p`, with none in between.
proof fn lemma_prev_boundary_skip(s: Seq<char>, q: int, t: int)
    requires
        0 <= q < t,
        at_char_boundary(s, q),
        forall|r: int| q < r < t ==> !#[trigger] at_char_boundary(s, r),
    ensures
        prev_boundary(s, t) == q,
    decreases t - q,
{
    if t - 1 > q {
        lemma_prev_boundary_skip(s, q, t - 1);
    }
}

/// The cursor at `p`, after typing `c` at a boundary `p`, moves back to `p`
/// on the left: no boundary lies inside `c`'s encoding.
proof fn lemma_typed_prev(s: Seq<char>, p0: usize, c: char)
    requires
        at_char_boundary(s, p0 as int),
    ensures
        prev_boundary(typed_at(s, p0, c).0, p0 + utf8(seq![c]).len()) == p0,
{
    let p = p0 as int;
    let t = before_byte(s, p) + seq![c] + after_byte(s, p);
    let e = utf8(seq![c]);
    lemma_typed(s, p, c);
    vstd::utf8::encode_utf8_first_scalar(seq![c]);
    assert(seq![c].drop_first() =~= Seq::<char>::empty());
    assert(e =~= vstd::utf8::encode_scalar(c as u32) + utf8(Seq::<char>::empty()));
    let x = utf8(t);
    lemma_split_parts(s, p);
    vstd::utf8::encode_utf8_valid_utf8(t);
    assert(vstd::utf8::length_of_first_scalar(e) == e.len());
    assert forall|r: int| p < r < p + e.len() implies !#[trigger] at_char_boundary(t, r) by {
        assert(x[r] == e[r - p]);
        assert(vstd::utf8::is_continuation_byte(e[r - p]));
        vstd::utf8::is_char_boundary_iff_not_is_continuation_byte(x, r);
    }
    lemma_prev_boundary_skip(t, p, p + e.len());
}

/// Typing a character at a boundary and then removing the character before
/// the cursor gives the text and the cursor back.
pub proof fn lemma_backspace_after_typing(s: Seq<char>, p: usize, c: char)
    requires
        at_char_boundary(s, p as int),
        p + utf8(seq![c]).len() <= usize::MAX,
    ensures
        backspace_at(typed_at(s, p, c).0, typed_at(s, p, c).1) == (s, p),
{
    let t = typed_at(s, p, c).0;
    let e = utf8(seq![c]);
    lemma_typed(s, p as int, c);
    lemma_typed_prev(s, p, c);
    vstd::utf8::encode_utf8_first_scalar(seq![c]);
    lemma_split_parts(t, p as int);
    lemma_split_parts(t, p + e.len());
    lemma_split_parts(s, p as int);
    let b = utf8(s);
    let x = utf8(t);
    assert(x.take(p as int) =~= b.take(p as int));
    assert(x.skip(p + e.len()) =~= b.skip(p as int));
    vstd::utf8::encode_utf8_valid_utf8(s);
    vstd::utf8::decode_utf8_split(b, p as int);
    assert(b.take(p as int) =~= b.subrange(0, p as int));
    assert(b.skip(p as int) =~= b.subrange(p as int, b.len() as int));
    vstd::utf8::encode_utf8_decode_utf8(s);
}

fn prev_char_boundary(s: &String, p: usize) -> (r: usize)
    requires
        0 < p,
        at_char_boundary(s@, p as int),
    ensures
        r == prev_boundary(s@, p as int),
        at_char_boundary(s@, r as int),
        r < p,
{
    proof {
        lemma_boundary_ends(s@);
    }
    let mut q: usize = p - 1;
    while !s.as_str().is_char_boundary(q)
        invariant
            q < p,
            at_char_boundary(s@, 0),
            prev_boundary(s@, p as int) == prev_boundary(s@, q + 1),
        decreases q,
    {
        q = q - 1;
    }
    q
}

fn next_char_boundary(s: &String, p: usize) -> (r: usize)
    requires
        p < utf8(s@).len(),
    ensures
        r == next_boundary(s@, p as int),
        at_char_boundary(s@, r as int),
        p < r <= utf8(s@).len(),
{
    proof {
        lemma_boundary_ends(s@);
    }
    let n = byte_len(s);
    let mut q: usize = p + 1;
    while !s.as_str().is_char_boundary(q)
        invariant
            p < q <= n,
            n == utf8(s@).len(),
            at_char_boundary(s@, n as int),
            next_boundary(s@, p as int) == (if at_char_boundary(s@, q as int) {
                q as int
            } else {
                next_boundary(s@, q as int)
            }),
        decreases n - q,
    {
        q = q + 1;
    }
    q
}

/// Left arrow on `s` with the cursor at `p`.
pub fn move_left(s: &String, p: usize) -> (r: usize)
    requires
        at_char_boundary(s@, p as int),
    ensures
        r == cursor_left(s@, p),
        at_char_boundary(s@, r as int),
{
    if p > 0 {
        prev_char_boundary(s, p)
    } else {
        p
    }
}

/// Right arrow on `s` with the cursor at `p`.
pub fn move_right(s: &String, p: usize) -> (r: usize)
    requires
        at_char_boundary(s@, p as int),
    ensures
        r == cursor_right(s@, p),
        at_char_boundary(s@, r as int),
{
    if p < byte_len(s) {
        next_char_boundary(s, p)
    } else {
        p
    }
}

/// Backspace on `s` with the cursor at `p`.
pub fn backspace(s: &String, p: usize) -> (r: (String, usize))
    requires
        at_char_boundary(s@, p as int),
    ensures
        (r.0@, r.1) == backspace_at(s@, p),
        at_char_boundary(r.0@, r.1 as int),
{
    if p > 0 {
        let q = prev_char_boundary(s, p);
        let (a, _) = split_at_byte(s.as_str(), q);
        let (_, b) = split_at_byte(s.as_str(), p);
        proof {
            lemma_join(s@, q as int, p as int);
        }
        (concat(a.as_str(), b.as_str()), q)
    } else {
        (s.clone(), p)
    }
}

/// Delete on `s` with the cursor at `p`.
pub fn delete(s: &String, p: usize) -> (r: (String, usize))
    requires
        at_char_boundary(s@, p as int),
    ensures
        (r.0@, r.1) == delete_at(s@, p),
        at_char_boundary(r.0@, r.1 as int),
{
    if p < byte_len(s) {
        let n = next_char_boundary(s, p);
        let (a, _) = split_at_byte(s.as_str(), p);
        let (_, b) = split_at_byte(s.as_str(), n);
        proof {
            lemma_join(s@, p as int, n as int);
        }
        (concat(a.as_str(), b.as_str()), p)
    } else {
        (s.clone(), p)
    }
}

/// Typing `c` into `s` with the cursor at `p`.
pub fn type_char(s: &String, p: usize, c: char) -> (r: (String, usize))
    requires
        at_char_boundary(s@, p as int),
    ensures
        (r.0@, r.1) == typed_at(s@, p, c),
        at_char_boundary(r.0@, r.1 as int),
{
    let (mut a, b) = split_at_byte(s.as_str(), p);
    push_char(&mut a, c);
    proof {
        lemma_typed(s@, p as int, c);
        lemma_split_parts(s@, p as int);
        assert(a@ =~= before_byte(s@, p as int) + seq![c]);
    }
    let q = byte_len(&a);
    let r = concat(a.as_str(), b.as_str());
    assert(r@ =~= before_byte(s@, p as int) + seq![c] + after_byte(s@, p as int));
    (r, q)
}

/// The length of `s` in bytes, that is of its UTF-8 encoding.
pub(crate) fn byte_len(s: &String) -> (n: usize)
    ensures
        n == utf8(s@).len(),
{
    s.as_str().as_bytes().len()
}

/// Index of the first of `names` equal to `name`, if any.
pub open spec fn first_index(names: Seq<Seq<char>>, name: Seq<char>) -> Option<int> {
    if exists|i: int| 0 <= i < names.len() && names[i] == name {
        Some(
            choose|i: int|
                0 <= i < names.len() && names[i] == name && forall|j: int|
                    0 <= j < i ==> names[j] != name,
        )
    } else {
        None
    }
}

/// The first index holding `name` is the one before which no entry holds it.
pub proof fn lemma_first_index(names: Seq<Seq<char>>, name: Seq<char>, i: int)
    requires
        0 <= i < names.len(),
        names[i] == name,
        forall|j: int| 0 <= j < i ==> names[j] != name,
    ensures
        first_index(names, name) == Some(i),
{
    let c = choose|k: int|
        0 <= k < names.len() && names[k] == name && forall|j: int| 0 <= j < k ==> names[j] != name;
    assert(0 <= c < names.len() && names[c] == name);
    if c < i {
        assert(names[c] != name);
    }
    if c > i {
        assert(names[i] != name);
    }
}

proof fn lemma_least_index(names: Seq<Seq<char>>, name: Seq<char>, k: int)
    requires
        0 <= k < names.len(),
        names[k] == name,
    ensures
        exists|i: int|
            0 <= i < names.len() && names[i] == name && forall|j: int|
                0 <= j < i ==> names[j] != name,
    decreases k,
{
    if exists|j: int| 0 <= j < k && names[j] == name {
        let j = choose|j: int| 0 <= j < k && names[j] == name;
        lemma_least_index(names, name, j);
    } else {
        assert(forall|j: int| 0 <= j < k ==> names[j] != name);
    }
}

/// When `first_index` finds `name`, the index holds it and none before does.
pub proof fn lemma_first_index_found(names: Seq<Seq<char>>, name: Seq<char>)
    ensures
        first_index(names, name) matches Some(i) ==> {
            &&& 0 <= i < names.len()
            &&& names[i] == name
            &&& forall|j: int| 0 <= j < i ==> names[j] != name
        },
{
    if exists|i: int| 0 <= i < names.len() && names[i] == name {
        let k = choose|i: int| 0 <= i < names.len() && names[i] == name;
        lemma_least_index(names, name, k);
    }
}

} // verus!
