//! Character-level string operations with contracts over `Seq<char>`.
//!
//! Every function here works on the characters of its arguments, as the
//! `@` view of `str` and `String` gives them, and states its result through
//! the spec functions of this module.
use vstd::prelude::*;

verus! {

broadcast use vstd::string::group_string_axioms;

/// `p` occurs in `s` starting at index `i`.
pub open spec fn matches_at(s: Seq<char>, p: Seq<char>, i: int) -> bool {
    0 <= i && i + p.len() <= s.len() && s.subrange(i, i + p.len()) =~= p
}

/// `p` occurs somewhere in `s`.
pub open spec fn contains(s: Seq<char>, p: Seq<char>) -> bool {
    exists|i: int| matches_at(s, p, i)
}

/// The first index `j >= i` at which `p` occurs in `s`.
pub open spec fn find_from(s: Seq<char>, p: Seq<char>, i: int) -> Option<int>
    decreases s.len() + 1 - i,
{
    if i < 0 || i + p.len() > s.len() {
        None
    } else if matches_at(s, p, i) {
        Some(i)
    } else {
        find_from(s, p, i + 1)
    }
}

/// `s` from index `i` on, with every occurrence of the non-empty `p` replaced
/// by `r`, occurrences taken from left to right without overlap.
pub open spec fn replace_from(s: Seq<char>, p: Seq<char>, r: Seq<char>, i: int) -> Seq<char>
    decreases s.len() - i,
{
    if p.len() == 0 || i < 0 || i >= s.len() {
        s.subrange(i, s.len() as int)
    } else if matches_at(s, p, i) {
        r + replace_from(s, p, r, i + p.len())
    } else {
        seq![s[i]] + replace_from(s, p, r, i + 1)
    }
}

/// `s` with every occurrence of the non-empty `p` replaced by `r`.
pub open spec fn replace(s: Seq<char>, p: Seq<char>, r: Seq<char>) -> Seq<char> {
    replace_from(s, p, r, 0)
}

/// What `find_from` returns: the first occurrence at or after `i`.
pub proof fn lemma_find_from(s: Seq<char>, p: Seq<char>, i: int)
    requires
        0 <= i,
    ensures
        match find_from(s, p, i) {
            Some(j) => i <= j && matches_at(s, p, j) && forall|k: int|
                i <= k < j ==> !matches_at(s, p, k),
            None => forall|k: int| i <= k ==> !matches_at(s, p, k),
        },
    decreases s.len() + 1 - i,
{
    if i + p.len() > s.len() {
    } else if matches_at(s, p, i) {
    } else {
        lemma_find_from(s, p, i + 1);
    }
}

/// `contains` agrees with a search from the start.
pub proof fn lemma_contains_find(s: Seq<char>, p: Seq<char>)
    ensures
        contains(s, p) <==> find_from(s, p, 0) is Some,
{
    lemma_find_from(s, p, 0);
    if let Some(j) = find_from(s, p, 0) {
        assert(matches_at(s, p, j));
    }
}

/// The characters of `s`, in order.
pub fn chars_of(s: &str) -> (v: Vec<char>)
    ensures
        v@ == s@,
{
    let mut v: Vec<char> = Vec::new();
    for c in it: s.chars()
        invariant
            v@ == it.seq().take(it.index() as int),
            it.seq() == s@,
    {
        v.push(c);
    }
    v
}

/// Whether `p` occurs in `s` at index `i`.
pub fn matches_at_exec(s: &Vec<char>, p: &Vec<char>, i: usize) -> (b: bool)
    ensures
        b == matches_at(s@, p@, i as int),
{
    let n = s.len();
    let m = p.len();
    if i > n || m > n - i {
        return false;
    }
    let mut k: usize = 0;
    while k < m
        invariant
            k <= m,
            m == p@.len(),
            n == s@.len(),
            i + m <= n,
            forall|j: int| 0 <= j < k ==> s@[i + j] == p@[j],
        decreases m - k,
    {
        if s[i + k] != p[k] {
            assert(s@.subrange(i as int, i + m)[k as int] != p@[k as int]);
            return false;
        }
        k = k + 1;
    }
    assert(s@.subrange(i as int, i + m) =~= p@);
    true
}

/// The first index at or after `i` where `p` occurs in `s`.
pub fn find_from_exec(s: &Vec<char>, p: &Vec<char>, i: usize) -> (r: Option<usize>)
    ensures
        match r {
            Some(j) => find_from(s@, p@, i as int) == Some(j as int),
            None => find_from(s@, p@, i as int) is None,
        },
{
    let n = s.len();
    let m = p.len();
    let mut k = i;
    while k <= n && m <= n - k
        invariant
            i <= k,
            n == s@.len(),
            m == p@.len(),
            find_from(s@, p@, i as int) == find_from(s@, p@, k as int),
        decreases n + 1 - k,
    {
        if matches_at_exec(s, p, k) {
            return Some(k);
        }
        k = k + 1;
    }
    None
}

/// Whether `p` occurs in `s`.
pub fn contains_exec(s: &Vec<char>, p: &Vec<char>) -> (b: bool)
    ensures
        b == contains(s@, p@),
{
    proof {
        lemma_contains_find(s@, p@);
    }
    find_from_exec(s, p, 0).is_some()
}

/// `s` with every occurrence of the non-empty `from` replaced by `to`, as
/// `str::replace` does for a non-empty pattern.
pub fn replace_all(s: &str, from: &str, to: &str) -> (res: String)
    requires
        from@.len() > 0,
    ensures
        res@ == replace(s@, from@, to@),
{
    let sc = chars_of(s);
    let pc = chars_of(from);
    let n = sc.len();
    let m = pc.len();
    let mut out = String::new();
    let mut seg: usize = 0;
    let mut i: usize = 0;
    while i < n
        invariant
            seg <= i <= n,
            n == s@.len(),
            m == from@.len(),
            m > 0,
            sc@ == s@,
            pc@ == from@,
            out@ + s@.subrange(seg as int, i as int) + replace_from(s@, from@, to@, i as int)
                == replace_from(s@, from@, to@, 0),
        decreases n - i,
    {
        let ghost old_out = out@;
        if matches_at_exec(&sc, &pc, i) {
            out.append(s.substring_char(seg, i));
            out.append(to);
            assert(out@ + s@.subrange((i + m) as int, (i + m) as int) + replace_from(
                s@,
                from@,
                to@,
                (i + m) as int,
            ) =~= old_out + s@.subrange(seg as int, i as int) + replace_from(
                s@,
                from@,
                to@,
                i as int,
            ));
            i = i + m;
            seg = i;
        } else {
            assert(old_out + s@.subrange(seg as int, (i + 1) as int) + replace_from(
                s@,
                from@,
                to@,
                (i + 1) as int,
            ) =~= old_out + s@.subrange(seg as int, i as int) + replace_from(
                s@,
                from@,
                to@,
                i as int,
            ));
            i = i + 1;
        }
    }
    out.append(s.substring_char(seg, n));
    assert(replace_from(s@, from@, to@, n as int) =~= Seq::<char>::empty());
    assert(out@ =~= replace_from(s@, from@, to@, 0));
    out
}


/// `line` without one trailing carriage return.
pub open spec fn strip_cr(line: Seq<char>) -> Seq<char> {
    if line.len() > 0 && line.last() == '\r' {
        line.drop_last()
    } else {
        line
    }
}

/// The lines of `s` from index `i` on, the current line having started at
/// `start`: a line ends at `'\n'`, which is dropped together with a `'\r'`
/// just before it; the text after the last `'\n'` is a line unless empty.
pub open spec fn lines_from(s: Seq<char>, start: int, i: int) -> Seq<Seq<char>>
    decreases s.len() - i,
{
    if i < 0 || i >= s.len() {
        if 0 <= start < s.len() {
            seq![s.subrange(start, s.len() as int)]
        } else {
            seq![]
        }
    } else if s[i] == '\n' {
        seq![strip_cr(s.subrange(start, i))] + lines_from(s, i + 1, i + 1)
    } else {
        lines_from(s, start, i + 1)
    }
}

/// The lines of `s`, as `str::lines` gives them.
pub open spec fn lines(s: Seq<char>) -> Seq<Seq<char>> {
    lines_from(s, 0, 0)
}

/// The view of an optional string.
pub open spec fn opt_view(o: Option<String>) -> Option<Seq<char>> {
    match o {
        Some(s) => Some(s@),
        None => None,
    }
}

/// The views of a sequence of strings.
pub open spec fn views(v: Seq<String>) -> Seq<Seq<char>> {
    v.map_values(|x: String| x@)
}

/// The lines of `s`, as `str::lines` gives them.
pub fn lines_of(s: &str) -> (ls: Vec<String>)
    ensures
        views(ls@) == lines(s@),
{
    let sc = chars_of(s);
    let n = sc.len();
    let mut ls: Vec<String> = Vec::new();
    let mut start: usize = 0;
    let mut i: usize = 0;
    while i < n
        invariant
            start <= i <= n,
            n == s@.len(),
            sc@ == s@,
            views(ls@) + lines_from(s@, start as int, i as int) == lines(s@),
        decreases n - i,
    {
        if sc[i] == '\n' {
            let line = if i > start && sc[i - 1] == '\r' {
                String::from_str(s.substring_char(start, i - 1))
            } else {
                String::from_str(s.substring_char(start, i))
            };
            assert(line@ == strip_cr(s@.subrange(start as int, i as int)));
            let ghost old_ls = ls@;
            ls.push(line);
            assert(views(ls@) =~= views(old_ls).push(line@));
            assert(views(ls@) + lines_from(s@, (i + 1) as int, (i + 1) as int) =~= views(old_ls)
                + lines_from(s@, start as int, i as int));
            start = i + 1;
        }
        i = i + 1;
    }
    if start < n {
        let line = String::from_str(s.substring_char(start, n));
        let ghost old_ls = ls@;
        ls.push(line);
        assert(views(ls@) =~= views(old_ls).push(line@));
    }
    assert(views(ls@) =~= lines(s@));
    ls
}

/// `parts` joined with `sep` between each two of them.
pub open spec fn join(parts: Seq<Seq<char>>, sep: Seq<char>) -> Seq<char>
    decreases parts.len(),
{
    if parts.len() == 0 {
        seq![]
    } else if parts.len() == 1 {
        parts[0]
    } else {
        join(parts.drop_last(), sep) + sep + parts.last()
    }
}

/// `parts` joined with `sep`, as `[String]::join` does.
pub fn join_strings(parts: &Vec<String>, sep: &str) -> (res: String)
    ensures
        res@ == join(views(parts@), sep@),
{
    let mut res = String::new();
    let n = parts.len();
    let mut i: usize = 0;
    while i < n
        invariant
            i <= n,
            n == parts@.len(),
            res@ == join(views(parts@).take(i as int), sep@),
        decreases n - i,
    {
        let ghost before = views(parts@).take(i as int);
        if i > 0 {
            res.append(sep);
        }
        res.append(parts[i].as_str());
        assert(views(parts@).take((i + 1) as int).drop_last() =~= before);
        i = i + 1;
    }
    assert(views(parts@).take(n as int) =~= views(parts@));
    res
}

/// White space as `char::is_whitespace` defines it (Unicode `White_Space`).
pub open spec fn is_ws(c: char) -> bool {
    ||| ('\t' <= c && c <= '\r')
    ||| c == ' '
    ||| c == '\u{85}'
    ||| c == '\u{A0}'
    ||| c == '\u{1680}'
    ||| ('\u{2000}' <= c && c <= '\u{200A}')
    ||| c == '\u{2028}'
    ||| c == '\u{2029}'
    ||| c == '\u{202F}'
    ||| c == '\u{205F}'
    ||| c == '\u{3000}'
}

/// Whether `c` is white space.
pub fn is_ws_exec(c: char) -> (b: bool)
    ensures
        b == is_ws(c),
{
    ('\t' <= c && c <= '\r') || c == ' ' || c == '\u{85}' || c == '\u{A0}' || c == '\u{1680}'
        || ('\u{2000}' <= c && c <= '\u{200A}') || c == '\u{2028}' || c == '\u{2029}' || c
        == '\u{202F}' || c == '\u{205F}' || c == '\u{3000}'
}

/// The first index at or after `i` that does not hold white space, or the length.
pub open spec fn skip_ws(s: Seq<char>, i: int) -> int
    decreases s.len() - i,
{
    if i < 0 || i >= s.len() || !is_ws(s[i]) {
        i
    } else {
        skip_ws(s, i + 1)
    }
}

/// The first index at or after `i` that holds white space, or the length.
pub open spec fn skip_word(s: Seq<char>, i: int) -> int
    decreases s.len() - i,
{
    if i < 0 || i >= s.len() || is_ws(s[i]) {
        i
    } else {
        skip_word(s, i + 1)
    }
}

/// The first item of `s.split_whitespace()`: its first maximal run of
/// characters that are not white space.
pub open spec fn first_word(s: Seq<char>) -> Option<Seq<char>> {
    let a = skip_ws(s, 0);
    if a >= s.len() {
        None
    } else {
        Some(s.subrange(a, skip_word(s, a)))
    }
}

/// The item that `s.split(p).nth(1)` gives: the text between the first
/// occurrence of `p` and the next one after it (or the end).
pub open spec fn split_second(s: Seq<char>, p: Seq<char>) -> Option<Seq<char>> {
    match find_from(s, p, 0) {
        None => None,
        Some(a) => {
            let b = a + p.len();
            match find_from(s, p, b) {
                None => Some(s.subrange(b, s.len() as int)),
                Some(c) => Some(s.subrange(b, c)),
            }
        },
    }
}

proof fn lemma_skip_ws_bounds(s: Seq<char>, i: int)
    requires
        0 <= i <= s.len(),
    ensures
        i <= skip_ws(s, i) <= s.len(),
        i <= skip_word(s, i) <= s.len(),
    decreases s.len() - i,
{
    if i < s.len() {
        lemma_skip_ws_bounds(s, i + 1);
    }
}

/// Skipping white space from `i` stops at `m` when `s[i..m]` is white
/// space and `s[m]` is not.
pub proof fn lemma_skip_ws_stops(s: Seq<char>, i: int, m: int)
    requires
        0 <= i <= m < s.len(),
        forall|k: int| i <= k < m ==> is_ws(#[trigger] s[k]),
        !is_ws(s[m]),
    ensures
        skip_ws(s, i) == m,
    decreases m - i,
{
    if i < m {
        lemma_skip_ws_stops(s, i + 1, m);
    }
}

/// Skipping a word from `i` stops at `e` when `s[i..e]` holds no white
/// space and `s[e]` is white space or the end.
pub proof fn lemma_skip_word_stops(s: Seq<char>, i: int, e: int)
    requires
        0 <= i <= e <= s.len(),
        forall|k: int| i <= k < e ==> !is_ws(#[trigger] s[k]),
        e == s.len() || is_ws(s[e]),
    ensures
        skip_word(s, i) == e,
    decreases e - i,
{
    if i < e {
        lemma_skip_word_stops(s, i + 1, e);
    }
}

/// The first word of `s`, when there is one, is not empty and holds no
/// white space.
pub proof fn lemma_first_word_is_word(s: Seq<char>)
    ensures
        first_word(s) matches Some(w) ==> w.len() > 0 && forall|k: int|
            0 <= k < w.len() ==> !is_ws(#[trigger] w[k]),
{
    lemma_skip_ws_bounds(s, 0);
    let a = skip_ws(s, 0);
    if a < s.len() {
        lemma_skip_ws_bounds(s, a);
        lemma_skip_ws_lands(s, 0);
        lemma_skip_word_spans(s, a);
        lemma_skip_word_spans(s, a + 1);
        assert(skip_word(s, a) == skip_word(s, a + 1));
        let w = s.subrange(a, skip_word(s, a));
        assert forall|k: int| 0 <= k < w.len() implies !is_ws(#[trigger] w[k]) by {
            assert(w[k] == s[a + k]);
        }
    }
}

/// Skipping white space lands on a character that is not white space, or
/// on the end.
proof fn lemma_skip_ws_lands(s: Seq<char>, i: int)
    requires
        0 <= i <= s.len(),
    ensures
        skip_ws(s, i) < s.len() ==> !is_ws(s[skip_ws(s, i)]),
    decreases s.len() - i,
{
    if i < s.len() && is_ws(s[i]) {
        lemma_skip_ws_lands(s, i + 1);
    }
}

/// Skipping a word passes over characters that are not white space only.
proof fn lemma_skip_word_spans(s: Seq<char>, i: int)
    requires
        0 <= i <= s.len(),
    ensures
        i <= skip_word(s, i) <= s.len(),
        forall|k: int| i <= k < skip_word(s, i) ==> !is_ws(#[trigger] s[k]),
    decreases s.len() - i,
{
    if i < s.len() && !is_ws(s[i]) {
        lemma_skip_word_spans(s, i + 1);
    }
}

/// The first word of `s[from..to]`, as `first_word` gives it, as a `String`.
pub fn first_word_in(s: &str, sc: &Vec<char>, from: usize, to: usize) -> (r: Option<String>)
    requires
        sc@ == s@,
        from <= to <= s@.len(),
    ensures
        match r {
            Some(w) => first_word(s@.subrange(from as int, to as int)) == Some(w@),
            None => first_word(s@.subrange(from as int, to as int)) is None,
        },
{
    let ghost t = s@.subrange(from as int, to as int);
    let mut a = from;
    while a < to && is_ws_exec(sc[a])
        invariant
            from <= a <= to <= s@.len(),
            sc@ == s@,
            t == s@.subrange(from as int, to as int),
            skip_ws(t, 0) == skip_ws(t, a - from),
        decreases to - a,
    {
        assert(t[a - from] == sc@[a as int]);
        a = a + 1;
    }
    proof {
        lemma_skip_ws_bounds(t, 0);
    }
    if a == to {
        return None;
    }
    proof {
        assert(t[a - from] == sc@[a as int]);
    }
    let mut b = a;
    while b < to && !is_ws_exec(sc[b])
        invariant
            from <= a <= b <= to <= s@.len(),
            sc@ == s@,
            t == s@.subrange(from as int, to as int),
            skip_word(t, a - from) == skip_word(t, b - from),
        decreases to - b,
    {
        assert(t[b - from] == sc@[b as int]);
        b = b + 1;
    }
    let w = String::from_str(s.substring_char(a, b));
    assert(w@ =~= t.subrange(a - from, b - from));
    Some(w)
}

/// `s` holds no line feed.
pub open spec fn single_line(s: Seq<char>) -> bool {
    forall|k: int| 0 <= k < s.len() ==> s[k] != '\n'
}

/// A scan that meets no line feed before index `j`, which holds one, ends
/// the current line there.
proof fn lemma_lines_from_to_newline(s: Seq<char>, start: int, i: int, j: int)
    requires
        0 <= start <= i <= j < s.len(),
        s[j] == '\n',
        forall|k: int| i <= k < j ==> s[k] != '\n',
    ensures
        lines_from(s, start, i) == seq![strip_cr(s.subrange(start, j))] + lines_from(
            s,
            j + 1,
            j + 1,
        ),
    decreases j - i,
{
    if i < j {
        lemma_lines_from_to_newline(s, start, i + 1, j);
    }
}

/// A scan that meets no line feed up to the end gives the rest as a line,
/// unless it is empty.
proof fn lemma_lines_from_to_end(s: Seq<char>, start: int, i: int)
    requires
        0 <= start <= i <= s.len(),
        forall|k: int| i <= k < s.len() ==> s[k] != '\n',
    ensures
        lines_from(s, start, i) == if start < s.len() {
            seq![s.subrange(start, s.len() as int)]
        } else {
            Seq::<Seq<char>>::empty()
        },
    decreases s.len() - i,
{
    if i < s.len() {
        lemma_lines_from_to_end(s, start, i + 1);
    }
}

/// Scanning `p + s` past `p` reads `s`.
proof fn lemma_lines_from_shift(p: Seq<char>, s: Seq<char>, start: int, i: int)
    requires
        0 <= start <= i <= s.len(),
    ensures
        lines_from(p + s, start + p.len(), i + p.len()) == lines_from(s, start, i),
    decreases s.len() - i,
{
    let t = p + s;
    if i < s.len() {
        assert(t[i + p.len()] == s[i]);
        if s[i] == '\n' {
            lemma_lines_from_shift(p, s, i + 1, i + 1);
            assert(t.subrange(start + p.len(), i + p.len()) =~= s.subrange(start, i));
        } else {
            lemma_lines_from_shift(p, s, start, i + 1);
        }
    } else if start < s.len() {
        assert(t.subrange(start + p.len(), t.len() as int) =~= s.subrange(start, s.len() as int));
    }
}

/// Joining with a separator splits off the first part.
proof fn lemma_join_front(parts: Seq<Seq<char>>, sep: Seq<char>)
    requires
        parts.len() >= 2,
    ensures
        join(parts, sep) == parts[0] + sep + join(parts.drop_first(), sep),
    decreases parts.len(),
{
    if parts.len() == 2 {
        assert(parts.drop_last().len() == 1);
        assert(parts.drop_first().len() == 1);
        assert(join(parts.drop_first(), sep) == parts[1]);
        assert(join(parts.drop_last(), sep) == parts[0]);
    } else {
        lemma_join_front(parts.drop_last(), sep);
        assert(parts.drop_last().drop_first() =~= parts.drop_first().drop_last());
        assert(parts.drop_first().last() == parts.last());
        assert(parts.drop_last()[0] == parts[0]);
        assert((parts[0] + sep + join(parts.drop_first().drop_last(), sep)) + sep + parts.last()
            =~= parts[0] + sep + (join(parts.drop_first().drop_last(), sep) + sep
            + parts.last()));
    }
}

/// Rows without line feeds, none ending in a carriage return and the last
/// one not empty, are the lines of their join with line feeds.
pub proof fn lemma_lines_of_joined_rows(rows: Seq<Seq<char>>)
    requires
        forall|i: int| 0 <= i < rows.len() ==> single_line(#[trigger] rows[i]),
        forall|i: int| 0 <= i < rows.len() ==> strip_cr(#[trigger] rows[i]) == rows[i],
        rows.len() > 0 ==> rows.last().len() > 0,
    ensures
        lines(join(rows, "\n"@)) == rows,
    decreases rows.len(),
{
    reveal_strlit("\n");
    let nl: Seq<char> = "\n"@;
    if rows.len() == 0 {
        assert(lines(join(rows, nl)) =~= rows);
    } else if rows.len() == 1 {
        let r = rows[0];
        assert(single_line(r));
        lemma_lines_from_to_end(r, 0, 0);
        assert(r.subrange(0, r.len() as int) =~= r);
        assert(lines(join(rows, nl)) =~= rows);
    } else {
        let r = rows[0];
        let rest = rows.drop_first();
        assert forall|i: int| 0 <= i < rest.len() implies single_line(#[trigger] rest[i]) by {
            assert(rest[i] == rows[i + 1]);
        }
        assert forall|i: int| 0 <= i < rest.len() implies strip_cr(#[trigger] rest[i])
            == rest[i] by {
            assert(rest[i] == rows[i + 1]);
        }
        lemma_lines_of_joined_rows(rest);
        lemma_join_front(rows, nl);
        let tail = join(rest, nl);
        let j = r + nl + tail;
        assert(single_line(r));
        assert(j[r.len() as int] == '\n');
        assert forall|k: int| 0 <= k < r.len() implies j[k] != '\n' by {
            assert(j[k] == r[k]);
        }
        lemma_lines_from_to_newline(j, 0, 0, r.len() as int);
        assert(j.subrange(0, r.len() as int) =~= r);
        lemma_lines_from_shift(r + nl, tail, 0, 0);
        assert(j == (r + nl) + tail);
        assert(lines(j) =~= seq![r] + rest);
        assert(seq![r] + rest =~= rows);
    }
}

} // verus!
