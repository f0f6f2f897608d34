//! Simple, safe SQL rewrites applied before a query runs.
use vstd::prelude::*;

use crate::db::query_cache::{after_request, QueryCache};
use crate::text::{contains, matches_at, replace, replace_all, replace_from};

verus! {

/// The pattern of the first rewrite: a doubled space.
pub open spec fn double_space() -> Seq<char> {
    "  "@
}

/// What a doubled space becomes: one space.
pub open spec fn single_space() -> Seq<char> {
    " "@
}

/// The pattern of the second rewrite.
pub open spec fn select_star() -> Seq<char> {
    "SELECT *"@
}

/// What `SELECT *` becomes: itself followed by a reminder comment.
pub open spec fn select_star_marked() -> Seq<char> {
    "SELECT * /* consider explicit columns */"@
}

/// The reminder comment that the second rewrite adds.
pub open spec fn explicit_columns_marker() -> Seq<char> {
    "/* consider explicit columns */"@
}

/// `sql` after the rewrites, applied in order: every doubled space becomes
/// one space, then every `SELECT *` gains a reminder comment.
pub open spec fn rewritten(sql: Seq<char>) -> Seq<char> {
    replace(replace(sql, double_space(), single_space()), select_star(), select_star_marked())
}

/// Applies a small set of deterministic, safe SQL rewrites.
pub fn apply_rewrites(sql: &str) -> (out: String)
    ensures
        out@ == rewritten(sql@),
{
    proof {
        reveal_strlit("  ");
        reveal_strlit("SELECT *");
    }
    let spaced = replace_all(sql, "  ", " ");
    replace_all(spaced.as_str(), "SELECT *", "SELECT * /* consider explicit columns */")
}

/// Applies simple, safe SQL rewrites before a query is executed, and
/// registers the rewritten statement in a cache that its holder keeps.
pub struct QueryOptimizer<'a> {
    /// The holder's cache, borrowed while the optimizer works on it.
    pub cache: &'a mut QueryCache,
}

impl<'a> QueryOptimizer<'a> {
    /// The cache as this optimizer sees it now.
    pub open spec fn cache(&self) -> QueryCache {
        *self.cache
    }

    /// An optimizer that registers statements in `cache`, the holder's cache.
    pub fn new(cache: &'a mut QueryCache) -> (o: QueryOptimizer<'a>)
        ensures
            o.cache() == *old(cache),
            *final(cache) == *final(o.cache),
    {
        QueryOptimizer { cache }
    }

    /// Rewrites `sql`, registers the result under `name` in the cache and
    /// returns the SQL that the cache holds for `name` (that of its first
    /// registration).
    pub fn optimize(&mut self, name: &str, sql: &str) -> (stored: String)
        requires
            old(self).cache().hits_of(name@) < u64::MAX,
        ensures
            final(self).cache()@ == after_request(old(self).cache()@, name@, rewritten(sql@)),
            stored@ == final(self).cache()@[name@].sql,
            *final(final(self).cache) == *final(old(self).cache),
    {
        let rewritten_sql = apply_rewrites(sql);
        self.cache.get_or_insert(name, rewritten_sql.as_str())
    }
}

/// Rewrites `sql` and registers it under `name` through an optimizer over
/// the holder's `cache`: the holder's cache records the request once the
/// optimizer is done, and the SQL it holds for `name` comes back.
pub fn optimize_in_cache(cache: &mut QueryCache, name: &str, sql: &str) -> (stored: String)
    requires
        old(cache).hits_of(name@) < u64::MAX,
    ensures
        final(cache)@ == after_request(old(cache)@, name@, rewritten(sql@)),
        stored@ == final(cache)@[name@].sql,
{
    let mut optimizer = QueryOptimizer::new(cache);
    optimizer.optimize(name, sql)
}

/// With no occurrence of `p` at or after `i`, replacing leaves `s` from `i` on unchanged.
proof fn lemma_replace_from_no_match(s: Seq<char>, p: Seq<char>, r: Seq<char>, i: int)
    requires
        0 <= i <= s.len(),
        p.len() > 0,
        forall|k: int| i <= k ==> !matches_at(s, p, k),
    ensures
        replace_from(s, p, r, i) == s.subrange(i, s.len() as int),
    decreases s.len() - i,
{
    if i < s.len() {
        lemma_replace_from_no_match(s, p, r, i + 1);
        assert(seq![s[i]] + s.subrange(i + 1, s.len() as int) =~= s.subrange(i, s.len() as int));
    }
}

/// A text without `p` is left unchanged by replacing `p`.
proof fn lemma_replace_absent(s: Seq<char>, p: Seq<char>, r: Seq<char>)
    requires
        p.len() > 0,
        !contains(s, p),
    ensures
        replace(s, p, r) == s,
{
    lemma_replace_from_no_match(s, p, r, 0);
    assert(s.subrange(0, s.len() as int) =~= s);
}

/// `x` occurs in `x + y`, and an occurrence in `y` is one in `c + y`.
proof fn lemma_contains_extend(c: Seq<char>, y: Seq<char>, x: Seq<char>)
    ensures
        contains(x + y, x),
        contains(y, x) ==> contains(c + y, x),
{
    assert(matches_at(x + y, x, 0)) by {
        assert((x + y).subrange(0, x.len() as int) =~= x);
    }
    if contains(y, x) {
        let k = choose|k: int| matches_at(y, x, k);
        assert(matches_at(c + y, x, k + c.len())) by {
            assert((c + y).subrange(k + c.len(), k + c.len() + x.len()) =~= y.subrange(
                k,
                k + x.len(),
            ));
        }
    }
}

/// An occurrence of `p` at or after `i` leaves `r` in the result of replacing.
proof fn lemma_replace_from_leaves_replacement(
    s: Seq<char>,
    p: Seq<char>,
    r: Seq<char>,
    i: int,
    j: int,
)
    requires
        0 <= i <= j,
        p.len() > 0,
        matches_at(s, p, j),
    ensures
        contains(replace_from(s, p, r, i), r),
    decreases s.len() - i,
{
    let rest_after = replace_from(s, p, r, i + p.len());
    if matches_at(s, p, i) {
        lemma_contains_extend(seq![], rest_after, r);
    } else {
        lemma_replace_from_leaves_replacement(s, p, r, i + 1, j);
        lemma_contains_extend(seq![s[i]], replace_from(s, p, r, i + 1), r);
    }
}

/// No two neighbouring characters of `q` are both spaces, and `q` neither
/// starts nor ends with a space.
pub open spec fn spaced_singly(q: Seq<char>) -> bool {
    &&& q.len() > 0
    &&& q[0] != ' '
    &&& q.last() != ' '
    &&& forall|k: int| 0 <= k < q.len() - 1 ==> !(q[k] == ' ' && #[trigger] q[k + 1] == ' ')
}

/// From inside an occurrence of such a `q` at `j`, collapsing doubled spaces
/// reproduces the rest of `q` first.
proof fn lemma_collapse_keeps_prefix(s: Seq<char>, q: Seq<char>, j: int, k: int)
    requires
        spaced_singly(q),
        matches_at(s, q, j),
        0 <= k < q.len(),
    ensures
        ({
            let out = replace_from(s, double_space(), single_space(), j + k);
            q.len() - k <= out.len() && out.subrange(0, q.len() - k) == q.subrange(
                k,
                q.len() as int,
            )
        }),
    decreases q.len() - k,
{
    reveal_strlit("  ");
    reveal_strlit(" ");
    let s2 = double_space();
    assert(s[j + k] == q[k]) by {
        assert(s.subrange(j, j + q.len())[k] == q[k]);
    }
    if k + 1 < q.len() {
        assert(s[j + k + 1] == q[k + 1]) by {
            assert(s.subrange(j, j + q.len())[k + 1] == q[k + 1]);
        }
    }
    assert(!matches_at(s, s2, j + k)) by {
        if matches_at(s, s2, j + k) {
            assert(s.subrange(j + k, j + k + 2)[0] == ' ');
            assert(s.subrange(j + k, j + k + 2)[1] == ' ');
        }
    }
    let tail = replace_from(s, s2, single_space(), j + k + 1);
    let out = replace_from(s, s2, single_space(), j + k);
    assert(out == seq![q[k]] + tail);
    if k + 1 < q.len() {
        lemma_collapse_keeps_prefix(s, q, j, k + 1);
        assert(out.subrange(0, q.len() - k) =~= seq![q[k]] + tail.subrange(0, q.len() - k - 1));
    } else {
        assert(out.subrange(0, q.len() - k) =~= seq![q[k]]);
    }
    assert(out.subrange(0, q.len() - k) =~= q.subrange(k, q.len() as int));
}

/// An occurrence at or after `i` of such a `q` survives collapsing doubled spaces.
proof fn lemma_collapse_keeps(s: Seq<char>, q: Seq<char>, i: int, j: int)
    requires
        spaced_singly(q),
        matches_at(s, q, j),
        0 <= i <= j,
    ensures
        contains(replace_from(s, double_space(), single_space(), i), q),
    decreases s.len() - i,
{
    reveal_strlit("  ");
    reveal_strlit(" ");
    let s2 = double_space();
    let s1 = single_space();
    assert(s[j] == q[0]) by {
        assert(s.subrange(j, j + q.len())[0] == q[0]);
    }
    if i == j {
        lemma_collapse_keeps_prefix(s, q, j, 0);
        let out = replace_from(s, s2, s1, i);
        assert(matches_at(out, q, 0)) by {
            assert(q.subrange(0, q.len() as int) =~= q);
        }
    } else if matches_at(s, s2, i) {
        assert(s.subrange(i, i + 2)[0] == ' ' && s.subrange(i, i + 2)[1] == ' ');
        assert(j != i + 1);
        lemma_collapse_keeps(s, q, i + 2, j);
        lemma_contains_extend(s1, replace_from(s, s2, s1, i + 2), q);
    } else {
        lemma_collapse_keeps(s, q, i + 1, j);
        lemma_contains_extend(seq![s[i]], replace_from(s, s2, s1, i + 1), q);
    }
}

/// A query with neither a doubled space nor `SELECT *` comes out of the
/// rewrites unchanged.
pub proof fn lemma_clean_query_unchanged(sql: Seq<char>)
    requires
        !contains(sql, double_space()),
        !contains(sql, select_star()),
    ensures
        rewritten(sql) == sql,
{
    reveal_strlit("  ");
    reveal_strlit("SELECT *");
    lemma_replace_absent(sql, double_space(), single_space());
    lemma_replace_absent(sql, select_star(), select_star_marked());
}

/// A query that selects `*` comes out of the rewrites carrying the reminder
/// to list explicit columns.
pub proof fn lemma_select_star_marked(sql: Seq<char>)
    requires
        contains(sql, select_star()),
    ensures
        contains(rewritten(sql), select_star_marked()),
        contains(rewritten(sql), explicit_columns_marker()),
{
    reveal_strlit("SELECT *");
    reveal_strlit("SELECT * /* consider explicit columns */");
    reveal_strlit("/* consider explicit columns */");
    let q = select_star();
    assert(spaced_singly(q));
    let j = choose|j: int| matches_at(sql, q, j);
    lemma_collapse_keeps(sql, q, 0, j);
    let spaced = replace(sql, double_space(), single_space());
    let j2 = choose|j2: int| matches_at(spaced, q, j2);
    lemma_replace_from_leaves_replacement(spaced, q, select_star_marked(), 0, j2);
    let out = rewritten(sql);
    let m = select_star_marked();
    let k = choose|k: int| matches_at(out, m, k);
    let c = explicit_columns_marker();
    assert(matches_at(out, c, k + 9)) by {
        assert(m.subrange(9, m.len() as int) =~= c);
        assert(out.subrange(k + 9, k + 9 + c.len()) =~= out.subrange(k, k + m.len()).subrange(
            9,
            m.len() as int,
        ));
    }
}

} // verus!
