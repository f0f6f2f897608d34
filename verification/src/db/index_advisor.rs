//! Index recommendations read from sequential scans in a query plan.
use vstd::prelude::*;

use crate::db::query_analyzer::QueryPlan;
use crate::text::{
    chars_of, contains, contains_exec, find_from, find_from_exec, first_word, first_word_in,
    join, lemma_find_from, lemma_lines_of_joined_rows, lines, lines_of, opt_view, single_line,
    split_second, strip_cr, views, is_ws, matches_at, lemma_skip_ws_stops, lemma_skip_word_stops,
    lemma_first_word_is_word,
};

verus! {

broadcast use vstd::string::group_string_axioms;

/// A suggestion to index a table that a plan scans sequentially.
#[derive(Debug, PartialEq)]
pub struct IndexRecommendation {
    pub table: String,
    pub column: String,
    pub reason: String,
}

/// Reads index recommendations off query plans.
pub struct IndexAdvisor;

/// The text that precedes the table name of a sequential scan.
pub open spec fn seq_scan_on() -> Seq<char> {
    "Seq Scan on"@
}

/// The column of every recommendation: not known from the plan.
pub open spec fn unknown_column() -> Seq<char> {
    "—"@
}

/// Why `table` is recommended for an index.
pub open spec fn recommendation_reason(table: Seq<char>) -> Seq<char> {
    "Sequential scan detected on `"@ + table
        + "`; consider adding an index on the filtered column"@
}

/// The table that a plan line scans sequentially: the first word after its
/// first `Seq Scan on` (and before a second one), if the line has both.
pub open spec fn scanned_table(line: Seq<char>) -> Option<Seq<char>> {
    if contains(line, seq_scan_on()) {
        match split_second(line, seq_scan_on()) {
            Some(segment) => first_word(segment),
            None => None,
        }
    } else {
        None
    }
}

/// A line that scans a table sequentially names it: when `Seq Scan on`
/// first occurs at `a`, whatever text precedes it, and after it come white
/// space up to `j` and then the word `line[j..e]`, before any second
/// `Seq Scan on`, that word is the table.
pub proof fn lemma_scan_line_names_first_word(line: Seq<char>, a: int, j: int, e: int)
    requires
        matches_at(line, "Seq Scan on"@, a),
        forall|k: int| 0 <= k < a ==> !matches_at(line, "Seq Scan on"@, k),
        a + "Seq Scan on"@.len() <= j < e <= line.len(),
        forall|k: int| a + "Seq Scan on"@.len() <= k < j ==> is_ws(#[trigger] line[k]),
        forall|k: int| j <= k < e ==> !is_ws(#[trigger] line[k]),
        e == line.len() || is_ws(line[e]),
        forall|k: int| a + "Seq Scan on"@.len() <= k < e ==> !matches_at(line, "Seq Scan on"@, k),
    ensures
        scanned_table(line) == Some(line.subrange(j, e)),
{
    reveal_strlit("Seq Scan on");
    let p = seq_scan_on();
    let b = a + p.len();
    assert(contains(line, p));
    lemma_find_from(line, p, 0);
    assert(find_from(line, p, 0) == Some(a));
    lemma_find_from(line, p, b);
    let end: int = match find_from(line, p, b) {
        Some(c) => c,
        None => line.len() as int,
    };
    if let Some(c) = find_from(line, p, b) {
        if c < e {
            assert(!matches_at(line, p, c));
        }
        if c == e {
            assert(line.subrange(c, c + p.len())[0] == p[0]);
        }
    }
    assert(e <= end);
    let seg = line.subrange(b, end);
    assert(split_second(line, p) == Some(seg));
    assert forall|k: int| 0 <= k < j - b implies is_ws(#[trigger] seg[k]) by {
        assert(seg[k] == line[b + k]);
    }
    assert(seg[j - b] == line[j]);
    lemma_skip_ws_stops(seg, 0, j - b);
    assert forall|k: int| j - b <= k < e - b implies !is_ws(#[trigger] seg[k]) by {
        assert(seg[k] == line[b + k]);
    }
    if e - b < seg.len() {
        assert(seg[e - b] == line[e]);
    }
    lemma_skip_word_stops(seg, j - b, e - b);
    assert(seg.subrange(j - b, e - b) =~= line.subrange(j, e));
}

/// A table read off a line is a word after `Seq Scan on` in it: the line
/// holds the marker, and the name is not empty and holds no white space.
pub proof fn lemma_scanned_table_is_word(line: Seq<char>)
    ensures
        scanned_table(line) matches Some(w) ==> contains(line, "Seq Scan on"@) && w.len() > 0
            && forall|k: int| 0 <= k < w.len() ==> !is_ws(#[trigger] w[k]),
{
    if let Some(seg) = split_second(line, seq_scan_on()) {
        lemma_first_word_is_word(seg);
    }
}

/// The tables that the lines `ls` scan sequentially, in line order.
pub open spec fn scanned_tables(ls: Seq<Seq<char>>) -> Seq<Seq<char>>
    decreases ls.len(),
{
    if ls.len() == 0 {
        seq![]
    } else {
        let before = scanned_tables(ls.drop_last());
        match scanned_table(ls.last()) {
            Some(t) => before.push(t),
            None => before,
        }
    }
}

/// For a plan read from rows that are single lines (none ending in a
/// carriage return, the last one not empty), the scanned tables are read
/// row by row: the recommendations follow the rows.
pub proof fn lemma_tables_follow_rows(rows: Seq<Seq<char>>)
    requires
        forall|i: int| 0 <= i < rows.len() ==> single_line(#[trigger] rows[i]),
        forall|i: int| 0 <= i < rows.len() ==> strip_cr(#[trigger] rows[i]) == rows[i],
        rows.len() > 0 ==> rows.last().len() > 0,
    ensures
        scanned_tables(lines(join(rows, "\n"@))) == scanned_tables(rows),
{
    lemma_lines_of_joined_rows(rows);
}

/// The tables read off lines are those of every line that names one, in
/// line order, one for each such line: no line that names a table is
/// skipped, whatever kind of scan node it belongs to.
pub proof fn lemma_tables_of_every_scanning_line(ls: Seq<Seq<char>>)
    ensures
        scanned_tables(ls) == ls.filter(|l: Seq<char>| scanned_table(l) is Some).map_values(
            |l: Seq<char>| scanned_table(l)->0,
        ),
    decreases ls.len(),
{
    reveal(Seq::filter);
    if ls.len() > 0 {
        lemma_tables_of_every_scanning_line(ls.drop_last());
        let f = ls.drop_last().filter(|l: Seq<char>| scanned_table(l) is Some);
        if scanned_table(ls.last()) is Some {
            assert(f.push(ls.last()).map_values(|l: Seq<char>| scanned_table(l)->0) =~= f.map_values(
                |l: Seq<char>| scanned_table(l)->0,
            ).push(scanned_table(ls.last())->0));
        }
    }
}

/// `r` recommends an index on `table`.
pub open spec fn recommends_index(r: IndexRecommendation, table: Seq<char>) -> bool {
    &&& r.table@ == table
    &&& r.column@ == unknown_column()
    &&& r.reason@ == recommendation_reason(table)
}

/// The table that `line` scans sequentially, as `scanned_table` gives it.
fn line_scanned_table(line: &str) -> (t: Option<String>)
    ensures
        opt_view(t) == scanned_table(line@),
{
    let lc = chars_of(line);
    let pat = chars_of("Seq Scan on");
    proof {
        reveal_strlit("Seq Scan on");
    }
    if !contains_exec(&lc, &pat) {
        return None;
    }
    match find_from_exec(&lc, &pat, 0) {
        None => None,
        Some(a) => {
            proof {
                lemma_find_from(line@, seq_scan_on(), 0);
            }
            let b = a + pat.len();
            let end = match find_from_exec(&lc, &pat, b) {
                None => lc.len(),
                Some(c) => {
                    proof {
                        lemma_find_from(line@, seq_scan_on(), b as int);
                    }
                    c
                },
            };
            first_word_in(line, &lc, b, end)
        },
    }
}

/// The recommendation for `table`.
fn recommendation_for(table: String) -> (r: IndexRecommendation)
    ensures
        recommends_index(r, table@),
{
    let mut reason = String::from_str("Sequential scan detected on `");
    reason.append(table.as_str());
    reason.append("`; consider adding an index on the filtered column");
    IndexRecommendation { table, column: String::from_str("—"), reason }
}

impl IndexAdvisor {
    /// One recommendation for each line of the plan that scans a table
    /// sequentially, in line order; none for a plan without sequential scans.
    pub fn recommend(plan: &QueryPlan) -> (recs: Vec<IndexRecommendation>)
        ensures
            !plan.has_seq_scan ==> recs@.len() == 0,
            plan.has_seq_scan ==> {
                let tables = scanned_tables(lines(plan.raw@));
                &&& recs@.len() == tables.len()
                &&& forall|i: int| 0 <= i < tables.len() ==> recommends_index(recs@[i], tables[i])
            },
    {
        let mut recs: Vec<IndexRecommendation> = Vec::new();
        if !plan.has_seq_scan {
            return recs;
        }
        let ls = lines_of(plan.raw.as_str());
        let n = ls.len();
        let ghost all = lines(plan.raw@);
        let mut i: usize = 0;
        while i < n
            invariant
                i <= n,
                n == ls@.len(),
                views(ls@) == all,
                recs@.len() == scanned_tables(all.take(i as int)).len(),
                forall|j: int|
                    0 <= j < recs@.len() ==> recommends_index(
                        recs@[j],
                        scanned_tables(all.take(i as int))[j],
                    ),
            decreases n - i,
        {
            assert(all.take((i + 1) as int).drop_last() =~= all.take(i as int));
            assert(all.take((i + 1) as int).last() == ls@[i as int]@);
            match line_scanned_table(ls[i].as_str()) {
                Some(t) => {
                    recs.push(recommendation_for(t));
                },
                None => {},
            }
            i = i + 1;
        }
        assert(all.take(n as int) =~= all);
        recs
    }
}

} // verus!
