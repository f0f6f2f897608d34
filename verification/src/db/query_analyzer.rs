//! The parts of a query plan that the advisor reads: the plan text, whether
//! it scans a table sequentially, and the estimated startup cost.
use vstd::prelude::*;

use crate::text::{
    chars_of, contains, contains_exec, find_from, find_from_exec, join, join_strings,
    lemma_lines_of_joined_rows, lines, lines_of, opt_view, single_line, strip_cr, views,
};

verus! {

broadcast use vstd::string::group_string_axioms;

/// A query plan as `EXPLAIN ANALYZE` prints it.
pub struct QueryPlan {
    /// The plan's lines, joined with `'\n'`.
    pub raw: String,
    /// Whether the plan holds a sequential scan.
    pub has_seq_scan: bool,
    /// The text of the estimated startup cost, read from the first line that
    /// gives a cost (between `cost=` and `..`); none when that line has none.
    pub cost_text: Option<String>,
}

/// The mark of a sequential scan in a plan.
pub open spec fn seq_scan() -> Seq<char> {
    "Seq Scan"@
}

/// The mark before a cost in a plan line.
pub open spec fn cost_mark() -> Seq<char> {
    "cost="@
}

/// The separator between the startup and the total cost.
pub open spec fn cost_range() -> Seq<char> {
    ".."@
}

/// The first of `ls[i..]` that contains `p`.
pub open spec fn first_line_from(ls: Seq<Seq<char>>, p: Seq<char>, i: int) -> Option<Seq<char>>
    decreases ls.len() - i,
{
    if i < 0 || i >= ls.len() {
        None
    } else if contains(ls[i], p) {
        Some(ls[i])
    } else {
        first_line_from(ls, p, i + 1)
    }
}

/// The text between the first `cost=` of `line` and the next `..` after it.
pub open spec fn cost_in_line(line: Seq<char>) -> Option<Seq<char>> {
    match find_from(line, cost_mark(), 0) {
        None => None,
        Some(a) => {
            let start = a + cost_mark().len();
            match find_from(line, cost_range(), start) {
                None => None,
                Some(e) => Some(line.subrange(start, e)),
            }
        },
    }
}

/// The startup cost text of a plan: that of its first line holding `cost=`.
pub open spec fn plan_cost_text(raw: Seq<char>) -> Option<Seq<char>> {
    match first_line_from(lines(raw), cost_mark(), 0) {
        None => None,
        Some(line) => cost_in_line(line),
    }
}

/// For a plan read from rows that are single lines (none ending in a
/// carriage return, the last one not empty), the cost is read from the first
/// row that gives one.
pub proof fn lemma_cost_follows_rows(rows: Seq<Seq<char>>)
    requires
        forall|i: int| 0 <= i < rows.len() ==> single_line(#[trigger] rows[i]),
        forall|i: int| 0 <= i < rows.len() ==> strip_cr(#[trigger] rows[i]) == rows[i],
        rows.len() > 0 ==> rows.last().len() > 0,
    ensures
        plan_cost_text(join(rows, "\n"@)) == match first_line_from(rows, cost_mark(), 0) {
            None => None,
            Some(line) => cost_in_line(line),
        },
{
    lemma_lines_of_joined_rows(rows);
}

/// The statement that asks the database for the plan of `query`.
pub fn explain_statement(query: &str) -> (statement: String)
    ensures
        statement@ == "EXPLAIN ANALYZE "@ + query@,
{
    let mut statement = String::from_str("EXPLAIN ANALYZE ");
    statement.append(query);
    statement
}

/// The cost text of one line, as `cost_in_line` gives it.
fn line_cost_text(line: &str) -> (r: Option<String>)
    ensures
        opt_view(r) == cost_in_line(line@),
{
    proof {
        reveal_strlit("cost=");
    }
    let lc = chars_of(line);
    let mark = chars_of("cost=");
    let range = chars_of("..");
    match find_from_exec(&lc, &mark, 0) {
        None => None,
        Some(a) => {
            proof {
                crate::text::lemma_find_from(line@, cost_mark(), 0);
            }
            let start = a + mark.len();
            match find_from_exec(&lc, &range, start) {
                None => None,
                Some(e) => {
                    proof {
                        crate::text::lemma_find_from(line@, cost_range(), start as int);
                    }
                    Some(String::from_str(line.substring_char(start, e)))
                },
            }
        },
    }
}

impl QueryPlan {
    /// Reads a plan from the rows that `EXPLAIN ANALYZE` returned.
    pub fn parse(rows: Vec<String>) -> (plan: QueryPlan)
        ensures
            plan.raw@ == join(views(rows@), "\n"@),
            plan.has_seq_scan == contains(plan.raw@, seq_scan()),
            opt_view(plan.cost_text) == plan_cost_text(plan.raw@),
    {
        let raw = join_strings(&rows, "\n");
        let raw_chars = chars_of(raw.as_str());
        let has_seq_scan = contains_exec(&raw_chars, &chars_of("Seq Scan"));
        let ls = lines_of(raw.as_str());
        let n = ls.len();
        let mark = chars_of("cost=");
        let mut cost_text: Option<String> = None;
        let mut i: usize = 0;
        while i < n
            invariant_except_break
                i <= n,
                cost_text is None,
                first_line_from(lines(raw@), cost_mark(), 0) == first_line_from(
                    lines(raw@),
                    cost_mark(),
                    i as int,
                ),
            invariant
                n == ls@.len(),
                mark@ == cost_mark(),
                views(ls@) == lines(raw@),
            ensures
                opt_view(cost_text) == plan_cost_text(raw@),
            decreases n - i,
        {
            assert(views(ls@)[i as int] == ls@[i as int]@);
            if contains_exec(&chars_of(ls[i].as_str()), &mark) {
                cost_text = line_cost_text(ls[i].as_str());
                break;
            }
            i = i + 1;
        }
        QueryPlan { raw, has_seq_scan, cost_text }
    }
}

} // verus!
