use stellar_tipjar::db::index_advisor::IndexAdvisor;
use stellar_tipjar::db::query_analyzer::QueryPlan;
use stellar_tipjar::db::query_cache::QueryCache;
use stellar_tipjar::db::query_optimizer::{apply_rewrites, optimize_in_cache, QueryOptimizer};
use stellar_tipjar::db::slow_query_logger::SlowQueryLogger;
use stellar_tipjar::time::Duration;

fn make_plan(raw: &str) -> QueryPlan {
    QueryPlan::parse(raw.split('\n').map(|l| l.to_string()).collect())
}

/// The startup cost of a plan, read as a float; 0.0 when the plan gives none.
fn estimated_cost(plan: &QueryPlan) -> f64 {
    plan.cost_text.as_deref().and_then(|t| t.parse().ok()).unwrap_or(0.0)
}

#[test]
fn test_recommends_for_seq_scan() {
    let plan = make_plan("Seq Scan on tips  (cost=0.00..10.00 rows=100 width=50)\n  Filter: (creator_id = $1)");
    let recs = IndexAdvisor::recommend(&plan);
    assert_eq!(recs.len(), 1);
    assert_eq!(recs[0].table, "tips");
}

#[test]
fn test_no_recommendation_for_index_scan() {
    let plan = make_plan("Index Scan using tips_pkey on tips  (cost=0.15..8.17 rows=1 width=50)");
    assert!(IndexAdvisor::recommend(&plan).is_empty());
}

#[test]
fn recommendation_reason_and_column() {
    let plan = make_plan("Seq Scan on creators  (cost=0.00..1.01 rows=1 width=100)");
    let recs = IndexAdvisor::recommend(&plan);
    assert_eq!(recs.len(), 1);
    assert_eq!(recs[0].table, "creators");
    assert_eq!(recs[0].column, "—");
    assert_eq!(
        recs[0].reason,
        "Sequential scan detected on `creators`; consider adding an index on the filtered column"
    );
}

#[test]
fn recommendations_follow_line_order() {
    let plan = make_plan(
        "Hash Join\n  ->  Seq Scan on tips t  (cost=0.00..1.00)\n  ->  Seq Scan on creators c\nSeq Scan on",
    );
    let recs = IndexAdvisor::recommend(&plan);
    let tables: Vec<&str> = recs.iter().map(|r| r.table.as_str()).collect();
    assert_eq!(tables, vec!["tips", "creators"]);
}

#[test]
fn recommendation_reads_up_to_a_second_marker() {
    let plan = make_plan("Seq Scan onSeq Scan on tips");
    assert!(IndexAdvisor::recommend(&plan).is_empty());
    let plan = make_plan("Seq Scan on\tbig_table\u{a0}x Seq Scan on other");
    let recs = IndexAdvisor::recommend(&plan);
    assert_eq!(recs.len(), 1);
    assert_eq!(recs[0].table, "big_table");
}

#[test]
fn no_recommendation_without_seq_scan_flag() {
    let plan = QueryPlan {
        raw: "Seq Scan on tips".to_string(),
        has_seq_scan: false,
        cost_text: None,
    };
    assert!(IndexAdvisor::recommend(&plan).is_empty());
}

#[test]
fn test_plan_parse_seq_scan() {
    let rows = vec![
        "Seq Scan on creators  (cost=0.00..1.01 rows=1 width=100)".to_string(),
        "  Filter: (username = 'alice')".to_string(),
    ];
    let plan = QueryPlan::parse(rows);
    assert!(plan.has_seq_scan);
    assert_eq!(estimated_cost(&plan), 0.0);
}

#[test]
fn test_plan_parse_no_seq_scan() {
    let rows = vec![
        "Index Scan using creators_username_idx on creators  (cost=0.15..8.17 rows=1 width=100)".to_string(),
    ];
    let plan = QueryPlan::parse(rows);
    assert!(!plan.has_seq_scan);
    assert_eq!(estimated_cost(&plan), 0.15);
}

#[test]
fn plan_parse_joins_rows_and_reads_first_cost() {
    let rows = vec![
        "Limit".to_string(),
        "  ->  Sort  (cost=12.5..13.0 rows=2)".to_string(),
        "        ->  Seq Scan on tips  (cost=0.00..1.00)".to_string(),
    ];
    let plan = QueryPlan::parse(rows);
    assert_eq!(plan.raw, "Limit\n  ->  Sort  (cost=12.5..13.0 rows=2)\n        ->  Seq Scan on tips  (cost=0.00..1.00)");
    assert!(plan.has_seq_scan);
    assert_eq!(plan.cost_text.as_deref(), Some("12.5"));
}

#[test]
fn plan_parse_cost_without_range_gives_none() {
    let plan = QueryPlan::parse(vec!["Result  (cost=0.00 rows=1)".to_string(), "x (cost=1..2)".to_string()]);
    assert_eq!(plan.cost_text, None);
    assert_eq!(estimated_cost(&plan), 0.0);
    let empty = QueryPlan::parse(vec![]);
    assert_eq!(empty.raw, "");
    assert!(!empty.has_seq_scan);
    assert_eq!(empty.cost_text, None);
}

#[test]
fn test_cache_hit_counting() {
    let mut cache = QueryCache::new();
    let sql = "SELECT * FROM creators WHERE username = $1";
    cache.get_or_insert("get_creator", sql);
    cache.get_or_insert("get_creator", sql);
    assert_eq!(cache.hit_count("get_creator"), 2);
}

#[test]
fn test_cache_returns_original_sql() {
    let mut cache = QueryCache::new();
    let sql = "SELECT id FROM tips WHERE creator_id = $1";
    let result = cache.get_or_insert("list_tips", sql);
    assert_eq!(result, sql);
}

#[test]
fn cache_keeps_first_sql_and_separates_names() {
    let mut cache = QueryCache::default();
    assert_eq!(cache.hit_count("a"), 0);
    assert_eq!(cache.get_or_insert("a", "SELECT 1"), "SELECT 1");
    assert_eq!(cache.get_or_insert("a", "SELECT 2"), "SELECT 1");
    assert_eq!(cache.get_or_insert("b", "SELECT 3"), "SELECT 3");
    assert_eq!(cache.hit_count("a"), 2);
    assert_eq!(cache.hit_count("b"), 1);
    assert_eq!(cache.hit_count("c"), 0);
}

#[test]
fn test_optimize_caches_query() {
    let mut cache = QueryCache::new();
    let mut optimizer = QueryOptimizer::new(&mut cache);
    optimizer.optimize("list_creators", "SELECT * FROM creators");
    assert_eq!(cache.hit_count("list_creators"), 1);
}

#[test]
fn optimize_returns_rewritten_sql() {
    let mut cache = QueryCache::new();
    let mut optimizer = QueryOptimizer::new(&mut cache);
    let out = optimizer.optimize("q", "SELECT  *  FROM tips");
    assert_eq!(out, "SELECT * /* consider explicit columns */ FROM tips");
    let again = optimizer.optimize("q", "SELECT 1");
    assert_eq!(again, out);
    assert_eq!(cache.hit_count("q"), 2);
    let third = optimize_in_cache(&mut cache, "q", "SELECT 2");
    assert_eq!(third, out);
    assert_eq!(cache.hit_count("q"), 3);
}

#[test]
fn test_rewrite_select_star() {
    let result = apply_rewrites("SELECT * FROM tips");
    assert!(result.contains("/* consider explicit columns */"));
}

#[test]
fn test_rewrite_idempotent_for_clean_query() {
    let sql = "SELECT id, username FROM creators WHERE id = $1";
    assert_eq!(apply_rewrites(sql), sql);
}

#[test]
fn rewrite_collapses_double_spaces_once() {
    assert_eq!(apply_rewrites("a  b"), "a b");
    assert_eq!(apply_rewrites("a   b"), "a  b");
    assert_eq!(apply_rewrites("a    b"), "a  b");
    assert_eq!(apply_rewrites(""), "");
}

#[test]
fn rewrite_marks_every_select_star() {
    assert_eq!(
        apply_rewrites("SELECT * FROM a UNION SELECT * FROM b"),
        "SELECT * /* consider explicit columns */ FROM a UNION SELECT * /* consider explicit columns */ FROM b"
    );
    assert_eq!(apply_rewrites("SELECT  * FROM a"), "SELECT * /* consider explicit columns */ FROM a");
}

#[test]
fn test_slow_query_detected() {
    let logger = SlowQueryLogger::new();
    assert!(logger.check("SELECT * FROM tips", Duration::from_millis(500)));
}

#[test]
fn test_fast_query_not_flagged() {
    let logger = SlowQueryLogger::new();
    assert!(!logger.check("SELECT 1", Duration::from_millis(10)));
}

#[test]
fn test_custom_threshold() {
    let logger = SlowQueryLogger::with_threshold(Duration::from_millis(50));
    assert!(logger.check("SELECT 1", Duration::from_millis(51)));
    assert!(!logger.check("SELECT 1", Duration::from_millis(49)));
}

#[test]
fn slow_only_above_threshold() {
    let logger = SlowQueryLogger::default();
    assert_eq!(logger.threshold().as_millis(), 200);
    assert!(!logger.check("SELECT 1", Duration::from_millis(200)));
    assert!(!logger.check("SELECT 1", Duration::from_micros(200_000)));
    assert!(logger.check("SELECT 1", Duration::new(0, 200_000_001)));
    let custom = SlowQueryLogger::with_threshold(Duration::from_millis(50));
    assert!(!custom.check("SELECT 1", Duration::from_millis(50)));
}
