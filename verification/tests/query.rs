use log_explorer::query::build_search_request;
use log_explorer::query::parse_page_size;
use log_explorer::query::time_range_expr;
use log_explorer::query::total_pages_for;
use log_explorer::query::u64_to_dec;
use log_explorer::query::QueryClause;
use log_explorer::query::QueryParams;

#[test]
fn page_count_examples() {
    assert_eq!(total_pages_for(101, 50), 3);
    assert_eq!(total_pages_for(0, 50), 1);
    assert_eq!(total_pages_for(101, 0), 1);
    assert_eq!(total_pages_for(100, 50), 2);
    assert_eq!(total_pages_for(1, 50), 1);
    assert_eq!(total_pages_for(50, 50), 1);
    assert_eq!(total_pages_for(51, 50), 2);
}

#[test]
fn known_time_tokens_map_to_relative_expressions() {
    assert_eq!(time_range_expr("3h"), "now-3h");
    assert_eq!(time_range_expr("1m"), "now-1m");
    assert_eq!(time_range_expr("5m"), "now-5m");
    assert_eq!(time_range_expr("15m"), "now-15m");
    assert_eq!(time_range_expr("30m"), "now-30m");
    assert_eq!(time_range_expr("1h"), "now-1h");
    assert_eq!(time_range_expr("6h"), "now-6h");
    assert_eq!(time_range_expr("12h"), "now-12h");
    assert_eq!(time_range_expr("24h"), "now-24h");
    assert_eq!(time_range_expr("3d"), "now-3d");
    assert_eq!(time_range_expr("7d"), "now-7d");
}

#[test]
fn unknown_time_tokens_fall_back_to_five_minutes() {
    assert_eq!(time_range_expr("2h"), "now-5m");
    assert_eq!(time_range_expr(""), "now-5m");
    assert_eq!(time_range_expr("yesterday"), "now-5m");
}

#[test]
fn page_size_parsing() {
    assert_eq!(parse_page_size("50"), Some(50));
    assert_eq!(parse_page_size("1000"), Some(1000));
    assert_eq!(parse_page_size("0"), Some(0));
    assert_eq!(parse_page_size("007"), Some(7));
    assert_eq!(parse_page_size(""), None);
    assert_eq!(parse_page_size("12a"), None);
    assert_eq!(parse_page_size("-5"), None);
    assert_eq!(parse_page_size("9223372036854775807"), Some(i64::MAX));
    assert_eq!(parse_page_size("9223372036854775808"), None);
    assert_eq!(parse_page_size("99999999999999999999999"), None);
}

#[test]
fn decimal_rendering() {
    assert_eq!(u64_to_dec(0), "0");
    assert_eq!(u64_to_dec(7), "7");
    assert_eq!(u64_to_dec(42), "42");
    assert_eq!(u64_to_dec(1000), "1000");
    assert_eq!(u64_to_dec(u64::MAX), "18446744073709551615");
}

fn params(
    application: Option<&str>,
    severity: Option<&str>,
    search: Option<&str>,
    search_exact: bool,
) -> QueryParams {
    QueryParams {
        environment: "production".to_string(),
        application: application.map(|s| s.to_string()),
        severity: severity.map(|s| s.to_string()),
        time_range: "now-5m".to_string(),
        search: search.map(|s| s.to_string()),
        search_exact,
        from: 50,
        size: 50,
    }
}

#[test]
fn full_request_has_one_clause_per_dimension() {
    let r = build_search_request(params(Some("billing"), Some("ERROR"), Some("timeout"), true));
    assert_eq!(r.from, 50);
    assert_eq!(r.size, 50);
    assert_eq!(r.clauses.len(), 5);
    assert!(matches!(&r.clauses[0], QueryClause::Profile(v) if v == "production"));
    assert!(matches!(&r.clauses[1], QueryClause::TimeRange(v) if v == "now-5m"));
    assert!(matches!(&r.clauses[2], QueryClause::Application(v) if v == "billing"));
    assert!(matches!(&r.clauses[3], QueryClause::Severity(v) if v == "ERROR"));
    assert!(matches!(&r.clauses[4], QueryClause::Phrase(v) if v == "timeout"));
}

#[test]
fn omitted_application_and_severity_produce_no_clause() {
    let r = build_search_request(params(None, None, None, false));
    assert_eq!(r.clauses.len(), 2);
    for c in &r.clauses {
        assert!(!matches!(c, QueryClause::Application(_)));
        assert!(!matches!(c, QueryClause::Severity(_)));
        assert!(!matches!(c, QueryClause::Phrase(_)));
        assert!(!matches!(c, QueryClause::Wildcard(_)));
    }
}

#[test]
fn word_mode_search_is_wildcard_wrapped() {
    let r = build_search_request(params(None, None, Some("timeout"), false));
    assert_eq!(r.clauses.len(), 3);
    assert!(matches!(&r.clauses[2], QueryClause::Wildcard(v) if v == "*timeout*"));
}
