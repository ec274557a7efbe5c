use pg_analytics::cell::IntervalValue;
use pg_analytics::json::{extract_option, JsonOption};
use pg_analytics::options::TableOptions;
use pg_analytics::pushdown::{
    deallocate_statement, drop_statement, executor_route, explain_statement, explain_summary,
    get_current_query, install_and_load, is_support_utility, parse_explain_options,
    parse_explain_style, prepared_execute_route, pushdown_step, session_file_name,
    view_submit_step, ExplainOptionError, ExplainState, ExplainStyle, PreparedRoute,
    PushdownEvent, PushdownState, Route, UtilityStatementKind,
};
use pg_analytics::parquet::{parquet_describe_query, parquet_schema_query};
use pg_analytics::sqlparse::{parse_query_from_utility_stmt, UtilityParseError};
use pg_analytics::text::format_csv;
use pg_analytics::time_bucket::{time_bucket_date, time_bucket_timestamp, TimeBucketError};

#[test]
fn executor_routes_only_eligible_selects() {
    assert_eq!(executor_route(true, true, true, "SELECT * FROM t"), Route::Pushdown);
    assert_eq!(executor_route(false, true, true, "SELECT 1"), Route::Native);
    assert_eq!(executor_route(true, false, true, "UPDATE t SET a = 1"), Route::Native);
    assert_eq!(executor_route(true, true, false, "SELECT * FROM t"), Route::Native);
    // COPY, CREATE and PREPARE shapes reach the native executor, whatever
    // their letter case.
    assert_eq!(executor_route(true, true, true, "COPY t TO stdout"), Route::Native);
    assert_eq!(executor_route(true, true, true, "create table x as select 1"), Route::Native);
    assert_eq!(executor_route(true, true, true, "Prepare q AS SELECT 1"), Route::Native);
}

#[test]
fn prepared_execute_routing_and_replanning() {
    assert_eq!(prepared_execute_route(true, true, true, false), PreparedRoute::Pushdown {
        replan: false,
    });
    assert_eq!(prepared_execute_route(true, true, true, true), PreparedRoute::Pushdown {
        replan: true,
    });
    assert_eq!(prepared_execute_route(false, true, true, true), PreparedRoute::Native);
    assert_eq!(prepared_execute_route(true, true, false, false), PreparedRoute::Native);
}

fn run_events(events: &[PushdownEvent]) -> (PushdownState, u32, u32) {
    let mut state = PushdownState::Start;
    let mut warns = 0u32;
    let mut natives = 0u32;
    for e in events {
        let (next, actions) = pushdown_step(state, *e);
        if actions.warn {
            warns += 1;
        }
        if actions.run_native {
            natives += 1;
        }
        state = next;
    }
    (state, warns, natives)
}

#[test]
fn fallback_emits_exactly_one_warning() {
    // A rejected submission falls back with one warning and one native run.
    let (state, warns, natives) =
        run_events(&[PushdownEvent::Eligible, PushdownEvent::SubmitFailed]);
    assert_eq!(state, PushdownState::NativeFallback);
    assert_eq!(warns, 1);
    assert_eq!(natives, 1);

    // A failed materialization behaves the same.
    let (state, warns, natives) = run_events(&[
        PushdownEvent::Eligible,
        PushdownEvent::SubmitSucceeded,
        PushdownEvent::MaterializeFailed,
    ]);
    assert_eq!(state, PushdownState::NativeFallback);
    assert_eq!(warns, 1);
    assert_eq!(natives, 1);

    // A completed push-down warns nobody and never runs the native path.
    let (state, warns, natives) = run_events(&[
        PushdownEvent::Eligible,
        PushdownEvent::SubmitSucceeded,
        PushdownEvent::MaterializeSucceeded,
    ]);
    assert_eq!(state, PushdownState::Complete);
    assert_eq!(warns, 0);
    assert_eq!(natives, 0);

    // An ineligible statement falls back silently.
    let (state, warns, natives) = run_events(&[PushdownEvent::NotEligible]);
    assert_eq!(state, PushdownState::NativeFallback);
    assert_eq!(warns, 0);
    assert_eq!(natives, 1);

    // Stray events after a terminal state change nothing.
    let (state, warns, natives) = run_events(&[
        PushdownEvent::Eligible,
        PushdownEvent::SubmitFailed,
        PushdownEvent::SubmitFailed,
        PushdownEvent::MaterializeFailed,
    ]);
    assert_eq!(state, PushdownState::NativeFallback);
    assert_eq!(warns, 1);
    assert_eq!(natives, 1);
}

#[test]
fn explain_style_names_are_recognized() {
    assert_eq!(parse_explain_style("pg"), Some(ExplainStyle::Postgres));
    assert_eq!(parse_explain_style("postgres"), Some(ExplainStyle::Postgres));
    assert_eq!(parse_explain_style("duckdb"), Some(ExplainStyle::Duckdb));
    assert_eq!(parse_explain_style("oracle"), None);
}

#[test]
fn explain_options_are_parsed_in_order() {
    let opts = vec![
        ("analyze".to_string(), None),
        ("style".to_string(), Some("duckdb".to_string())),
    ];
    assert_eq!(
        parse_explain_options(&opts),
        Ok(ExplainState { analyze: true, style: ExplainStyle::Duckdb })
    );

    let unknown = vec![("verbose".to_string(), Some("true".to_string()))];
    match parse_explain_options(&unknown) {
        Err(ExplainOptionError::UnrecognizedOption(name)) => assert_eq!(name, "verbose"),
        other => panic!("expected an unrecognized-option error, got {:?}", other),
    }

    let bad_style = vec![("style".to_string(), Some("fancy".to_string()))];
    match parse_explain_options(&bad_style) {
        Err(ExplainOptionError::UnrecognizedStyle(name)) => assert_eq!(name, "fancy"),
        other => panic!("expected an unrecognized-style error, got {:?}", other),
    }

    let bad_bool = vec![("analyze".to_string(), Some("perhaps".to_string()))];
    assert!(matches!(
        parse_explain_options(&bad_bool),
        Err(ExplainOptionError::InvalidBoolean(_))
    ));
}

#[test]
fn explain_output_texts_are_exact() {
    assert_eq!(explain_summary("SELECT 1", None), "DuckDB Scan: SELECT 1\n");
    assert_eq!(
        explain_summary("SELECT 1", Some(12345)),
        "DuckDB Scan: SELECT 1\nExecution Time: 12.345 ms\n"
    );
    assert_eq!(
        explain_summary("SELECT 1", Some(7)),
        "DuckDB Scan: SELECT 1\nExecution Time: 0.007 ms\n"
    );
    assert_eq!(explain_statement("SELECT 1", false), "EXPLAIN SELECT 1");
    assert_eq!(explain_statement("SELECT 1", true), "EXPLAIN ANALYZE SELECT 1");
}

#[test]
fn engine_side_statement_texts_are_exact() {
    assert_eq!(deallocate_statement("q1"), "DEALLOCATE \"q1\"");
    assert_eq!(drop_statement("BASE TABLE", "main", "t"), "DROP TABLE main.t");
    assert_eq!(drop_statement("VIEW", "main", "v"), "DROP VIEW main.v");
    assert_eq!(session_file_name(16384), "16384.db3");
    assert_eq!(install_and_load("iceberg"), "INSTALL iceberg; LOAD iceberg;");
    assert_eq!(install_and_load("spatial"), "INSTALL spatial; LOAD spatial;");
}

#[test]
fn current_query_is_sliced_from_the_submitted_text() {
    assert_eq!(get_current_query("SELECT 1; SELECT 2", -1, 0), "SELECT 1; SELECT 2");
    assert_eq!(get_current_query("SELECT 1; SELECT 2", 10, 8), "SELECT 2");
    assert_eq!(get_current_query("SELECT 1; SELECT 2", 10, 0), "SELECT 2");
}

#[test]
fn view_submission_always_proceeds_natively() {
    // A delegated view creation that the engine rejects warns once and
    // still creates the view natively; an accepted one proceeds silently.
    let rejected = view_submit_step(false);
    assert!(rejected.warn);
    assert!(rejected.run_native);
    let accepted = view_submit_step(true);
    assert!(!accepted.warn);
    assert!(accepted.run_native);
}

#[test]
fn utility_statement_kinds_gate_the_hook() {
    assert!(is_support_utility(UtilityStatementKind::Explain));
    assert!(is_support_utility(UtilityStatementKind::View));
    assert!(is_support_utility(UtilityStatementKind::Prepare));
    assert!(is_support_utility(UtilityStatementKind::Deallocate));
    assert!(is_support_utility(UtilityStatementKind::Execute));
    assert!(!is_support_utility(UtilityStatementKind::Other));
}

#[test]
fn explain_inner_statement_is_rerendered() {
    assert_eq!(
        parse_query_from_utility_stmt("EXPLAIN SELECT a FROM t").unwrap(),
        "SELECT a FROM t"
    );
    assert_eq!(
        parse_query_from_utility_stmt("SELECT 1"),
        Err(UtilityParseError::NotSingleExplain)
    );
    assert_eq!(
        parse_query_from_utility_stmt("EXPLAIN SELECT 1; EXPLAIN SELECT 2"),
        Err(UtilityParseError::NotSingleExplain)
    );
    assert_eq!(
        parse_query_from_utility_stmt("EXPLAIN ,,,"),
        Err(UtilityParseError::NotSingleExplain)
    );
}

#[test]
fn file_lists_render_as_engine_literals() {
    assert_eq!(format_csv("/data/one.csv"), "'/data/one.csv'");
    assert_eq!(format_csv("a, b"), "['a', 'b']");
    assert_eq!(format_csv("  padded  "), "'padded'");
}

#[test]
fn json_options_extract_with_and_without_quotes() {
    let mut opts = TableOptions::new();
    opts.set("compression".to_string(), "gzip".to_string());
    opts.set("sample_size".to_string(), "100".to_string());
    assert_eq!(
        extract_option(JsonOption::Compression, &opts, true),
        Some("compression = 'gzip'".to_string())
    );
    assert_eq!(
        extract_option(JsonOption::SampleSize, &opts, false),
        Some("sample_size = 100".to_string())
    );
    assert_eq!(extract_option(JsonOption::Dateformat, &opts, true), None);
}

#[test]
fn parquet_introspection_queries_are_exact() {
    assert_eq!(
        parquet_schema_query("/data/file.parquet"),
        "SELECT * FROM parquet_schema('/data/file.parquet')"
    );
    assert_eq!(
        parquet_describe_query("/data/a.parquet, /data/b.parquet"),
        "DESCRIBE SELECT * FROM ['/data/a.parquet', '/data/b.parquet']"
    );
}

#[test]
fn time_bucket_fallback_always_refuses() {
    let width = IntervalValue { months: 0, days: 0, micros: 600_000_000 };
    assert_eq!(time_bucket_date(width, 9000), Err(TimeBucketError {}));
    assert_eq!(time_bucket_timestamp(width, 123), Err(TimeBucketError {}));
    assert!(!TimeBucketError {}.message().is_empty());
}
