use duckling::api::{convert, merge_count, merge_table_count, ArrowResponse, RawArrowData};
use duckling::cmd;
use duckling::cmd::{DialectConnection, DialectPayload};
use duckling::connection::Connection;
use duckling::duck::DuckDbDialect;
use duckling::error::DbError;
use duckling::file::FileDialect;

fn duck_payload() -> DialectPayload {
    DialectPayload {
        dialect: "duckdb".to_string(),
        path: Some(":memory:".to_string()),
        cwd: None,
    }
}

fn payload(name: &str) -> DialectPayload {
    DialectPayload { dialect: name.to_string(), path: Some("p".to_string()), cwd: None }
}

#[test]
fn unknown_dialect_fails_every_operation() {
    let p = payload("postgres");
    assert_eq!(cmd::query("select 1", 0, 0, p.clone()).unwrap_err(), "not support dialect");
    assert_eq!(cmd::paging_query("select 1", 10, 0, p.clone()).unwrap_err(), "not support dialect");
    assert_eq!(
        cmd::query_table("t", 0, 0, None, None, p.clone()).unwrap_err(),
        "not support dialect postgres"
    );
    assert_eq!(cmd::table_row_count("t", "", p.clone()).unwrap_err(), "not support dialect");
    assert_eq!(cmd::export("select 1", "out.csv", p.clone()).unwrap_err(), "not support dialect");
    assert_eq!(cmd::get_db(p.clone()).unwrap_err(), "not support dialect");
    assert_eq!(cmd::show_schema("main", p.clone()).unwrap_err(), "not support dialect postgres");
    assert_eq!(
        cmd::show_column(None, "t", p.clone()).unwrap_err(),
        "not support dialect postgres"
    );
    assert_eq!(cmd::drop_table(None, "t", p.clone()).unwrap_err(), "not support dialect postgres");
    assert_eq!(cmd::find("v", "p", p).unwrap_err(), "not support dialect postgres");
}

#[test]
fn missing_path_is_a_construction_error_not_a_panic() {
    let p = DialectPayload { dialect: "duckdb".to_string(), path: None, cwd: None };
    assert_eq!(
        cmd::query("select 1", 0, 0, p).unwrap_err(),
        "connection failed: path is required"
    );
}

#[test]
fn paging_query_windows_and_counts() {
    let (_, plan) = cmd::paging_query("select * from t", 10, 20, duck_payload()).unwrap();
    assert_eq!(plan.exec_sql, "SELECT * FROM t LIMIT 10 OFFSET 20");
    assert_eq!(plan.count_sql.as_deref(), Some("select count(*) from (SELECT * FROM t) as _t"));
}

#[test]
fn paging_query_tolerates_parse_failure() {
    let (_, plan) = cmd::paging_query("%%% not sql %%%", 10, 20, duck_payload()).unwrap();
    assert_eq!(plan.exec_sql, "%%% not sql %%%");
    assert!(plan.count_sql.is_none());
}

#[test]
fn paging_query_runs_ddl_unchanged_and_uncounted() {
    let (_, plan) = cmd::paging_query("create table t (a int)", 10, 0, duck_payload()).unwrap();
    assert_eq!(plan.exec_sql, "create table t (a int)");
    assert!(plan.count_sql.is_none());
}

#[test]
fn query_table_composes_window_and_count() {
    let (_, plan) = cmd::query_table(
        "orders",
        10,
        20,
        Some("id".to_string()),
        Some("amount > 0".to_string()),
        duck_payload(),
    )
    .unwrap();
    assert_eq!(
        plan.query_sql,
        "select * from orders where amount > 0 order by id limit 10 offset 20"
    );
    assert_eq!(plan.count_sql, "select count(*) from orders where amount > 0");
}

#[test]
fn query_table_zero_window_means_unbounded() {
    let (_, plan) = cmd::query_table("t", 0, 0, None, None, duck_payload()).unwrap();
    assert_eq!(plan.query_sql, "select * from t");
    assert_eq!(plan.count_sql, "select count(*) from t");
}

#[test]
fn normalize_quotes_identifiers_with_spaces() {
    let duck = DuckDbDialect { path: String::new(), cwd: None };
    let file = FileDialect { path: String::new() };
    assert_eq!(duck.normalize("my table"), "\"my table\"");
    assert_eq!(file.normalize("my table"), "`my table`");
    assert_eq!(duck.normalize("orders"), "orders");
    assert_eq!(file.normalize("orders"), "orders");
}

#[test]
fn quoted_identifier_reaches_generated_sql() {
    let (_, plan) = cmd::query_table("my table", 0, 0, None, None, duck_payload()).unwrap();
    assert_eq!(plan.query_sql, "select * from \"my table\"");
}

#[test]
fn drop_table_plans_two_idempotent_statements() {
    let (_, plan) = cmd::drop_table(None, "tbl", duck_payload()).unwrap();
    assert_eq!(plan.drop_view_sql, "DROP VIEW IF EXISTS tbl");
    assert_eq!(plan.drop_table_sql, "DROP TABLE IF EXISTS tbl");
}

#[test]
fn drop_table_splits_a_qualified_name() {
    let (_, plan) = cmd::drop_table(None, "db.tbl", duck_payload()).unwrap();
    assert_eq!(plan.drop_view_sql, "DROP VIEW IF EXISTS db.tbl");
    let (_, plan) = cmd::drop_table(Some("s"), "db.tbl", duck_payload()).unwrap();
    assert_eq!(plan.drop_table_sql, "DROP TABLE IF EXISTS db.tbl");
}

#[test]
fn drop_table_unsupported_off_the_embedded_db() {
    assert_eq!(cmd::drop_table(None, "t", payload("file")).unwrap_err(), "not support operation");
}

#[test]
fn show_schema_lists_one_schema_ordered() {
    let (_, sql) = cmd::show_schema("main", duck_payload()).unwrap();
    assert_eq!(
        sql,
        "select * from information_schema.tables where table_schema='main' order by table_type, table_name"
    );
    assert_eq!(cmd::show_schema("main", payload("folder")).unwrap_err(), "not support operation");
}

#[test]
fn show_column_splits_qualified_names() {
    let (_, sql) = cmd::show_column(None, "main.users", duck_payload()).unwrap();
    assert_eq!(
        sql,
        "select * from information_schema.columns where table_schema='main' and table_name='users'"
    );
    let (_, sql) = cmd::show_column(Some("s"), "users", duck_payload()).unwrap();
    assert_eq!(
        sql,
        "select * from information_schema.columns where table_schema='' and table_name='users'"
    );
}

#[test]
fn table_row_count_plans_the_count_query() {
    let (_, sql) = cmd::table_row_count("orders", "amount > 0", duck_payload()).unwrap();
    assert_eq!(sql, "select count(*) from orders where amount > 0");
    let (_, sql) = cmd::table_row_count("orders", "  ", duck_payload()).unwrap();
    assert_eq!(sql, "select count(*) from orders");
    assert_eq!(
        cmd::table_row_count("t", "", payload("file")).unwrap_err(),
        "not support operation"
    );
}

#[test]
fn get_db_plans_discovery_for_the_embedded_db() {
    let (conn, discovery) = cmd::get_db(duck_payload()).unwrap();
    assert!(matches!(conn, DialectConnection::DuckDb(_)));
    assert_eq!(
        discovery.as_deref(),
        Some(
            "select table_name, table_type, table_schema, if(table_type='VIEW', 'view', 'table') as type from information_schema.tables order by table_type, table_name"
        )
    );
    let (_, discovery) = cmd::get_db(payload("file")).unwrap();
    assert!(discovery.is_none());
}

#[test]
fn export_is_an_embedded_db_capability() {
    let (_, sql, file) = cmd::export("select 1", "out.parquet", duck_payload()).unwrap();
    assert_eq!(sql, "select 1");
    assert_eq!(file, "out.parquet");
    assert_eq!(
        cmd::export("select 1", "o", payload("folder")).unwrap_err(),
        "not support operation"
    );
}

#[test]
fn find_reports_unsupported() {
    assert_eq!(cmd::find("v", "p", duck_payload()).unwrap_err(), "not support operation");
}

#[test]
fn engine_bound_methods_report_unsupported() {
    let duck = DuckDbDialect { path: ":memory:".to_string(), cwd: None };
    assert_eq!(duck.query("select 1", 0, 0).unwrap_err(), DbError::UnsupportedOperation);
    assert_eq!(duck.query_count("select 1").unwrap_err(), DbError::UnsupportedOperation);
    assert_eq!(duck.query_all("select 1").unwrap_err(), DbError::UnsupportedOperation);
    assert_eq!(duck._sql_row_count("select 1").unwrap_err(), DbError::UnsupportedOperation);
    assert_eq!(duck.execute("select 1").unwrap_err(), DbError::UnsupportedOperation);
    assert_eq!(duck.find("v", "p").unwrap_err(), DbError::UnsupportedOperation);
}

#[test]
fn error_messages_name_each_failure() {
    assert_eq!(DbError::UnsupportedDialect.message(), "not support dialect");
    assert_eq!(DbError::UnsupportedOperation.message(), "not support operation");
    assert_eq!(
        DbError::ConnectionFailure("nope".to_string()).message(),
        "connection failed: nope"
    );
    assert_eq!(DbError::ParseFailure.message(), "parse failed");
    assert_eq!(DbError::ExecutionFailure("bad".to_string()).message(), "execution failed: bad");
    assert_eq!(DbError::CountFailure.message(), "count failed");
}

#[test]
fn merge_count_prefers_a_successful_count() {
    let b = RawArrowData::new(vec![1u8, 2u8], 2);
    assert_eq!(b.total, 2);
    let merged = merge_count(b.clone(), Some(99));
    assert_eq!(merged.total, 99);
    assert_eq!(merged.rows, 2);
    let kept = merge_count(b, None);
    assert_eq!(kept.total, 2);
}

#[test]
fn merge_table_count_falls_back_to_zero() {
    let b = RawArrowData::new(Vec::new(), 5);
    assert_eq!(merge_table_count(b.clone(), Some(7)).total, 7);
    assert_eq!(merge_table_count(b, None).total, 0);
}

#[test]
fn convert_wraps_success_and_failure() {
    let ok: ArrowResponse = convert(Ok(RawArrowData::new(vec![3u8], 1)), Some(12));
    assert_eq!(ok.code, 0);
    assert_eq!(ok.message, "");
    assert_eq!(ok.total, 1);
    assert_eq!(ok.elapsed_ms, Some(12));
    let err = convert(Err(DbError::ExecutionFailure("boom".to_string())), None);
    assert_eq!(err.code, 1);
    assert_eq!(err.message, "execution failed: boom");
    assert_eq!(err.rows, 0);
}
