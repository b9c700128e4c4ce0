use duckling::ast::{count_stmt, first_stmt, get_ast_dialect, limit_stmt, AstDialect};

#[test]
fn grammar_selection_by_dialect_name() {
    assert_eq!(get_ast_dialect("duckdb"), AstDialect::DuckDb);
    assert_eq!(get_ast_dialect("file"), AstDialect::DuckDb);
    assert_eq!(get_ast_dialect("folder"), AstDialect::DuckDb);
    assert_eq!(get_ast_dialect("postgres"), AstDialect::Generic);
    assert_eq!(get_ast_dialect(""), AstDialect::Generic);
}

#[test]
fn first_stmt_parses_a_query() {
    let st = first_stmt("duckdb", "select * from t").expect("parses");
    assert!(st.is_query);
    assert!(st.duckdb_grammar);
    assert_eq!(st.text, "SELECT * FROM t");
}

#[test]
fn first_stmt_takes_only_the_first_statement() {
    let st = first_stmt("duckdb", "select 1; select 2").expect("parses");
    assert_eq!(st.text, "SELECT 1");
}

#[test]
fn first_stmt_rejects_garbage() {
    assert!(first_stmt("duckdb", "%%% not sql %%%").is_none());
    assert!(first_stmt("generic", "%%% not sql %%%").is_none());
}

#[test]
fn first_stmt_classifies_ddl_as_non_query() {
    let st = first_stmt("duckdb", "create table t (a int)").expect("parses");
    assert!(!st.is_query);
}

#[test]
fn limit_stmt_windows_a_plain_query() {
    let st = first_stmt("duckdb", "select * from t").unwrap();
    let sql = limit_stmt(&st, Some(10), Some(20)).expect("windowable");
    assert_eq!(sql, "SELECT * FROM t LIMIT 10 OFFSET 20");
}

#[test]
fn limit_stmt_replaces_an_existing_window() {
    let st = first_stmt("duckdb", "select * from t order by id limit 5 offset 3").unwrap();
    let sql = limit_stmt(&st, Some(10), Some(20)).expect("windowable");
    assert_eq!(sql, "SELECT * FROM t ORDER BY id LIMIT 10 OFFSET 20");
}

#[test]
fn limit_stmt_keeps_set_operations_whole() {
    let st = first_stmt("duckdb", "select a from t union select a from u").unwrap();
    let sql = limit_stmt(&st, Some(7), None).expect("windowable");
    assert_eq!(sql, "SELECT a FROM t UNION SELECT a FROM u LIMIT 7");
}

#[test]
fn limit_stmt_yields_nothing_for_ddl() {
    let st = first_stmt("duckdb", "create table t (a int)").unwrap();
    assert!(limit_stmt(&st, Some(10), Some(0)).is_none());
}

#[test]
fn generic_grammar_parses_and_windows() {
    let st = first_stmt("postgres", "select a from t").expect("parses");
    assert!(st.is_query);
    assert!(!st.duckdb_grammar);
    assert_eq!(st.text, "SELECT a FROM t");
    let sql = limit_stmt(&st, Some(3), Some(4)).expect("windowable");
    assert_eq!(sql, "SELECT a FROM t LIMIT 3 OFFSET 4");
}

#[test]
fn count_query_does_not_depend_on_the_window() {
    let st = first_stmt("duckdb", "select a from t where a > 1 limit 5").unwrap();
    let narrow = limit_stmt(&st, Some(1), Some(0)).unwrap();
    let wide = limit_stmt(&st, Some(1000), Some(900)).unwrap();
    assert_ne!(narrow, wide);
    assert_eq!(count_stmt(&st), count_stmt(&st));
    let c = count_stmt(&st).unwrap();
    assert_eq!(c, "select count(*) from (SELECT a FROM t WHERE a > 1 LIMIT 5) as _t");
}

#[test]
fn count_stmt_wraps_the_whole_statement() {
    let st = first_stmt("duckdb", "select a from t where a > 1").unwrap();
    let sql = count_stmt(&st).expect("countable");
    assert_eq!(sql, "select count(*) from (SELECT a FROM t WHERE a > 1) as _t");
}

#[test]
fn count_stmt_yields_nothing_for_ddl() {
    let st = first_stmt("duckdb", "drop table t").unwrap();
    assert!(count_stmt(&st).is_none());
}
