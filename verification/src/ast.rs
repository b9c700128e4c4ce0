//! The statement rewriter: parses the first statement of arbitrary SQL text
//! under a dialect-selected grammar, applies a limit/offset window to it, and
//! derives an exact total-row-count query from it. Parsing and window
//! rebuilding call sqlparser; the decisions around them, and the count
//! derivation itself, are verified here.
use vstd::prelude::*;
use vstd::string::*;
use crate::text::str_eq;
use sqlparser::ast::{Expr, LimitClause, Offset, OffsetRows, Statement, Value};
use sqlparser::dialect::{DuckDbDialect, GenericDialect};
use sqlparser::parser::Parser;

verus! {

/// The grammar variant used to parse a statement.
#[derive(Debug, Clone, Copy, PartialEq, Eq, Structural)]
pub enum AstDialect {
    DuckDb,
    Generic,
}

/// The grammar a dialect name selects: the embedded-db, file and folder
/// dialects share one permissive analytical grammar; any other name falls to
/// the generic ANSI-like grammar.
pub open spec fn ast_dialect_spec(d: Seq<char>) -> AstDialect {
    if d == "folder"@ || d == "file"@ || d == "duckdb"@ {
        AstDialect::DuckDb
    } else {
        AstDialect::Generic
    }
}

/// Selects the grammar for a dialect name.
pub fn get_ast_dialect(dialect: &str) -> (r: AstDialect)
    ensures
        r == ast_dialect_spec(dialect@),
{
    if str_eq(dialect, "folder") || str_eq(dialect, "file") || str_eq(dialect, "duckdb") {
        AstDialect::DuckDb
    } else {
        AstDialect::Generic
    }
}

/// The first SQL statement of an input, as parsing left it: its canonical
/// rendering, whether it is a query (and so windowable and countable), and
/// which grammar read it.
#[derive(Debug, Clone, PartialEq, Eq)]
pub struct Stmt {
    pub text: String,
    pub is_query: bool,
    pub duckdb_grammar: bool,
}

pub uninterp spec fn parse_ok(duck: bool, sql: Seq<char>) -> bool;

pub uninterp spec fn first_stmt_text(duck: bool, sql: Seq<char>) -> Seq<char>;

pub uninterp spec fn first_stmt_is_query(duck: bool, sql: Seq<char>) -> bool;

pub uninterp spec fn windowed_ok(
    duck: bool,
    text: Seq<char>,
    limit: Option<usize>,
    offset: Option<usize>,
) -> bool;

pub uninterp spec fn windowed_text(
    duck: bool,
    text: Seq<char>,
    limit: Option<usize>,
    offset: Option<usize>,
) -> Seq<char>;

/// Relies on sqlparser's `Parser::parse_sql` with the DuckDB grammar: the
/// statements parsed from a given text, the rendering of the first one and
/// whether it is a `Statement::Query` depend on that text alone.
#[verifier::external_body]
fn parse_first_duck(sql: &str) -> (r: Option<(String, bool)>)
    ensures
        r is Some <==> parse_ok(true, sql@),
        r matches Some(p) ==> p.0@ == first_stmt_text(true, sql@) && p.1 == first_stmt_is_query(
            true,
            sql@,
        ),
{
    match Parser::parse_sql(&DuckDbDialect {}, sql) {
        Ok(stmts) if !stmts.is_empty() => {
            let s = &stmts[0];
            Some((s.to_string(), matches!(s, Statement::Query(_))))
        },
        _ => None,
    }
}

/// Relies on sqlparser's `Parser::parse_sql` with the generic grammar, as the
/// DuckDB-grammar counterpart above does.
#[verifier::external_body]
fn parse_first_generic(sql: &str) -> (r: Option<(String, bool)>)
    ensures
        r is Some <==> parse_ok(false, sql@),
        r matches Some(p) ==> p.0@ == first_stmt_text(false, sql@) && p.1 == first_stmt_is_query(
            false,
            sql@,
        ),
{
    match Parser::parse_sql(&GenericDialect {}, sql) {
        Ok(stmts) if !stmts.is_empty() => {
            let s = &stmts[0];
            Some((s.to_string(), matches!(s, Statement::Query(_))))
        },
        _ => None,
    }
}

/// Relies on sqlparser: re-parses a query's rendering with the DuckDB
/// grammar, replaces its limit and offset clauses with the given window (the
/// new window takes precedence over any the query carried), and renders the
/// result. Deterministic in its arguments.
#[verifier::external_body]
fn window_duck(text: &str, limit: Option<usize>, offset: Option<usize>) -> (r: Option<String>)
    ensures
        r is Some <==> windowed_ok(true, text@, limit, offset),
        r matches Some(s) ==> s@ == windowed_text(true, text@, limit, offset),
{
    let num = |n: usize| Expr::value(Value::Number(n.to_string(), false));
    let window = Some(LimitClause::LimitOffset {
        limit: limit.map(num),
        offset: offset.map(|o| Offset { value: num(o), rows: OffsetRows::None }),
        limit_by: vec![],
    });
    match Parser::parse_sql(&DuckDbDialect {}, text) {
        Ok(mut stmts) if !stmts.is_empty() => match stmts.remove(0) {
            Statement::Query(mut q) => { q.limit_clause = window; Some(q.to_string()) },
            _ => None,
        },
        _ => None,
    }
}

/// Relies on sqlparser with the generic grammar, as the DuckDB-grammar window
/// rebuild above does.
#[verifier::external_body]
fn window_generic(text: &str, limit: Option<usize>, offset: Option<usize>) -> (r: Option<String>)
    ensures
        r is Some <==> windowed_ok(false, text@, limit, offset),
        r matches Some(s) ==> s@ == windowed_text(false, text@, limit, offset),
{
    let num = |n: usize| Expr::value(Value::Number(n.to_string(), false));
    let window = Some(LimitClause::LimitOffset {
        limit: limit.map(num),
        offset: offset.map(|o| Offset { value: num(o), rows: OffsetRows::None }),
        limit_by: vec![],
    });
    match Parser::parse_sql(&GenericDialect {}, text) {
        Ok(mut stmts) if !stmts.is_empty() => match stmts.remove(0) {
            Statement::Query(mut q) => { q.limit_clause = window; Some(q.to_string()) },
            _ => None,
        },
        _ => None,
    }
}

/// Parses exactly the first statement of the input under the grammar the
/// dialect name selects; trailing statements are ignored. A text that fails
/// to parse yields nothing, never an error: callers treat that as "rewriting
/// unavailable" and run the input unchanged.
pub fn first_stmt(dialect: &str, sql: &str) -> (r: Option<Stmt>)
    ensures
        ({
            let duck = ast_dialect_spec(dialect@) == AstDialect::DuckDb;
            &&& (r is Some <==> parse_ok(duck, sql@))
            &&& (r matches Some(st) ==> st.text@ == first_stmt_text(duck, sql@)
                && st.is_query == first_stmt_is_query(duck, sql@) && st.duckdb_grammar == duck)
        }),
{
    let g = get_ast_dialect(dialect);
    let duck = g == AstDialect::DuckDb;
    let p = if duck {
        parse_first_duck(sql)
    } else {
        parse_first_generic(sql)
    };
    match p {
        Some((text, is_query)) => Some(Stmt { text, is_query, duckdb_grammar: duck }),
        None => None,
    }
}

/// Applies a limit/offset window to a parsed statement, correctly whatever
/// clauses it already carries: the new window takes precedence over an
/// existing one. Yields nothing for a statement that is not reducible to a
/// windowed form (anything but a query); callers then keep the original SQL
/// and treat the request as unbounded.
pub fn limit_stmt(stmt: &Stmt, limit: Option<usize>, offset: Option<usize>) -> (r: Option<String>)
    ensures
        !stmt.is_query ==> r is None,
        stmt.is_query ==> (r is Some <==> windowed_ok(
            stmt.duckdb_grammar,
            stmt.text@,
            limit,
            offset,
        )),
        r matches Some(s) ==> s@ == windowed_text(stmt.duckdb_grammar, stmt.text@, limit, offset),
{
    if stmt.is_query {
        if stmt.duckdb_grammar {
            window_duck(stmt.text.as_str(), limit, offset)
        } else {
            window_generic(stmt.text.as_str(), limit, offset)
        }
    } else {
        None
    }
}

/// The count query derived from a statement's rendering: the whole statement
/// wrapped as a subquery under `count(*)`.
pub open spec fn count_sql_spec(text: Seq<char>) -> Seq<char> {
    "select count(*) from ("@ + text + ") as _t"@
}

/// Derives the exact total-row-count query by wrapping the whole statement as
/// a subquery, which preserves its filters, joins and CTEs whatever their
/// complexity. Not derivable for non-query statements, for which nothing is
/// returned and no count step must be attempted.
pub fn count_stmt(stmt: &Stmt) -> (r: Option<String>)
    ensures
        r is Some <==> stmt.is_query,
        r matches Some(s) ==> s@ == count_sql_spec(stmt.text@),
{
    if stmt.is_query {
        let mut s = String::from_str("select count(*) from (");
        s.append(stmt.text.as_str());
        s.append(") as _t");
        Some(s)
    } else {
        None
    }
}

} // verus!
