//! The connection contract: one capability interface per dialect, with
//! verified default algorithms for pagination orchestration, table-query and
//! count construction, and identifier normalization. The library plans; the
//! backing engine, driven outside it, executes the planned SQL.
use vstd::prelude::*;
use vstd::string::*;
use crate::api::RawArrowData;
use crate::ast::{
    ast_dialect_spec, count_sql_spec, count_stmt, first_stmt, first_stmt_is_query, first_stmt_text,
    limit_stmt, parse_ok, windowed_ok, windowed_text, AstDialect,
};
use crate::error::DbError;
use crate::text::{dec_spec, is_blank, is_blank_str, usize_string};

verus! {

/// The name of the embedded analytical database dialect.
pub open spec fn is_duckdb(d: Seq<char>) -> bool {
    d == "duckdb"@
}

/// The bundled dialect names are pairwise distinct, so no other dialect ever
/// passes for the embedded-db one.
pub proof fn lemma_dialect_names_distinct()
    ensures
        !is_duckdb("file"@),
        !is_duckdb("folder"@),
        !is_duckdb("generic"@),
        "file"@ != "folder"@,
        "file"@ != "duckdb"@,
        "folder"@ != "duckdb"@,
{
    reveal_strlit("file");
    reveal_strlit("folder");
    reveal_strlit("duckdb");
    reveal_strlit("generic");
    assert("file"@.len() == 4);
    assert("duckdb"@.len() == 6);
    assert("generic"@.len() == 7);
    assert("folder"@[0] == 'f');
    assert("duckdb"@[0] == 'd');
}

/// An identifier wrapped in the dialect's quote character when it holds a
/// space, and left as it stands otherwise.
pub open spec fn quoted_spec(name: Seq<char>, q: char) -> Seq<char> {
    if name.contains(' ') {
        seq![q] + name + seq![q]
    } else {
        name
    }
}

/// `select * from <table> [where ...] [order by ...]`, each clause present
/// exactly when its fragment is not blank.
pub open spec fn table_query_sql_spec(table: Seq<char>, w: Seq<char>, o: Seq<char>) -> Seq<char> {
    "select * from "@ + table + (if !is_blank(w) {
        " where "@ + w
    } else {
        Seq::<char>::empty()
    }) + (if !is_blank(o) {
        " order by "@ + o
    } else {
        Seq::<char>::empty()
    })
}

/// `select count(*) from <table> [where ...]`.
pub open spec fn table_count_sql_spec(table: Seq<char>, w: Seq<char>) -> Seq<char> {
    "select count(*) from "@ + table + (if !is_blank(w) {
        " where "@ + w
    } else {
        Seq::<char>::empty()
    })
}

/// The table query with its window: `[limit n]` and `[offset m]` appended
/// exactly when nonzero, zero meaning unbounded.
pub open spec fn table_query_full_spec(
    table: Seq<char>,
    w: Seq<char>,
    o: Seq<char>,
    limit: usize,
    offset: usize,
) -> Seq<char> {
    table_query_sql_spec(table, w, o) + (if limit != 0 {
        " limit "@ + dec_spec(limit as nat)
    } else {
        Seq::<char>::empty()
    }) + (if offset != 0 {
        " offset "@ + dec_spec(offset as nat)
    } else {
        Seq::<char>::empty()
    })
}

/// What a pagination request resolves to: the SQL to execute, and the count
/// query to run afterwards when one could be derived.
#[derive(Debug, Clone, PartialEq, Eq)]
pub struct PagingPlan {
    pub exec_sql: String,
    pub count_sql: Option<String>,
}

/// What a structural table request resolves to: the windowed row query and
/// the separate total-count query.
#[derive(Debug, Clone, PartialEq, Eq)]
pub struct TableQueryPlan {
    pub query_sql: String,
    pub count_sql: String,
}

/// What a table drop resolves to: two idempotent statements, one for either
/// object kind, so the drop needs no foreknowledge of which it faces.
#[derive(Debug, Clone, PartialEq, Eq)]
pub struct DropTablePlan {
    pub drop_view_sql: String,
    pub drop_table_sql: String,
}

/// The pagination algorithm's whole behaviour. When the input does not parse,
/// the original SQL stands untouched and no count step is planned: rewriting
/// degrades, the request never fails for it. When it parses to a query, the
/// window replaces whatever window stood before and the count query wraps the
/// statement; a parsed non-query runs unchanged and uncounted.
pub open spec fn paging_plan_spec(
    duck: bool,
    sql: Seq<char>,
    limit: Option<usize>,
    offset: Option<usize>,
    r: PagingPlan,
) -> bool {
    if !parse_ok(duck, sql) {
        r.exec_sql@ == sql && r.count_sql is None
    } else {
        let text = first_stmt_text(duck, sql);
        let isq = first_stmt_is_query(duck, sql);
        &&& r.exec_sql@ == if isq && windowed_ok(duck, text, limit, offset) {
            windowed_text(duck, text, limit, offset)
        } else {
            sql
        }
        &&& (r.count_sql is Some <==> isq)
        &&& (r.count_sql matches Some(c) ==> c@ == count_sql_spec(text))
    }
}

/// Counting is invariant to the requested window: two pagination plans for
/// the same input, whatever their limits and offsets, derive the same count
/// query, or both derive none. The count never re-executes the windowed
/// result set; it always wraps the statement as it was parsed.
pub proof fn lemma_count_invariant_under_window(
    duck: bool,
    sql: Seq<char>,
    l1: Option<usize>,
    o1: Option<usize>,
    l2: Option<usize>,
    o2: Option<usize>,
    r1: PagingPlan,
    r2: PagingPlan,
)
    requires
        paging_plan_spec(duck, sql, l1, o1, r1),
        paging_plan_spec(duck, sql, l2, o2, r2),
    ensures
        r1.count_sql is Some <==> r2.count_sql is Some,
        r1.count_sql matches Some(c1) ==> (r2.count_sql matches Some(c2) && c1@ == c2@),
{
}

/// A pagination request whose input does not parse still runs: the plan
/// executes the original SQL unchanged, treats the request as unbounded, and
/// plans no count step. Parse failure degrades the request; it never fails
/// it.
pub proof fn lemma_parse_failure_degrades(
    duck: bool,
    sql: Seq<char>,
    limit: Option<usize>,
    offset: Option<usize>,
    r: PagingPlan,
)
    requires
        paging_plan_spec(duck, sql, limit, offset, r),
        !parse_ok(duck, sql),
    ensures
        r.exec_sql@ == sql,
        r.count_sql is None,
{
}

/// The capability interface a dialect binds to its backing engine. Engine
/// execution itself lives with the embedding application; here every method
/// that would reach an engine reports the operation unsupported, and the
/// planning methods carry the shared, verified default algorithms.
pub trait Connection: Sized {
    /// The dialect name this connection reports.
    spec fn dialect_spec(&self) -> Seq<char>;

    /// The identifier quote character of this dialect.
    spec fn quote(&self) -> char;

    fn dialect(&self) -> (r: &'static str)
        ensures
            r@ == self.dialect_spec(),
    ;

    /// Wraps an identifier in the dialect's quote character when it needs
    /// quoting, which by default means: when it contains a space.
    fn normalize(&self, name: &str) -> (r: String)
        ensures
            r@ == quoted_spec(name@, self.quote()),
    ;

    /// The separate total-count query of a structural table request.
    fn _table_count_sql(&self, table: &str, where_: &str) -> (r: String)
        ensures
            r@ == table_count_sql_spec(quoted_spec(table@, self.quote()), where_@),
    {
        let t = self.normalize(table);
        let mut sql = String::from_str("select count(*) from ");
        sql.append(t.as_str());
        if !is_blank_str(where_) {
            sql.append(" where ");
            sql.append(where_);
        }
        sql
    }

    /// The unwindowed row query of a structural table request.
    fn _table_query_sql(&self, table: &str, where_: &str, order_by: &str) -> (r: String)
        ensures
            r@ == table_query_sql_spec(quoted_spec(table@, self.quote()), where_@, order_by@),
    {
        let t = self.normalize(table);
        let mut sql = String::from_str("select * from ");
        sql.append(t.as_str());
        if !is_blank_str(where_) {
            sql.append(" where ");
            sql.append(where_);
        }
        if !is_blank_str(order_by) {
            sql.append(" order by ");
            sql.append(order_by);
        }
        sql
    }

    /// The default structural-browsing algorithm: composes the windowed row
    /// query from caller-validated fragments, and beside it the count query
    /// that populates the logical total.
    fn query_table(
        &self,
        table: &str,
        limit: usize,
        offset: usize,
        where_: &str,
        order_by: &str,
    ) -> (r: TableQueryPlan)
        ensures
            r.query_sql@ == table_query_full_spec(
                quoted_spec(table@, self.quote()),
                where_@,
                order_by@,
                limit,
                offset,
            ),
            r.count_sql@ == table_count_sql_spec(quoted_spec(table@, self.quote()), where_@),
    {
        let mut sql = self._table_query_sql(table, where_, order_by);
        if limit != 0 {
            sql.append(" limit ");
            let ls = usize_string(limit);
            sql.append(ls.as_str());
        }
        if offset != 0 {
            sql.append(" offset ");
            let os = usize_string(offset);
            sql.append(os.as_str());
        }
        let count_sql = self._table_count_sql(table, where_);
        TableQueryPlan { query_sql: sql, count_sql }
    }

    /// The central orchestration: parse the first statement, window it when
    /// that succeeds, and derive the count query when the statement is a
    /// query. Tolerates parse and rewrite failure at every step; pagination
    /// and counting are enhancements, never requirements.
    fn paging_query(&self, sql: &str, limit: Option<usize>, offset: Option<usize>) -> (r:
        PagingPlan)
        ensures
            paging_plan_spec(
                ast_dialect_spec(self.dialect_spec()) == AstDialect::DuckDb,
                sql@,
                limit,
                offset,
                r,
            ),
    {
        let dialect = self.dialect();
        let stmt = first_stmt(dialect, sql);
        let mut exec_sql = String::from_str(sql);
        let mut count_sql: Option<String> = None;
        match &stmt {
            Some(st) => {
                match limit_stmt(st, limit, offset) {
                    Some(w) => {
                        exec_sql = w;
                    },
                    None => {},
                }
                count_sql = count_stmt(st);
            },
            None => {},
        }
        PagingPlan { exec_sql, count_sql }
    }

    /// Runs arbitrary SQL on the backing engine: engine-side, so unsupported
    /// within the library.
    fn query(&self, sql: &str, limit: usize, offset: usize) -> (r: Result<RawArrowData, DbError>)
        ensures
            r == Err::<RawArrowData, DbError>(DbError::UnsupportedOperation),
    {
        Err(DbError::UnsupportedOperation)
    }

    /// Runs a SQL statement expected to yield one count value: engine-side.
    fn query_count(&self, sql: &str) -> (r: Result<usize, DbError>)
        ensures
            r == Err::<usize, DbError>(DbError::UnsupportedOperation),
    {
        Err(DbError::UnsupportedOperation)
    }

    /// Runs SQL without any window: engine-side.
    fn query_all(&self, sql: &str) -> (r: Result<RawArrowData, DbError>)
        ensures
            r == Err::<RawArrowData, DbError>(DbError::UnsupportedOperation),
    {
        Err(DbError::UnsupportedOperation)
    }

    /// Counts the rows a SQL statement yields: engine-side.
    fn _sql_row_count(&self, sql: &str) -> (r: Result<usize, DbError>)
        ensures
            r == Err::<usize, DbError>(DbError::UnsupportedOperation),
    {
        Err(DbError::UnsupportedOperation)
    }

    /// Executes a statement for its effect: engine-side.
    fn execute(&self, sql: &str) -> (r: Result<usize, DbError>)
        ensures
            r == Err::<usize, DbError>(DbError::UnsupportedOperation),
    {
        Err(DbError::UnsupportedOperation)
    }

    /// Full-text or path search: an optional capability no bundled dialect
    /// backs within the library.
    fn find(&self, value: &str, path: &str) -> (r: Result<RawArrowData, DbError>)
        ensures
            r == Err::<RawArrowData, DbError>(DbError::UnsupportedOperation),
    {
        Err(DbError::UnsupportedOperation)
    }

    /// Streams query results to a file: engine-side row export, an optional
    /// capability only the embedded-db dialect declares.
    fn export(&self, sql: &str, file: &str) -> (r: Result<(), DbError>)
        ensures
            is_duckdb(self.dialect_spec()) <==> r is Ok,
            r matches Err(e) ==> e == DbError::UnsupportedOperation,
    ;

    /// Discovers the structure behind the connection. Discovery queries the
    /// engine, so the library plans it (see the embedded-db dialect's
    /// discovery query) and the application runs it; here the operation
    /// reports which dialects support it at all.
    fn get_db(&self) -> (r: Result<String, DbError>)
        ensures
            is_duckdb(self.dialect_spec()) ==> (r matches Ok(s) && s@
                == crate::duck::tables_sql_spec(None)),
            !is_duckdb(self.dialect_spec()) ==> r == Err::<String, DbError>(
                DbError::UnsupportedOperation,
            ),
    ;

    /// The SQL listing one schema's tables and views, ordered by (object
    /// type, name); an optional capability.
    fn show_schema(&self, schema: &str) -> (r: Result<String, DbError>)
        ensures
            is_duckdb(self.dialect_spec()) ==> (r matches Ok(s) && s@
                == crate::duck::show_schema_sql_spec(schema@)),
            !is_duckdb(self.dialect_spec()) ==> r == Err::<String, DbError>(
                DbError::UnsupportedOperation,
            ),
    ;

    /// The SQL listing one table's columns, the qualified `schema.table` form
    /// split when no explicit schema came; an optional capability.
    fn show_column(&self, schema: Option<&str>, table: &str) -> (r: Result<String, DbError>)
        ensures
            is_duckdb(self.dialect_spec()) ==> (r matches Ok(s) && s@
                == crate::duck::show_column_sql_spec(
                crate::duck::split_db_spec(crate::text::opt_view(schema), table@),
            )),
            !is_duckdb(self.dialect_spec()) ==> r == Err::<String, DbError>(
                DbError::UnsupportedOperation,
            ),
    ;

    /// The idempotent two-statement drop plan for a table or view; an
    /// optional capability.
    fn drop_table(&self, schema: Option<&str>, table: &str) -> (r: Result<DropTablePlan, DbError>)
        ensures
            is_duckdb(self.dialect_spec()) ==> (r matches Ok(p) && p.drop_view_sql@
                == crate::duck::drop_view_sql_spec(crate::text::opt_view(schema), table@)
                && p.drop_table_sql@ == crate::duck::drop_table_sql_spec(
                crate::text::opt_view(schema),
                table@,
            )),
            !is_duckdb(self.dialect_spec()) ==> r == Err::<DropTablePlan, DbError>(
                DbError::UnsupportedOperation,
            ),
    ;

    /// The count query behind a table's total row count; an optional
    /// capability.
    fn table_row_count(&self, table: &str, where_: &str) -> (r: Result<String, DbError>)
        ensures
            is_duckdb(self.dialect_spec()) ==> (r matches Ok(s) && s@ == table_count_sql_spec(
                quoted_spec(table@, self.quote()),
                where_@,
            )),
            !is_duckdb(self.dialect_spec()) ==> r == Err::<String, DbError>(
                DbError::UnsupportedOperation,
            ),
    ;
}

} // verus!
