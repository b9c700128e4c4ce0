//! The inbound operation set: every request names a dialect selector, which
//! resolves to a connection or to a single error string, and yields the plan
//! the backing engine must run. An unknown dialect fails every operation
//! here with an unsupported-dialect error, never a panic.
use vstd::prelude::*;
use vstd::string::*;
use crate::ast::ast_dialect_spec;
use crate::connection::{
    is_duckdb, lemma_dialect_names_distinct, paging_plan_spec, quoted_spec, table_count_sql_spec,
    table_query_full_spec, Connection, DropTablePlan, PagingPlan, TableQueryPlan,
};
use crate::duck::{
    show_column_sql_spec, show_schema_sql_spec, split_db_spec, tables_sql, tables_sql_spec,
    DuckDbDialect,
};
use crate::error::DbError;
use crate::file::FileDialect;
use crate::folder::FolderDialect;
use crate::text::{opt_view, str_eq};

verus! {

/// The wire shape of a dialect selector: a dialect name, the path it opens,
/// and the working directory its relative references resolve against.
#[derive(Debug, Default, Clone, PartialEq, Eq)]
pub struct DialectPayload {
    pub dialect: String,
    pub path: Option<String>,
    pub cwd: Option<String>,
}

/// A resolved connection: the tagged union of the bundled dialects.
#[derive(Debug, Clone, PartialEq, Eq)]
pub enum DialectConnection {
    DuckDb(DuckDbDialect),
    File(FileDialect),
    Folder(FolderDialect),
}

/// The dialect names this library binds.
pub open spec fn known_dialect(d: Seq<char>) -> bool {
    d == "duckdb"@ || d == "file"@ || d == "folder"@
}

/// A selector that resolves: a known dialect name with a path to open.
pub open spec fn resolved(payload: DialectPayload) -> bool {
    known_dialect(payload.dialect@) && payload.path is Some
}

/// The connection a selector resolves to carries the selector's own path and
/// working directory under the selector's dialect name.
pub open spec fn resolves_to(payload: DialectPayload, conn: DialectConnection) -> bool {
    match conn {
        DialectConnection::DuckDb(d) => payload.dialect@ == "duckdb"@ && payload.path == Some(
            d.path,
        ) && payload.cwd == d.cwd,
        DialectConnection::File(d) => payload.dialect@ == "file"@ && payload.path == Some(d.path),
        DialectConnection::Folder(d) => payload.dialect@ == "folder"@ && payload.path == Some(
            d.path,
        ) && payload.cwd == d.cwd,
    }
}

/// The quote character of a dialect name: double quotes for the embedded
/// database, the generic backtick for the rest.
pub open spec fn quote_for(d: Seq<char>) -> char {
    if d == "duckdb"@ {
        '"'
    } else {
        '`'
    }
}

/// The view of an optional owned fragment, empty when absent.
pub open spec fn opt_str_view(o: Option<String>) -> Seq<char> {
    match o {
        Some(s) => s@,
        None => Seq::<char>::empty(),
    }
}

/// The error string of a selector whose dialect is known but whose path is
/// absent: a connection-failure message, since nothing can be opened.
pub open spec fn path_required_msg() -> Seq<char> {
    "connection failed: "@ + "path is required"@
}

impl DialectConnection {
    /// The dialect name of the resolved connection.
    pub open spec fn dialect_of(&self) -> Seq<char> {
        match self {
            DialectConnection::DuckDb(_) => "duckdb"@,
            DialectConnection::File(_) => "file"@,
            DialectConnection::Folder(_) => "folder"@,
        }
    }

    /// The identifier quote character of the resolved connection.
    pub open spec fn quote_of(&self) -> char {
        quote_for(self.dialect_of())
    }

    /// The shared pagination orchestration, dispatched to the dialect.
    pub fn paging_query(&self, sql: &str, limit: Option<usize>, offset: Option<usize>) -> (r:
        PagingPlan)
        ensures
            paging_plan_spec(
                ast_dialect_spec(self.dialect_of()) == crate::ast::AstDialect::DuckDb,
                sql@,
                limit,
                offset,
                r,
            ),
    {
        match self {
            DialectConnection::DuckDb(d) => d.paging_query(sql, limit, offset),
            DialectConnection::File(d) => d.paging_query(sql, limit, offset),
            DialectConnection::Folder(d) => d.paging_query(sql, limit, offset),
        }
    }

    /// The shared structural table query, dispatched to the dialect.
    pub fn query_table(
        &self,
        table: &str,
        limit: usize,
        offset: usize,
        where_: &str,
        order_by: &str,
    ) -> (r: TableQueryPlan)
        ensures
            r.query_sql@ == table_query_full_spec(
                quoted_spec(table@, self.quote_of()),
                where_@,
                order_by@,
                limit,
                offset,
            ),
            r.count_sql@ == table_count_sql_spec(quoted_spec(table@, self.quote_of()), where_@),
    {
        proof {
            lemma_dialect_names_distinct();
        }
        match self {
            DialectConnection::DuckDb(d) => d.query_table(table, limit, offset, where_, order_by),
            DialectConnection::File(d) => d.query_table(table, limit, offset, where_, order_by),
            DialectConnection::Folder(d) => d.query_table(table, limit, offset, where_, order_by),
        }
    }

    /// One schema's listing query, where the dialect backs it.
    pub fn show_schema(&self, schema: &str) -> (r: Result<String, DbError>)
        ensures
            is_duckdb(self.dialect_of()) ==> (r matches Ok(s) && s@ == show_schema_sql_spec(
                schema@,
            )),
            !is_duckdb(self.dialect_of()) ==> r == Err::<String, DbError>(
                DbError::UnsupportedOperation,
            ),
    {
        match self {
            DialectConnection::DuckDb(d) => d.show_schema(schema),
            DialectConnection::File(d) => d.show_schema(schema),
            DialectConnection::Folder(d) => d.show_schema(schema),
        }
    }

    /// One table's column listing query, where the dialect backs it.
    pub fn show_column(&self, schema: Option<&str>, table: &str) -> (r: Result<String, DbError>)
        ensures
            is_duckdb(self.dialect_of()) ==> (r matches Ok(s) && s@ == show_column_sql_spec(
                split_db_spec(opt_view(schema), table@),
            )),
            !is_duckdb(self.dialect_of()) ==> r == Err::<String, DbError>(
                DbError::UnsupportedOperation,
            ),
    {
        match self {
            DialectConnection::DuckDb(d) => d.show_column(schema, table),
            DialectConnection::File(d) => d.show_column(schema, table),
            DialectConnection::Folder(d) => d.show_column(schema, table),
        }
    }

    /// The idempotent drop plan, where the dialect backs it.
    pub fn drop_table(&self, schema: Option<&str>, table: &str) -> (r: Result<
        DropTablePlan,
        DbError,
    >)
        ensures
            is_duckdb(self.dialect_of()) ==> (r matches Ok(p) && p.drop_view_sql@
                == crate::duck::drop_view_sql_spec(opt_view(schema), table@) && p.drop_table_sql@
                == crate::duck::drop_table_sql_spec(opt_view(schema), table@)),
            !is_duckdb(self.dialect_of()) ==> r == Err::<DropTablePlan, DbError>(
                DbError::UnsupportedOperation,
            ),
    {
        match self {
            DialectConnection::DuckDb(d) => d.drop_table(schema, table),
            DialectConnection::File(d) => d.drop_table(schema, table),
            DialectConnection::Folder(d) => d.drop_table(schema, table),
        }
    }

    /// The table's total-count query, where the dialect backs it.
    pub fn table_row_count(&self, table: &str, where_: &str) -> (r: Result<String, DbError>)
        ensures
            is_duckdb(self.dialect_of()) ==> (r matches Ok(s) && s@ == table_count_sql_spec(
                quoted_spec(table@, self.quote_of()),
                where_@,
            )),
            !is_duckdb(self.dialect_of()) ==> r == Err::<String, DbError>(
                DbError::UnsupportedOperation,
            ),
    {
        proof {
            lemma_dialect_names_distinct();
        }
        match self {
            DialectConnection::DuckDb(d) => d.table_row_count(table, where_),
            DialectConnection::File(d) => d.table_row_count(table, where_),
            DialectConnection::Folder(d) => d.table_row_count(table, where_),
        }
    }
}

impl DialectConnection {
    /// Whether the dialect backs row export at all.
    pub fn export(&self, sql: &str, file: &str) -> (r: Result<(), DbError>)
        ensures
            is_duckdb(self.dialect_of()) <==> r is Ok,
            r matches Err(e) ==> e == DbError::UnsupportedOperation,
    {
        match self {
            DialectConnection::DuckDb(d) => d.export(sql, file),
            DialectConnection::File(d) => d.export(sql, file),
            DialectConnection::Folder(d) => d.export(sql, file),
        }
    }

    /// Full-text or path search, which no bundled dialect backs within the
    /// library.
    pub fn find(&self, value: &str, path: &str) -> (r: Result<crate::api::RawArrowData, DbError>)
        ensures
            r == Err::<crate::api::RawArrowData, DbError>(DbError::UnsupportedOperation),
    {
        match self {
            DialectConnection::DuckDb(d) => d.find(value, path),
            DialectConnection::File(d) => d.find(value, path),
            DialectConnection::Folder(d) => d.find(value, path),
        }
    }
}

/// Resolves a selector to a connection. An unknown dialect name is an
/// unsupported-dialect failure; a known name without a path is a
/// construction failure; neither ever panics.
pub fn get_dialect(payload: DialectPayload) -> (r: Result<DialectConnection, DbError>)
    ensures
        !known_dialect(payload.dialect@) ==> r == Err::<DialectConnection, DbError>(
            DbError::UnsupportedDialect,
        ),
        known_dialect(payload.dialect@) && payload.path is None ==> (r matches Err(e)
            && e matches DbError::ConnectionFailure(m) && m@ == "path is required"@),
        resolved(payload) ==> (r matches Ok(c) && resolves_to(payload, c)),
{
    proof {
        lemma_dialect_names_distinct();
    }
    let DialectPayload { dialect, path, cwd } = payload;
    if str_eq(dialect.as_str(), "duckdb") {
        match path {
            Some(p) => Ok(DialectConnection::DuckDb(DuckDbDialect { path: p, cwd })),
            None => Err(DbError::ConnectionFailure(String::from_str("path is required"))),
        }
    } else if str_eq(dialect.as_str(), "file") {
        match path {
            Some(p) => Ok(DialectConnection::File(FileDialect { path: p })),
            None => Err(DbError::ConnectionFailure(String::from_str("path is required"))),
        }
    } else if str_eq(dialect.as_str(), "folder") {
        match path {
            Some(p) => Ok(DialectConnection::Folder(FolderDialect { path: p, cwd })),
            None => Err(DbError::ConnectionFailure(String::from_str("path is required"))),
        }
    } else {
        Err(DbError::UnsupportedDialect)
    }
}

/// Runs arbitrary SQL: resolves the selector and hands back the connection
/// with the text to execute, unchanged; the bundled dialects apply windows
/// structurally through pagination instead of interpreting these bounds.
pub fn query(sql: &str, limit: usize, offset: usize, dialect: DialectPayload) -> (r: Result<
    (DialectConnection, String),
    String,
>)
    ensures
        !known_dialect(dialect.dialect@) ==> (r matches Err(m) && m@ == "not support dialect"@),
        known_dialect(dialect.dialect@) && dialect.path is None ==> (r matches Err(m) && m@
            == path_required_msg()),
        resolved(dialect) ==> (r matches Ok(t) && resolves_to(dialect, t.0) && t.1@ == sql@),
{
    match get_dialect(dialect) {
        Ok(conn) => Ok((conn, String::from_str(sql))),
        Err(e) => Err(e.message()),
    }
}

/// The paginated query: resolves the selector and plans the windowed
/// execution and the count step the paginate algorithm calls for.
pub fn paging_query(sql: &str, limit: usize, offset: usize, dialect: DialectPayload) -> (r: Result<
    (DialectConnection, PagingPlan),
    String,
>)
    ensures
        !known_dialect(dialect.dialect@) ==> (r matches Err(m) && m@ == "not support dialect"@),
        known_dialect(dialect.dialect@) && dialect.path is None ==> (r matches Err(m) && m@
            == path_required_msg()),
        resolved(dialect) ==> (r matches Ok(t) && resolves_to(dialect, t.0) && paging_plan_spec(
            ast_dialect_spec(dialect.dialect@) == crate::ast::AstDialect::DuckDb,
            sql@,
            Some(limit),
            Some(offset),
            t.1,
        )),
{
    match get_dialect(dialect) {
        Ok(conn) => {
            let plan = conn.paging_query(sql, Some(limit), Some(offset));
            Ok((conn, plan))
        },
        Err(e) => Err(e.message()),
    }
}

/// The structural table browse: resolves the selector and plans the windowed
/// row query and the separate count query.
pub fn query_table(
    table: &str,
    limit: usize,
    offset: usize,
    order_by: Option<String>,
    where_: Option<String>,
    dialect: DialectPayload,
) -> (r: Result<(DialectConnection, TableQueryPlan), String>)
    ensures
        !known_dialect(dialect.dialect@) ==> (r matches Err(m) && m@ == "not support dialect "@
            + dialect.dialect@),
        known_dialect(dialect.dialect@) && dialect.path is None ==> (r matches Err(m) && m@
            == path_required_msg()),
        resolved(dialect) ==> (r matches Ok(t) && resolves_to(dialect, t.0) && t.1.query_sql@
            == table_query_full_spec(
            quoted_spec(table@, quote_for(dialect.dialect@)),
            opt_str_view(where_),
            opt_str_view(order_by),
            limit,
            offset,
        ) && t.1.count_sql@ == table_count_sql_spec(
            quoted_spec(table@, quote_for(dialect.dialect@)),
            opt_str_view(where_),
        )),
{
    let dname = dialect.dialect.clone();
    match get_dialect(dialect) {
        Ok(conn) => {
            let w: &str = match &where_ {
                Some(s) => s.as_str(),
                None => "",
            };
            let o: &str = match &order_by {
                Some(s) => s.as_str(),
                None => "",
            };
            proof {
                reveal_strlit("");
                assert(""@ =~= Seq::<char>::empty());
            }
            let plan = conn.query_table(table, limit, offset, w, o);
            Ok((conn, plan))
        },
        Err(DbError::UnsupportedDialect) => {
            let mut m = String::from_str("not support dialect ");
            m.append(dname.as_str());
            Err(m)
        },
        Err(e) => Err(e.message()),
    }
}

/// A table's total row count under a condition: resolves the selector and
/// plans the count query, where the dialect backs counting.
pub fn table_row_count(table: &str, condition: &str, dialect: DialectPayload) -> (r: Result<
    (DialectConnection, String),
    String,
>)
    ensures
        !known_dialect(dialect.dialect@) ==> (r matches Err(m) && m@ == "not support dialect"@),
        known_dialect(dialect.dialect@) && dialect.path is None ==> (r matches Err(m) && m@
            == path_required_msg()),
        resolved(dialect) && is_duckdb(dialect.dialect@) ==> (r matches Ok(t) && resolves_to(
            dialect,
            t.0,
        ) && t.1@ == table_count_sql_spec(
            quoted_spec(table@, quote_for(dialect.dialect@)),
            condition@,
        )),
        resolved(dialect) && !is_duckdb(dialect.dialect@) ==> (r matches Err(m) && m@
            == "not support operation"@),
{
    match get_dialect(dialect) {
        Ok(conn) => match conn.table_row_count(table, condition) {
            Ok(s) => Ok((conn, s)),
            Err(e) => Err(e.message()),
        },
        Err(e) => Err(e.message()),
    }
}

/// Row export to a file: resolves the selector and grants the capability,
/// handing back the SQL and the destination for the engine to stream.
pub fn export(sql: &str, file: &str, dialect: DialectPayload) -> (r: Result<
    (DialectConnection, String, String),
    String,
>)
    ensures
        !known_dialect(dialect.dialect@) ==> (r matches Err(m) && m@ == "not support dialect"@),
        known_dialect(dialect.dialect@) && dialect.path is None ==> (r matches Err(m) && m@
            == path_required_msg()),
        resolved(dialect) && is_duckdb(dialect.dialect@) ==> (r matches Ok(t) && resolves_to(
            dialect,
            t.0,
        ) && t.1@ == sql@ && t.2@ == file@),
        resolved(dialect) && !is_duckdb(dialect.dialect@) ==> (r matches Err(m) && m@
            == "not support operation"@),
{
    match get_dialect(dialect) {
        Ok(conn) => match conn.export(sql, file) {
            Ok(()) => Ok((conn, String::from_str(sql), String::from_str(file))),
            Err(e) => Err(e.message()),
        },
        Err(e) => Err(e.message()),
    }
}

/// Structure discovery: resolves the selector and, for the embedded-db
/// dialect, plans the information-schema query whose rows become the schema
/// tree; the file dialects discover engine-side.
pub fn get_db(dialect: DialectPayload) -> (r: Result<
    (DialectConnection, Option<String>),
    String,
>)
    ensures
        !known_dialect(dialect.dialect@) ==> (r matches Err(m) && m@ == "not support dialect"@),
        known_dialect(dialect.dialect@) && dialect.path is None ==> (r matches Err(m) && m@
            == path_required_msg()),
        resolved(dialect) ==> (r matches Ok(t) && resolves_to(dialect, t.0) && (t.1 is Some
            <==> is_duckdb(dialect.dialect@)) && (t.1 matches Some(s) ==> s@ == tables_sql_spec(
            None,
        ))),
{
    match get_dialect(dialect) {
        Ok(conn) => {
            let discovery: Option<String> = match &conn {
                DialectConnection::DuckDb(_) => Some(tables_sql(None)),
                _ => None,
            };
            proof {
                lemma_dialect_names_distinct();
            }
            Ok((conn, discovery))
        },
        Err(e) => Err(e.message()),
    }
}

/// One schema's table listing: resolves the selector and plans the listing
/// query, where the dialect backs it.
pub fn show_schema(schema: &str, dialect: DialectPayload) -> (r: Result<
    (DialectConnection, String),
    String,
>)
    ensures
        !known_dialect(dialect.dialect@) ==> (r matches Err(m) && m@ == "not support dialect "@
            + dialect.dialect@),
        known_dialect(dialect.dialect@) && dialect.path is None ==> (r matches Err(m) && m@
            == path_required_msg()),
        resolved(dialect) && is_duckdb(dialect.dialect@) ==> (r matches Ok(t) && resolves_to(
            dialect,
            t.0,
        ) && t.1@ == show_schema_sql_spec(schema@)),
        resolved(dialect) && !is_duckdb(dialect.dialect@) ==> (r matches Err(m) && m@
            == "not support operation"@),
{
    let dname = dialect.dialect.clone();
    match get_dialect(dialect) {
        Ok(conn) => match conn.show_schema(schema) {
            Ok(s) => Ok((conn, s)),
            Err(e) => Err(e.message()),
        },
        Err(DbError::UnsupportedDialect) => {
            let mut m = String::from_str("not support dialect ");
            m.append(dname.as_str());
            Err(m)
        },
        Err(e) => Err(e.message()),
    }
}

/// One table's column listing: resolves the selector, splits a qualified
/// name when no explicit schema came, and plans the listing query, where the
/// dialect backs it.
pub fn show_column(schema: Option<&str>, table: &str, dialect: DialectPayload) -> (r: Result<
    (DialectConnection, String),
    String,
>)
    ensures
        !known_dialect(dialect.dialect@) ==> (r matches Err(m) && m@ == "not support dialect "@
            + dialect.dialect@),
        known_dialect(dialect.dialect@) && dialect.path is None ==> (r matches Err(m) && m@
            == path_required_msg()),
        resolved(dialect) && is_duckdb(dialect.dialect@) ==> (r matches Ok(t) && resolves_to(
            dialect,
            t.0,
        ) && t.1@ == show_column_sql_spec(split_db_spec(opt_view(schema), table@))),
        resolved(dialect) && !is_duckdb(dialect.dialect@) ==> (r matches Err(m) && m@
            == "not support operation"@),
{
    let dname = dialect.dialect.clone();
    match get_dialect(dialect) {
        Ok(conn) => match conn.show_column(schema, table) {
            Ok(s) => Ok((conn, s)),
            Err(e) => Err(e.message()),
        },
        Err(DbError::UnsupportedDialect) => {
            let mut m = String::from_str("not support dialect ");
            m.append(dname.as_str());
            Err(m)
        },
        Err(e) => Err(e.message()),
    }
}

/// Drops a table or view: resolves the selector and plans the two idempotent
/// drop statements, where the dialect backs dropping. The drop succeeds
/// whether or not the object exists.
pub fn drop_table(schema: Option<&str>, table: &str, dialect: DialectPayload) -> (r: Result<
    (DialectConnection, DropTablePlan),
    String,
>)
    ensures
        !known_dialect(dialect.dialect@) ==> (r matches Err(m) && m@ == "not support dialect "@
            + dialect.dialect@),
        known_dialect(dialect.dialect@) && dialect.path is None ==> (r matches Err(m) && m@
            == path_required_msg()),
        resolved(dialect) && is_duckdb(dialect.dialect@) ==> (r matches Ok(t) && resolves_to(
            dialect,
            t.0,
        ) && t.1.drop_view_sql@ == crate::duck::drop_view_sql_spec(opt_view(schema), table@)
            && t.1.drop_table_sql@ == crate::duck::drop_table_sql_spec(opt_view(schema), table@)),
        resolved(dialect) && !is_duckdb(dialect.dialect@) ==> (r matches Err(m) && m@
            == "not support operation"@),
{
    let dname = dialect.dialect.clone();
    match get_dialect(dialect) {
        Ok(conn) => match conn.drop_table(schema, table) {
            Ok(p) => Ok((conn, p)),
            Err(e) => Err(e.message()),
        },
        Err(DbError::UnsupportedDialect) => {
            let mut m = String::from_str("not support dialect ");
            m.append(dname.as_str());
            Err(m)
        },
        Err(e) => Err(e.message()),
    }
}

/// Full-text or path search: resolves the selector; no bundled dialect backs
/// the capability within the library, so a resolved request reports the
/// operation unsupported rather than terminating anything.
pub fn find(value: &str, path: &str, dialect: DialectPayload) -> (r: Result<
    crate::api::RawArrowData,
    String,
>)
    ensures
        !known_dialect(dialect.dialect@) ==> (r matches Err(m) && m@ == "not support dialect "@
            + dialect.dialect@),
        known_dialect(dialect.dialect@) && dialect.path is None ==> (r matches Err(m) && m@
            == path_required_msg()),
        resolved(dialect) ==> (r matches Err(m) && m@ == "not support operation"@),
{
    let dname = dialect.dialect.clone();
    match get_dialect(dialect) {
        Ok(conn) => match conn.find(value, path) {
            Ok(d) => Ok(d),
            Err(e) => Err(e.message()),
        },
        Err(DbError::UnsupportedDialect) => {
            let mut m = String::from_str("not support dialect ");
            m.append(dname.as_str());
            Err(m)
        },
        Err(e) => Err(e.message()),
    }
}

} // verus!
