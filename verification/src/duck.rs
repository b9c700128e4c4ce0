//! The embedded analytical database dialect: double-quote identifier
//! normalization, information-schema discovery and listing queries, and the
//! idempotent two-statement table drop.
use vstd::prelude::*;
use vstd::string::*;
use crate::connection::{quoted_spec, Connection, DropTablePlan};
use crate::error::DbError;
use crate::text::{contains_char, first_index, opt_view, split_qualified};
use crate::utils::{file_name_spec, get_file_name, TreeNode};

verus! {

/// The discovery query behind the schema tree: every table and view with its
/// schema and kind, ordered by (object type, name), optionally narrowed to
/// one schema.
pub open spec fn tables_sql_spec(schema: Option<Seq<char>>) -> Seq<char> {
    "select table_name, table_type, table_schema, if(table_type='VIEW', 'view', 'table') as type from information_schema.tables"@
        + (match schema {
        Some(s) => " where table_schema='"@ + s + "'"@,
        None => Seq::<char>::empty(),
    }) + " order by table_type, table_name"@
}

/// The listing of one schema's tables and views, ordered by (object type,
/// name).
pub open spec fn show_schema_sql_spec(schema: Seq<char>) -> Seq<char> {
    "select * from information_schema.tables where table_schema='"@ + schema
        + "' order by table_type, table_name"@
}

/// The (schema, table) pair a column listing or a drop works on: a qualified
/// `schema.table` name splits at its first dot when no explicit schema came;
/// otherwise the schema part stays empty and the name stands whole.
pub open spec fn split_db_spec(schema: Option<Seq<char>>, table: Seq<char>) -> (Seq<char>, Seq<
    char,
>) {
    if schema is None && table.contains('.') {
        (
            table.subrange(0, first_index(table, '.')),
            table.subrange(first_index(table, '.') + 1, table.len() as int),
        )
    } else {
        (Seq::<char>::empty(), table)
    }
}

/// The listing of one table's columns.
pub open spec fn show_column_sql_spec(db_tbl: (Seq<char>, Seq<char>)) -> Seq<char> {
    "select * from information_schema.columns where table_schema='"@ + db_tbl.0
        + "' and table_name='"@ + db_tbl.1 + "'"@
}

/// The object a drop aims at: `schema.table` when a schema part is present,
/// the bare name otherwise.
pub open spec fn drop_target_spec(schema: Option<Seq<char>>, table: Seq<char>) -> Seq<char> {
    if split_db_spec(schema, table).0.len() == 0 {
        split_db_spec(schema, table).1
    } else {
        split_db_spec(schema, table).0 + "."@ + split_db_spec(schema, table).1
    }
}

/// The first drop statement: removes the object if it is a view.
pub open spec fn drop_view_sql_spec(schema: Option<Seq<char>>, table: Seq<char>) -> Seq<char> {
    "DROP VIEW IF EXISTS "@ + drop_target_spec(schema, table)
}

/// The second drop statement: removes the object if it is a table.
pub open spec fn drop_table_sql_spec(schema: Option<Seq<char>>, table: Seq<char>) -> Seq<char> {
    "DROP TABLE IF EXISTS "@ + drop_target_spec(schema, table)
}

/// The connection selector for the embedded analytical database: the file
/// path of the database, and the directory its relative references resolve
/// against.
#[derive(Debug, Default, Clone, PartialEq, Eq)]
pub struct DuckDbDialect {
    pub path: String,
    pub cwd: Option<String>,
}

/// Splits a possibly qualified table name as `split_db_spec` says.
fn split_db(schema: Option<&str>, table: &str) -> (r: (String, String))
    ensures
        r.0@ == split_db_spec(opt_view(schema), table@).0,
        r.1@ == split_db_spec(opt_view(schema), table@).1,
{
    match schema {
        Some(_) => (String::new(), String::from_str(table)),
        None => match split_qualified(table) {
            Some(p) => p,
            None => (String::new(), String::from_str(table)),
        },
    }
}

/// The discovery query, narrowed to one schema when one is given.
pub fn tables_sql(schema: Option<&str>) -> (r: String)
    ensures
        r@ == tables_sql_spec(opt_view(schema)),
{
    let mut sql = String::from_str(
        "select table_name, table_type, table_schema, if(table_type='VIEW', 'view', 'table') as type from information_schema.tables",
    );
    match schema {
        Some(s) => {
            sql.append(" where table_schema='");
            sql.append(s);
            sql.append("'");
        },
        None => {},
    }
    sql.append(" order by table_type, table_name");
    sql
}

impl DuckDbDialect {
    /// The root of the schema tree: named after the database file, holding
    /// the given child nodes.
    pub fn db_tree(&self, children: Vec<TreeNode>) -> (r: TreeNode)
        ensures
            r.name@ == file_name_spec(self.path@),
            r.path == self.path,
            r.node_type@ == "root"@,
            r.children == Some(children),
            r.size is None,
            r.comment is None,
    {
        TreeNode {
            name: get_file_name(self.path.as_str()),
            path: self.path.clone(),
            node_type: String::from_str("root"),
            children: Some(children),
            size: None,
            comment: None,
        }
    }
}

impl Connection for DuckDbDialect {
    open spec fn dialect_spec(&self) -> Seq<char> {
        "duckdb"@
    }

    open spec fn quote(&self) -> char {
        '"'
    }

    fn dialect(&self) -> (r: &'static str) {
        "duckdb"
    }

    /// Wraps an identifier in double quotes when it contains a space.
    fn normalize(&self, name: &str) -> (r: String) {
        if contains_char(name, ' ') {
            let mut s = String::from_str("\"");
            s.append(name);
            s.append("\"");
            proof {
                reveal_strlit("\"");
                assert(s@ =~= quoted_spec(name@, '"'));
            }
            s
        } else {
            String::from_str(name)
        }
    }

    fn export(&self, sql: &str, file: &str) -> (r: Result<(), DbError>) {
        Ok(())
    }

    fn get_db(&self) -> (r: Result<String, DbError>) {
        Ok(tables_sql(None))
    }

    fn show_schema(&self, schema: &str) -> (r: Result<String, DbError>) {
        let mut sql = String::from_str(
            "select * from information_schema.tables where table_schema='",
        );
        sql.append(schema);
        sql.append("' order by table_type, table_name");
        Ok(sql)
    }

    fn show_column(&self, schema: Option<&str>, table: &str) -> (r: Result<String, DbError>) {
        let p = split_db(schema, table);
        let mut sql = String::from_str(
            "select * from information_schema.columns where table_schema='",
        );
        sql.append(p.0.as_str());
        sql.append("' and table_name='");
        sql.append(p.1.as_str());
        sql.append("'");
        Ok(sql)
    }

    fn drop_table(&self, schema: Option<&str>, table: &str) -> (r: Result<
        DropTablePlan,
        DbError,
    >) {
        let p = split_db(schema, table);
        let target = if p.0.as_str().unicode_len() == 0 {
            p.1
        } else {
            let mut t = p.0;
            t.append(".");
            t.append(p.1.as_str());
            t
        };
        let mut drop_view_sql = String::from_str("DROP VIEW IF EXISTS ");
        drop_view_sql.append(target.as_str());
        let mut drop_table_sql = String::from_str("DROP TABLE IF EXISTS ");
        drop_table_sql.append(target.as_str());
        Ok(DropTablePlan { drop_view_sql, drop_table_sql })
    }

    fn table_row_count(&self, table: &str, where_: &str) -> (r: Result<String, DbError>) {
        Ok(self._table_count_sql(table, where_))
    }
}

} // verus!
