//! The single-file dialect: one structured file as the data source. Its
//! discovery and query translation are engine-specific and run outside the
//! library; here it carries the shared planning defaults and the generic
//! backtick normalization.
use vstd::prelude::*;
use vstd::string::*;
use crate::connection::{lemma_dialect_names_distinct, quoted_spec, Connection, DropTablePlan};
use crate::error::DbError;
use crate::text::contains_char;

verus! {

/// The connection selector for a single structured file.
#[derive(Debug, Default, Clone, PartialEq, Eq)]
pub struct FileDialect {
    pub path: String,
}

impl Connection for FileDialect {
    open spec fn dialect_spec(&self) -> Seq<char> {
        "file"@
    }

    open spec fn quote(&self) -> char {
        '`'
    }

    fn dialect(&self) -> (r: &'static str) {
        "file"
    }

    /// Wraps an identifier in backticks when it contains a space.
    fn normalize(&self, name: &str) -> (r: String) {
        if contains_char(name, ' ') {
            let mut s = String::from_str("`");
            s.append(name);
            s.append("`");
            proof {
                reveal_strlit("`");
                assert(s@ =~= quoted_spec(name@, '`'));
            }
            s
        } else {
            String::from_str(name)
        }
    }

    fn export(&self, sql: &str, file: &str) -> (r: Result<(), DbError>) {
        proof {
            lemma_dialect_names_distinct();
        }
        Err(DbError::UnsupportedOperation)
    }

    fn get_db(&self) -> (r: Result<String, DbError>) {
        proof {
            lemma_dialect_names_distinct();
        }
        Err(DbError::UnsupportedOperation)
    }

    fn show_schema(&self, schema: &str) -> (r: Result<String, DbError>) {
        proof {
            lemma_dialect_names_distinct();
        }
        Err(DbError::UnsupportedOperation)
    }

    fn show_column(&self, schema: Option<&str>, table: &str) -> (r: Result<String, DbError>) {
        proof {
            lemma_dialect_names_distinct();
        }
        Err(DbError::UnsupportedOperation)
    }

    fn drop_table(&self, schema: Option<&str>, table: &str) -> (r: Result<
        DropTablePlan,
        DbError,
    >) {
        proof {
            lemma_dialect_names_distinct();
        }
        Err(DbError::UnsupportedOperation)
    }

    fn table_row_count(&self, table: &str, where_: &str) -> (r: Result<String, DbError>) {
        proof {
            lemma_dialect_names_distinct();
        }
        Err(DbError::UnsupportedOperation)
    }
}

} // verus!
