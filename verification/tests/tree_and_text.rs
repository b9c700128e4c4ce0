use duckling::duck::DuckDbDialect;
use duckling::text::{contains_char, split_qualified, str_eq, str_lt, usize_string};
use duckling::utils::{build_tree, Table, TreeNode};

fn table(name: &str, kind: &str) -> Table {
    Table {
        table_name: name.to_string(),
        table_type: String::new(),
        db_name: "main".to_string(),
        kind: kind.to_string(),
        size: None,
        schema: None,
    }
}

#[test]
fn build_tree_orders_by_kind_then_name() {
    let tables = vec![
        table("zeta", "table"),
        table("alpha", "view"),
        table("beta", "table"),
        table("alpha", "table"),
    ];
    let nodes = build_tree(tables);
    let keys: Vec<(String, String)> =
        nodes.iter().map(|n| (n.node_type.clone(), n.name.clone())).collect();
    assert_eq!(
        keys,
        vec![
            ("table".to_string(), "alpha".to_string()),
            ("table".to_string(), "beta".to_string()),
            ("table".to_string(), "zeta".to_string()),
            ("view".to_string(), "alpha".to_string()),
        ]
    );
}

#[test]
fn db_tree_names_the_root_after_the_file() {
    let d = DuckDbDialect { path: "/data/sales.db".to_string(), cwd: None };
    let root: TreeNode = d.db_tree(Vec::new());
    assert_eq!(root.name, "sales.db");
    assert_eq!(root.path, "/data/sales.db");
    assert_eq!(root.node_type, "root");
    assert_eq!(root.children, Some(Vec::new()));
}

#[test]
fn split_qualified_splits_at_the_first_dot() {
    assert_eq!(
        split_qualified("db.schema.table"),
        Some(("db".to_string(), "schema.table".to_string()))
    );
    assert_eq!(split_qualified("plain"), None);
}

#[test]
fn text_helpers_behave() {
    assert_eq!(usize_string(0), "0");
    assert_eq!(usize_string(907), "907");
    assert!(str_eq("abc", "abc"));
    assert!(!str_eq("abc", "abd"));
    assert!(str_lt("table", "view"));
    assert!(!str_lt("view", "table"));
    assert!(str_lt("alpha", "beta"));
    assert!(contains_char("my table", ' '));
    assert!(!contains_char("orders", ' '));
}
