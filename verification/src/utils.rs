//! The schema tree: the node type every discovery operation returns, the flat
//! table descriptor an engine's information schema yields, and the grouping
//! of those descriptors into an ordered tree.
use vstd::prelude::*;
use vstd::string::*;
use crate::text::{lemma_seq_lt_asym, lemma_seq_lt_connex, lemma_seq_lt_trans, last_index, lemma_last_index, seq_lt, str_eq, str_lt};

verus! {

/// One node of the schema tree: a root, a schema, a table or a view. A leaf
/// leaves `children` unset; an empty child list means "known empty", which is
/// a different thing from "not computed".
#[derive(Debug, PartialEq, Eq)]
pub struct TreeNode {
    pub name: String,
    pub path: String,
    pub node_type: String,
    pub children: Option<Vec<TreeNode>>,
    pub size: Option<u64>,
    pub comment: Option<String>,
}

/// One table or view as the engine's information schema describes it.
#[derive(Debug, Clone, PartialEq, Eq)]
pub struct Table {
    pub table_name: String,
    pub table_type: String,
    pub db_name: String,
    pub kind: String,
    pub size: Option<u64>,
    pub schema: Option<String>,
}

/// The final component of a slash-separated path: everything after the last
/// slash, or the whole path when it has none.
pub open spec fn file_name_spec(s: Seq<char>) -> Seq<char> {
    if s.contains('/') {
        s.subrange(last_index(s, '/') + 1, s.len() as int)
    } else {
        s
    }
}

/// The display name of a path: its final slash-separated component.
pub fn get_file_name(path: &str) -> (r: String)
    ensures
        r@ == file_name_spec(path@),
{
    let len = path.unicode_len();
    let mut i: usize = len;
    while i > 0
        invariant
            len == path@.len(),
            i <= len,
            forall|j: int| i <= j < len ==> path@[j] != '/',
        decreases i,
    {
        if path.get_char(i - 1) == '/' {
            let r = path.substring_char(i, len);
            proof {
                assert(path@[i - 1] == '/');
                assert(path@.contains('/'));
                lemma_last_index(path@, '/');
                assert(last_index(path@, '/') == i - 1);
            }
            return r.to_owned();
        }
        i -= 1;
    }
    proof {
        lemma_last_index(path@, '/');
        if path@.contains('/') {
            assert(path@[last_index(path@, '/')] != '/');
        }
    }
    path.to_owned()
}


/// The discovery order on nodes: ascending by (node type, name).
pub open spec fn node_le(a: TreeNode, b: TreeNode) -> bool {
    seq_lt(a.node_type@, b.node_type@) || (a.node_type@ == b.node_type@ && !seq_lt(
        b.name@,
        a.name@,
    ))
}

/// Of two nodes, one stands at or before the other.
pub proof fn lemma_node_le_total(a: TreeNode, b: TreeNode)
    ensures
        node_le(a, b) || node_le(b, a),
{
    lemma_seq_lt_connex(a.node_type@, b.node_type@);
    lemma_seq_lt_asym(a.name@, b.name@);
}

/// The discovery order is transitive.
pub proof fn lemma_node_le_trans(a: TreeNode, b: TreeNode, c: TreeNode)
    ensures
        node_le(a, b) && node_le(b, c) ==> node_le(a, c),
{
    if node_le(a, b) && node_le(b, c) {
        lemma_seq_lt_trans(a.node_type@, b.node_type@, c.node_type@);
        if a.node_type@ == b.node_type@ && b.node_type@ == c.node_type@ {
            if seq_lt(c.name@, a.name@) {
                lemma_seq_lt_connex(a.name@, b.name@);
                lemma_seq_lt_trans(c.name@, a.name@, b.name@);
            }
        }
    }
}

/// The leaf node one table descriptor becomes: named after the table, placed
/// under its owning schema, of the table's kind.
pub open spec fn node_of_spec(t: Table) -> TreeNode {
    TreeNode {
        name: t.table_name,
        path: t.db_name,
        node_type: t.kind,
        children: None,
        size: t.size,
        comment: None,
    }
}

/// The nodes of a run of table descriptors, in the descriptors' order.
pub open spec fn nodes_of(ts: Seq<Table>) -> Seq<TreeNode> {
    ts.map_values(|t: Table| node_of_spec(t))
}

fn node_of(t: Table) -> (r: TreeNode)
    ensures
        r == node_of_spec(t),
{
    TreeNode {
        name: t.table_name,
        path: t.db_name,
        node_type: t.kind,
        children: None,
        size: t.size,
        comment: None,
    }
}

fn node_le_exec(a: &TreeNode, b: &TreeNode) -> (r: bool)
    ensures
        r == node_le(*a, *b),
{
    if str_lt(a.node_type.as_str(), b.node_type.as_str()) {
        true
    } else if str_eq(a.node_type.as_str(), b.node_type.as_str()) {
        !str_lt(b.name.as_str(), a.name.as_str())
    } else {
        false
    }
}

/// Turns the engine's flat table listing into the schema tree's child list:
/// one leaf per table or view, holding exactly the listed descriptors,
/// ordered ascending by (node type, name) whatever order the listing came in.
pub fn build_tree(tables: Vec<Table>) -> (r: Vec<TreeNode>)
    ensures
        r@.to_multiset() == nodes_of(tables@).to_multiset(),
        forall|i: int, j: int| 0 <= i < j < r@.len() ==> node_le(r@[i], r@[j]),
{
    broadcast use vstd::seq_lib::group_to_multiset_ensures;

    let ghost all = nodes_of(tables@);
    let mut tables = tables;
    let mut rest: Vec<TreeNode> = Vec::new();
    while tables.len() > 0
        invariant
            rest@ + nodes_of(tables@) == all,
        decreases tables.len(),
    {
        let t = tables.remove(0);
        rest.push(node_of(t));
        proof {
            assert(rest@ + nodes_of(tables@) =~= all);
        }
    }
    proof {
        assert(rest@ =~= all);
    }
    let mut out: Vec<TreeNode> = Vec::new();
    while rest.len() > 0
        invariant
            out@.to_multiset().add(rest@.to_multiset()) == all.to_multiset(),
            forall|i: int, j: int| 0 <= i < j < out@.len() ==> node_le(out@[i], out@[j]),
            forall|i: int, j: int|
                0 <= i < out@.len() && 0 <= j < rest@.len() ==> node_le(out@[i], rest@[j]),
        decreases rest.len(),
    {
        let mut m: usize = 0;
        let mut i: usize = 1;
        proof {
            lemma_seq_lt_asym(rest@[0].name@, rest@[0].name@);
        }
        while i < rest.len()
            invariant
                0 < rest@.len(),
                m < i,
                i <= rest@.len(),
                forall|k: int| 0 <= k < i ==> node_le(rest@[m as int], rest@[k]),
            decreases rest@.len() - i,
        {
            if !node_le_exec(&rest[m], &rest[i]) {
                proof {
                    lemma_node_le_total(rest@[m as int], rest@[i as int]);
                    assert forall|k: int| 0 <= k < i + 1 implies node_le(
                        rest@[i as int],
                        rest@[k],
                    ) by {
                        if k < i as int {
                            lemma_node_le_trans(rest@[i as int], rest@[m as int], rest@[k]);
                        } else {
                            lemma_seq_lt_asym(rest@[i as int].name@, rest@[i as int].name@);
                        }
                    }
                }
                m = i;
            }
            i += 1;
        }
        let ghost old_out = out@;
        let ghost old_rest = rest@;
        let x = rest.remove(m);
        out.push(x);
        proof {
            old_rest.to_multiset_ensures();
            old_out.to_multiset_ensures();
            assert(old_rest.remove(m as int).to_multiset() =~= old_rest.to_multiset().remove(x));
            assert(out@.to_multiset() =~= old_out.to_multiset().insert(x));
            assert(out@.to_multiset().add(rest@.to_multiset()) =~= all.to_multiset());
        }
    }
    out
}

} // verus!
