//! The node hierarchy of `azul_core`, read as a table of plain nodes.
//!
//! What this module says of `azul_core` is taken on trust: the two types are
//! declared, and the two functions that read a `NodeHierarchy` are believed
//! to return what `hierarchy_nodes` names. Everything else is proved.

use vstd::prelude::*;
use crate::tree::Node;

verus! {

/// `NodeHierarchy`, the table of nodes of `azul_core`. Verified code does
/// not look inside it; it reads it through `hierarchy_len` and
/// `hierarchy_node`.
#[verifier::external_type_specification]
#[verifier::external_body]
pub struct ExNodeHierarchy(azul_core::id_tree::NodeHierarchy);

/// `NodeDataContainer`, which is a public vector, `internal`, of one entry
/// for each node. Verified code reads that vector itself.
#[verifier::external_type_specification]
#[verifier::reject_recursive_types(T)]
pub struct ExNodeDataContainer<T>(azul_core::id_tree::NodeDataContainer<T>);

/// The nodes of a hierarchy, in their order, each link as the index of the
/// node it names.
pub uninterp spec fn hierarchy_nodes(h: azul_core::id_tree::NodeHierarchy) -> Seq<Node>;

/// Calls `NodeHierarchy::len`, which returns the number of nodes in the
/// table.
#[verifier::external_body]
pub(crate) fn hierarchy_len(h: &azul_core::id_tree::NodeHierarchy) -> (n: usize)
    ensures
        n == hierarchy_nodes(*h).len(),
{
    h.len()
}

/// Calls `NodeHierarchy::get` with `NodeId::new(i)`, which returns the node
/// at index `i` of the table where there is one, and turns every link of
/// that node into the index it names with `NodeId::index`. `NodeId::new`
/// must not be given the largest index there is, which no table reaches.
#[verifier::external_body]
pub(crate) fn hierarchy_node(h: &azul_core::id_tree::NodeHierarchy, i: usize) -> (r: Option<Node>)
    requires
        i < hierarchy_nodes(*h).len(),
    ensures
        r == Some(hierarchy_nodes(*h)[i as int]),
{
    h.get(azul_core::id_tree::NodeId::new(i)).map(
        |n| Node {
            parent: n.parent.map(|id| id.index()),
            previous_sibling: n.previous_sibling.map(|id| id.index()),
            next_sibling: n.next_sibling.map(|id| id.index()),
            first_child: n.first_child.map(|id| id.index()),
            last_child: n.last_child.map(|id| id.index()),
        },
    )
}

/// Reads the whole hierarchy into a table of plain nodes.
pub fn read_hierarchy(h: &azul_core::id_tree::NodeHierarchy) -> (r: Vec<Node>)
    ensures
        r@ == hierarchy_nodes(*h),
{
    let n = hierarchy_len(h);
    let mut out: Vec<Node> = Vec::new();
    let mut i: usize = 0;
    while i < n
        invariant
            i <= n,
            n == hierarchy_nodes(*h).len(),
            out@.len() == i,
            forall|j: int| 0 <= j < i ==> out@[j] == hierarchy_nodes(*h)[j],
        decreases n - i,
    {
        match hierarchy_node(h, i) {
            Some(node) => {
                out.push(node);
            },
            None => {
                assert(false);
            },
        }
        i += 1;
    }
    assert(out@ =~= hierarchy_nodes(*h));
    out
}

} // verus!
