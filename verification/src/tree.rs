//! The hierarchy of boxes, and the order in which it is walked.
//!
//! A hierarchy is a flat table of nodes that name each other by index. The
//! layout follows two links only: from a node to its first child, and from a
//! node to its next sibling.

use vstd::prelude::*;

verus! {

/// The links of one node to its neighbours, each the index of a node.
#[derive(Clone, Copy, Debug, PartialEq, Eq)]
pub struct Node {
    pub parent: Option<usize>,
    pub previous_sibling: Option<usize>,
    pub next_sibling: Option<usize>,
    pub first_child: Option<usize>,
    pub last_child: Option<usize>,
}

/// Why a hierarchy cannot be laid out.
#[derive(Clone, Copy, Debug, PartialEq, Eq, Structural)]
pub enum LayoutError {
    /// The root is not a node of the hierarchy.
    MissingRoot,
    /// A link names a node that the hierarchy does not have.
    DanglingNode,
    /// A node is reached a second time: the links run in a circle, or two of
    /// them lead to the same node.
    Cycle,
    /// The styles or the contents are not one for each node.
    LengthMismatch,
}

/// The nodes below a root in breadth-first order.
///
/// The children of the node at position `k` of `order` stand at the
/// positions `starts[k] .. starts[k + 1]`, in sibling order.
#[derive(Debug)]
pub struct Traversal {
    pub order: Vec<usize>,
    pub starts: Vec<usize>,
}

/// The walk from a state on, to its end or to the first fault.
///
/// `order` holds the nodes reached so far and `starts` one entry for each
/// node whose children have been begun; `link` is the next node to take into
/// the children of the node that is being expanded. The walk ends once every
/// node in `order` has been expanded. A link out of the table is a dangling
/// node; a link to a node that was reached before, or more nodes reached
/// than the table holds, is a cycle.
pub open spec fn spec_walk(
    nodes: Seq<Node>,
    order: Seq<usize>,
    starts: Seq<usize>,
    link: Option<usize>,
) -> Result<(Seq<usize>, Seq<usize>), LayoutError>
    decreases 2 * nodes.len() + 1 - order.len() - starts.len(),
{
    if starts.len() > order.len() {
        Ok((order, starts))
    } else if order.len() > nodes.len() {
        Err(LayoutError::Cycle)
    } else {
        match link {
            Some(c) => if c >= nodes.len() {
                Err(LayoutError::DanglingNode)
            } else if order.contains(c) {
                Err(LayoutError::Cycle)
            } else {
                spec_walk(nodes, order.push(c), starts, nodes[c as int].next_sibling)
            },
            None => {
                let next = starts.len() as int;
                spec_walk(
                    nodes,
                    order,
                    starts.push(order.len() as usize),
                    if next < order.len() {
                        nodes[order[next] as int].first_child
                    } else {
                        None
                    },
                )
            },
        }
    }
}

/// The breadth-first order of the nodes below `root`, or what is wrong with
/// the hierarchy.
pub open spec fn spec_traverse(nodes: Seq<Node>, root: usize) -> Result<
    (Seq<usize>, Seq<usize>),
    LayoutError,
> {
    if root >= nodes.len() {
        Err(LayoutError::MissingRoot)
    } else {
        spec_walk(nodes, seq![root], seq![1usize], nodes[root as int].first_child)
    }
}

/// A result of a walk with its tables as sequences.
pub open spec fn spec_outcome(r: Result<Traversal, LayoutError>) -> Result<
    (Seq<usize>, Seq<usize>),
    LayoutError,
> {
    match r {
        Ok(t) => Ok((t.order@, t.starts@)),
        Err(e) => Err(e),
    }
}

/// Whether `order` and `starts` have the shape of a finished walk over a
/// table of `n` nodes: every entry is a node, none occurs twice, and the
/// children of each position come after it.
pub open spec fn well_formed(order: Seq<usize>, starts: Seq<usize>, n: nat) -> bool {
    &&& order.len() >= 1
    &&& starts.len() == order.len() + 1
    &&& order.no_duplicates()
    &&& forall|k: int| 0 <= k < order.len() ==> #[trigger] order[k] < n
    &&& forall|k: int| 0 <= k < order.len() ==> k < #[trigger] starts[k]
    &&& forall|k: int| 0 <= k < order.len() ==> #[trigger] starts[k] <= starts[k + 1]
    &&& forall|k: int| 0 <= k < starts.len() ==> #[trigger] starts[k] <= order.len()
}

impl Traversal {
    /// Whether the walk has the shape of a finished walk over `n` nodes.
    pub open spec fn wf(&self, n: nat) -> bool {
        well_formed(self.order@, self.starts@, n)
    }
}

fn all_false(n: usize) -> (r: Vec<bool>)
    ensures
        r.len() == n,
        forall|i: int| 0 <= i < n ==> !r@[i],
{
    let mut out: Vec<bool> = Vec::new();
    let mut i: usize = 0;
    while i < n
        invariant
            i <= n,
            out@.len() == i,
            forall|j: int| 0 <= j < i ==> !out@[j],
        decreases n - i,
    {
        out.push(false);
        i += 1;
    }
    out
}

/// Walks the hierarchy from `root`, breadth first.
pub fn traverse(nodes: &Vec<Node>, root: usize) -> (r: Result<Traversal, LayoutError>)
    ensures
        spec_outcome(r) == spec_traverse(nodes@, root),
        match r {
            Ok(t) => t.wf(nodes@.len()) && t.order@[0] == root,
            Err(_) => true,
        },
{
    let n = nodes.len();
    if root >= n {
        return Err(LayoutError::MissingRoot);
    }
    let mut visited = all_false(n);
    visited.set(root, true);
    let mut order: Vec<usize> = Vec::new();
    order.push(root);
    let mut starts: Vec<usize> = Vec::new();
    starts.push(1);
    let mut link = nodes[root].first_child;
    assert(order@ =~= seq![root]);
    assert(starts@ =~= seq![1usize]);
    assert forall|i: int| 0 <= i < n implies visited@[i] == order@.contains(i as usize) by {
        if i == root {
            assert(order@[0] == root);
        }
    }
    while starts.len() <= order.len()
        invariant
            n == nodes.len(),
            visited.len() == n,
            spec_traverse(nodes@, root) == spec_walk(nodes@, order@, starts@, link),
            forall|i: int| 0 <= i < n ==> visited@[i] == order@.contains(i as usize),
            order@.len() >= 1,
            order@[0] == root,
            1 <= starts@.len() <= order@.len() + 1,
            order@.no_duplicates(),
            forall|k: int| 0 <= k < order@.len() ==> #[trigger] order@[k] < n,
            forall|k: int| 0 <= k < starts@.len() && k < order@.len() ==> k < #[trigger] starts@[k],
            forall|k: int| 0 <= k && k + 1 < starts@.len() ==> #[trigger] starts@[k] <= starts@[k + 1],
            forall|k: int| 0 <= k < starts@.len() ==> #[trigger] starts@[k] <= order@.len(),
        decreases 2 * n + 1 - order@.len() - starts@.len(),
    {
        if order.len() > n {
            return Err(LayoutError::Cycle);
        }
        match link {
            Some(c) => {
                if c >= n {
                    return Err(LayoutError::DanglingNode);
                }
                if visited[c] {
                    return Err(LayoutError::Cycle);
                }
                let ghost before = order@;
                visited.set(c, true);
                order.push(c);
                link = nodes[c].next_sibling;
                assert forall|i: int| 0 <= i < n implies visited@[i] == order@.contains(
                    i as usize,
                ) by {
                    if i == c {
                        assert(order@[before.len() as int] == c);
                    } else if before.contains(i as usize) {
                        let j = choose|j: int| 0 <= j < before.len() && before[j] == i as usize;
                        assert(order@[j] == i as usize);
                    } else if order@.contains(i as usize) {
                        let j = choose|j: int| 0 <= j < order@.len() && order@[j] == i as usize;
                        assert(before[j] == i as usize);
                    }
                }
                assert(order@.no_duplicates()) by {
                    assert forall|i: int, j: int|
                        0 <= i < order@.len() && 0 <= j < order@.len() && i != j implies order@[i]
                        != order@[j] by {
                        if i < before.len() && j < before.len() {
                            assert(before[i] != before[j]);
                        } else if i < before.len() {
                            assert(before.contains(before[i]));
                        } else {
                            assert(before.contains(before[j]));
                        }
                    }
                }
            },
            None => {
                let next = starts.len();
                starts.push(order.len());
                link = if next < order.len() {
                    nodes[order[next]].first_child
                } else {
                    None
                };
            },
        }
    }
    Ok(Traversal { order, starts })
}

} // verus!
