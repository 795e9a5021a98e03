//! The node store: an arena of render nodes, each with its render data and the
//! ordered list of its children.
//!
//! Nodes are named by [`NodeId`], a plain index that any number of handles may
//! hold at once. What a node stores is reached through the tree alone, by
//! Rust's own rule for references: any number of shared views
//! ([`RenderTree::render_data`]) or one exclusive view
//! ([`RenderTree::render_data_mut`]) at a time, never both. A program that
//! would break the rule does not compile, so no access conflict is left to
//! happen while a pass runs.

use vstd::prelude::*;
use crate::geometry::{Offset, Size};

verus! {

/// Names a node of a [`RenderTree`]. Copies of a `NodeId` name the same node.
#[derive(Clone, Copy, Debug, PartialEq, Eq, Structural)]
pub struct NodeId(pub usize);

/// What a node keeps between the layout pass and the paint pass.
#[derive(Clone, Debug, PartialEq, Eq)]
pub struct RenderData<D> {
    /// Resolved by layout.
    pub size: Size,
    /// Position relative to the parent's origin, as of the latest paint.
    pub local_offset: Offset,
    /// Whether layout has resolved this node.
    pub laid_out: bool,
    /// What the parent attached to this node for its own use.
    pub parent_data: D,
}

#[derive(Debug)]
struct Node<D> {
    render_data: RenderData<D>,
    children: Vec<NodeId>,
}

/// The mathematical content of one node.
pub struct NodeView<D> {
    pub render_data: RenderData<D>,
    pub children: Seq<NodeId>,
}

impl<D> NodeView<D> {
    /// This node with other render data and the same children.
    pub open spec fn with_render_data(self, render_data: RenderData<D>) -> NodeView<D> {
        NodeView { render_data, children: self.children }
    }
}

impl<D> View for Node<D> {
    type V = NodeView<D>;

    closed spec fn view(&self) -> NodeView<D> {
        NodeView { render_data: self.render_data, children: self.children@ }
    }
}

/// Every child named in `nodes` exists, comes after its parent, and is named
/// once only: the nodes form a forest.
pub open spec fn is_forest<D>(nodes: Seq<NodeView<D>>) -> bool {
    &&& forall|n: int, k: int|
        0 <= n < nodes.len() && 0 <= k < nodes[n].children.len() ==> n < (
        #[trigger] nodes[n].children[k]).0 < nodes.len()
    &&& forall|n: int, k: int, m: int, j: int|
        0 <= n < nodes.len() && 0 <= k < nodes[n].children.len() && 0 <= m < nodes.len() && 0 <= j
            < nodes[m].children.len() && #[trigger] nodes[n].children[k]
            == #[trigger] nodes[m].children[j] ==> n == m && k == j
}

/// Writing the render data of a node leaves a forest a forest.
pub proof fn lemma_render_data_keeps_forest<D>(
    nodes: Seq<NodeView<D>>,
    i: int,
    render_data: RenderData<D>,
)
    requires
        is_forest(nodes),
        0 <= i < nodes.len(),
    ensures
        is_forest(nodes.update(i, nodes[i].with_render_data(render_data))),
{
    let after = nodes.update(i, nodes[i].with_render_data(render_data));
    assert forall|n: int| 0 <= n < nodes.len() implies #[trigger] after[n].children
        == nodes[n].children by {}
}

/// Appending a new last node, as a root or as the last child of an earlier
/// node, leaves a forest a forest.
proof fn lemma_push_keeps_forest<D>(
    nodes: Seq<NodeView<D>>,
    parent: Option<int>,
    render_data: RenderData<D>,
)
    requires
        is_forest(nodes),
        nodes.len() <= usize::MAX,
        parent matches Some(p) ==> 0 <= p < nodes.len(),
    ensures
        is_forest(pushed(nodes, parent, render_data)),
{
    let after = pushed(nodes, parent, render_data);
    assert forall|n: int, k: int|
        0 <= n < after.len() && 0 <= k < after[n].children.len() implies n < (
    #[trigger] after[n].children[k]).0 < after.len() by {}
    assert forall|n: int, k: int, m: int, j: int|
        0 <= n < after.len() && 0 <= k < after[n].children.len() && 0 <= m < after.len() && 0 <= j
            < after[m].children.len() && #[trigger] after[n].children[k]
            == #[trigger] after[m].children[j] implies n == m && k == j by {}
}

/// `nodes` with one more node at the end, listed as the last child of
/// `parent` if there is one.
pub open spec fn pushed<D>(
    nodes: Seq<NodeView<D>>,
    parent: Option<int>,
    render_data: RenderData<D>,
) -> Seq<NodeView<D>> {
    let fresh = NodeView { render_data, children: Seq::empty() };
    match parent {
        Some(p) => nodes.update(
            p,
            NodeView {
                render_data: nodes[p].render_data,
                children: nodes[p].children.push(NodeId(nodes.len() as usize)),
            },
        ).push(fresh),
        None => nodes.push(fresh),
    }
}

/// An arena of render nodes.
#[derive(Debug)]
pub struct RenderTree<D> {
    nodes: Vec<Node<D>>,
}

impl<D> View for RenderTree<D> {
    type V = Seq<NodeView<D>>;

    closed spec fn view(&self) -> Seq<NodeView<D>> {
        Seq::new(self.nodes@.len(), |i: int| self.nodes@[i]@)
    }
}

impl<D> RenderTree<D> {
    /// The tree's invariant: its nodes form a forest. A new tree has it and
    /// every operation keeps it.
    pub open spec fn wf(&self) -> bool {
        is_forest(self@)
    }

    /// Whether `node` names a node of this tree.
    pub open spec fn has(&self, node: NodeId) -> bool {
        node.0 < self@.len()
    }

    /// A tree without nodes.
    pub fn new() -> (tree: RenderTree<D>)
        ensures
            tree@ =~= Seq::empty(),
            tree.wf(),
    {
        RenderTree { nodes: Vec::new() }
    }

    /// The number of nodes.
    pub fn len(&self) -> (n: usize)
        ensures
            n == self@.len(),
    {
        self.nodes.len()
    }

    /// Whether `node` names a node of this tree.
    pub fn contains(&self, node: NodeId) -> (found: bool)
        ensures
            found == self.has(node),
    {
        node.0 < self.nodes.len()
    }

    /// Adds a node without a parent and returns its name.
    pub fn push_root(&mut self, render_data: RenderData<D>) -> (node: NodeId)
        ensures
            node.0 == old(self)@.len(),
            final(self)@ == pushed(old(self)@, None, render_data),
            old(self).wf() ==> final(self).wf(),
    {
        let node = NodeId(self.nodes.len());
        proof {
            if self.wf() {
                lemma_push_keeps_forest(self@, None, render_data);
            }
        }
        self.nodes.push(Node { render_data, children: Vec::new() });
        node
    }

    /// Adds a node as the last child of `parent` and returns its name.
    pub fn push_child(&mut self, parent: NodeId, render_data: RenderData<D>) -> (node: NodeId)
        requires
            old(self).has(parent),
        ensures
            node.0 == old(self)@.len(),
            final(self)@ == pushed(old(self)@, Some(parent.0 as int), render_data),
            old(self).wf() ==> final(self).wf(),
    {
        let node = NodeId(self.nodes.len());
        proof {
            if self.wf() {
                lemma_push_keeps_forest(self@, Some(parent.0 as int), render_data);
            }
        }
        self.nodes[parent.0].children.push(node);
        self.nodes.push(Node { render_data, children: Vec::new() });
        node
    }

    /// Shared access to the render data of `node`.
    pub fn render_data(&self, node: NodeId) -> (data: &RenderData<D>)
        requires
            self.has(node),
        ensures
            *data == self@[node.0 as int].render_data,
    {
        &self.nodes[node.0].render_data
    }

    /// Exclusive access to the render data of `node`. Whatever is written
    /// through it, the rest of the tree stays as it was.
    pub fn render_data_mut(&mut self, node: NodeId) -> (data: &mut RenderData<D>)
        requires
            old(self).has(node),
        ensures
            *data == old(self)@[node.0 as int].render_data,
            final(self)@ =~= old(self)@.update(
                node.0 as int,
                old(self)@[node.0 as int].with_render_data(*final(data)),
            ),
            old(self).wf() ==> final(self).wf(),
    {
        proof {
            let nodes = self@;
            let i = node.0 as int;
            assert forall|written: RenderData<D>| is_forest(nodes) implies is_forest(
                #[trigger] nodes.update(i, nodes[i].with_render_data(written)),
            ) by {
                lemma_render_data_keeps_forest(nodes, i, written);
            }
        }
        &mut self.nodes[node.0].render_data
    }

    /// The children of `node`, in order.
    pub fn children(&self, node: NodeId) -> (children: &Vec<NodeId>)
        requires
            self.has(node),
        ensures
            children@ == self@[node.0 as int].children,
    {
        &self.nodes[node.0].children
    }
}

} // verus!
