//! The paint context: a light handle on one node of the tree for one visit of
//! the paint pass. It derives the contexts of the node's children, records
//! where the node is painted, and gives typed access to the data that the
//! node's parent attached to it.

use core::marker::PhantomData;
use vstd::prelude::*;
use vstd::std_specs::ops::SubSpec;
use crate::geometry::{Offset, Size};
use crate::parent_data::Holds;
use crate::tree::{is_forest, lemma_render_data_keeps_forest, NodeId, NodeView, RenderData, RenderTree};

verus! {

/// A handle on one node for one visit of the paint pass.
#[derive(Clone, Copy, Debug)]
pub struct PaintContextOS {
    node: NodeId,
    /// Where the node was last painted through this context, in the root's
    /// coordinates.
    offset: Offset,
    /// Where the parent had been painted when this context was derived from
    /// the parent's, in the root's coordinates.
    parent_offset: Offset,
}

/// The mathematical content of a [`PaintContextOS`].
pub struct PaintContextView {
    pub node: NodeId,
    pub offset: Offset,
    pub parent_offset: Offset,
}

impl PaintContextView {
    /// The context of `child` as derived from this one: not painted yet, and
    /// with this context's offset, as it is now, for its parent offset.
    pub open spec fn derive(self, child: NodeId) -> PaintContextView {
        PaintContextView { node: child, offset: Offset::zero(), parent_offset: self.offset }
    }

    /// This context once its node has been painted at `at`.
    pub open spec fn painted_at(self, at: Offset) -> PaintContextView {
        PaintContextView { node: self.node, offset: at, parent_offset: self.parent_offset }
    }
}

/// `nodes` with `local_offset` written to the node at `node`.
pub open spec fn with_local_offset<D>(
    nodes: Seq<NodeView<D>>,
    node: int,
    local_offset: Offset,
) -> Seq<NodeView<D>> {
    let data = nodes[node].render_data;
    nodes.update(
        node,
        nodes[node].with_render_data(
            RenderData {
                size: data.size,
                local_offset,
                laid_out: data.laid_out,
                parent_data: data.parent_data,
            },
        ),
    )
}

/// `nodes` with `parent_data` written to the node at `node`.
pub open spec fn with_parent_data<D>(
    nodes: Seq<NodeView<D>>,
    node: int,
    parent_data: D,
) -> Seq<NodeView<D>> {
    let data = nodes[node].render_data;
    nodes.update(
        node,
        nodes[node].with_render_data(
            RenderData {
                size: data.size,
                local_offset: data.local_offset,
                laid_out: data.laid_out,
                parent_data,
            },
        ),
    )
}

/// `nodes` after the node of `ctx` has been painted at `at`: its local offset
/// is `at` less the parent offset of `ctx`.
pub open spec fn painted<D>(nodes: Seq<NodeView<D>>, ctx: PaintContextView, at: Offset) -> Seq<
    NodeView<D>,
> {
    with_local_offset(nodes, ctx.node.0 as int, at.sub_spec(ctx.parent_offset))
}

/// Why a node cannot be painted.
#[derive(Clone, Copy, Debug, PartialEq, Eq, Structural)]
pub enum PaintError {
    /// The context is bound to no node of the tree.
    UnknownNode,
    /// The node has not been laid out.
    NotLaidOut,
    /// The offset less the parent offset does not fit the grid.
    OffsetOutOfRange,
}

/// What stands against painting the node of `ctx` at `at`, if anything: the
/// first of the three conditions that fails.
pub open spec fn paint_refusal<D>(
    nodes: Seq<NodeView<D>>,
    ctx: PaintContextView,
    at: Offset,
) -> Option<PaintError> {
    if ctx.node.0 >= nodes.len() {
        Some(PaintError::UnknownNode)
    } else if !nodes[ctx.node.0 as int].render_data.laid_out {
        Some(PaintError::NotLaidOut)
    } else if !at.sub_req(ctx.parent_offset) {
        Some(PaintError::OffsetOutOfRange)
    } else {
        None
    }
}

impl View for PaintContextOS {
    type V = PaintContextView;

    closed spec fn view(&self) -> PaintContextView {
        PaintContextView { node: self.node, offset: self.offset, parent_offset: self.parent_offset }
    }
}

impl PaintContextOS {
    /// A context for `node` that has not been painted and has no parent
    /// context: both offsets are the origin.
    pub fn new(node: NodeId) -> (ctx: PaintContextOS)
        ensures
            ctx@ == (PaintContextView {
                node,
                offset: Offset::zero(),
                parent_offset: Offset::zero(),
            }),
    {
        PaintContextOS { node, offset: Offset::default(), parent_offset: Offset::default() }
    }

    /// The node that this context is bound to.
    pub fn node(&self) -> (node: NodeId)
        ensures
            node == self@.node,
    {
        self.node
    }

    /// Where the node was last painted through this context.
    pub fn offset(&self) -> (offset: Offset)
        ensures
            offset == self@.offset,
    {
        self.offset
    }

    /// Where the parent had been painted when this context was derived.
    pub fn parent_offset(&self) -> (offset: Offset)
        ensures
            offset == self@.parent_offset,
    {
        self.parent_offset
    }

    /// Records that the node is painted at `offset`, writes the node's local
    /// offset, which is `offset` less the parent offset, and returns the
    /// context to hand to the node's own painting.
    ///
    /// The node must have been laid out.
    pub fn paint<D>(&mut self, tree: &mut RenderTree<D>, offset: &Offset) -> (handed: PaintContextOS)
        requires
            old(tree).has(old(self)@.node),
            old(tree)@[old(self)@.node.0 as int].render_data.laid_out,
            offset.sub_req(old(self)@.parent_offset),
        ensures
            final(self)@ == old(self)@.painted_at(*offset),
            handed@ == final(self)@,
            final(tree)@ == painted(old(tree)@, old(self)@, *offset),
            final(tree)@[old(self)@.node.0 as int].render_data.local_offset.x == offset.x - old(
                self,
            )@.parent_offset.x,
            final(tree)@[old(self)@.node.0 as int].render_data.local_offset.y == offset.y - old(
                self,
            )@.parent_offset.y,
            old(tree).wf() ==> final(tree).wf(),
    {
        self.offset = *offset;
        let local_offset = *offset - self.parent_offset;
        let data = tree.render_data_mut(self.node);
        data.local_offset = local_offset;
        *self
    }

    /// As [`PaintContextOS::paint`], for a caller that has not established
    /// that the node can be painted: where it cannot, says why, and leaves
    /// the context and the tree as they were.
    pub fn try_paint<D>(&mut self, tree: &mut RenderTree<D>, offset: &Offset) -> (outcome: Result<
        PaintContextOS,
        PaintError,
    >)
        ensures
            match outcome {
                Ok(handed) => {
                    &&& paint_refusal(old(tree)@, old(self)@, *offset) is None
                    &&& final(self)@ == old(self)@.painted_at(*offset)
                    &&& handed@ == final(self)@
                    &&& final(tree)@ == painted(old(tree)@, old(self)@, *offset)
                },
                Err(reason) => {
                    &&& paint_refusal(old(tree)@, old(self)@, *offset) == Some(reason)
                    &&& final(self)@ == old(self)@
                    &&& final(tree)@ == old(tree)@
                },
            },
            old(tree).wf() ==> final(tree).wf(),
    {
        if !tree.contains(self.node) {
            return Err(PaintError::UnknownNode);
        }
        if !tree.render_data(self.node).laid_out {
            return Err(PaintError::NotLaidOut);
        }
        if offset.checked_sub(self.parent_offset).is_none() {
            return Err(PaintError::OffsetOutOfRange);
        }
        Ok(self.paint(tree, offset))
    }

    /// The context of the child at `index`, derived from this one.
    pub fn child<D>(&mut self, tree: &RenderTree<D>, index: usize) -> (child: PaintContextOS)
        requires
            tree.has(old(self)@.node),
            index < tree@[old(self)@.node.0 as int].children.len(),
        ensures
            final(self)@ == old(self)@,
            child@ == old(self)@.derive(tree@[old(self)@.node.0 as int].children[index as int]),
            tree.wf() ==> tree.has(child@.node),
    {
        self.try_child(tree, index).unwrap()
    }

    /// The contexts of all the children, in child order, each derived from
    /// this one.
    pub fn children<D>(&mut self, tree: &RenderTree<D>) -> (children: Vec<PaintContextOS>)
        requires
            tree.has(old(self)@.node),
        ensures
            final(self)@ == old(self)@,
            children@.len() == tree@[old(self)@.node.0 as int].children.len(),
            forall|i: int|
                0 <= i < children@.len() ==> (#[trigger] children@[i])@ == old(self)@.derive(
                    tree@[old(self)@.node.0 as int].children[i],
                ),
            tree.wf() ==> forall|i: int|
                0 <= i < children@.len() ==> tree.has((#[trigger] children@[i])@.node),
    {
        let nodes = tree.children(self.node);
        let mut children: Vec<PaintContextOS> = Vec::new();
        let mut i: usize = 0;
        while i < nodes.len()
            invariant
                i <= nodes@.len(),
                nodes@ == tree@[self@.node.0 as int].children,
                children@.len() == i,
                forall|k: int| 0 <= k < i ==> (#[trigger] children@[k])@ == self@.derive(nodes@[k]),
            decreases nodes@.len() - i,
        {
            children.push(
                PaintContextOS {
                    node: nodes[i],
                    offset: Offset::default(),
                    parent_offset: self.offset,
                },
            );
            i += 1;
        }
        children
    }

    /// The context of the child at `index`, derived from this one, or `None`
    /// when the node has no such child.
    pub fn try_child<D>(&self, tree: &RenderTree<D>, index: usize) -> (child: Option<PaintContextOS>)
        requires
            tree.has(self@.node),
        ensures
            child is Some <==> index < tree@[self@.node.0 as int].children.len(),
            child matches Some(c) ==> c@ == self@.derive(
                tree@[self@.node.0 as int].children[index as int],
            ) && (tree.wf() ==> tree.has(c@.node)),
    {
        let nodes = tree.children(self.node);
        if index < nodes.len() {
            Some(
                PaintContextOS {
                    node: nodes[index],
                    offset: Offset::default(),
                    parent_offset: self.offset,
                },
            )
        } else {
            None
        }
    }

    /// The size that layout resolved for the node.
    pub fn size<D>(&self, tree: &RenderTree<D>) -> (size: Size)
        requires
            tree.has(self@.node),
        ensures
            size == tree@[self@.node.0 as int].render_data.size,
    {
        tree.render_data(self.node).size
    }

    /// A shared view of the node's parent data as a `T`, or `None` when what
    /// is stored is of another type.
    pub fn try_parent_data<'a, T, D: Holds<T>>(&self, tree: &'a RenderTree<D>) -> (view: Option<
        &'a T,
    >)
        requires
            tree.has(self@.node),
        ensures
            match view {
                Some(value) => tree@[self@.node.0 as int].render_data.parent_data.payload() == Some(
                    *value,
                ),
                None => Holds::<T>::payload(&tree@[self@.node.0 as int].render_data.parent_data) is None,
            },
    {
        tree.render_data(self.node).parent_data.downcast_ref()
    }

    /// An exclusive view of the node's parent data as a `T`, or `None` when
    /// what is stored is of another type. What is written through the view is
    /// what the node's parent data holds afterwards; nothing else changes.
    pub fn try_parent_data_mut<'a, T, D: Holds<T>>(&self, tree: &'a mut RenderTree<D>) -> (view:
        Option<&'a mut T>)
        requires
            old(tree).has(self@.node),
        ensures
            match view {
                Some(value) => {
                    &&& old(tree)@[self@.node.0 as int].render_data.parent_data.payload() == Some(
                        *value,
                    )
                    &&& final(tree)@ == with_parent_data(
                        old(tree)@,
                        self@.node.0 as int,
                        D::boxed(*final(value)),
                    )
                },
                None => {
                    &&& Holds::<T>::payload(
                        &old(tree)@[self@.node.0 as int].render_data.parent_data,
                    ) is None
                    &&& final(tree)@ == old(tree)@
                },
            },
            old(tree).wf() ==> final(tree).wf(),
    {
        tree.render_data_mut(self.node).parent_data.downcast_mut()
    }

    /// Replaces the node's parent data with a box that holds `data`, whatever
    /// was stored before.
    pub fn set_parent_data<T, D: Holds<T>>(&self, tree: &mut RenderTree<D>, data: T)
        requires
            old(tree).has(self@.node),
        ensures
            final(tree)@ == with_parent_data(old(tree)@, self@.node.0 as int, D::boxed(data)),
            old(tree).wf() ==> final(tree).wf(),
    {
        let slot = tree.render_data_mut(self.node);
        slot.parent_data = D::erase(data);
    }
}

/// A paint context handed to the painting of a widget of type `T`.
pub struct PaintContext<T> {
    ctx: PaintContextOS,
    _p: PhantomData<T>,
}

impl<T> View for PaintContext<T> {
    type V = PaintContextView;

    closed spec fn view(&self) -> PaintContextView {
        self.ctx@
    }
}

impl<T> PaintContext<T> {
    /// Wraps `ctx` for a widget of type `T`.
    pub fn new(ctx: PaintContextOS) -> (wrapped: PaintContext<T>)
        ensures
            wrapped@ == ctx@,
    {
        PaintContext { ctx, _p: PhantomData }
    }

    /// Exclusive access to the context inside, for the operations that record
    /// a paint or derive child contexts.
    pub fn ctx_mut(&mut self) -> (ctx: &mut PaintContextOS)
        ensures
            ctx@ == old(self)@,
            final(self)@ == final(ctx)@,
    {
        &mut self.ctx
    }
}

impl<T> core::ops::Deref for PaintContext<T> {
    type Target = PaintContextOS;

    fn deref(&self) -> (ctx: &PaintContextOS)
        ensures
            ctx@ == self@,
    {
        &self.ctx
    }
}

/// Painting a child through a context derived from its parent's places the
/// child, componentwise, at the offset it is painted at less the offset that
/// the parent's context held when the child's was derived.
pub proof fn lemma_child_is_placed_relative_to_parent<D>(
    nodes: Seq<NodeView<D>>,
    parent: PaintContextView,
    child: NodeId,
    at: Offset,
)
    requires
        child.0 < nodes.len(),
        at.sub_req(parent.offset),
    ensures
        ({
            let placed = painted(nodes, parent.derive(child), at)[child.0 as int].render_data;
            &&& placed.local_offset.x == at.x - parent.offset.x
            &&& placed.local_offset.y == at.y - parent.offset.y
            &&& placed.size == nodes[child.0 as int].render_data.size
            &&& placed.laid_out == nodes[child.0 as int].render_data.laid_out
            &&& placed.parent_data == nodes[child.0 as int].render_data.parent_data
        }),
{
}

/// Painting a node changes that node alone, and never the shape of the tree.
pub proof fn lemma_paint_changes_one_node<D>(
    nodes: Seq<NodeView<D>>,
    ctx: PaintContextView,
    at: Offset,
    other: int,
)
    requires
        ctx.node.0 < nodes.len(),
        0 <= other < nodes.len(),
    ensures
        painted(nodes, ctx, at).len() == nodes.len(),
        painted(nodes, ctx, at)[other].children == nodes[other].children,
        other != ctx.node.0 ==> painted(nodes, ctx, at)[other] == nodes[other],
        is_forest(nodes) ==> is_forest(painted(nodes, ctx, at)),
{
    if is_forest(nodes) {
        let i = ctx.node.0 as int;
        lemma_render_data_keeps_forest(nodes, i, painted(nodes, ctx, at)[i].render_data);
    }
}

/// In a forest, painting one child of a node touches neither the node itself
/// nor any other of its children.
pub proof fn lemma_painting_a_child_spares_parent_and_siblings<D>(
    nodes: Seq<NodeView<D>>,
    parent: PaintContextView,
    index: int,
    at: Offset,
    sibling: int,
)
    requires
        is_forest(nodes),
        parent.node.0 < nodes.len(),
        0 <= index < nodes[parent.node.0 as int].children.len(),
        0 <= sibling < nodes[parent.node.0 as int].children.len(),
        sibling != index,
    ensures
        ({
            let children = nodes[parent.node.0 as int].children;
            let after = painted(nodes, parent.derive(children[index]), at);
            &&& after[parent.node.0 as int] == nodes[parent.node.0 as int]
            &&& after[children[sibling].0 as int] == nodes[children[sibling].0 as int]
        }),
{
}

/// Parent data that was set as a `T` is seen again as a `T`, with the value
/// that was set.
pub proof fn lemma_parent_data_set_then_seen<T, D: Holds<T>>(
    nodes: Seq<NodeView<D>>,
    node: NodeId,
    value: T,
)
    requires
        node.0 < nodes.len(),
    ensures
        with_parent_data(
            nodes,
            node.0 as int,
            D::boxed(value),
        )[node.0 as int].render_data.parent_data.payload() == Some(value),
{
    D::lemma_boxed(value);
}

/// An exclusive view through which nothing new is written leaves the tree as
/// it was.
pub proof fn lemma_parent_data_view_unwritten<T, D: Holds<T>>(
    nodes: Seq<NodeView<D>>,
    node: NodeId,
    value: T,
)
    requires
        node.0 < nodes.len(),
        nodes[node.0 as int].render_data.parent_data.payload() == Some(value),
    ensures
        with_parent_data(nodes, node.0 as int, D::boxed(value)) == nodes,
{
    Holds::<T>::lemma_payload(&nodes[node.0 as int].render_data.parent_data);
}

/// Parent data that was set as a `T` is not seen as a `U`, where `T` and `U`
/// are two of the types that the box tells apart.
pub proof fn lemma_parent_data_set_then_unseen_as_other<T, U, D: Holds<T> + Holds<U>>(
    nodes: Seq<NodeView<D>>,
    node: NodeId,
    value: T,
)
    requires
        node.0 < nodes.len(),
        <D as Holds<T>>::type_of() != <D as Holds<U>>::type_of(),
    ensures
        Holds::<U>::payload(
            &with_parent_data(
                nodes,
                node.0 as int,
                <D as Holds<T>>::boxed(value),
            )[node.0 as int].render_data.parent_data,
        ) is None,
{
    <D as Holds<T>>::lemma_boxed(value);
    Holds::<U>::lemma_payload(&<D as Holds<T>>::boxed(value));
}

} // verus!
