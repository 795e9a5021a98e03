//! What a walk of the paint pass leaves behind. Painting down a path from a
//! root, each node through a context derived from the one above it, writes
//! local offsets that add up to the place where the last node was painted:
//! nested coordinate spaces compose.

use vstd::prelude::*;
use vstd::std_specs::ops::SubSpec;
use crate::geometry::Offset;
use crate::paint_ctx::{painted, PaintContextView};
use crate::tree::{is_forest, NodeId, NodeView};

verus! {

/// `path` leads down the tree: every entry names a node, and each entry after
/// the first is a child of the entry before it.
pub open spec fn is_descent<D>(nodes: Seq<NodeView<D>>, path: Seq<NodeId>) -> bool {
    &&& forall|k: int| 0 <= k < path.len() ==> (#[trigger] path[k]).0 < nodes.len()
    &&& forall|k: int|
        0 < k < path.len() ==> nodes[path[k - 1].0 as int].children.contains(#[trigger] path[k])
}

/// Where the node above entry `k` of the path was painted: the origin for the
/// first entry, which has no node above it.
pub open spec fn offset_above(at: Seq<Offset>, k: int) -> Offset {
    if k == 0 {
        Offset::zero()
    } else {
        at[k - 1]
    }
}

/// The context through which entry `k` of `path` is painted: a fresh context
/// for the first entry, and for each later one the context derived from the
/// one above once that has been painted.
pub open spec fn ctx_on_walk(path: Seq<NodeId>, at: Seq<Offset>, k: int) -> PaintContextView {
    PaintContextView { node: path[k], offset: Offset::zero(), parent_offset: offset_above(at, k) }
}

/// The tree once the first `n` entries of `path` have been painted, entry `k`
/// at `at[k]`.
pub open spec fn walked<D>(
    nodes: Seq<NodeView<D>>,
    path: Seq<NodeId>,
    at: Seq<Offset>,
    n: nat,
) -> Seq<NodeView<D>>
    decreases n,
{
    if n == 0 {
        nodes
    } else {
        painted(walked(nodes, path, at, (n - 1) as nat), ctx_on_walk(path, at, n - 1), at[n - 1])
    }
}

/// The sum, by coordinate, of the local offsets of the first `n` entries of
/// `path`.
pub open spec fn local_offset_sum<D>(nodes: Seq<NodeView<D>>, path: Seq<NodeId>, n: nat) -> (
    int,
    int,
)
    decreases n,
{
    if n == 0 {
        (0, 0)
    } else {
        let above = local_offset_sum(nodes, path, (n - 1) as nat);
        let local = nodes[path[n - 1].0 as int].render_data.local_offset;
        (above.0 + local.x, above.1 + local.y)
    }
}

/// The contexts of a walk are those that the paint context hands out: a fresh
/// one first, then each derived from the one above as painted.
pub proof fn lemma_walk_contexts_are_derived(path: Seq<NodeId>, at: Seq<Offset>, k: int)
    requires
        0 <= k < path.len(),
        at.len() == path.len(),
    ensures
        k == 0 ==> ctx_on_walk(path, at, k) == (PaintContextView {
            node: path[0],
            offset: Offset::zero(),
            parent_offset: Offset::zero(),
        }),
        k > 0 ==> ctx_on_walk(path, at, k) == ctx_on_walk(path, at, k - 1).painted_at(
            at[k - 1],
        ).derive(path[k]),
{
}

/// Down a forest, the entries of a descent come in strictly rising order, so
/// no node occurs twice.
proof fn lemma_descent_rises<D>(nodes: Seq<NodeView<D>>, path: Seq<NodeId>, j: int, k: int)
    requires
        is_forest(nodes),
        is_descent(nodes, path),
        0 <= j < k < path.len(),
    ensures
        path[j].0 < path[k].0,
    decreases k - j,
{
    let above = path[k - 1].0 as int;
    let i = choose|i: int|
        0 <= i < nodes[above].children.len() && nodes[above].children[i] == path[k];
    assert(above < nodes[above].children[i].0);
    if j < k - 1 {
        lemma_descent_rises(nodes, path, j, k - 1);
    }
}

/// A walk changes local offsets only: the tree keeps its nodes and their
/// children, and nodes off the painted part of the path keep everything.
proof fn lemma_walk_frame<D>(
    nodes: Seq<NodeView<D>>,
    path: Seq<NodeId>,
    at: Seq<Offset>,
    n: nat,
)
    requires
        is_descent(nodes, path),
        at.len() == path.len(),
        n <= path.len(),
    ensures
        walked(nodes, path, at, n).len() == nodes.len(),
        forall|m: int|
            0 <= m < nodes.len() ==> (#[trigger] walked(nodes, path, at, n)[m]).children
                == nodes[m].children,
        forall|m: int|
            0 <= m < nodes.len() && (forall|k: int| 0 <= k < n ==> path[k].0 != m) ==> #[trigger] walked(
                nodes,
                path,
                at,
                n,
            )[m] == nodes[m],
    decreases n,
{
    if n > 0 {
        lemma_walk_frame(nodes, path, at, (n - 1) as nat);
        let before = walked(nodes, path, at, (n - 1) as nat);
        let after = walked(nodes, path, at, n);
        assert forall|m: int|
            0 <= m < nodes.len() && (forall|k: int| 0 <= k < n ==> path[k].0 != m) implies after[m]
            == nodes[m] by {
            assert(forall|k: int| 0 <= k < n - 1 ==> path[k].0 != m);
        }
    }
}

/// The sum over the first `n` entries looks only at those entries.
proof fn lemma_sum_reads_the_path<D>(
    before: Seq<NodeView<D>>,
    after: Seq<NodeView<D>>,
    path: Seq<NodeId>,
    n: nat,
)
    requires
        n <= path.len(),
        forall|k: int|
            0 <= k < n ==> after[(#[trigger] path[k]).0 as int].render_data.local_offset
                == before[path[k].0 as int].render_data.local_offset,
    ensures
        local_offset_sum(after, path, n) == local_offset_sum(before, path, n),
    decreases n,
{
    if n > 0 {
        lemma_sum_reads_the_path(before, after, path, (n - 1) as nat);
        assert(after[path[n - 1].0 as int].render_data.local_offset
            == before[path[n - 1].0 as int].render_data.local_offset);
    }
}

/// After a walk down a path of a forest, the local offsets along the path add
/// up, coordinate by coordinate, to the offset at which the last node was
/// painted, provided each step's local offset fits the grid.
pub proof fn lemma_local_offsets_add_up<D>(
    nodes: Seq<NodeView<D>>,
    path: Seq<NodeId>,
    at: Seq<Offset>,
    n: nat,
)
    requires
        is_forest(nodes),
        is_descent(nodes, path),
        at.len() == path.len(),
        0 < n <= path.len(),
        forall|k: int| 0 <= k < n ==> (#[trigger] at[k]).sub_req(offset_above(at, k)),
    ensures
        local_offset_sum(walked(nodes, path, at, n), path, n) == (
            at[n - 1].x as int,
            at[n - 1].y as int,
        ),
    decreases n,
{
    let before = walked(nodes, path, at, (n - 1) as nat);
    let after = walked(nodes, path, at, n);
    lemma_walk_frame(nodes, path, at, (n - 1) as nat);
    assert(at[n - 1].sub_req(offset_above(at, n - 1)));
    assert forall|k: int| 0 <= k < n - 1 implies after[(#[trigger] path[k]).0 as int]
        == before[path[k].0 as int] by {
        lemma_descent_rises(nodes, path, k, n - 1);
    }
    lemma_sum_reads_the_path(before, after, path, (n - 1) as nat);
    if n > 1 {
        lemma_local_offsets_add_up(nodes, path, at, (n - 1) as nat);
    }
}

} // verus!
