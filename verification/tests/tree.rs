use frui_render::geometry::{Offset, Size};
use frui_render::parent_data::PlainData;
use frui_render::tree::{NodeId, RenderData, RenderTree};

fn data(width: i64, height: i64, laid_out: bool) -> RenderData<PlainData> {
    RenderData {
        size: Size { width, height },
        local_offset: Offset { x: 0, y: 0 },
        laid_out,
        parent_data: PlainData::Empty,
    }
}

#[test]
fn new_tree_is_empty() {
    let tree: RenderTree<PlainData> = RenderTree::new();
    assert_eq!(tree.len(), 0);
    assert!(!tree.contains(NodeId(0)));
}

#[test]
fn nodes_are_named_in_order_of_arrival() {
    let mut tree = RenderTree::new();
    let root = tree.push_root(data(100, 50, true));
    let a = tree.push_child(root, data(10, 5, true));
    let b = tree.push_child(root, data(20, 6, true));
    let c = tree.push_child(a, data(1, 1, false));
    assert_eq!((root, a, b, c), (NodeId(0), NodeId(1), NodeId(2), NodeId(3)));
    assert_eq!(tree.len(), 4);
    assert!(tree.contains(c));
    assert!(!tree.contains(NodeId(4)));
}

#[test]
fn children_are_kept_in_order() {
    let mut tree = RenderTree::new();
    let root = tree.push_root(data(100, 50, true));
    let a = tree.push_child(root, data(10, 5, true));
    let b = tree.push_child(root, data(20, 6, true));
    let c = tree.push_child(a, data(1, 1, false));
    let d = tree.push_child(root, data(2, 2, true));
    assert_eq!(tree.children(root), &vec![a, b, d]);
    assert_eq!(tree.children(a), &vec![c]);
    assert!(tree.children(b).is_empty());
    assert!(tree.children(c).is_empty());
}

#[test]
fn second_root_has_no_parent() {
    let mut tree = RenderTree::new();
    let first = tree.push_root(data(1, 1, true));
    let second = tree.push_root(data(2, 2, true));
    assert_eq!(second, NodeId(1));
    assert!(tree.children(first).is_empty());
    assert!(tree.children(second).is_empty());
}

#[test]
fn render_data_is_what_was_pushed() {
    let mut tree = RenderTree::new();
    let root = tree.push_root(data(100, 50, true));
    let a = tree.push_child(root, data(10, 5, false));
    assert_eq!(tree.render_data(root), &data(100, 50, true));
    assert_eq!(tree.render_data(a), &data(10, 5, false));
}

#[test]
fn render_data_mut_writes_one_node() {
    let mut tree = RenderTree::new();
    let root = tree.push_root(data(100, 50, true));
    let a = tree.push_child(root, data(10, 5, false));
    let b = tree.push_child(root, data(20, 6, false));
    {
        let slot = tree.render_data_mut(a);
        slot.size = Size { width: 11, height: 7 };
        slot.laid_out = true;
    }
    assert_eq!(tree.render_data(a), &data(11, 7, true));
    assert_eq!(tree.render_data(root), &data(100, 50, true));
    assert_eq!(tree.render_data(b), &data(20, 6, false));
    assert_eq!(tree.children(root), &vec![a, b]);
}
