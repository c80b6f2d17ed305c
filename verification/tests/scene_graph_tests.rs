use kiss3d::scene_graph::SceneGraph;

#[test]
fn build_and_render_tree() {
    let mut g = SceneGraph::new();
    let root = g.new_node(None);
    let a = g.add_object(root, Some(10));
    let group = g.add_group(root);
    let b = g.add_object(group, Some(20));
    let c = g.add_object(group, Some(30));
    assert_eq!(g.node_count(), 5);
    assert!(g.is_root(root));
    assert!(!g.is_root(b));
    assert_eq!(g.parent_of(b), Some(group));
    assert_eq!(g.children(root), &vec![a, group]);
    assert_eq!(g.children(group), &vec![b, c]);
    assert!(!g.has_object(group));
    assert_eq!(g.object_of(c), Some(30));
    // preorder: a node before its subtree, children in order
    assert_eq!(g.render_list(root), vec![a, b, c]);
    assert_eq!(g.render_list(group), vec![b, c]);
}

#[test]
fn hidden_node_hides_its_subtree() {
    let mut g = SceneGraph::new();
    let root = g.new_node(Some(1));
    let group = g.add_group(root);
    let b = g.add_object(group, Some(2));
    let c = g.add_object(root, Some(3));
    g.set_visible(group, false);
    assert!(!g.is_visible(group));
    assert_eq!(g.render_list(root), vec![root, c]);
    g.set_visible(group, true);
    assert_eq!(g.render_list(root), vec![root, b, c]);
    g.set_visible(root, false);
    assert!(g.render_list(root).is_empty());
}

#[test]
fn unlink_moves_last_child_into_place() {
    let mut g = SceneGraph::new();
    let root = g.new_node(None);
    let a = g.add_object(root, Some(1));
    let b = g.add_object(root, Some(2));
    let c = g.add_object(root, Some(3));
    g.unlink(a);
    assert!(g.is_root(a));
    assert_eq!(g.children(root), &vec![c, b]);
    assert_eq!(g.render_list(root), vec![c, b]);
    assert_eq!(g.render_list(a), vec![a]);
    // unlinking a root changes nothing
    g.unlink(a);
    assert_eq!(g.children(root), &vec![c, b]);
}

#[test]
fn unlink_undoes_add_child() {
    let mut g = SceneGraph::new();
    let root = g.new_node(None);
    let a = g.add_object(root, Some(1));
    let n = g.new_node(Some(9));
    let m = g.add_object(n, Some(8));
    g.add_child(a, n);
    assert_eq!(g.parent_of(n), Some(a));
    assert_eq!(g.render_list(root), vec![a, n, m]);
    g.unlink(n);
    assert!(g.is_root(n));
    assert!(g.children(a).is_empty());
    assert_eq!(g.render_list(root), vec![a]);
    assert_eq!(g.render_list(n), vec![n, m]);
}

#[test]
fn add_obj_layouts() {
    let mut g = SceneGraph::new();
    let root = g.new_node(None);
    let single = g.add_obj(root, &vec![7]);
    assert_eq!(g.object_of(single), Some(7));
    assert_eq!(g.parent_of(single), Some(root));
    let group = g.add_obj(root, &vec![4, 5]);
    assert!(!g.has_object(group));
    assert_eq!(g.children(group), &vec![group + 1, group + 2]);
    assert_eq!(g.object_of(group + 2), Some(5));
    let empty = g.add_obj(root, &vec![]);
    assert!(g.children(empty).is_empty());
    assert_eq!(g.render_list(root), vec![single, group + 1, group + 2]);
}

#[test]
fn objects_in_subtree_ignore_visibility() {
    let mut g = SceneGraph::new();
    let root = g.new_node(Some(1));
    let group = g.add_group(root);
    let b = g.add_object(group, Some(2));
    let c = g.add_object(root, Some(3));
    g.set_visible(group, false);
    assert_eq!(g.render_list(root), vec![root, c]);
    assert_eq!(g.objects_in_subtree(root), vec![root, b, c]);
    assert_eq!(g.objects_in_subtree(group), vec![b]);
}
