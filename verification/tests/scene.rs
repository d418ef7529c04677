use glass::scene::{NodeId, Scene};

// Node payloads as the renderer draws them.

#[derive(Debug, Clone, Copy, PartialEq)]
struct Color {
    r: f32,
    g: f32,
    b: f32,
    a: f32,
}

impl Color {
    const fn new(r: f32, g: f32, b: f32, a: f32) -> Self {
        Self { r, g, b, a }
    }
    const TRANSPARENT: Self = Self::new(0.0, 0.0, 0.0, 0.0);
    const WHITE: Self = Self::new(1.0, 1.0, 1.0, 1.0);
    const BLACK: Self = Self::new(0.0, 0.0, 0.0, 1.0);
}

#[derive(Debug, Clone, PartialEq)]
struct RectProps {
    x: f32,
    y: f32,
    width: f32,
    height: f32,
    color: Color,
}

#[derive(Debug, Clone, PartialEq)]
struct TextProps {
    x: f32,
    y: f32,
    text: String,
    font_size: f32,
    color: Color,
}

#[derive(Debug, Clone, PartialEq)]
enum SceneNode {
    Rect(RectProps),
    Text(TextProps),
}

trait AddNodes {
    fn add_rect(&mut self, props: RectProps) -> NodeId;
    fn add_text(&mut self, props: TextProps) -> NodeId;
}

impl AddNodes for Scene<SceneNode> {
    fn add_rect(&mut self, props: RectProps) -> NodeId {
        self.add(SceneNode::Rect(props))
    }
    fn add_text(&mut self, props: TextProps) -> NodeId {
        self.add(SceneNode::Text(props))
    }
}

#[test]
fn add_and_iterate() {
    let mut scene = Scene::new();
    let id1 = scene.add_rect(RectProps {
        x: 0.0,
        y: 0.0,
        width: 100.0,
        height: 50.0,
        color: Color::WHITE,
    });
    let id2 = scene.add_text(TextProps {
        x: 10.0,
        y: 10.0,
        text: "Hello".into(),
        font_size: 16.0,
        color: Color::BLACK,
    });

    assert_eq!(scene.len(), 2);
    assert!(scene.is_dirty());

    let ids: Vec<NodeId> = scene.iter().iter().map(|(id, _)| *id).collect();
    assert_eq!(ids, vec![id1, id2]);
}

#[test]
fn dirty_tracking() {
    let mut scene = Scene::new();
    let id = scene.add_rect(RectProps {
        x: 0.0,
        y: 0.0,
        width: 10.0,
        height: 10.0,
        color: Color::WHITE,
    });

    assert!(scene.is_dirty());
    assert_eq!(scene.dirty_nodes().len(), 1);

    scene.clear_dirty();
    assert!(!scene.is_dirty());
    assert_eq!(scene.dirty_nodes().len(), 0);

    // Update should re-mark dirty
    scene.update(
        id,
        SceneNode::Rect(RectProps {
            x: 5.0,
            y: 5.0,
            width: 10.0,
            height: 10.0,
            color: Color::BLACK,
        }),
    );
    assert!(scene.is_dirty());
    assert_eq!(scene.dirty_nodes().len(), 1);
}

#[test]
fn remove_node() {
    let mut scene = Scene::new();
    let id = scene.add_rect(RectProps {
        x: 0.0,
        y: 0.0,
        width: 10.0,
        height: 10.0,
        color: Color::WHITE,
    });

    assert_eq!(scene.len(), 1);
    assert!(scene.remove(id));
    assert_eq!(scene.len(), 0);
    assert!(!scene.remove(id)); // already removed
}

#[test]
fn steady_state_no_dirty() {
    let mut scene = Scene::new();
    scene.add_rect(RectProps {
        x: 0.0,
        y: 0.0,
        width: 100.0,
        height: 100.0,
        color: Color::TRANSPARENT,
    });
    scene.clear_dirty();

    // Steady state: no mutations = no dirty
    for _ in 0..100 {
        assert!(!scene.is_dirty());
    }
}

#[test]
fn node_ids_are_unique_across_multiple_adds() {
    let mut scene = Scene::new();
    let id1 = scene.add_text(TextProps {
        x: 0.0,
        y: 0.0,
        text: "a".into(),
        font_size: 12.0,
        color: Color::WHITE,
    });
    let id2 = scene.add_text(TextProps {
        x: 1.0,
        y: 0.0,
        text: "b".into(),
        font_size: 12.0,
        color: Color::WHITE,
    });
    let id3 = scene.add_rect(RectProps {
        x: 0.0,
        y: 0.0,
        width: 10.0,
        height: 10.0,
        color: Color::BLACK,
    });
    assert_ne!(id1, id2, "consecutive text nodes must have distinct IDs");
    assert_ne!(id2, id3, "text and rect nodes must have distinct IDs");
    assert_ne!(id1, id3, "non-adjacent nodes must have distinct IDs");
}

#[test]
fn update_existing_node_returns_true() {
    let mut scene = Scene::new();
    let id = scene.add_text(TextProps {
        x: 0.0,
        y: 0.0,
        text: "original".into(),
        font_size: 12.0,
        color: Color::WHITE,
    });
    let updated = scene.update(
        id,
        SceneNode::Text(TextProps {
            x: 5.0,
            y: 5.0,
            text: "updated".into(),
            font_size: 14.0,
            color: Color::BLACK,
        }),
    );
    assert!(updated, "update on existing node should return true");
}

#[test]
fn update_nonexistent_node_returns_false() {
    let mut scene = Scene::new();
    let fake_id = NodeId(999);
    let result = scene.update(
        fake_id,
        SceneNode::Text(TextProps {
            x: 0.0,
            y: 0.0,
            text: "ghost".into(),
            font_size: 12.0,
            color: Color::WHITE,
        }),
    );
    assert!(!result, "update on nonexistent node should return false");
    // Scene should remain empty and clean
    assert!(scene.is_empty());
}

#[test]
fn new_scene_is_empty_and_clean() {
    let scene: Scene<SceneNode> = Scene::new();
    assert!(scene.is_empty());
    assert_eq!(scene.len(), 0);
    assert!(!scene.is_dirty(), "fresh scene must not be dirty");
    assert_eq!(scene.iter().len(), 0);
}

#[test]
fn remove_on_empty_scene_returns_false() {
    let mut scene: Scene<SceneNode> = Scene::new();
    assert!(!scene.remove(NodeId(0)), "remove on empty scene should return false");
    assert!(scene.is_empty());
}

#[test]
fn remove_all_nodes_leaves_empty_scene() {
    let mut scene = Scene::new();
    let id1 = scene.add_text(TextProps {
        x: 0.0,
        y: 0.0,
        text: "x".into(),
        font_size: 12.0,
        color: Color::WHITE,
    });
    let id2 = scene.add_rect(RectProps {
        x: 0.0,
        y: 0.0,
        width: 5.0,
        height: 5.0,
        color: Color::BLACK,
    });
    assert_eq!(scene.len(), 2);
    scene.remove(id1);
    scene.remove(id2);
    assert!(scene.is_empty(), "scene should be empty after removing all nodes");
    assert_eq!(scene.len(), 0);
}

fn text_nodes(scene: &Scene<SceneNode>) -> Vec<(NodeId, TextProps)> {
    let mut nodes: Vec<(NodeId, TextProps)> = scene
        .iter()
        .into_iter()
        .filter_map(|(id, node)| match node {
            SceneNode::Text(props) => Some((id, props.clone())),
            SceneNode::Rect(_) => None,
        })
        .collect();
    nodes.sort_by_key(|(id, _)| id.0);
    nodes
}

fn text_node(scene: &Scene<SceneNode>, id: NodeId) -> TextProps {
    text_nodes(scene)
        .into_iter()
        .find_map(|(node_id, props)| (node_id == id).then_some(props))
        .unwrap_or_else(|| panic!("missing text node {id:?}"))
}

#[test]
fn scene_graph_add_update_remove_cycle_keeps_expected_nodes() {
    let mut scene = Scene::new();
    let ids: Vec<_> = (0..10)
        .map(|index| {
            scene.add_text(TextProps {
                x: index as f32 * 10.0,
                y: index as f32 * 5.0,
                text: format!("node-{index}"),
                font_size: 14.0,
                color: Color::WHITE,
            })
        })
        .collect();

    scene.clear_dirty();
    assert!(scene.update(
        ids[1],
        SceneNode::Text(TextProps {
            x: 10.0,
            y: 5.0,
            text: "updated-1".into(),
            font_size: 14.0,
            color: Color::WHITE,
        }),
    ));
    assert!(scene.update(
        ids[5],
        SceneNode::Text(TextProps {
            x: 50.0,
            y: 25.0,
            text: "updated-5".into(),
            font_size: 18.0,
            color: Color::WHITE,
        }),
    ));
    assert!(scene.update(
        ids[7],
        SceneNode::Text(TextProps {
            x: 70.0,
            y: 35.0,
            text: "updated-7".into(),
            font_size: 12.0,
            color: Color::WHITE,
        }),
    ));

    for id in ids.iter().take(5) {
        assert!(scene.remove(*id));
    }

    let remaining = text_nodes(&scene);
    assert_eq!(remaining.len(), 5);
    assert!(scene.is_dirty());
    assert_eq!(text_node(&scene, ids[5]).text, "updated-5");
    assert_eq!(text_node(&scene, ids[7]).text, "updated-7");
    assert!(
        scene.iter().iter().all(|(id, _)| !ids[..5].contains(id)),
        "removed nodes must not remain in the scene"
    );
}

// ── Further cases ───────────────────────────────────────────────────────────

#[test]
fn ids_are_never_reused_after_removal() {
    let mut scene = Scene::new();
    let a = scene.add_rect(RectProps { x: 0.0, y: 0.0, width: 1.0, height: 1.0, color: Color::WHITE });
    assert_eq!(a, NodeId(0));
    assert!(scene.remove(a));
    let b = scene.add_rect(RectProps { x: 0.0, y: 0.0, width: 1.0, height: 1.0, color: Color::WHITE });
    assert_eq!(b, NodeId(1));
    assert_eq!(scene.remaining_ids(), u32::MAX as u64 - 2);
}

#[test]
fn dirty_nodes_lists_only_changed_nodes_in_order() {
    let mut scene = Scene::new();
    let ids: Vec<NodeId> = (0..4)
        .map(|i| {
            scene.add_text(TextProps {
                x: 0.0,
                y: 0.0,
                text: format!("t{i}"),
                font_size: 12.0,
                color: Color::WHITE,
            })
        })
        .collect();
    scene.clear_dirty();
    scene.update(ids[3], SceneNode::Text(TextProps { x: 0.0, y: 0.0, text: "u3".into(), font_size: 12.0, color: Color::WHITE }));
    scene.update(ids[1], SceneNode::Text(TextProps { x: 0.0, y: 0.0, text: "u1".into(), font_size: 12.0, color: Color::WHITE }));
    let dirty: Vec<NodeId> = scene.dirty_nodes().iter().map(|(id, _)| *id).collect();
    assert_eq!(dirty, vec![ids[1], ids[3]]);
    match scene.dirty_nodes()[0].1 {
        SceneNode::Text(t) => assert_eq!(t.text, "u1"),
        SceneNode::Rect(_) => panic!("expected text"),
    }
    // Removing a node marks the scene dirty but lists no dirty node.
    scene.clear_dirty();
    assert!(scene.remove(ids[0]));
    assert!(scene.is_dirty());
    assert!(scene.dirty_nodes().is_empty());
}

#[test]
fn failed_operations_leave_scene_clean() {
    let mut scene: Scene<SceneNode> = Scene::new();
    scene.add_rect(RectProps { x: 0.0, y: 0.0, width: 1.0, height: 1.0, color: Color::WHITE });
    scene.clear_dirty();
    assert!(!scene.remove(NodeId(42)));
    assert!(!scene.update(NodeId(42), SceneNode::Rect(RectProps { x: 1.0, y: 1.0, width: 1.0, height: 1.0, color: Color::BLACK })));
    assert!(!scene.is_dirty());
    assert_eq!(scene.len(), 1);
}
