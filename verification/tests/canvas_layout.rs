use cabinet_usecases::canvas_mutation::{ArrangedCanvasNode, CanvasAutoArrangePolicy, CanvasMutationError};

fn node(id: &str, x: i32, y: i32) -> ArrangedCanvasNode {
    ArrangedCanvasNode { node_id: id.to_string(), x, y }
}

#[test]
fn arrange_places_sorted_nodes_on_grid() {
    let policy = CanvasAutoArrangePolicy::new(2, 10, 20, 100, 50).unwrap();
    let ids = vec!["node-c".to_string(), "node-a".to_string(), "node-b".to_string()];
    let placed = policy.arrange(ids);
    assert_eq!(
        placed,
        vec![node("node-a", 10, 20), node("node-b", 110, 20), node("node-c", 10, 70)]
    );
}

#[test]
fn arrange_of_no_nodes_is_empty() {
    let policy = CanvasAutoArrangePolicy::new(3, 0, 0, 1, 1).unwrap();
    assert!(policy.arrange(Vec::new()).is_empty());
}

#[test]
fn arrange_policy_rejects_zero_columns_and_gaps() {
    assert_eq!(CanvasAutoArrangePolicy::new(0, 0, 0, 1, 1).err(), Some(CanvasMutationError::InvalidInput));
    assert_eq!(CanvasAutoArrangePolicy::new(1, 0, 0, 0, 1).err(), Some(CanvasMutationError::InvalidInput));
    assert_eq!(CanvasAutoArrangePolicy::new(1, 0, 0, 1, -3).err(), Some(CanvasMutationError::InvalidInput));
}
