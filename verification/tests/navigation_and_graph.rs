use cabinet_usecases::document_navigator::{
    navigator_initial_state, navigator_loaded_state, navigator_offset, transition_navigator_load,
    GetDocumentNavigatorError, NavigatorLoadEvent, NavigatorLoadState,
};
use cabinet_usecases::global_graph::{
    assemble_global_graph, GetGlobalKnowledgeGraphError, GetGlobalKnowledgeGraphInput, GlobalGraphRecord,
};
use cabinet_usecases::graph::{
    bounded_local_graph, filter_graph_by_permission, link_overview_offset, project_graph_lite,
    GetLinkOverviewError, GetLocalKnowledgeGraphError, GetLocalKnowledgeGraphInput, GraphEdgeKind,
    GraphNodeKind, LocalGraphDirection, LocalNodeClass, PermissionAwareGraphError,
};

#[test]
fn navigator_filter_then_load() {
    let step = transition_navigator_load(NavigatorLoadState::Loading, NavigatorLoadEvent::FilterChanged);
    assert_eq!(step.state, NavigatorLoadState::Filtering);
    assert_eq!(step.error_code, None);
    let loaded = transition_navigator_load(step.state, NavigatorLoadEvent::ProjectionLoaded { item_count: 3, degraded: false });
    assert_eq!(loaded.state, NavigatorLoadState::Ready);
    let empty = transition_navigator_load(NavigatorLoadState::Loading, NavigatorLoadEvent::ProjectionLoaded { item_count: 0, degraded: false });
    assert_eq!(empty.state, NavigatorLoadState::EmptyResult);
    let degraded = transition_navigator_load(NavigatorLoadState::Filtering, NavigatorLoadEvent::ProjectionLoaded { item_count: 0, degraded: true });
    assert_eq!(degraded.state, NavigatorLoadState::Degraded);
}

#[test]
fn navigator_failures_carry_codes() {
    let failed = transition_navigator_load(NavigatorLoadState::Loading, NavigatorLoadEvent::ProjectionFailed);
    assert_eq!(failed.state, NavigatorLoadState::Failed);
    assert_eq!(failed.error_code, Some("document_navigator.projection_unavailable"));
    let invalid = transition_navigator_load(NavigatorLoadState::Ready, NavigatorLoadEvent::FilterChanged);
    assert_eq!(invalid.state, NavigatorLoadState::Failed);
    assert_eq!(invalid.error_code, Some("document_navigator.invalid_transition"));
    let again = transition_navigator_load(NavigatorLoadState::Filtering, NavigatorLoadEvent::FilterChanged);
    assert_eq!(again.error_code, Some("document_navigator.invalid_transition"));
    let settled = transition_navigator_load(NavigatorLoadState::Failed, NavigatorLoadEvent::ProjectionFailed);
    assert_eq!(settled.error_code, Some("document_navigator.invalid_transition"));
}

#[test]
fn navigator_request_states() {
    assert_eq!(navigator_initial_state(true), NavigatorLoadState::Filtering);
    assert_eq!(navigator_initial_state(false), NavigatorLoadState::Loading);
    assert_eq!(navigator_loaded_state(true, 2, false), NavigatorLoadState::Ready);
    assert_eq!(navigator_loaded_state(false, 0, false), NavigatorLoadState::EmptyResult);
    assert_eq!(navigator_loaded_state(false, 5, true), NavigatorLoadState::Degraded);
}

#[test]
fn navigator_cursor_offsets() {
    assert_eq!(navigator_offset(None), Ok(0));
    assert_eq!(navigator_offset(Some("42")), Ok(42));
    assert_eq!(navigator_offset(Some("+7")), Ok(7));
    assert_eq!(navigator_offset(Some("0007")), Ok(7));
    assert_eq!(navigator_offset(Some("4294967295")), Ok(u32::MAX));
    for bad in ["", "+", "-1", " 1", "1 ", "4294967296", "1a", "12345678901234567890"] {
        assert_eq!(navigator_offset(Some(bad)), Err(GetDocumentNavigatorError::InvalidInput), "{bad}");
    }
    assert_eq!(GetDocumentNavigatorError::InvalidInput.code(), "document_navigator.invalid_input");
}

#[test]
fn link_overview_cursor_offsets() {
    assert_eq!(link_overview_offset(None), Ok(0));
    assert_eq!(link_overview_offset(Some("25")), Ok(25));
    assert_eq!(link_overview_offset(Some("x")), Err(GetLinkOverviewError::InvalidInput));
    assert_eq!(link_overview_offset(Some(&usize::MAX.to_string())), Ok(usize::MAX));
    assert_eq!(GetLinkOverviewError::ProjectionUnavailable.code(), "link_overview.projection_unavailable");
}

fn pairs(items: &[(&str, &str)]) -> Vec<(String, String)> {
    items.iter().map(|(a, b)| (a.to_string(), b.to_string())).collect()
}

#[test]
fn lite_graph_marks_missing_and_unresolved() {
    let known = vec!["doc-a".to_string(), "doc-b".to_string()];
    let outgoing_links = pairs(&[("doc-a", "doc-b"), ("doc-a", "doc-gone")]);
    let unresolved = vec![("doc-a".to_string(), Some("future-page".to_string())), ("doc-a".to_string(), None)];
    let incoming = pairs(&[("doc-c", "doc-a")]);
    let graph = project_graph_lite("doc-a", &known, Some((&outgoing_links, &unresolved)), &incoming);
    let nodes: Vec<(&str, GraphNodeKind)> = graph.nodes().iter().map(|n| (n.id(), n.kind())).collect();
    assert_eq!(nodes, vec![
        ("doc-a", GraphNodeKind::Document),
        ("doc-b", GraphNodeKind::Document),
        ("doc-gone", GraphNodeKind::Missing),
        ("future-page", GraphNodeKind::Unresolved),
        ("doc-c", GraphNodeKind::Missing),
    ]);
    let edges: Vec<(&str, &str, GraphEdgeKind)> = graph.edges().iter().map(|e| (e.source_id(), e.target_id(), e.kind())).collect();
    assert_eq!(edges, vec![
        ("doc-a", "doc-b", GraphEdgeKind::Resolved),
        ("doc-a", "doc-gone", GraphEdgeKind::MissingTarget),
        ("doc-a", "future-page", GraphEdgeKind::Unresolved),
        ("doc-c", "doc-a", GraphEdgeKind::Resolved),
    ]);
}

#[test]
fn lite_graph_without_index_entry_has_center_only() {
    let graph = project_graph_lite("doc-a", &[], None, &[]);
    assert_eq!(graph.nodes().len(), 1);
    assert_eq!(graph.nodes()[0].id(), "doc-a");
    assert_eq!(graph.nodes()[0].kind(), GraphNodeKind::Document);
    assert!(graph.edges().is_empty());
}

fn class_nodes(items: &[(&str, LocalNodeClass)]) -> Vec<(String, LocalNodeClass)> {
    items.iter().map(|(a, c)| (a.to_string(), *c)).collect()
}

#[test]
fn local_graph_keeps_outgoing_edges_within_limits() {
    let nodes = class_nodes(&[
        ("c", LocalNodeClass::Other),
        ("x", LocalNodeClass::Other),
        ("u", LocalNodeClass::UnresolvedLink),
        ("y", LocalNodeClass::Other),
        ("f", LocalNodeClass::Attachment),
    ]);
    let edges = pairs(&[("c", "x"), ("c", "u"), ("y", "c"), ("c", "f"), ("c", "y")]);
    let input = GetLocalKnowledgeGraphInput::new("ws", "c", 1, LocalGraphDirection::Outgoing, false, true, 10, 10);
    let graph = bounded_local_graph(&input, "rev-9", &nodes, &edges);
    let node_ids: Vec<&str> = graph.nodes().iter().map(|n| n.0.as_str()).collect();
    assert_eq!(node_ids, vec!["c", "x", "y", "f"]);
    assert_eq!(graph.edges().to_vec(), pairs(&[("c", "x"), ("c", "f"), ("c", "y")]));
    assert_eq!(graph.candidate_count(), 5);
    assert_eq!(graph.filtered_count(), 1);
    assert_eq!(graph.freshness_revision(), "rev-9");
    let capped = GetLocalKnowledgeGraphInput::new("ws", "c", 2, LocalGraphDirection::Both, true, true, 2, 1);
    let small = bounded_local_graph(&capped, "rev-9", &nodes, &edges);
    assert_eq!(small.edges().to_vec(), pairs(&[("c", "x")]));
    let small_ids: Vec<&str> = small.nodes().iter().map(|n| n.0.as_str()).collect();
    assert_eq!(small_ids, vec!["c", "x"]);
}

#[test]
fn local_graph_bounds_are_checked() {
    let ok = GetLocalKnowledgeGraphInput::new("ws", "c", 2, LocalGraphDirection::Both, true, true, 1, 1);
    assert_eq!(ok.check_bounds(), Ok(()));
    for bad in [
        GetLocalKnowledgeGraphInput::new("ws", "c", 3, LocalGraphDirection::Both, true, true, 1, 1),
        GetLocalKnowledgeGraphInput::new("ws", "c", 0, LocalGraphDirection::Both, true, true, 1, 1),
        GetLocalKnowledgeGraphInput::new("ws", "c", 1, LocalGraphDirection::Both, true, true, 0, 1),
        GetLocalKnowledgeGraphInput::new("ws", "c", 1, LocalGraphDirection::Both, true, true, 1, 0),
    ] {
        assert_eq!(bad.check_bounds(), Err(GetLocalKnowledgeGraphError::InvalidInput));
    }
    assert!(GetLocalKnowledgeGraphError::ProjectionUnavailable.retryable());
    assert!(!GetLocalKnowledgeGraphError::ProjectionNotFound.retryable());
}

#[test]
fn permission_filter_hides_unreadable_documents() {
    let nodes = vec![
        ("c".to_string(), Some("doc-c".to_string())),
        ("secret".to_string(), Some("doc-s".to_string())),
        ("tag".to_string(), None),
        ("lonely".to_string(), None),
    ];
    let edges = pairs(&[("c", "secret"), ("c", "tag")]);
    let decisions = vec![Ok(true), Ok(false), Ok(true), Ok(true)];
    let output = filter_graph_by_permission("c", &nodes, &edges, &decisions).unwrap();
    let ids: Vec<&str> = output.nodes().iter().map(|n| n.0.as_str()).collect();
    assert_eq!(ids, vec!["c", "tag"]);
    assert_eq!(output.edges().to_vec(), pairs(&[("c", "tag")]));
    assert_eq!(output.stats().candidate_count(), 4);
    assert_eq!(output.stats().filtered_count(), 1);
}

#[test]
fn permission_filter_errors() {
    let nodes = vec![("c".to_string(), Some("doc-c".to_string())), ("d".to_string(), Some("doc-d".to_string()))];
    let denied = vec![Ok(false), Ok(true)];
    assert_eq!(filter_graph_by_permission("c", &nodes, &[], &denied).unwrap_err(), PermissionAwareGraphError::CenterDocumentDenied);
    let failing = vec![Ok(true), Err(PermissionAwareGraphError::PermissionUnavailable)];
    assert_eq!(filter_graph_by_permission("c", &nodes, &[], &failing).unwrap_err(), PermissionAwareGraphError::PermissionUnavailable);
    assert_eq!(PermissionAwareGraphError::CenterDocumentDenied.code(), "graph.center_document_denied");
}

fn record(clean: bool, fresh: bool, nodes: &[(&str, LocalNodeClass)], edges: &[(&str, &str, &str)]) -> GlobalGraphRecord {
    GlobalGraphRecord::new(
        clean,
        fresh,
        class_nodes(nodes),
        edges.iter().map(|(i, s, t)| (i.to_string(), s.to_string(), t.to_string())).collect(),
    )
}

#[test]
fn global_graph_merges_and_orders() {
    let records = vec![
        record(true, true, &[("m", LocalNodeClass::Other), ("b", LocalNodeClass::Other), ("u", LocalNodeClass::UnresolvedLink)], &[("e2", "m", "b"), ("e1", "m", "z")]),
        record(true, false, &[("z", LocalNodeClass::Other), ("b", LocalNodeClass::Attachment)], &[("e2", "b", "z"), ("e3", "z", "m")]),
    ];
    let input = GetGlobalKnowledgeGraphInput::new("ws", None, false, false, 10, 10, 10);
    let output = assemble_global_graph(&input, &records, Some("next")).unwrap();
    let ids: Vec<&str> = output.nodes().iter().map(|n| n.0.as_str()).collect();
    assert_eq!(ids, vec!["b", "m", "z"]);
    let edge_ids: Vec<&str> = output.edges().iter().map(|e| e.0.as_str()).collect();
    assert_eq!(edge_ids, vec!["e2", "e3"]);
    assert_eq!(output.edges()[0].1, "m");
    assert!(output.degraded());
    assert_eq!(output.candidate_count(), 5);
    assert_eq!(output.next_cursor(), Some("next"));
    let tight = GetGlobalKnowledgeGraphInput::new("ws", None, false, false, 10, 2, 10);
    assert_eq!(assemble_global_graph(&tight, &records, None).unwrap_err(), GetGlobalKnowledgeGraphError::InvalidInput);
    assert_eq!(GetGlobalKnowledgeGraphInput::new("ws", None, true, true, 0, 1, 1).check_limits(), Err(GetGlobalKnowledgeGraphError::InvalidInput));
}
