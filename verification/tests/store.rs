use knowledge_graph::graph::{Endpoint, GraphData, GraphEdge, GraphNode};
use knowledge_graph::store::{GraphStore, StoreAction, StoreError, StoreEvent};
use serde_json::Value;
use uuid::Uuid;

#[derive(Debug, Clone, PartialEq)]
struct NodeRow {
    id: Uuid,
    document_id: Uuid,
    label: String,
    name: String,
    properties: Value,
}

#[derive(Debug, Clone, PartialEq)]
struct EdgeRow {
    document_id: Uuid,
    source_node_id: Uuid,
    target_node_id: Uuid,
    relationship: String,
    properties: Value,
}

#[derive(Debug, Clone, PartialEq, Default)]
struct Tables {
    nodes: Vec<NodeRow>,
    edges: Vec<EdgeRow>,
}

/// A store in memory with one transaction at a time. A statement fails
/// where `fail_at` counts it; an edge whose ends are not node rows of the
/// document fails as a foreign key would.
struct Database {
    committed: Tables,
    working: Option<Tables>,
    next_id: u128,
    statements: usize,
    fail_at: Option<usize>,
}

impl Database {
    fn new() -> Database {
        Database { committed: Tables::default(), working: None, next_id: 1, statements: 0, fail_at: None }
    }

    fn perform(&mut self, action: &StoreAction<'_>) -> StoreEvent {
        self.statements += 1;
        if self.fail_at == Some(self.statements) {
            return StoreEvent::Failed(format!("statement {} failed", self.statements));
        }
        match action {
            StoreAction::Begin => {
                self.working = Some(self.committed.clone());
                StoreEvent::Succeeded
            }
            StoreAction::ClearDocument { document_id } => {
                let tables = self.working.as_mut().unwrap();
                tables.nodes.retain(|row| row.document_id != *document_id);
                tables.edges.retain(|row| row.document_id != *document_id);
                StoreEvent::Succeeded
            }
            StoreAction::InsertNode { document_id, node } => {
                let id = Uuid::from_u128(self.next_id);
                self.next_id += 1;
                self.working.as_mut().unwrap().nodes.push(NodeRow {
                    id,
                    document_id: *document_id,
                    label: node.label.clone(),
                    name: node.name.clone(),
                    properties: node.properties.clone(),
                });
                StoreEvent::NodeCreated(id)
            }
            StoreAction::InsertEdge { document_id, source_node_id, target_node_id, edge } => {
                let tables = self.working.as_mut().unwrap();
                let known = |id: &Uuid| {
                    tables.nodes.iter().any(|row| row.id == *id && row.document_id == *document_id)
                };
                if !known(source_node_id) || !known(target_node_id) {
                    return StoreEvent::Failed("foreign key violation".to_string());
                }
                tables.edges.push(EdgeRow {
                    document_id: *document_id,
                    source_node_id: *source_node_id,
                    target_node_id: *target_node_id,
                    relationship: edge.relationship.clone(),
                    properties: edge.properties.clone(),
                });
                StoreEvent::Succeeded
            }
            StoreAction::Commit => {
                self.committed = self.working.take().unwrap();
                StoreEvent::Succeeded
            }
            StoreAction::Complete | StoreAction::Abort(_) => unreachable!(),
        }
    }

    /// Carries a replace through, and drops the transaction at its end.
    fn replace(&mut self, document_id: Uuid, graph: GraphData) -> (GraphData, Result<(), StoreError>) {
        let mut store = GraphStore::replace(document_id, graph);
        while !store.is_finished() {
            let event = self.perform(&store.action());
            store = store.advance(event);
        }
        self.working = None;
        match store.finish() {
            Ok(outcome) => outcome,
            Err(_) => unreachable!(),
        }
    }

    fn nodes_of(&self, document_id: Uuid) -> Vec<NodeRow> {
        self.committed.nodes.iter().filter(|row| row.document_id == document_id).cloned().collect()
    }

    fn edges_of(&self, document_id: Uuid) -> Vec<EdgeRow> {
        self.committed.edges.iter().filter(|row| row.document_id == document_id).cloned().collect()
    }
}

fn object(key: &str, value: &str) -> Value {
    let mut map = serde_json::Map::new();
    map.insert(key.to_string(), Value::String(value.to_string()));
    Value::Object(map)
}

fn node(label: &str, name: &str) -> GraphNode {
    GraphNode { label: label.to_string(), name: name.to_string(), properties: object("kind", label) }
}

fn edge(source: &str, target: &str, relationship: &str) -> GraphEdge {
    GraphEdge {
        source: source.to_string(),
        target: target.to_string(),
        relationship: relationship.to_string(),
        properties: object("via", relationship),
    }
}

fn jane_at_acme() -> GraphData {
    GraphData {
        nodes: vec![node("Person", "Jane"), node("Company", "Acme")],
        edges: vec![edge("Jane", "Acme", "WORKS_FOR")],
    }
}

fn doc(n: u128) -> Uuid {
    Uuid::from_u128(0xD0C0_0000 + n)
}

#[test]
fn replace_walks_through_the_transaction() {
    let d = doc(1);
    let graph = jane_at_acme();
    let jane = Uuid::from_u128(11);
    let acme = Uuid::from_u128(12);
    let mut store = GraphStore::replace(d, jane_at_acme());
    assert_eq!(store.graph(), &graph);
    assert!(!store.is_finished());
    assert_eq!(store.action(), StoreAction::Begin);
    store = store.advance(StoreEvent::Succeeded);
    assert_eq!(store.action(), StoreAction::ClearDocument { document_id: d });
    store = store.advance(StoreEvent::Succeeded);
    assert_eq!(store.action(), StoreAction::InsertNode { document_id: d, node: &graph.nodes[0] });
    store = store.advance(StoreEvent::NodeCreated(jane));
    assert_eq!(store.action(), StoreAction::InsertNode { document_id: d, node: &graph.nodes[1] });
    store = store.advance(StoreEvent::NodeCreated(acme));
    assert_eq!(
        store.action(),
        StoreAction::InsertEdge {
            document_id: d,
            source_node_id: jane,
            target_node_id: acme,
            edge: &graph.edges[0],
        }
    );
    store = store.advance(StoreEvent::Succeeded);
    assert_eq!(store.action(), StoreAction::Commit);
    assert!(!store.is_finished());
    store = store.advance(StoreEvent::Succeeded);
    assert_eq!(store.action(), StoreAction::Complete);
    assert!(store.is_finished());
    assert_eq!(store.finish().ok(), Some((graph, Ok(()))));
}

#[test]
fn replace_then_read_gives_the_graph() {
    let d = doc(1);
    let mut db = Database::new();
    let (graph, result) = db.replace(d, jane_at_acme());
    assert_eq!(result, Ok(()));
    assert_eq!(graph, jane_at_acme());
    let nodes = db.nodes_of(d);
    let edges = db.edges_of(d);
    assert_eq!(nodes.len(), 2);
    assert_eq!(edges.len(), 1);
    for (row, node) in nodes.iter().zip(graph.nodes.iter()) {
        assert_eq!(row.label, node.label);
        assert_eq!(row.name, node.name);
        assert_eq!(row.properties, node.properties);
        assert_eq!(row.document_id, d);
    }
    assert_ne!(nodes[0].id, nodes[1].id);
    assert_eq!(edges[0].source_node_id, nodes[0].id);
    assert_eq!(edges[0].target_node_id, nodes[1].id);
    assert_eq!(edges[0].relationship, "WORKS_FOR");
    assert_eq!(edges[0].properties, object("via", "WORKS_FOR"));
    assert_eq!(db.committed.nodes.len(), 2);
    assert_eq!(db.committed.edges.len(), 1);
}

#[test]
fn replace_twice_leaves_only_the_second_graph() {
    let d = doc(1);
    let mut db = Database::new();
    assert_eq!(db.replace(d, jane_at_acme()).1, Ok(()));
    let first_ids: Vec<Uuid> = db.nodes_of(d).iter().map(|row| row.id).collect();
    let second = GraphData {
        nodes: vec![node("City", "Oslo")],
        edges: vec![edge("Oslo", "Oslo", "NEAR")],
    };
    assert_eq!(db.replace(d, second).1, Ok(()));
    let nodes = db.nodes_of(d);
    let edges = db.edges_of(d);
    assert_eq!(nodes.len(), 1);
    assert_eq!(nodes[0].name, "Oslo");
    assert!(!first_ids.contains(&nodes[0].id));
    assert_eq!(edges.len(), 1);
    assert_eq!(edges[0].source_node_id, nodes[0].id);
    assert_eq!(edges[0].target_node_id, nodes[0].id);
    assert_eq!(db.committed.nodes.len(), 1);
    assert_eq!(db.committed.edges.len(), 1);
}

#[test]
fn replace_with_the_same_graph_twice_keeps_one_copy() {
    let d = doc(1);
    let mut db = Database::new();
    assert_eq!(db.replace(d, jane_at_acme()).1, Ok(()));
    assert_eq!(db.replace(d, jane_at_acme()).1, Ok(()));
    assert_eq!(db.committed.nodes.len(), 2);
    assert_eq!(db.committed.edges.len(), 1);
    let nodes = db.nodes_of(d);
    assert_eq!(nodes[0].id, Uuid::from_u128(3));
    assert_eq!(nodes[1].id, Uuid::from_u128(4));
    assert_eq!(db.edges_of(d)[0].source_node_id, nodes[0].id);
}

#[test]
fn other_documents_are_not_touched() {
    let mut db = Database::new();
    assert_eq!(db.replace(doc(1), jane_at_acme()).1, Ok(()));
    let before_nodes = db.nodes_of(doc(1));
    let before_edges = db.edges_of(doc(1));
    let other = GraphData { nodes: vec![node("City", "Oslo")], edges: vec![] };
    assert_eq!(db.replace(doc(2), other).1, Ok(()));
    assert_eq!(db.nodes_of(doc(1)), before_nodes);
    assert_eq!(db.edges_of(doc(1)), before_edges);
    assert_eq!(db.nodes_of(doc(2)).len(), 1);
    assert_eq!(db.replace(doc(2), GraphData { nodes: vec![], edges: vec![] }).1, Ok(()));
    assert_eq!(db.nodes_of(doc(1)), before_nodes);
    assert_eq!(db.edges_of(doc(1)), before_edges);
    assert_eq!(db.nodes_of(doc(2)).len(), 0);
}

#[test]
fn empty_graph_clears_the_document() {
    let d = doc(1);
    let mut db = Database::new();
    assert_eq!(db.replace(d, jane_at_acme()).1, Ok(()));
    let mut store = GraphStore::replace(d, GraphData { nodes: vec![], edges: vec![] });
    assert_eq!(store.action(), StoreAction::Begin);
    store = store.advance(StoreEvent::Succeeded);
    assert_eq!(store.action(), StoreAction::ClearDocument { document_id: d });
    store = store.advance(StoreEvent::Succeeded);
    assert_eq!(store.action(), StoreAction::Commit);
    assert_eq!(db.replace(d, GraphData { nodes: vec![], edges: vec![] }).1, Ok(()));
    assert_eq!(db.committed, Tables::default());
}

#[test]
fn dangling_source_is_rejected_and_nothing_is_stored() {
    let d = doc(1);
    let mut db = Database::new();
    let graph = GraphData { nodes: vec![node("Company", "Y")], edges: vec![edge("X", "Y", "OWNS")] };
    let (_, result) = db.replace(d, graph);
    let error = StoreError::DanglingReference { endpoint: Endpoint::Source, name: "X".to_string() };
    assert_eq!(error.message(), "Source node X not found");
    assert_eq!(result, Err(error));
    assert_eq!(db.committed, Tables::default());
}

#[test]
fn dangling_target_is_rejected_and_prior_state_is_kept() {
    let d = doc(1);
    let mut db = Database::new();
    assert_eq!(db.replace(d, jane_at_acme()).1, Ok(()));
    let before = db.committed.clone();
    let graph = GraphData {
        nodes: vec![node("Person", "Jane"), node("Company", "Acme")],
        edges: vec![edge("Jane", "Acme", "WORKS_FOR"), edge("Acme", "Globex", "OWNS")],
    };
    let (_, result) = db.replace(d, graph);
    let error = StoreError::DanglingReference { endpoint: Endpoint::Target, name: "Globex".to_string() };
    assert_eq!(error.message(), "Target node Globex not found");
    assert_eq!(result, Err(error));
    assert_eq!(db.committed, before);
}

#[test]
fn store_reports_what_validation_reports() {
    let graphs = [
        GraphData { nodes: vec![], edges: vec![edge("X", "Y", "R")] },
        GraphData { nodes: vec![node("N", "X")], edges: vec![edge("X", "Y", "R")] },
        GraphData {
            nodes: vec![node("N", "A"), node("N", "B")],
            edges: vec![edge("A", "B", "R"), edge("B", "C", "R"), edge("D", "A", "R")],
        },
    ];
    for graph in graphs {
        let invalid = graph.validate().unwrap_err();
        let mut db = Database::new();
        let (_, result) = db.replace(doc(1), graph);
        assert_eq!(
            result,
            Err(StoreError::DanglingReference { endpoint: invalid.endpoint, name: invalid.name })
        );
        assert_eq!(db.committed, Tables::default());
    }
}

#[test]
fn failure_at_any_statement_keeps_the_prior_state() {
    let d = doc(1);
    let graph = || GraphData {
        nodes: vec![node("Person", "Jane"), node("Company", "Acme")],
        edges: vec![edge("Jane", "Acme", "WORKS_FOR"), edge("Acme", "Jane", "EMPLOYS")],
    };
    for failing in 1..=7 {
        let mut db = Database::new();
        assert_eq!(db.replace(d, jane_at_acme()).1, Ok(()));
        assert_eq!(db.replace(doc(2), jane_at_acme()).1, Ok(()));
        let before = db.committed.clone();
        db.statements = 0;
        db.fail_at = Some(failing);
        let (returned, result) = db.replace(d, graph());
        let cause = format!("statement {} failed", failing);
        let expected = if failing == 1 || failing == 7 {
            StoreError::Transaction(cause.clone())
        } else {
            StoreError::Storage(cause.clone())
        };
        assert_eq!(expected.message(), cause);
        assert_eq!(result, Err(expected));
        assert_eq!(returned, graph());
        assert_eq!(db.committed, before);
        assert_eq!(db.statements, failing);
    }
    let mut db = Database::new();
    db.fail_at = Some(8);
    assert_eq!(db.replace(d, graph()).1, Ok(()));
}

#[test]
fn later_node_takes_the_name() {
    let d = doc(1);
    let mut db = Database::new();
    let graph = GraphData {
        nodes: vec![node("Person", "Jane"), node("Company", "Acme"), node("Author", "Jane")],
        edges: vec![edge("Jane", "Acme", "WORKS_FOR")],
    };
    assert_eq!(db.replace(d, graph).1, Ok(()));
    let nodes = db.nodes_of(d);
    assert_eq!(nodes.len(), 3);
    assert_eq!(nodes[2].label, "Author");
    let edges = db.edges_of(d);
    assert_eq!(edges[0].source_node_id, nodes[2].id);
    assert_eq!(edges[0].target_node_id, nodes[1].id);
}

#[test]
fn edges_keep_their_order_and_duplicates() {
    let d = doc(1);
    let mut db = Database::new();
    let graph = GraphData {
        nodes: vec![node("Person", "A"), node("Person", "B")],
        edges: vec![edge("A", "B", "KNOWS"), edge("B", "A", "KNOWS"), edge("A", "B", "KNOWS")],
    };
    assert_eq!(db.replace(d, graph).1, Ok(()));
    let nodes = db.nodes_of(d);
    let edges = db.edges_of(d);
    assert_eq!(edges.len(), 3);
    assert_eq!((edges[0].source_node_id, edges[0].target_node_id), (nodes[0].id, nodes[1].id));
    assert_eq!((edges[1].source_node_id, edges[1].target_node_id), (nodes[1].id, nodes[0].id));
    assert_eq!(edges[0], edges[2]);
}

#[test]
fn event_out_of_turn_aborts_the_replace() {
    let d = doc(1);
    let unexpected = "unexpected reply".to_string();
    let store = GraphStore::replace(d, jane_at_acme()).advance(StoreEvent::NodeCreated(doc(9)));
    assert_eq!(store.action(), StoreAction::Abort(&StoreError::Transaction(unexpected.clone())));
    let store = GraphStore::replace(d, jane_at_acme())
        .advance(StoreEvent::Succeeded)
        .advance(StoreEvent::NodeCreated(doc(9)));
    assert_eq!(store.action(), StoreAction::Abort(&StoreError::Storage(unexpected.clone())));
    let store = GraphStore::replace(d, jane_at_acme())
        .advance(StoreEvent::Succeeded)
        .advance(StoreEvent::Succeeded)
        .advance(StoreEvent::Succeeded);
    assert_eq!(store.action(), StoreAction::Abort(&StoreError::Storage(unexpected.clone())));
    let store = GraphStore::replace(d, jane_at_acme())
        .advance(StoreEvent::Succeeded)
        .advance(StoreEvent::Succeeded)
        .advance(StoreEvent::NodeCreated(doc(8)))
        .advance(StoreEvent::NodeCreated(doc(9)))
        .advance(StoreEvent::NodeCreated(doc(10)));
    assert_eq!(store.action(), StoreAction::Abort(&StoreError::Storage(unexpected.clone())));
    let store = GraphStore::replace(d, GraphData { nodes: vec![], edges: vec![] })
        .advance(StoreEvent::Succeeded)
        .advance(StoreEvent::Succeeded)
        .advance(StoreEvent::NodeCreated(doc(9)));
    assert!(store.is_finished());
    assert_eq!(store.action(), StoreAction::Abort(&StoreError::Transaction(unexpected)));
}

#[test]
fn finished_replace_stays_as_it_is() {
    let d = doc(1);
    let done = GraphStore::replace(d, GraphData { nodes: vec![], edges: vec![] })
        .advance(StoreEvent::Succeeded)
        .advance(StoreEvent::Succeeded)
        .advance(StoreEvent::Succeeded);
    assert_eq!(done.action(), StoreAction::Complete);
    let done = done.advance(StoreEvent::Failed("late".to_string()));
    assert_eq!(done.action(), StoreAction::Complete);
    let failed = GraphStore::replace(d, jane_at_acme()).advance(StoreEvent::Failed("down".to_string()));
    assert_eq!(failed.action(), StoreAction::Abort(&StoreError::Transaction("down".to_string())));
    let failed = failed.advance(StoreEvent::Succeeded);
    assert_eq!(failed.action(), StoreAction::Abort(&StoreError::Transaction("down".to_string())));
    assert_eq!(
        failed.finish().ok(),
        Some((jane_at_acme(), Err(StoreError::Transaction("down".to_string()))))
    );
}

#[test]
fn unfinished_replace_is_handed_back() {
    let d = doc(1);
    let store = GraphStore::replace(d, jane_at_acme()).advance(StoreEvent::Succeeded);
    match store.finish() {
        Ok(_) => panic!("the replace is not over"),
        Err(store) => {
            assert_eq!(store.action(), StoreAction::ClearDocument { document_id: d });
            assert_eq!(store.graph(), &jane_at_acme());
        }
    }
}
