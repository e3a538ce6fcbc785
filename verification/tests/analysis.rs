use knowledge_graph::extraction::{
    fallback_graph, Extraction, ExtractionError, ExtractionEvent, ParseError,
};
use knowledge_graph::graph::{Endpoint, GraphData, GraphEdge, GraphNode};
use knowledge_graph::service::{
    Analysis, AnalysisAction, AnalysisError, AnalysisEvent, DocumentText, LLMService,
};
use knowledge_graph::store::{StoreAction, StoreError, StoreEvent};
use serde_json::Value;
use uuid::Uuid;

const JANE_JSON: &str = "{\"nodes\":[{\"label\":\"Person\",\"name\":\"Jane\",\"properties\":{}},{\"label\":\"Company\",\"name\":\"Acme\",\"properties\":{}}],\"edges\":[{\"source\":\"Jane\",\"target\":\"Acme\",\"relationship\":\"WORKS_FOR\",\"properties\":{}}]}";

#[derive(Debug, Clone, PartialEq)]
struct NodeRow {
    id: Uuid,
    document_id: Uuid,
    label: String,
    name: String,
    properties: Value,
}

#[derive(Debug, Clone, PartialEq)]
struct EdgeRow {
    document_id: Uuid,
    source_node_id: Uuid,
    target_node_id: Uuid,
    relationship: String,
    properties: Value,
}

#[derive(Debug, Clone, PartialEq, Default)]
struct Tables {
    nodes: Vec<NodeRow>,
    edges: Vec<EdgeRow>,
}

/// The world around an analysis: a document, a model that answers with a
/// status and a body, and tables in memory.
struct World {
    document: Result<Option<DocumentText>, String>,
    status: Result<u16, String>,
    body: Result<String, String>,
    committed: Tables,
    working: Option<Tables>,
    next_id: u128,
    fail_commit: bool,
    requests: Vec<(String, String, String, String, String)>,
    decoded: Vec<String>,
    fetched: Vec<Uuid>,
}

fn field(value: &Value, key: &str) -> Result<String, String> {
    value[key].as_str().map(|s| s.to_string()).ok_or(format!("missing field `{}`", key))
}

fn decode(text: &str) -> Result<GraphData, String> {
    let value: Value = serde_json::from_str(text).map_err(|e| e.to_string())?;
    let nodes = value["nodes"].as_array().ok_or("missing field `nodes`")?;
    let edges = value["edges"].as_array().ok_or("missing field `edges`")?;
    let mut graph = GraphData { nodes: vec![], edges: vec![] };
    for n in nodes {
        graph.nodes.push(GraphNode {
            label: field(n, "label")?,
            name: field(n, "name")?,
            properties: n["properties"].clone(),
        });
    }
    for e in edges {
        graph.edges.push(GraphEdge {
            source: field(e, "source")?,
            target: field(e, "target")?,
            relationship: field(e, "relationship")?,
            properties: e["properties"].clone(),
        });
    }
    Ok(graph)
}

fn completion(content: &str) -> String {
    let mut message = serde_json::Map::new();
    message.insert("content".to_string(), Value::String(content.to_string()));
    let mut choice = serde_json::Map::new();
    choice.insert("message".to_string(), Value::Object(message));
    let mut body = serde_json::Map::new();
    body.insert("choices".to_string(), Value::Array(vec![Value::Object(choice)]));
    Value::Object(body).to_string()
}

fn text_document(content: &str) -> Result<Option<DocumentText>, String> {
    Ok(Some(DocumentText { ocr_text: None, content: Some(content.to_string()) }))
}

impl World {
    fn new(document: Result<Option<DocumentText>, String>, content: &str) -> World {
        World {
            document,
            status: Ok(200),
            body: Ok(completion(content)),
            committed: Tables::default(),
            working: None,
            next_id: 1,
            fail_commit: false,
            requests: vec![],
            decoded: vec![],
            fetched: vec![],
        }
    }

    fn extract(&mut self, extraction: &Extraction) -> ExtractionEvent {
        match extraction {
            Extraction::Send(request) => {
                self.requests.push((
                    request.url.clone(),
                    request.authorization.clone(),
                    request.model.clone(),
                    request.system.clone(),
                    request.prompt.clone(),
                ));
                match &self.status {
                    Ok(status) => ExtractionEvent::Responded {
                        status: *status,
                        status_text: format!("{} status", status),
                    },
                    Err(cause) => ExtractionEvent::Failed(cause.clone()),
                }
            }
            Extraction::ReadBody => match &self.body {
                Ok(body) => match serde_json::from_str(body) {
                    Ok(value) => ExtractionEvent::Body(value),
                    Err(e) => ExtractionEvent::Failed(e.to_string()),
                },
                Err(cause) => ExtractionEvent::Failed(cause.clone()),
            },
            Extraction::Decode(text) => {
                self.decoded.push(text.clone());
                match decode(text) {
                    Ok(graph) => ExtractionEvent::Decoded(graph),
                    Err(cause) => ExtractionEvent::Failed(cause),
                }
            }
            Extraction::Done(_) | Extraction::Failed(_) => unreachable!(),
        }
    }

    fn store(&mut self, action: &StoreAction<'_>) -> StoreEvent {
        match action {
            StoreAction::Begin => {
                self.working = Some(self.committed.clone());
                StoreEvent::Succeeded
            }
            StoreAction::ClearDocument { document_id } => {
                let tables = self.working.as_mut().unwrap();
                tables.nodes.retain(|row| row.document_id != *document_id);
                tables.edges.retain(|row| row.document_id != *document_id);
                StoreEvent::Succeeded
            }
            StoreAction::InsertNode { document_id, node } => {
                let id = Uuid::from_u128(self.next_id);
                self.next_id += 1;
                self.working.as_mut().unwrap().nodes.push(NodeRow {
                    id,
                    document_id: *document_id,
                    label: node.label.clone(),
                    name: node.name.clone(),
                    properties: node.properties.clone(),
                });
                StoreEvent::NodeCreated(id)
            }
            StoreAction::InsertEdge { document_id, source_node_id, target_node_id, edge } => {
                self.working.as_mut().unwrap().edges.push(EdgeRow {
                    document_id: *document_id,
                    source_node_id: *source_node_id,
                    target_node_id: *target_node_id,
                    relationship: edge.relationship.clone(),
                    properties: edge.properties.clone(),
                });
                StoreEvent::Succeeded
            }
            StoreAction::Commit => {
                if self.fail_commit {
                    return StoreEvent::Failed("commit failed".to_string());
                }
                self.committed = self.working.take().unwrap();
                StoreEvent::Succeeded
            }
            StoreAction::Complete | StoreAction::Abort(_) => unreachable!(),
        }
    }

    fn run(&mut self, mut analysis: Analysis<'_>) -> Result<GraphData, AnalysisError> {
        while !analysis.is_finished() {
            let event = match analysis.action() {
                AnalysisAction::FetchDocument { document_id } => {
                    self.fetched.push(document_id);
                    match std::mem::replace(&mut self.document, Ok(None)) {
                        Ok(document) => AnalysisEvent::Document(document),
                        Err(cause) => AnalysisEvent::Failed(cause),
                    }
                }
                AnalysisAction::Extract(extraction) => {
                    AnalysisEvent::Extraction(self.extract(extraction))
                }
                AnalysisAction::Store(action) => AnalysisEvent::Store(self.store(&action)),
                AnalysisAction::Finish(_) => unreachable!(),
            };
            analysis = analysis.advance(event);
        }
        self.working = None;
        match analysis.finish() {
            Ok(result) => result,
            Err(_) => unreachable!(),
        }
    }
}

fn with_key() -> LLMService {
    LLMService::new(Some("SECRET-REDACTED".to_string()), None, None)
}

fn without_key() -> LLMService {
    LLMService::new(None, None, None)
}

fn doc() -> Uuid {
    Uuid::from_u128(0xD0C)
}

#[test]
fn service_defaults() {
    let service = without_key();
    assert!(!service.has_api_key());
    assert!(with_key().has_api_key());
    match with_key().extract("text") {
        Extraction::Send(request) => {
            assert_eq!(request.url, "https://api.openai.com/v1/chat/completions");
            assert_eq!(request.model, "gpt-3.5-turbo");
            assert_eq!(request.authorization, "Bearer SECRET-REDACTED");
            assert_eq!(
                request.system,
                "You are a helpful assistant that extracts knowledge graphs from text."
            );
            assert!(request.prompt.ends_with("Text: text"));
        }
        other => panic!("unexpected {:?}", other),
    }
}

#[test]
fn service_takes_what_is_configured() {
    let service = LLMService::new(
        Some("k".to_string()),
        Some("http://localhost:8080/complete".to_string()),
        Some("tiny".to_string()),
    );
    match service.extract("") {
        Extraction::Send(request) => {
            assert_eq!(request.url, "http://localhost:8080/complete");
            assert_eq!(request.model, "tiny");
            assert_eq!(request.authorization, "Bearer k");
        }
        other => panic!("unexpected {:?}", other),
    }
    let copy = service.clone();
    assert_eq!(copy.extract("a"), service.extract("a"));
}

#[test]
fn extract_without_key_ignores_the_text() {
    let service = without_key();
    let texts = ["", "Jane works at Acme.", "```json\n{}\n```", "\u{1F600}"];
    for text in texts {
        assert_eq!(service.extract(text), Extraction::Done(fallback_graph()));
    }
    let configured = LLMService::new(None, Some("http://x".to_string()), Some("m".to_string()));
    assert_eq!(configured.extract("anything"), Extraction::Done(fallback_graph()));
}

#[test]
fn analysis_begins_with_the_lookup() {
    let service = with_key();
    let analysis = service.analyze_document(doc());
    assert!(!analysis.is_finished());
    assert_eq!(analysis.action(), AnalysisAction::FetchDocument { document_id: doc() });
    match analysis.finish() {
        Ok(_) => panic!("the analysis is not over"),
        Err(analysis) => {
            assert_eq!(analysis.action(), AnalysisAction::FetchDocument { document_id: doc() })
        }
    }
}

#[test]
fn missing_document_is_not_found() {
    let service = with_key();
    let mut world = World::new(Ok(None), JANE_JSON);
    let result = world.run(service.analyze_document(doc()));
    assert_eq!(result, Err(AnalysisError::NotFound));
    assert_eq!(AnalysisError::NotFound.message(), "Document not found");
    assert_eq!(world.fetched, vec![doc()]);
    assert!(world.requests.is_empty());
    assert_eq!(world.committed, Tables::default());
}

#[test]
fn document_without_text_has_no_content() {
    let service = with_key();
    let empty = DocumentText { ocr_text: None, content: None };
    let mut world = World::new(Ok(Some(empty)), JANE_JSON);
    let result = world.run(service.analyze_document(doc()));
    assert_eq!(result, Err(AnalysisError::NoContent));
    assert_eq!(AnalysisError::NoContent.message(), "No content to analyze");
    assert!(world.requests.is_empty());
}

#[test]
fn failed_lookup_is_a_storage_error() {
    let service = with_key();
    let mut world = World::new(Err("pool timed out".to_string()), JANE_JSON);
    let result = world.run(service.analyze_document(doc()));
    let error = AnalysisError::Storage(StoreError::Storage("pool timed out".to_string()));
    assert_eq!(error.message(), "pool timed out");
    assert_eq!(result, Err(error));
}

#[test]
fn recognised_text_is_preferred() {
    let both = DocumentText {
        ocr_text: Some("from the scan".to_string()),
        content: Some("from the file".to_string()),
    };
    assert_eq!(both.into_analyzable(), Some("from the scan".to_string()));
    let stored = DocumentText { ocr_text: None, content: Some("from the file".to_string()) };
    assert_eq!(stored.into_analyzable(), Some("from the file".to_string()));
    let scanned = DocumentText { ocr_text: Some(String::new()), content: Some("x".to_string()) };
    assert_eq!(scanned.into_analyzable(), Some(String::new()));
    assert_eq!(DocumentText { ocr_text: None, content: None }.into_analyzable(), None);

    let service = with_key();
    let document = DocumentText {
        ocr_text: Some("from the scan".to_string()),
        content: Some("from the file".to_string()),
    };
    let mut world = World::new(Ok(Some(document)), JANE_JSON);
    assert!(world.run(service.analyze_document(doc())).is_ok());
    assert_eq!(world.requests.len(), 1);
    assert!(world.requests[0].4.ends_with("Text: from the scan"));
}

#[test]
fn jane_works_at_acme() {
    let service = with_key();
    let mut world = World::new(text_document("Jane works at Acme."), JANE_JSON);
    let result = world.run(service.analyze_document(doc()));
    let graph = result.unwrap();
    assert_eq!(graph, decode(JANE_JSON).unwrap());
    assert_eq!(world.requests.len(), 1);
    assert!(world.requests[0].4.ends_with("Text: Jane works at Acme."));
    assert_eq!(world.decoded, vec![JANE_JSON.to_string()]);
    assert_eq!(world.committed.nodes.len(), 2);
    assert_eq!(world.committed.edges.len(), 1);
    let jane = &world.committed.nodes[0];
    let acme = &world.committed.nodes[1];
    assert_eq!((jane.label.as_str(), jane.name.as_str()), ("Person", "Jane"));
    assert_eq!((acme.label.as_str(), acme.name.as_str()), ("Company", "Acme"));
    assert_eq!(jane.document_id, doc());
    assert_eq!(acme.document_id, doc());
    let edge = &world.committed.edges[0];
    assert_eq!(edge.source_node_id, jane.id);
    assert_eq!(edge.target_node_id, acme.id);
    assert_eq!(edge.relationship, "WORKS_FOR");
    assert_eq!(edge.document_id, doc());
}

#[test]
fn fenced_answer_gives_the_same_graph() {
    let service = with_key();
    let fenced = format!("```json\n{}\n```", JANE_JSON);
    let mut world = World::new(text_document("Jane works at Acme."), &fenced);
    let graph = world.run(service.analyze_document(doc())).unwrap();
    assert_eq!(graph, decode(JANE_JSON).unwrap());
    assert_eq!(world.decoded, vec![JANE_JSON.to_string()]);
    assert_eq!(world.committed.nodes.len(), 2);
}

#[test]
fn answer_fenced_under_another_tag_gives_the_same_graph() {
    let service = with_key();
    let fenced = format!("```javascript\n{}\n```", JANE_JSON);
    let mut world = World::new(text_document("Jane works at Acme."), &fenced);
    let graph = world.run(service.analyze_document(doc())).unwrap();
    assert_eq!(graph, decode(JANE_JSON).unwrap());
    assert_eq!(world.decoded, vec![JANE_JSON.to_string()]);
    assert_eq!(world.committed.nodes.len(), 2);
    assert_eq!(world.committed.edges.len(), 1);
}

#[test]
fn analysis_without_key_stores_the_fallback() {
    let service = without_key();
    for text in ["Jane works at Acme.", "something else entirely"] {
        let mut world = World::new(text_document(text), JANE_JSON);
        let graph = world.run(service.analyze_document(doc())).unwrap();
        assert_eq!(graph, fallback_graph());
        assert!(world.requests.is_empty());
        assert!(world.decoded.is_empty());
        assert_eq!(world.committed.nodes.len(), 2);
        assert_eq!(world.committed.nodes[0].name, "John Doe");
        assert_eq!(world.committed.nodes[1].name, "Readur Corp");
        assert_eq!(world.committed.edges.len(), 1);
        assert_eq!(world.committed.edges[0].source_node_id, world.committed.nodes[0].id);
        assert_eq!(world.committed.edges[0].target_node_id, world.committed.nodes[1].id);
    }
}

#[test]
fn upstream_error_ends_the_analysis() {
    let service = with_key();
    let mut world = World::new(text_document("Jane works at Acme."), JANE_JSON);
    world.status = Ok(503);
    let result = world.run(service.analyze_document(doc()));
    let error = AnalysisError::Extraction(ExtractionError::Upstream {
        status: 503,
        status_text: "503 status".to_string(),
    });
    assert_eq!(error.message(), "LLM API returned error: 503 status");
    assert_eq!(result, Err(error));
    assert_eq!(world.requests.len(), 1);
    assert_eq!(world.committed, Tables::default());
}

#[test]
fn transport_error_ends_the_analysis() {
    let service = with_key();
    let mut world = World::new(text_document("x"), JANE_JSON);
    world.status = Err("dns failure".to_string());
    let result = world.run(service.analyze_document(doc()));
    let error = AnalysisError::Extraction(ExtractionError::Transport("dns failure".to_string()));
    assert_eq!(error.message(), "Failed to send request to LLM: dns failure");
    assert_eq!(result, Err(error));
    assert_eq!(world.requests.len(), 1);
}

#[test]
fn malformed_answer_is_a_parse_error() {
    let service = with_key();
    let mut world = World::new(text_document("x"), "{\"nodes\": [");
    let result = world.run(service.analyze_document(doc()));
    match result {
        Err(AnalysisError::Extraction(ExtractionError::Parse(ParseError::Graph(cause)))) => {
            assert!(cause.contains("EOF"), "{}", cause)
        }
        other => panic!("unexpected {:?}", other),
    }
    assert_eq!(world.committed, Tables::default());

    let mut world = World::new(text_document("x"), "{\"nodes\": []}");
    let result = world.run(service.analyze_document(doc()));
    assert_eq!(
        result,
        Err(AnalysisError::Extraction(ExtractionError::Parse(ParseError::Graph(
            "missing field `edges`".to_string()
        ))))
    );

    let mut world = World::new(text_document("x"), JANE_JSON);
    world.body = Ok("{\"choices\": []}".to_string());
    let result = world.run(service.analyze_document(doc()));
    assert_eq!(
        result,
        Err(AnalysisError::Extraction(ExtractionError::Parse(ParseError::MissingContent)))
    );

    let mut world = World::new(text_document("x"), JANE_JSON);
    world.body = Err("body cut short".to_string());
    let result = world.run(service.analyze_document(doc()));
    assert_eq!(
        result,
        Err(AnalysisError::Extraction(ExtractionError::Parse(ParseError::Body(
            "body cut short".to_string()
        ))))
    );
}

#[test]
fn dangling_reference_ends_the_analysis_and_stores_nothing() {
    let service = with_key();
    let answer = "{\"nodes\":[{\"label\":\"Company\",\"name\":\"Y\",\"properties\":{}}],\"edges\":[{\"source\":\"X\",\"target\":\"Y\",\"relationship\":\"OWNS\",\"properties\":{}}]}";
    let mut world = World::new(text_document("X owns Y."), answer);
    let result = world.run(service.analyze_document(doc()));
    let error = AnalysisError::Storage(StoreError::DanglingReference {
        endpoint: Endpoint::Source,
        name: "X".to_string(),
    });
    assert_eq!(error.message(), "Source node X not found");
    assert_eq!(result, Err(error));
    assert_eq!(world.committed, Tables::default());
}

#[test]
fn failed_commit_returns_no_graph() {
    let service = with_key();
    let mut world = World::new(text_document("Jane works at Acme."), JANE_JSON);
    world.fail_commit = true;
    let result = world.run(service.analyze_document(doc()));
    assert_eq!(
        result,
        Err(AnalysisError::Storage(StoreError::Transaction("commit failed".to_string())))
    );
    assert_eq!(world.committed, Tables::default());
}

#[test]
fn reanalysis_replaces_the_graph() {
    let service = with_key();
    let mut world = World::new(text_document("Jane works at Acme."), JANE_JSON);
    assert!(world.run(service.analyze_document(doc())).is_ok());
    let first: Vec<Uuid> = world.committed.nodes.iter().map(|row| row.id).collect();
    world.document = text_document("Jane works at Acme.");
    assert!(world.run(service.analyze_document(doc())).is_ok());
    assert_eq!(world.committed.nodes.len(), 2);
    assert_eq!(world.committed.edges.len(), 1);
    for row in &world.committed.nodes {
        assert!(!first.contains(&row.id));
    }
    assert_eq!(world.committed.edges[0].source_node_id, world.committed.nodes[0].id);
}

#[test]
fn event_out_of_turn_ends_the_analysis() {
    let service = with_key();
    let analysis =
        service.analyze_document(doc()).advance(AnalysisEvent::Store(StoreEvent::Succeeded));
    assert_eq!(
        analysis.finish().ok(),
        Some(Err(AnalysisError::Storage(StoreError::Storage("unexpected reply".to_string()))))
    );
    let analysis = service
        .analyze_document(doc())
        .advance(AnalysisEvent::Document(Some(DocumentText {
            ocr_text: Some("t".to_string()),
            content: None,
        })))
        .advance(AnalysisEvent::Store(StoreEvent::Succeeded));
    assert_eq!(
        analysis.finish().ok(),
        Some(Err(AnalysisError::Extraction(ExtractionError::Transport(
            "unexpected reply".to_string()
        ))))
    );
    let idle = without_key();
    let analysis = idle
        .analyze_document(doc())
        .advance(AnalysisEvent::Document(Some(DocumentText {
            ocr_text: Some("t".to_string()),
            content: None,
        })))
        .advance(AnalysisEvent::Failed("connection lost".to_string()));
    assert_eq!(
        analysis.finish().ok(),
        Some(Err(AnalysisError::Storage(StoreError::Transaction("connection lost".to_string()))))
    );
}

#[test]
fn finished_analysis_stays_as_it_is() {
    let service = with_key();
    let analysis = service.analyze_document(doc()).advance(AnalysisEvent::Document(None));
    assert!(analysis.is_finished());
    assert_eq!(analysis.action(), AnalysisAction::Finish(&Err(AnalysisError::NotFound)));
    let analysis = analysis.advance(AnalysisEvent::Document(Some(DocumentText {
        ocr_text: Some("t".to_string()),
        content: None,
    })));
    assert_eq!(analysis.action(), AnalysisAction::Finish(&Err(AnalysisError::NotFound)));
    assert_eq!(analysis.finish().ok(), Some(Err(AnalysisError::NotFound)));
}
