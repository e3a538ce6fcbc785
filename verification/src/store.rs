//! Replacing the stored graph of a document, as one transaction.
//!
//! A [`GraphStore`] never touches the database. It says which statement comes
//! next ([`GraphStore::action`]), is told how that statement went
//! ([`GraphStore::advance`]), and so walks through the transaction: begin,
//! clear the document's rows, insert each node and remember the identifier it
//! was given, insert each edge between the identifiers of the nodes it names,
//! commit. The first failure ends the walk, and the transaction is abandoned.

use crate::graph::{
    dangling_message, describe_dangling, Endpoint, GraphData, GraphDataView, GraphEdge,
    GraphEdgeView, GraphNode, GraphNodeView,
};
use crate::protocol::{unexpected_reply, unexpected_reply_text};
use uuid::Uuid;
use vstd::hash_map::StringHashMap;
use vstd::prelude::*;

verus! {

/// Why a replace did not go through.
#[derive(Debug, PartialEq, Eq)]
pub enum StoreError {
    /// The transaction could not be begun or committed; the cause is attached.
    Transaction(String),
    /// An edge names a node that was not inserted in this transaction.
    DanglingReference { endpoint: Endpoint, name: String },
    /// A statement failed; the cause is attached.
    Storage(String),
}

/// A store error, as a mathematical value.
pub enum StoreErrorView {
    Transaction(Seq<char>),
    DanglingReference { endpoint: Endpoint, name: Seq<char> },
    Storage(Seq<char>),
}

impl View for StoreError {
    type V = StoreErrorView;

    open spec fn view(&self) -> StoreErrorView {
        match self {
            StoreError::Transaction(cause) => StoreErrorView::Transaction(cause@),
            StoreError::DanglingReference { endpoint, name } => StoreErrorView::DanglingReference {
                endpoint: *endpoint,
                name: name@,
            },
            StoreError::Storage(cause) => StoreErrorView::Storage(cause@),
        }
    }
}

impl StoreErrorView {
    /// The sentence that reports this error: the cause as it was given, or
    /// the unknown name and the end of the edge it stands at.
    pub open spec fn message(self) -> Seq<char> {
        match self {
            StoreErrorView::Transaction(cause) => cause,
            StoreErrorView::DanglingReference { endpoint, name } => dangling_message(
                endpoint,
                name,
            ),
            StoreErrorView::Storage(cause) => cause,
        }
    }
}

impl StoreError {
    /// The sentence that reports this error.
    pub fn message(&self) -> (text: String)
        ensures
            text@ == self@.message(),
    {
        match self {
            StoreError::Transaction(cause) => cause.clone(),
            StoreError::DanglingReference { endpoint, name } => describe_dangling(
                *endpoint,
                name.as_str(),
            ),
            StoreError::Storage(cause) => cause.clone(),
        }
    }
}

/// How the statement that was asked for went.
#[derive(Debug, PartialEq, Eq)]
pub enum StoreEvent {
    /// It went through.
    Succeeded,
    /// A node row was inserted and given this identifier.
    NodeCreated(Uuid),
    /// It failed, for this cause.
    Failed(String),
}

/// A store event, as a mathematical value.
pub enum StoreEventView {
    Succeeded,
    NodeCreated(Uuid),
    Failed(Seq<char>),
}

impl View for StoreEvent {
    type V = StoreEventView;

    open spec fn view(&self) -> StoreEventView {
        match self {
            StoreEvent::Succeeded => StoreEventView::Succeeded,
            StoreEvent::NodeCreated(id) => StoreEventView::NodeCreated(*id),
            StoreEvent::Failed(cause) => StoreEventView::Failed(cause@),
        }
    }
}

impl StoreEventView {
    /// Why the pending action failed, where this event is not the success
    /// that was awaited.
    pub open spec fn cause(self) -> Seq<char> {
        match self {
            StoreEventView::Failed(cause) => cause,
            _ => unexpected_reply(),
        }
    }
}

impl StoreEvent {
    /// Why the pending action failed, where this event is not the success
    /// that was awaited.
    fn cause(self) -> (cause: String)
        ensures
            cause@ == self@.cause(),
    {
        match self {
            StoreEvent::Failed(cause) => cause,
            _ => unexpected_reply_text(),
        }
    }
}

/// What the caller is to do next.
#[derive(Debug, PartialEq)]
pub enum StoreAction<'a> {
    /// Begin a transaction.
    Begin,
    /// Delete the node rows of the document, and with them its edge rows.
    ClearDocument { document_id: Uuid },
    /// Insert a node row and report the identifier it was given.
    InsertNode { document_id: Uuid, node: &'a GraphNode },
    /// Insert an edge row between two node rows.
    InsertEdge {
        document_id: Uuid,
        source_node_id: Uuid,
        target_node_id: Uuid,
        edge: &'a GraphEdge,
    },
    /// Commit the transaction.
    Commit,
    /// Nothing: the replace is committed.
    Complete,
    /// Abandon the transaction, if one is open, and report the error.
    Abort(&'a StoreError),
}

/// A store action, as a mathematical value.
pub enum StoreActionView {
    Begin,
    ClearDocument { document_id: Uuid },
    InsertNode { document_id: Uuid, node: GraphNodeView },
    InsertEdge {
        document_id: Uuid,
        source_node_id: Uuid,
        target_node_id: Uuid,
        edge: GraphEdgeView,
    },
    Commit,
    Complete,
    Abort(StoreErrorView),
}

impl<'a> View for StoreAction<'a> {
    type V = StoreActionView;

    open spec fn view(&self) -> StoreActionView {
        match self {
            StoreAction::Begin => StoreActionView::Begin,
            StoreAction::ClearDocument { document_id } => StoreActionView::ClearDocument {
                document_id: *document_id,
            },
            StoreAction::InsertNode { document_id, node } => StoreActionView::InsertNode {
                document_id: *document_id,
                node: node@,
            },
            StoreAction::InsertEdge {
                document_id,
                source_node_id,
                target_node_id,
                edge,
            } => StoreActionView::InsertEdge {
                document_id: *document_id,
                source_node_id: *source_node_id,
                target_node_id: *target_node_id,
                edge: edge@,
            },
            StoreAction::Commit => StoreActionView::Commit,
            StoreAction::Complete => StoreActionView::Complete,
            StoreAction::Abort(error) => StoreActionView::Abort(error@),
        }
    }
}

/// Where a replace stands.
enum Phase {
    Begin,
    Clear,
    Node(usize),
    Edge { index: usize, source_node_id: Uuid, target_node_id: Uuid },
    Commit,
    Completed,
    Aborted(StoreError),
}

/// Where a replace stands, as a mathematical value.
pub enum PhaseView {
    /// The transaction is to be begun.
    Begin,
    /// The document's old rows are to be deleted.
    Clear,
    /// The node at this position is to be inserted.
    Node(int),
    /// The edge at this position is to be inserted, between these rows.
    Edge { index: int, source_node_id: Uuid, target_node_id: Uuid },
    /// The transaction is to be committed.
    Commit,
    /// The replace is committed.
    Completed,
    /// The replace has failed.
    Aborted(StoreErrorView),
}

impl View for Phase {
    type V = PhaseView;

    closed spec fn view(&self) -> PhaseView {
        match self {
            Phase::Begin => PhaseView::Begin,
            Phase::Clear => PhaseView::Clear,
            Phase::Node(index) => PhaseView::Node(*index as int),
            Phase::Edge { index, source_node_id, target_node_id } => PhaseView::Edge {
                index: *index as int,
                source_node_id: *source_node_id,
                target_node_id: *target_node_id,
            },
            Phase::Commit => PhaseView::Commit,
            Phase::Completed => PhaseView::Completed,
            Phase::Aborted(error) => PhaseView::Aborted(error@),
        }
    }
}

/// A replace in progress, as a mathematical value.
pub struct GraphStoreView {
    /// The document whose graph is replaced.
    pub document_id: Uuid,
    /// The graph that is to be stored.
    pub graph: GraphDataView,
    /// The identifier of the row last inserted under each node name.
    pub node_ids: Map<Seq<char>, Uuid>,
    /// Where the replace stands.
    pub phase: PhaseView,
}

impl GraphStoreView {
    /// A replace that has not begun yet.
    pub open spec fn start(document_id: Uuid, graph: GraphDataView) -> GraphStoreView {
        GraphStoreView { document_id, graph, node_ids: Map::empty(), phase: PhaseView::Begin }
    }

    /// The positions that the phase speaks of exist in the graph.
    pub open spec fn wf(self) -> bool {
        match self.phase {
            PhaseView::Node(index) => 0 <= index < self.graph.nodes.len(),
            PhaseView::Edge { index, .. } => 0 <= index < self.graph.edges.len(),
            _ => true,
        }
    }

    /// The replace is over, one way or the other.
    pub open spec fn is_finished(self) -> bool {
        self.phase is Completed || self.phase is Aborted
    }

    /// The same replace in another phase.
    pub open spec fn at(self, phase: PhaseView) -> GraphStoreView {
        GraphStoreView { phase, ..self }
    }

    /// The replace once the nodes before `index` are inserted: the next node
    /// is due, or the first edge where no node is left.
    pub open spec fn at_node(self, index: int) -> GraphStoreView {
        if index < self.graph.nodes.len() {
            self.at(PhaseView::Node(index))
        } else {
            self.at_edge(0)
        }
    }

    /// The replace once all nodes and the edges before `index` are inserted.
    /// The next edge is due where both its ends were inserted under their
    /// names; the replace fails on the first end that was not, the source
    /// before the target; where no edge is left the commit is due.
    pub open spec fn at_edge(self, index: int) -> GraphStoreView {
        if index < self.graph.edges.len() {
            let edge = self.graph.edges[index];
            if !self.node_ids.contains_key(edge.source) {
                self.at(
                    PhaseView::Aborted(
                        StoreErrorView::DanglingReference {
                            endpoint: Endpoint::Source,
                            name: edge.source,
                        },
                    ),
                )
            } else if !self.node_ids.contains_key(edge.target) {
                self.at(
                    PhaseView::Aborted(
                        StoreErrorView::DanglingReference {
                            endpoint: Endpoint::Target,
                            name: edge.target,
                        },
                    ),
                )
            } else {
                self.at(
                    PhaseView::Edge {
                        index,
                        source_node_id: self.node_ids[edge.source],
                        target_node_id: self.node_ids[edge.target],
                    },
                )
            }
        } else {
            self.at(PhaseView::Commit)
        }
    }

    /// What the caller is to do in this state.
    pub open spec fn action(self) -> StoreActionView {
        match self.phase {
            PhaseView::Begin => StoreActionView::Begin,
            PhaseView::Clear => StoreActionView::ClearDocument { document_id: self.document_id },
            PhaseView::Node(index) => StoreActionView::InsertNode {
                document_id: self.document_id,
                node: self.graph.nodes[index],
            },
            PhaseView::Edge { index, source_node_id, target_node_id } => {
                StoreActionView::InsertEdge {
                    document_id: self.document_id,
                    source_node_id,
                    target_node_id,
                    edge: self.graph.edges[index],
                }
            },
            PhaseView::Commit => StoreActionView::Commit,
            PhaseView::Completed => StoreActionView::Complete,
            PhaseView::Aborted(error) => StoreActionView::Abort(error),
        }
    }

    /// The state that follows when the pending action went as `event` says.
    ///
    /// A finished replace stays as it is. The success that was awaited moves
    /// the replace on to the next statement; after a node insert, the new
    /// identifier first takes the place of any earlier one under the same
    /// name. Every other event ends the replace: with a transaction error
    /// where the transaction was being begun or committed, with a storage
    /// error elsewhere.
    pub open spec fn advance(self, event: StoreEventView) -> GraphStoreView {
        match self.phase {
            PhaseView::Completed => self,
            PhaseView::Aborted(_) => self,
            PhaseView::Begin => match event {
                StoreEventView::Succeeded => self.at(PhaseView::Clear),
                _ => self.at(PhaseView::Aborted(StoreErrorView::Transaction(event.cause()))),
            },
            PhaseView::Clear => match event {
                StoreEventView::Succeeded => self.at_node(0),
                _ => self.at(PhaseView::Aborted(StoreErrorView::Storage(event.cause()))),
            },
            PhaseView::Node(index) => match event {
                StoreEventView::NodeCreated(id) => GraphStoreView {
                    node_ids: self.node_ids.insert(self.graph.nodes[index].name, id),
                    ..self
                }.at_node(index + 1),
                _ => self.at(PhaseView::Aborted(StoreErrorView::Storage(event.cause()))),
            },
            PhaseView::Edge { index, .. } => match event {
                StoreEventView::Succeeded => self.at_edge(index + 1),
                _ => self.at(PhaseView::Aborted(StoreErrorView::Storage(event.cause()))),
            },
            PhaseView::Commit => match event {
                StoreEventView::Succeeded => self.at(PhaseView::Completed),
                _ => self.at(PhaseView::Aborted(StoreErrorView::Transaction(event.cause()))),
            },
        }
    }
}

/// The transaction that replaces the stored graph of one document.
pub struct GraphStore {
    document_id: Uuid,
    graph: GraphData,
    node_ids: StringHashMap<Uuid>,
    phase: Phase,
}

impl View for GraphStore {
    type V = GraphStoreView;

    closed spec fn view(&self) -> GraphStoreView {
        GraphStoreView {
            document_id: self.document_id,
            graph: self.graph@,
            node_ids: self.node_ids@,
            phase: self.phase@,
        }
    }
}

impl GraphStore {
    #[verifier::type_invariant]
    spec fn well_formed(self) -> bool {
        self@.wf()
    }

    /// Starts replacing the stored graph of `document_id` with `graph`.
    /// Nothing has happened yet: the first action is to begin a transaction.
    pub fn replace(document_id: Uuid, graph: GraphData) -> (store: GraphStore)
        ensures
            store@ == GraphStoreView::start(document_id, graph@),
    {
        GraphStore { document_id, graph, node_ids: StringHashMap::new(), phase: Phase::Begin }
    }

    /// The graph that this replace stores.
    pub fn graph(&self) -> (graph: &GraphData)
        ensures
            graph@ == self@.graph,
    {
        &self.graph
    }

    /// Whether the replace is over.
    pub fn is_finished(&self) -> (finished: bool)
        ensures
            finished == self@.is_finished(),
    {
        match &self.phase {
            Phase::Completed => true,
            Phase::Aborted(_) => true,
            _ => false,
        }
    }

    /// What the caller is to do now.
    pub fn action(&self) -> (action: StoreAction<'_>)
        ensures
            self@.wf(),
            action@ == self@.action(),
    {
        proof {
            use_type_invariant(self);
        }
        match &self.phase {
            Phase::Begin => StoreAction::Begin,
            Phase::Clear => StoreAction::ClearDocument { document_id: self.document_id },
            Phase::Node(index) => StoreAction::InsertNode {
                document_id: self.document_id,
                node: &self.graph.nodes[*index],
            },
            Phase::Edge { index, source_node_id, target_node_id } => StoreAction::InsertEdge {
                document_id: self.document_id,
                source_node_id: *source_node_id,
                target_node_id: *target_node_id,
                edge: &self.graph.edges[*index],
            },
            Phase::Commit => StoreAction::Commit,
            Phase::Completed => StoreAction::Complete,
            Phase::Aborted(error) => StoreAction::Abort(error),
        }
    }

    /// Takes note of how the pending action went, and moves on.
    pub fn advance(self, event: StoreEvent) -> (next: GraphStore)
        ensures
            self@.wf(),
            next@.wf(),
            next@ == self@.advance(event@),
    {
        proof {
            use_type_invariant(&self);
        }
        let GraphStore { document_id, graph, node_ids, phase } = self;
        match phase {
            Phase::Completed => GraphStore { document_id, graph, node_ids, phase: Phase::Completed },
            Phase::Aborted(error) => GraphStore {
                document_id,
                graph,
                node_ids,
                phase: Phase::Aborted(error),
            },
            Phase::Begin => {
                let phase = match event {
                    StoreEvent::Succeeded => Phase::Clear,
                    other => Phase::Aborted(StoreError::Transaction(other.cause())),
                };
                GraphStore { document_id, graph, node_ids, phase }
            },
            Phase::Clear => match event {
                StoreEvent::Succeeded => Self::at_node(document_id, graph, node_ids, 0),
                other => GraphStore {
                    document_id,
                    graph,
                    node_ids,
                    phase: Phase::Aborted(StoreError::Storage(other.cause())),
                },
            },
            Phase::Node(index) => match event {
                StoreEvent::NodeCreated(id) => {
                    let count = graph.nodes.len();
                    assert(index < count);
                    let mut node_ids = node_ids;
                    node_ids.insert(graph.nodes[index].name.clone(), id);
                    Self::at_node(document_id, graph, node_ids, index + 1)
                },
                other => GraphStore {
                    document_id,
                    graph,
                    node_ids,
                    phase: Phase::Aborted(StoreError::Storage(other.cause())),
                },
            },
            Phase::Edge { index, .. } => match event {
                StoreEvent::Succeeded => {
                    let count = graph.edges.len();
                    assert(index < count);
                    Self::at_edge(document_id, graph, node_ids, index + 1)
                },
                other => GraphStore {
                    document_id,
                    graph,
                    node_ids,
                    phase: Phase::Aborted(StoreError::Storage(other.cause())),
                },
            },
            Phase::Commit => {
                let phase = match event {
                    StoreEvent::Succeeded => Phase::Completed,
                    other => Phase::Aborted(StoreError::Transaction(other.cause())),
                };
                GraphStore { document_id, graph, node_ids, phase }
            },
        }
    }

    /// Ends a replace that is over: hands back the graph and says how the
    /// replace went. A replace that is not over is handed back as it is.
    pub fn finish(self) -> (outcome: Result<(GraphData, Result<(), StoreError>), GraphStore>)
        ensures
            match outcome {
                Ok((graph, Ok(()))) => graph@ == self@.graph && self@.phase is Completed,
                Ok((graph, Err(error))) => graph@ == self@.graph && self@.phase
                    == PhaseView::Aborted(error@),
                Err(store) => store@ == self@ && !self@.is_finished(),
            },
    {
        proof {
            use_type_invariant(&self);
        }
        let GraphStore { document_id, graph, node_ids, phase } = self;
        match phase {
            Phase::Completed => Ok((graph, Ok(()))),
            Phase::Aborted(error) => Ok((graph, Err(error))),
            phase => Err(GraphStore { document_id, graph, node_ids, phase }),
        }
    }

    fn at_node(
        document_id: Uuid,
        graph: GraphData,
        node_ids: StringHashMap<Uuid>,
        index: usize,
    ) -> (store: GraphStore)
        requires
            index <= graph@.nodes.len(),
        ensures
            store@ == (GraphStoreView {
                document_id,
                graph: graph@,
                node_ids: node_ids@,
                phase: PhaseView::Begin,
            }).at_node(index as int),
    {
        if index < graph.nodes.len() {
            GraphStore { document_id, graph, node_ids, phase: Phase::Node(index) }
        } else {
            Self::at_edge(document_id, graph, node_ids, 0)
        }
    }

    fn at_edge(
        document_id: Uuid,
        graph: GraphData,
        node_ids: StringHashMap<Uuid>,
        index: usize,
    ) -> (store: GraphStore)
        requires
            index <= graph@.edges.len(),
        ensures
            store@ == (GraphStoreView {
                document_id,
                graph: graph@,
                node_ids: node_ids@,
                phase: PhaseView::Begin,
            }).at_edge(index as int),
    {
        if index < graph.edges.len() {
            let phase = Self::resolve(&graph.edges[index], &node_ids, index);
            GraphStore { document_id, graph, node_ids, phase }
        } else {
            GraphStore { document_id, graph, node_ids, phase: Phase::Commit }
        }
    }

    /// Looks up both ends of an edge among the identifiers given so far.
    fn resolve(edge: &GraphEdge, node_ids: &StringHashMap<Uuid>, index: usize) -> (phase: Phase)
        ensures
            phase@ == if !node_ids@.contains_key(edge@.source) {
                PhaseView::Aborted(
                    StoreErrorView::DanglingReference {
                        endpoint: Endpoint::Source,
                        name: edge@.source,
                    },
                )
            } else if !node_ids@.contains_key(edge@.target) {
                PhaseView::Aborted(
                    StoreErrorView::DanglingReference {
                        endpoint: Endpoint::Target,
                        name: edge@.target,
                    },
                )
            } else {
                PhaseView::Edge {
                    index: index as int,
                    source_node_id: node_ids@[edge@.source],
                    target_node_id: node_ids@[edge@.target],
                }
            },
    {
        match node_ids.get(edge.source.as_str()) {
            None => Phase::Aborted(
                StoreError::DanglingReference {
                    endpoint: Endpoint::Source,
                    name: edge.source.clone(),
                },
            ),
            Some(source) => match node_ids.get(edge.target.as_str()) {
                None => Phase::Aborted(
                    StoreError::DanglingReference {
                        endpoint: Endpoint::Target,
                        name: edge.target.clone(),
                    },
                ),
                Some(target) => Phase::Edge {
                    index,
                    source_node_id: *source,
                    target_node_id: *target,
                },
            },
        }
    }
}

} // verus!
