//! What the node and edge tables hold, and what a replace does to them.
//!
//! Nothing here runs. The tables are described as mathematical values, a
//! [`Session`] follows a [`GraphStoreView`] through a transaction on them, and
//! the proofs at the end say what a replace leaves behind: the new graph of
//! the document and nothing else of it when it completes, the tables as they
//! were when it does not.

use crate::graph::{has_node, Dangling, Endpoint, GraphDataView, GraphEdgeView, GraphNodeView};
use crate::store::{GraphStoreView, PhaseView, StoreActionView, StoreErrorView, StoreEventView};
use serde_json::Value;
use uuid::Uuid;
use vstd::prelude::*;

verus! {

/// A row of the node table.
pub struct NodeRow {
    pub id: Uuid,
    pub label: Seq<char>,
    pub name: Seq<char>,
    pub properties: Value,
}

/// A row of the edge table. Both identifiers refer to node rows.
pub struct EdgeRow {
    pub source_node_id: Uuid,
    pub target_node_id: Uuid,
    pub relationship: Seq<char>,
    pub properties: Value,
}

/// The rows that belong to one document, in the order they were inserted.
pub struct DocumentRows {
    pub nodes: Seq<NodeRow>,
    pub edges: Seq<EdgeRow>,
}

/// Both tables, their rows grouped by the document they belong to.
pub struct Tables {
    pub documents: Map<Uuid, DocumentRows>,
}

impl DocumentRows {
    /// No rows.
    pub open spec fn empty() -> DocumentRows {
        DocumentRows { nodes: Seq::empty(), edges: Seq::empty() }
    }
}

impl Tables {
    /// The rows of a document; none where the tables never heard of it.
    pub open spec fn read(self, document_id: Uuid) -> DocumentRows {
        if self.documents.contains_key(document_id) {
            self.documents[document_id]
        } else {
            DocumentRows::empty()
        }
    }

    /// The tables with the rows of a document set to `rows`.
    pub open spec fn with_rows(self, document_id: Uuid, rows: DocumentRows) -> Tables {
        Tables { documents: self.documents.insert(document_id, rows) }
    }

    /// The tables after the node rows of a document are deleted, and its edge
    /// rows with them.
    pub open spec fn clear(self, document_id: Uuid) -> Tables {
        self.with_rows(document_id, DocumentRows::empty())
    }

    /// The tables after a node row is inserted for a document.
    pub open spec fn insert_node(self, document_id: Uuid, row: NodeRow) -> Tables {
        let rows = self.read(document_id);
        self.with_rows(document_id, DocumentRows { nodes: rows.nodes.push(row), ..rows })
    }

    /// The tables after an edge row is inserted for a document.
    pub open spec fn insert_edge(self, document_id: Uuid, row: EdgeRow) -> Tables {
        let rows = self.read(document_id);
        self.with_rows(document_id, DocumentRows { edges: rows.edges.push(row), ..rows })
    }
}

/// The row that stores `node` under the identifier `id`.
pub open spec fn node_row(node: GraphNodeView, id: Uuid) -> NodeRow {
    NodeRow { id, label: node.label, name: node.name, properties: node.properties }
}

/// The row that stores `edge` between the rows that `ids` gives for its ends.
pub open spec fn edge_row(edge: GraphEdgeView, ids: Map<Seq<char>, Uuid>) -> EdgeRow {
    EdgeRow {
        source_node_id: ids[edge.source],
        target_node_id: ids[edge.target],
        relationship: edge.relationship,
        properties: edge.properties,
    }
}

/// The identifier under each name once `nodes` were inserted in order and
/// given `ids` in that order: a later node takes the name from an earlier one.
pub open spec fn name_ids(nodes: Seq<GraphNodeView>, ids: Seq<Uuid>) -> Map<Seq<char>, Uuid>
    decreases nodes.len(),
{
    if nodes.len() == 0 {
        Map::empty()
    } else {
        name_ids(nodes.drop_last(), ids.drop_last()).insert(nodes.last().name, ids.last())
    }
}

/// The rows of a document after the first `n` nodes and the first `m` edges
/// of `graph` were inserted, the nodes under `ids`.
pub open spec fn rows_so_far(graph: GraphDataView, ids: Seq<Uuid>, n: int, m: int) -> DocumentRows {
    DocumentRows {
        nodes: Seq::new(n as nat, |i: int| node_row(graph.nodes[i], ids[i])),
        edges: Seq::new(m as nat, |j: int| edge_row(graph.edges[j], name_ids(graph.nodes, ids))),
    }
}

/// The rows that store all of `graph`, its nodes under `ids`.
pub open spec fn stored(graph: GraphDataView, ids: Seq<Uuid>) -> DocumentRows {
    rows_so_far(graph, ids, graph.nodes.len() as int, graph.edges.len() as int)
}

/// The tables after the graph of `document_id` is replaced by `graph`, its
/// nodes stored under `ids`. No other document changes.
pub open spec fn replaced(
    before: Tables,
    document_id: Uuid,
    graph: GraphDataView,
    ids: Seq<Uuid>,
) -> Tables {
    before.with_rows(document_id, stored(graph, ids))
}

/// A replace under way, together with the tables it works on.
pub struct Session {
    /// The replace.
    pub store: GraphStoreView,
    /// The tables as everyone else sees them.
    pub committed: Tables,
    /// The tables as the open transaction sees them.
    pub working: Tables,
    /// The identifiers given to the node rows inserted in this transaction.
    pub created: Seq<Uuid>,
}

impl Session {
    /// A replace that has not begun, on tables that hold `before`.
    pub open spec fn start(document_id: Uuid, graph: GraphDataView, before: Tables) -> Session {
        Session {
            store: GraphStoreView::start(document_id, graph),
            committed: before,
            working: before,
            created: Seq::empty(),
        }
    }

    /// The session after the pending action was tried and answered by `reply`.
    ///
    /// A statement changes the tables only where the reply says that it went
    /// through: a begun transaction sees what is committed, a delete and an
    /// insert change what the transaction sees, a commit makes that visible
    /// to everyone. The replace itself moves as [`GraphStoreView::advance`]
    /// says.
    pub open spec fn step(self, reply: StoreEventView) -> Session {
        let store = self.store.advance(reply);
        match (self.store.action(), reply) {
            (StoreActionView::Begin, StoreEventView::Succeeded) => Session {
                store,
                working: self.committed,
                ..self
            },
            (StoreActionView::ClearDocument { document_id }, StoreEventView::Succeeded) => Session {
                store,
                working: self.working.clear(document_id),
                ..self
            },
            (StoreActionView::InsertNode { document_id, node }, StoreEventView::NodeCreated(id)) => {
                Session {
                    store,
                    working: self.working.insert_node(document_id, node_row(node, id)),
                    created: self.created.push(id),
                    ..self
                }
            },
            (
                StoreActionView::InsertEdge { document_id, source_node_id, target_node_id, edge },
                StoreEventView::Succeeded,
            ) => Session {
                store,
                working: self.working.insert_edge(
                    document_id,
                    EdgeRow {
                        source_node_id,
                        target_node_id,
                        relationship: edge.relationship,
                        properties: edge.properties,
                    },
                ),
                ..self
            },
            (StoreActionView::Commit, StoreEventView::Succeeded) => Session {
                store,
                committed: self.working,
                ..self
            },
            _ => Session { store, ..self },
        }
    }

    /// The statements that are still to come where nothing fails.
    pub open spec fn remaining(self) -> nat {
        let n = self.store.graph.nodes.len();
        let m = self.store.graph.edges.len();
        match self.store.phase {
            PhaseView::Begin => n + m + 3,
            PhaseView::Clear => n + m + 2,
            PhaseView::Node(index) => ((n - index) + m + 1) as nat,
            PhaseView::Edge { index, .. } => ((m - index) + 1) as nat,
            PhaseView::Commit => 1,
            PhaseView::Completed => 0,
            PhaseView::Aborted(_) => 0,
        }
    }
}

/// The session after the replies `replies` were given, one for each action
/// in turn, to a replace of the graph of `document_id` by `graph` that
/// started on `before`.
pub open spec fn run(
    document_id: Uuid,
    graph: GraphDataView,
    before: Tables,
    replies: Seq<StoreEventView>,
) -> Session
    decreases replies.len(),
{
    if replies.len() == 0 {
        Session::start(document_id, graph, before)
    } else {
        run(document_id, graph, before, replies.drop_last()).step(replies.last())
    }
}

/// The first `count` replies of a store that never fails and gives the node
/// rows the identifiers `ids`, in order: one reply for the begin, one for the
/// delete, one for each node, and then one for each further statement.
pub open spec fn faultless_replies(ids: Seq<Uuid>, count: nat) -> Seq<StoreEventView> {
    Seq::new(
        count,
        |k: int|
            if 2 <= k < 2 + ids.len() {
                StoreEventView::NodeCreated(ids[k - 2])
            } else {
                StoreEventView::Succeeded
            },
    )
}

/// What holds of a session at every moment of a replace of the graph of
/// `document_id` by `graph` that started on `before`.
spec fn inv(s: Session, document_id: Uuid, graph: GraphDataView, before: Tables) -> bool {
    let n = graph.nodes.len() as int;
    &&& s.store.document_id == document_id
    &&& s.store.graph == graph
    &&& s.store.wf()
    &&& !(s.store.phase is Completed) ==> s.committed == before
    &&& match s.store.phase {
        PhaseView::Begin => s.created.len() == 0 && s.store.node_ids == Map::<
            Seq<char>,
            Uuid,
        >::empty(),
        PhaseView::Clear => {
            &&& s.created.len() == 0
            &&& s.store.node_ids == Map::<Seq<char>, Uuid>::empty()
            &&& s.working == before
        },
        PhaseView::Node(index) => {
            &&& s.created.len() == index
            &&& s.store.node_ids == name_ids(graph.nodes.take(index), s.created)
            &&& s.working == before.with_rows(
                document_id,
                rows_so_far(graph, s.created, index, 0),
            )
        },
        PhaseView::Edge { index, source_node_id, target_node_id } => {
            &&& s.created.len() == n
            &&& s.store.node_ids == name_ids(graph.nodes, s.created)
            &&& s.working == before.with_rows(
                document_id,
                rows_so_far(graph, s.created, n, index),
            )
            &&& source_node_id == s.store.node_ids[graph.edges[index].source]
            &&& target_node_id == s.store.node_ids[graph.edges[index].target]
            &&& forall|k: int|
                0 <= k <= index ==> (#[trigger] graph.edges[k]).dangling_end(graph.nodes) is None
        },
        PhaseView::Commit => {
            &&& s.created.len() == n
            &&& s.working == replaced(before, document_id, graph, s.created)
            &&& graph.is_valid()
        },
        PhaseView::Completed => {
            &&& s.created.len() == n
            &&& s.committed == replaced(before, document_id, graph, s.created)
            &&& graph.is_valid()
        },
        PhaseView::Aborted(error) => error matches StoreErrorView::DanglingReference {
            endpoint,
            name,
        } ==> exists|j: int| #[trigger]
            graph.first_dangling_is(Dangling { edge: j, endpoint, name }),
    }
}

/// The names that `name_ids` knows are the names of the nodes.
proof fn lemma_name_ids_dom(nodes: Seq<GraphNodeView>, ids: Seq<Uuid>)
    requires
        ids.len() == nodes.len(),
    ensures
        forall|name: Seq<char>|
            #![trigger name_ids(nodes, ids).contains_key(name)]
            #![trigger has_node(nodes, name)]
            name_ids(nodes, ids).contains_key(name) <==> has_node(nodes, name),
    decreases nodes.len(),
{
    if nodes.len() > 0 {
        let front = nodes.drop_last();
        lemma_name_ids_dom(front, ids.drop_last());
        assert forall|name: Seq<char>|
            name_ids(nodes, ids).contains_key(name) <==> has_node(nodes, name) by {
            if has_node(nodes, name) {
                let i = choose|i: int| 0 <= i < nodes.len() && (#[trigger] nodes[i]).name == name;
                if i < nodes.len() - 1 {
                    assert(front[i].name == name);
                    assert(has_node(front, name));
                }
                assert(name_ids(nodes, ids).contains_key(name));
            }
            if name_ids(nodes, ids).contains_key(name) {
                if nodes.last().name == name {
                    assert(nodes[nodes.len() - 1].name == name);
                } else {
                    assert(name_ids(front, ids.drop_last()).contains_key(name));
                    assert(has_node(front, name));
                    let i = choose|i: int|
                        0 <= i < front.len() && (#[trigger] front[i]).name == name;
                    assert(nodes[i].name == name);
                }
                assert(has_node(nodes, name));
            }
        }
    } else {
        assert forall|name: Seq<char>|
            name_ids(nodes, ids).contains_key(name) <==> has_node(nodes, name) by {
            assert(!name_ids(nodes, ids).contains_key(name));
        }
    }
}

/// The invariant holds when the edges from `index` on are taken up.
proof fn lemma_inv_at_edge(
    s: Session,
    document_id: Uuid,
    graph: GraphDataView,
    before: Tables,
    index: int,
)
    requires
        s.store.document_id == document_id,
        s.store.graph == graph,
        s.committed == before,
        0 <= index <= graph.edges.len(),
        s.created.len() == graph.nodes.len(),
        s.store.node_ids == name_ids(graph.nodes, s.created),
        s.working == before.with_rows(
            document_id,
            rows_so_far(graph, s.created, graph.nodes.len() as int, index),
        ),
        forall|k: int|
            0 <= k < index ==> (#[trigger] graph.edges[k]).dangling_end(graph.nodes) is None,
    ensures
        inv(Session { store: s.store.at_edge(index), ..s }, document_id, graph, before),
{
    lemma_name_ids_dom(graph.nodes, s.created);
    if index < graph.edges.len() {
        let edge = graph.edges[index];
        assert(s.store.node_ids.contains_key(edge.source) <==> has_node(graph.nodes, edge.source));
        assert(s.store.node_ids.contains_key(edge.target) <==> has_node(graph.nodes, edge.target));
        if !has_node(graph.nodes, edge.source) {
            assert(graph.first_dangling_is(
                Dangling { edge: index, endpoint: Endpoint::Source, name: edge.source },
            ));
        } else if !has_node(graph.nodes, edge.target) {
            assert(graph.first_dangling_is(
                Dangling { edge: index, endpoint: Endpoint::Target, name: edge.target },
            ));
        } else {
            assert(edge.dangling_end(graph.nodes) is None);
        }
    } else {
        assert(graph.is_valid());
    }
}

/// The invariant holds when the nodes from `index` on are taken up.
proof fn lemma_inv_at_node(
    s: Session,
    document_id: Uuid,
    graph: GraphDataView,
    before: Tables,
    index: int,
)
    requires
        s.store.document_id == document_id,
        s.store.graph == graph,
        s.committed == before,
        0 <= index <= graph.nodes.len(),
        s.created.len() == index,
        s.store.node_ids == name_ids(graph.nodes.take(index), s.created),
        s.working == before.with_rows(document_id, rows_so_far(graph, s.created, index, 0)),
    ensures
        inv(Session { store: s.store.at_node(index), ..s }, document_id, graph, before),
{
    if index >= graph.nodes.len() {
        assert(graph.nodes.take(index) =~= graph.nodes);
        lemma_inv_at_edge(s, document_id, graph, before, 0);
    }
}

/// Whatever the reply, a step keeps the invariant.
proof fn lemma_step_keeps_inv(
    s: Session,
    document_id: Uuid,
    graph: GraphDataView,
    before: Tables,
    reply: StoreEventView,
)
    requires
        inv(s, document_id, graph, before),
    ensures
        inv(s.step(reply), document_id, graph, before),
{
    let next = s.step(reply);
    let n = graph.nodes.len() as int;
    match (s.store.phase, reply) {
        (PhaseView::Clear, StoreEventView::Succeeded) => {
            let cleared = Session { working: s.working.clear(document_id), ..s };
            assert(rows_so_far(graph, s.created, 0, 0).nodes =~= Seq::empty());
            assert(rows_so_far(graph, s.created, 0, 0).edges =~= Seq::empty());
            assert(graph.nodes.take(0) =~= Seq::empty());
            lemma_inv_at_node(cleared, document_id, graph, before, 0);
            assert(next == Session { store: cleared.store.at_node(0), ..cleared });
        },
        (PhaseView::Node(index), StoreEventView::NodeCreated(id)) => {
            let node = graph.nodes[index];
            let created = s.created.push(id);
            let inserted = Session {
                store: GraphStoreView {
                    node_ids: s.store.node_ids.insert(node.name, id),
                    ..s.store
                },
                working: s.working.insert_node(document_id, node_row(node, id)),
                created,
                ..s
            };
            let old_rows = rows_so_far(graph, s.created, index, 0);
            let new_rows = rows_so_far(graph, created, index + 1, 0);
            assert(s.working.read(document_id) == old_rows);
            assert(new_rows.nodes =~= old_rows.nodes.push(node_row(node, id)));
            assert(new_rows.edges =~= old_rows.edges);
            assert(inserted.working.documents =~= before.with_rows(
                document_id,
                new_rows,
            ).documents);
            assert(graph.nodes.take(index + 1).drop_last() =~= graph.nodes.take(index));
            assert(created.drop_last() =~= s.created);
            assert(graph.nodes.take(index + 1).last() == node);
            lemma_inv_at_node(inserted, document_id, graph, before, index + 1);
            assert(next == Session { store: inserted.store.at_node(index + 1), ..inserted });
        },
        (PhaseView::Edge { index, source_node_id, target_node_id }, StoreEventView::Succeeded) => {
            let edge = graph.edges[index];
            let row = EdgeRow {
                source_node_id,
                target_node_id,
                relationship: edge.relationship,
                properties: edge.properties,
            };
            let inserted = Session { working: s.working.insert_edge(document_id, row), ..s };
            let old_rows = rows_so_far(graph, s.created, n, index);
            let new_rows = rows_so_far(graph, s.created, n, index + 1);
            assert(s.working.read(document_id) == old_rows);
            assert(row == edge_row(edge, name_ids(graph.nodes, s.created)));
            assert(new_rows.edges =~= old_rows.edges.push(row));
            assert(new_rows.nodes =~= old_rows.nodes);
            assert(inserted.working.documents =~= before.with_rows(
                document_id,
                new_rows,
            ).documents);
            lemma_inv_at_edge(inserted, document_id, graph, before, index + 1);
            assert(next == Session { store: inserted.store.at_edge(index + 1), ..inserted });
        },
        _ => {},
    }
}

/// The invariant holds after any replies.
proof fn lemma_run_keeps_inv(
    document_id: Uuid,
    graph: GraphDataView,
    before: Tables,
    replies: Seq<StoreEventView>,
)
    ensures
        inv(run(document_id, graph, before, replies), document_id, graph, before),
    decreases replies.len(),
{
    if replies.len() > 0 {
        lemma_run_keeps_inv(document_id, graph, before, replies.drop_last());
        lemma_step_keeps_inv(
            run(document_id, graph, before, replies.drop_last()),
            document_id,
            graph,
            before,
            replies.last(),
        );
    }
}

/// With a store that never fails, each reply brings the replace one
/// statement further, until it is over; it can only end early on a dangling
/// reference. The identifiers are used in the order given.
proof fn lemma_faultless_progress(
    document_id: Uuid,
    graph: GraphDataView,
    before: Tables,
    ids: Seq<Uuid>,
    count: nat,
)
    requires
        ids.len() == graph.nodes.len(),
        count <= graph.nodes.len() + graph.edges.len() + 3,
    ensures
        ({
            let s = run(document_id, graph, before, faultless_replies(ids, count));
            &&& s.created =~= ids.take(s.created.len() as int)
            &&& s.created.len() <= ids.len()
            &&& match s.store.phase {
                PhaseView::Aborted(error) => error is DanglingReference,
                _ => s.remaining() == graph.nodes.len() + graph.edges.len() + 3 - count,
            }
        }),
    decreases count,
{
    let replies = faultless_replies(ids, count);
    lemma_run_keeps_inv(document_id, graph, before, replies);
    if count > 0 {
        let earlier = faultless_replies(ids, (count - 1) as nat);
        assert(replies.drop_last() =~= earlier);
        lemma_faultless_progress(document_id, graph, before, ids, (count - 1) as nat);
        lemma_run_keeps_inv(document_id, graph, before, earlier);
        let prior = run(document_id, graph, before, earlier);
        let s = run(document_id, graph, before, replies);
        assert(s == prior.step(replies.last()));
        match prior.store.phase {
            PhaseView::Node(index) => {
                assert(replies.last() == StoreEventView::NodeCreated(ids[index]));
                assert(s.created == prior.created.push(ids[index]));
            },
            _ => {},
        }
    }
}

/// Under each name stands the identifier of the last node that carries it.
pub proof fn lemma_name_ids_last_wins(nodes: Seq<GraphNodeView>, ids: Seq<Uuid>, name: Seq<char>)
    requires
        ids.len() == nodes.len(),
        has_node(nodes, name),
    ensures
        name_ids(nodes, ids).contains_key(name),
        exists|i: int|
            {
                &&& 0 <= i < nodes.len()
                &&& (#[trigger] nodes[i]).name == name
                &&& name_ids(nodes, ids)[name] == ids[i]
                &&& forall|k: int| i < k < nodes.len() ==> (#[trigger] nodes[k]).name != name
            },
    decreases nodes.len(),
{
    let last = nodes.len() - 1;
    let i = choose|i: int| 0 <= i < nodes.len() && (#[trigger] nodes[i]).name == name;
    if nodes[last].name == name {
        assert(name_ids(nodes, ids)[name] == ids[last]);
    } else {
        let front = nodes.drop_last();
        assert(front[i].name == name);
        lemma_name_ids_last_wins(front, ids.drop_last(), name);
        let w = choose|w: int|
            {
                &&& 0 <= w < front.len()
                &&& (#[trigger] front[w]).name == name
                &&& name_ids(front, ids.drop_last())[name] == ids.drop_last()[w]
                &&& forall|k: int| w < k < front.len() ==> (#[trigger] front[k]).name != name
            };
        assert(nodes[w].name == name);
        assert(name_ids(nodes, ids)[name] == ids[w]);
        assert forall|k: int| w < k < nodes.len() implies (#[trigger] nodes[k]).name != name by {
            if k < last {
                assert(front[k].name != name);
            }
        }
    }
}

/// What is read back after a replace. The document has one node row for each
/// node of the graph, in order, with the node's label, name and properties
/// and the identifier it was given. It has one edge row for each edge, in
/// order, with the edge's relationship and properties, and each end of a
/// valid graph's edge is the identifier of the last node row of the edge's
/// name for that end. Every other document reads as before.
pub proof fn lemma_read_after_replace(
    before: Tables,
    document_id: Uuid,
    graph: GraphDataView,
    ids: Seq<Uuid>,
)
    requires
        ids.len() == graph.nodes.len(),
        graph.is_valid(),
    ensures
        ({
            let rows = replaced(before, document_id, graph, ids).read(document_id);
            &&& rows == stored(graph, ids)
            &&& rows.nodes.len() == graph.nodes.len()
            &&& rows.edges.len() == graph.edges.len()
            &&& forall|i: int|
                0 <= i < graph.nodes.len() ==> #[trigger] rows.nodes[i] == node_row(
                    graph.nodes[i],
                    ids[i],
                )
            &&& forall|j: int|
                0 <= j < graph.edges.len() ==> {
                    &&& (#[trigger] rows.edges[j]).relationship == graph.edges[j].relationship
                    &&& rows.edges[j].properties == graph.edges[j].properties
                    &&& is_last_row_named(rows.nodes, graph.edges[j].source, rows.edges[j].source_node_id)
                    &&& is_last_row_named(rows.nodes, graph.edges[j].target, rows.edges[j].target_node_id)
                }
        }),
        forall|other: Uuid|
            other != document_id ==> #[trigger] replaced(before, document_id, graph, ids).read(
                other,
            ) == before.read(other),
{
    let rows = replaced(before, document_id, graph, ids).read(document_id);
    assert forall|j: int| 0 <= j < graph.edges.len() implies {
        &&& is_last_row_named(rows.nodes, graph.edges[j].source, (#[trigger] rows.edges[j]).source_node_id)
        &&& is_last_row_named(rows.nodes, graph.edges[j].target, rows.edges[j].target_node_id)
    } by {
        let edge = graph.edges[j];
        assert(edge.dangling_end(graph.nodes) is None);
        lemma_last_row_named(graph, ids, edge.source);
        lemma_last_row_named(graph, ids, edge.target);
    }
}

/// `id` is the identifier of the last of `rows` that is called `name`.
pub open spec fn is_last_row_named(rows: Seq<NodeRow>, name: Seq<char>, id: Uuid) -> bool {
    exists|i: int|
        {
            &&& 0 <= i < rows.len()
            &&& (#[trigger] rows[i]).name == name
            &&& rows[i].id == id
            &&& forall|k: int| i < k < rows.len() ==> (#[trigger] rows[k]).name != name
        }
}

/// The identifier that `name_ids` gives for a name is that of the last node
/// row stored under it.
proof fn lemma_last_row_named(graph: GraphDataView, ids: Seq<Uuid>, name: Seq<char>)
    requires
        ids.len() == graph.nodes.len(),
        has_node(graph.nodes, name),
    ensures
        is_last_row_named(stored(graph, ids).nodes, name, name_ids(graph.nodes, ids)[name]),
{
    lemma_name_ids_last_wins(graph.nodes, ids, name);
    let nodes = graph.nodes;
    let rows = stored(graph, ids).nodes;
    let i = choose|i: int|
        {
            &&& 0 <= i < nodes.len()
            &&& (#[trigger] nodes[i]).name == name
            &&& name_ids(nodes, ids)[name] == ids[i]
            &&& forall|k: int| i < k < nodes.len() ==> (#[trigger] nodes[k]).name != name
        };
    assert(rows[i].name == name && rows[i].id == ids[i]);
    assert forall|k: int| i < k < rows.len() implies (#[trigger] rows[k]).name != name by {
        assert(nodes[k].name != name);
    }
}

impl Session {
    /// This session is a moment of a replace of the graph of `document_id`
    /// by `graph` that started on `before`: it is where such a replace can
    /// be after some replies, with the tables as the statements so far have
    /// left them.
    pub closed spec fn follows(
        self,
        document_id: Uuid,
        graph: GraphDataView,
        before: Tables,
    ) -> bool {
        inv(self, document_id, graph, before)
    }

    /// A replace that has not begun is a moment of itself.
    pub proof fn lemma_start_follows(document_id: Uuid, graph: GraphDataView, before: Tables)
        ensures
            Session::start(document_id, graph, before).follows(document_id, graph, before),
    {
    }

    /// Whatever the reply, the next moment of a replace is one too.
    pub proof fn lemma_step_follows(
        self,
        document_id: Uuid,
        graph: GraphDataView,
        before: Tables,
        reply: StoreEventView,
    )
        requires
            self.follows(document_id, graph, before),
        ensures
            self.step(reply).follows(document_id, graph, before),
    {
        lemma_step_keeps_inv(self, document_id, graph, before, reply);
    }

    /// At every moment of a replace the tables are all or nothing: they hold
    /// the new graph of the document once the replace is completed, and are
    /// as they were until then and after any failure.
    pub proof fn lemma_follows_is_atomic(
        self,
        document_id: Uuid,
        graph: GraphDataView,
        before: Tables,
    )
        requires
            self.follows(document_id, graph, before),
        ensures
            self.store.document_id == document_id,
            self.store.graph == graph,
            self.store.wf(),
            if self.store.phase is Completed {
                &&& graph.is_valid()
                &&& self.created.len() == graph.nodes.len()
                &&& self.committed == replaced(before, document_id, graph, self.created)
            } else {
                self.committed == before
            },
    {
    }
}

/// A replace is all or nothing. Whatever the store answers, and however far
/// the replace has come: once it is completed the graph was valid and the
/// tables hold the new graph of the document, under the identifiers that the
/// store gave out, and every other document as before; until then, and after
/// any failure, the tables are as they were before the replace.
pub proof fn lemma_replace_is_atomic(
    document_id: Uuid,
    graph: GraphDataView,
    before: Tables,
    replies: Seq<StoreEventView>,
)
    ensures
        ({
            let s = run(document_id, graph, before, replies);
            if s.store.phase is Completed {
                &&& graph.is_valid()
                &&& s.created.len() == graph.nodes.len()
                &&& s.committed == replaced(before, document_id, graph, s.created)
            } else {
                s.committed == before
            }
        }),
{
    lemma_run_keeps_inv(document_id, graph, before, replies);
}

/// A graph with a dangling reference is never stored: whatever the store
/// answers, the replace does not complete and the tables stay as they were.
pub proof fn lemma_dangling_reference_stores_nothing(
    document_id: Uuid,
    graph: GraphDataView,
    before: Tables,
    replies: Seq<StoreEventView>,
)
    requires
        !graph.is_valid(),
    ensures
        !(run(document_id, graph, before, replies).store.phase is Completed),
        run(document_id, graph, before, replies).committed == before,
{
    lemma_run_keeps_inv(document_id, graph, before, replies);
}

/// A valid graph is stored by a store that does not fail: after one reply
/// for each statement the replace is completed, and the tables hold the new
/// graph of the document under the identifiers that the store gave out, and
/// every other document as before.
pub proof fn lemma_valid_graph_is_stored(
    document_id: Uuid,
    graph: GraphDataView,
    before: Tables,
    ids: Seq<Uuid>,
)
    requires
        graph.is_valid(),
        ids.len() == graph.nodes.len(),
    ensures
        ({
            let s = run(
                document_id,
                graph,
                before,
                faultless_replies(ids, graph.nodes.len() + graph.edges.len() + 3),
            );
            &&& s.store.phase is Completed
            &&& s.committed == replaced(before, document_id, graph, ids)
        }),
{
    let count = graph.nodes.len() + graph.edges.len() + 3;
    let s = run(document_id, graph, before, faultless_replies(ids, count));
    lemma_faultless_progress(document_id, graph, before, ids, count);
    lemma_run_keeps_inv(document_id, graph, before, faultless_replies(ids, count));
    if s.store.phase is Aborted {
        let j = choose|j: int| #[trigger]
            graph.first_dangling_is(
                Dangling {
                    edge: j,
                    endpoint: s.store.phase->Aborted_0->DanglingReference_endpoint,
                    name: s.store.phase->Aborted_0->DanglingReference_name,
                },
            );
        assert(graph.edges[j].dangling_end(graph.nodes) is Some);
    }
    assert(s.created =~= ids);
}

/// The store reports the first dangling reference of a graph. Where `first`
/// is that reference and the store itself does not fail, the replace ends
/// when it comes to the edge in question, with an error that names the same
/// end and the same name, and the tables stay as they were.
pub proof fn lemma_dangling_reference_is_reported(
    document_id: Uuid,
    graph: GraphDataView,
    before: Tables,
    ids: Seq<Uuid>,
    first: Dangling,
)
    requires
        graph.first_dangling_is(first),
        ids.len() == graph.nodes.len(),
    ensures
        ({
            let s = run(
                document_id,
                graph,
                before,
                faultless_replies(ids, (graph.nodes.len() + first.edge + 2) as nat),
            );
            &&& s.store.phase == PhaseView::Aborted(
                StoreErrorView::DanglingReference { endpoint: first.endpoint, name: first.name },
            )
            &&& s.committed == before
        }),
{
    let count = (graph.nodes.len() + first.edge + 2) as nat;
    let s = run(document_id, graph, before, faultless_replies(ids, count));
    lemma_faultless_progress(document_id, graph, before, ids, count);
    lemma_run_keeps_inv(document_id, graph, before, faultless_replies(ids, count));
    assert(graph.edges[first.edge].dangling_end(graph.nodes) is Some);
    assert(!graph.is_valid());
    assert(s.store.phase is Aborted);
    let endpoint = s.store.phase->Aborted_0->DanglingReference_endpoint;
    let name = s.store.phase->Aborted_0->DanglingReference_name;
    let j = choose|j: int| #[trigger] graph.first_dangling_is(Dangling { edge: j, endpoint, name });
    if j < first.edge {
        assert(graph.edges[j].dangling_end(graph.nodes) is None);
    }
    if first.edge < j {
        assert(graph.edges[first.edge].dangling_end(graph.nodes) is None);
    }
}

/// Replacing twice leaves what the second replace stored. Where two valid
/// graphs are stored for one document, one after the other, by a store that
/// does not fail, the document then reads as the second graph alone, and the
/// tables are what the second replace would have left without the first.
pub proof fn lemma_replace_twice(
    document_id: Uuid,
    before: Tables,
    first: GraphDataView,
    first_ids: Seq<Uuid>,
    second: GraphDataView,
    second_ids: Seq<Uuid>,
)
    requires
        first.is_valid(),
        first_ids.len() == first.nodes.len(),
        second.is_valid(),
        second_ids.len() == second.nodes.len(),
    ensures
        ({
            let between = run(
                document_id,
                first,
                before,
                faultless_replies(first_ids, first.nodes.len() + first.edges.len() + 3),
            ).committed;
            let after = run(
                document_id,
                second,
                between,
                faultless_replies(second_ids, second.nodes.len() + second.edges.len() + 3),
            ).committed;
            &&& after == replaced(before, document_id, second, second_ids)
            &&& after.read(document_id) == stored(second, second_ids)
        }),
{
    lemma_valid_graph_is_stored(document_id, first, before, first_ids);
    let between = replaced(before, document_id, first, first_ids);
    lemma_valid_graph_is_stored(document_id, second, between, second_ids);
    assert(replaced(between, document_id, second, second_ids).documents =~= replaced(
        before,
        document_id,
        second,
        second_ids,
    ).documents);
}

} // verus!
