//! The graph that is extracted from one document: named nodes, and edges that
//! refer to nodes by name.

use serde_json::Value;
use vstd::hash_map::StringHashMap;
use vstd::prelude::*;

verus! {

/// A labelled, named thing found in a document.
#[derive(Debug, PartialEq)]
pub struct GraphNode {
    /// Coarse type tag, such as `Person`.
    pub label: String,
    /// The name by which edges refer to this node.
    pub name: String,
    /// Free-form attributes.
    pub properties: Value,
}

/// A directed, named link between two nodes, each given by its name.
#[derive(Debug, PartialEq)]
pub struct GraphEdge {
    /// Name of the node the edge starts at.
    pub source: String,
    /// Name of the node the edge ends at.
    pub target: String,
    /// What the link means, such as `WORKS_FOR`.
    pub relationship: String,
    /// Free-form attributes.
    pub properties: Value,
}

/// The nodes and edges extracted from one document, in the order given.
#[derive(Debug, PartialEq)]
pub struct GraphData {
    pub nodes: Vec<GraphNode>,
    pub edges: Vec<GraphEdge>,
}

/// Which end of an edge a name stands at.
#[derive(Debug, Clone, Copy, PartialEq, Eq, Structural)]
pub enum Endpoint {
    Source,
    Target,
}

/// The first reference of a graph that names no node of it.
#[derive(Debug, PartialEq, Eq)]
pub struct ValidationError {
    /// Position of the offending edge in `edges`.
    pub edge: usize,
    /// The end of that edge whose name is unknown.
    pub endpoint: Endpoint,
    /// The unknown name.
    pub name: String,
}

/// What a node is, as a mathematical value.
pub struct GraphNodeView {
    pub label: Seq<char>,
    pub name: Seq<char>,
    pub properties: Value,
}

/// What an edge is, as a mathematical value.
pub struct GraphEdgeView {
    pub source: Seq<char>,
    pub target: Seq<char>,
    pub relationship: Seq<char>,
    pub properties: Value,
}

/// What a graph is, as a mathematical value.
pub struct GraphDataView {
    pub nodes: Seq<GraphNodeView>,
    pub edges: Seq<GraphEdgeView>,
}

/// A dangling reference, as a mathematical value.
pub struct Dangling {
    pub edge: int,
    pub endpoint: Endpoint,
    pub name: Seq<char>,
}

impl View for GraphNode {
    type V = GraphNodeView;

    open spec fn view(&self) -> GraphNodeView {
        GraphNodeView { label: self.label@, name: self.name@, properties: self.properties }
    }
}

impl View for GraphEdge {
    type V = GraphEdgeView;

    open spec fn view(&self) -> GraphEdgeView {
        GraphEdgeView {
            source: self.source@,
            target: self.target@,
            relationship: self.relationship@,
            properties: self.properties,
        }
    }
}

impl View for GraphData {
    type V = GraphDataView;

    open spec fn view(&self) -> GraphDataView {
        GraphDataView {
            nodes: Seq::new(self.nodes@.len(), |i: int| self.nodes@[i]@),
            edges: Seq::new(self.edges@.len(), |i: int| self.edges@[i]@),
        }
    }
}

impl View for ValidationError {
    type V = Dangling;

    open spec fn view(&self) -> Dangling {
        Dangling { edge: self.edge as int, endpoint: self.endpoint, name: self.name@ }
    }
}

/// Some node among `nodes` is called `name`.
pub open spec fn has_node(nodes: Seq<GraphNodeView>, name: Seq<char>) -> bool {
    exists|i: int| 0 <= i < nodes.len() && (#[trigger] nodes[i]).name == name
}

impl GraphEdgeView {
    /// The end of this edge that names no node of `nodes`, the source before
    /// the target; `None` where both ends are known.
    pub open spec fn dangling_end(self, nodes: Seq<GraphNodeView>) -> Option<Endpoint> {
        if !has_node(nodes, self.source) {
            Some(Endpoint::Source)
        } else if !has_node(nodes, self.target) {
            Some(Endpoint::Target)
        } else {
            None
        }
    }

    /// The name at the given end.
    pub open spec fn end_name(self, endpoint: Endpoint) -> Seq<char> {
        match endpoint {
            Endpoint::Source => self.source,
            Endpoint::Target => self.target,
        }
    }
}

impl GraphDataView {
    /// Every edge starts and ends at a node of this graph.
    pub open spec fn is_valid(self) -> bool {
        forall|j: int|
            0 <= j < self.edges.len() ==> (#[trigger] self.edges[j]).dangling_end(self.nodes)
                is None
    }

    /// `d` is the first dangling reference of this graph: no earlier edge
    /// dangles, and on edge `d.edge` the end `d.endpoint` is the first that
    /// does, under the name `d.name`.
    pub open spec fn first_dangling_is(self, d: Dangling) -> bool {
        &&& 0 <= d.edge < self.edges.len()
        &&& forall|k: int|
            0 <= k < d.edge ==> (#[trigger] self.edges[k]).dangling_end(self.nodes) is None
        &&& self.edges[d.edge].dangling_end(self.nodes) == Some(d.endpoint)
        &&& d.name == self.edges[d.edge].end_name(d.endpoint)
    }
}

/// The names of `nodes`, as the keys of a map.
fn known_names(nodes: &Vec<GraphNode>) -> (names: StringHashMap<()>)
    ensures
        forall|name: Seq<char>|
            names@.contains_key(name) <==> exists|i: int|
                0 <= i < nodes@.len() && (#[trigger] nodes@[i]).name@ == name,
{
    let mut names: StringHashMap<()> = StringHashMap::new();
    let mut i: usize = 0;
    while i < nodes.len()
        invariant
            i <= nodes@.len(),
            forall|name: Seq<char>|
                names@.contains_key(name) <==> exists|k: int|
                    0 <= k < i && (#[trigger] nodes@[k]).name@ == name,
        decreases nodes@.len() - i,
    {
        names.insert(nodes[i].name.clone(), ());
        i += 1;
    }
    names
}

impl ValidationError {
    /// The sentence that reports this error.
    pub fn message(&self) -> (text: String)
        ensures
            text@ == dangling_message(self.endpoint, self.name@),
    {
        describe_dangling(self.endpoint, self.name.as_str())
    }
}

/// The sentence that reports an unknown name at one end of an edge.
pub open spec fn dangling_message(endpoint: Endpoint, name: Seq<char>) -> Seq<char> {
    match endpoint {
        Endpoint::Source => "Source node "@ + name + " not found"@,
        Endpoint::Target => "Target node "@ + name + " not found"@,
    }
}

/// Writes out `dangling_message`.
pub(crate) fn describe_dangling(endpoint: Endpoint, name: &str) -> (text: String)
    ensures
        text@ == dangling_message(endpoint, name@),
{
    let mut text = match endpoint {
        Endpoint::Source => String::from_str("Source node "),
        Endpoint::Target => String::from_str("Target node "),
    };
    text.append(name);
    text.append(" not found");
    text
}

impl GraphData {
    /// Checks that every edge starts and ends at a node of this graph.
    ///
    /// The graph is accepted exactly when it is valid. Otherwise the error
    /// names the first reference that dangles, edges taken in order and the
    /// source of an edge before its target.
    pub fn validate(&self) -> (result: Result<(), ValidationError>)
        ensures
            match result {
                Ok(()) => self@.is_valid(),
                Err(e) => self@.first_dangling_is(e@),
            },
    {
        let names = known_names(&self.nodes);
        proof {
            assert forall|name: Seq<char>| names@.contains_key(name) == has_node(
                self@.nodes,
                name,
            ) by {
                if names@.contains_key(name) {
                    let i = choose|i: int|
                        0 <= i < self.nodes@.len() && (#[trigger] self.nodes@[i]).name@ == name;
                    assert(self@.nodes[i].name == name);
                }
                if has_node(self@.nodes, name) {
                    let i = choose|i: int|
                        0 <= i < self@.nodes.len() && (#[trigger] self@.nodes[i]).name == name;
                    assert(self.nodes@[i].name@ == name);
                }
            }
        }
        let mut j: usize = 0;
        while j < self.edges.len()
            invariant
                j <= self.edges@.len(),
                forall|name: Seq<char>|
                    names@.contains_key(name) == has_node(self@.nodes, name),
                forall|k: int|
                    0 <= k < j ==> (#[trigger] self@.edges[k]).dangling_end(self@.nodes) is None,
            decreases self.edges@.len() - j,
        {
            let edge = &self.edges[j];
            assert(self@.edges[j as int] == edge@);
            if !names.contains_key(edge.source.as_str()) {
                return Err(
                    ValidationError {
                        edge: j,
                        endpoint: Endpoint::Source,
                        name: edge.source.clone(),
                    },
                );
            }
            if !names.contains_key(edge.target.as_str()) {
                return Err(
                    ValidationError {
                        edge: j,
                        endpoint: Endpoint::Target,
                        name: edge.target.clone(),
                    },
                );
            }
            j += 1;
        }
        Ok(())
    }
}

} // verus!
