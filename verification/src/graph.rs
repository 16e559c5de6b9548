//! The graph model: nodes keyed by object UID, labelled edges, and the
//! well-formedness that every returned graph satisfies — edge endpoints
//! resolve to nodes, node ids are unique, and the root node comes first.

use vstd::prelude::*;
use vstd::string::StringExecFns;

verus! {

/// A graph node: one Kubernetes object, identified by its UID.
pub struct GraphNode {
    pub id: String,
    pub label: String,
    pub resource_type: String,
    pub data: serde_json::Value,
}

/// A directed, labelled edge between two nodes, by node id.
pub struct GraphEdge {
    pub id: String,
    pub source: String,
    pub target: String,
    pub label: String,
}

/// The resolved graph: nodes and edges, root node first.
pub struct GraphData {
    pub nodes: Vec<GraphNode>,
    pub edges: Vec<GraphEdge>,
}

/// The mathematical image of a node. The document in `data` is carried
/// along unread.
pub ghost struct NodeD {
    pub id: Seq<char>,
    pub label: Seq<char>,
    pub resource_type: Seq<char>,
    pub data: serde_json::Value,
}

/// The mathematical image of an edge.
pub ghost struct EdgeD {
    pub id: Seq<char>,
    pub source: Seq<char>,
    pub target: Seq<char>,
    pub label: Seq<char>,
}

/// The mathematical image of a graph.
pub ghost struct GraphD {
    pub nodes: Seq<NodeD>,
    pub edges: Seq<EdgeD>,
}

impl View for GraphNode {
    type V = NodeD;

    open spec fn view(&self) -> NodeD {
        NodeD {
            id: self.id@,
            label: self.label@,
            resource_type: self.resource_type@,
            data: self.data,
        }
    }
}

impl View for GraphEdge {
    type V = EdgeD;

    open spec fn view(&self) -> EdgeD {
        EdgeD { id: self.id@, source: self.source@, target: self.target@, label: self.label@ }
    }
}

/// The images of a list of nodes.
pub open spec fn nodes_view(ns: Seq<GraphNode>) -> Seq<NodeD> {
    ns.map_values(|n: GraphNode| n@)
}

/// The images of a list of edges.
pub open spec fn edges_view(es: Seq<GraphEdge>) -> Seq<EdgeD> {
    es.map_values(|e: GraphEdge| e@)
}

impl View for GraphData {
    type V = GraphD;

    open spec fn view(&self) -> GraphD {
        GraphD { nodes: nodes_view(self.nodes@), edges: edges_view(self.edges@) }
    }
}

/// Whether some node carries the id.
pub open spec fn has_node_id(nodes: Seq<NodeD>, id: Seq<char>) -> bool {
    exists|i: int| 0 <= i < nodes.len() && nodes[i].id == id
}

/// Whether no two nodes share an id.
pub open spec fn unique_node_ids(nodes: Seq<NodeD>) -> bool {
    forall|i: int, j: int|
        0 <= i < j < nodes.len() ==> (#[trigger] nodes[i]).id != (#[trigger] nodes[j]).id
}

/// Whether every edge's source and target name an existing node.
pub open spec fn edges_covered(g: GraphD) -> bool {
    forall|i: int|
        0 <= i < g.edges.len() ==> has_node_id(g.nodes, (#[trigger] g.edges[i]).source)
            && has_node_id(g.nodes, g.edges[i].target)
}

/// Well-formedness of a resolved graph rooted at `root_id`: the root node
/// exists and comes first, ids are unique, and edges are covered.
pub open spec fn graph_wf(g: GraphD, root_id: Seq<char>) -> bool {
    &&& g.nodes.len() >= 1
    &&& g.nodes[0].id == root_id
    &&& unique_node_ids(g.nodes)
    &&& edges_covered(g)
}

/// In a well-formed graph the root node stands alone: no later node
/// carries the root's id, however many rules re-discover the root.
pub proof fn lemma_root_inserted_once(g: GraphD, root_id: Seq<char>)
    requires
        graph_wf(g, root_id),
    ensures
        forall|i: int| 1 <= i < g.nodes.len() ==> (#[trigger] g.nodes[i]).id != root_id,
{
    assert forall|i: int| 1 <= i < g.nodes.len() implies (#[trigger] g.nodes[i]).id != root_id by {
        assert(g.nodes[0].id == root_id);
    }
}

/// Inserting a node with first-insertion-wins deduplication: a node whose
/// id is already present is dropped.
pub open spec fn push_dedup(nodes: Seq<NodeD>, n: NodeD) -> Seq<NodeD> {
    if has_node_id(nodes, n.id) {
        nodes
    } else {
        nodes.push(n)
    }
}

/// The id of an edge: source and target joined by a dash.
pub open spec fn edge_id_spec(source: Seq<char>, target: Seq<char>) -> Seq<char> {
    source + "-"@ + target
}

/// Whether some node of the list carries the id.
pub fn contains_node(nodes: &Vec<GraphNode>, id: &String) -> (b: bool)
    ensures
        b == has_node_id(nodes_view(nodes@), id@),
{
    let mut i: usize = 0;
    while i < nodes.len()
        invariant
            i <= nodes.len(),
            forall|j: int| 0 <= j < i ==> (#[trigger] nodes_view(nodes@)[j]).id != id@,
        decreases nodes.len() - i,
    {
        if nodes[i].id == *id {
            assert(nodes_view(nodes@)[i as int].id == id@);
            return true;
        }
        assert(nodes_view(nodes@)[i as int].id != id@);
        i = i + 1;
    }
    false
}

/// Appends a node unless its id is already present; the first insertion
/// wins.
pub fn add_node(nodes: &mut Vec<GraphNode>, n: GraphNode)
    ensures
        nodes_view(final(nodes)@) == push_dedup(nodes_view(old(nodes)@), n@),
{
    let present = contains_node(nodes, &n.id);
    if !present {
        nodes.push(n);
        assert(nodes_view(final(nodes)@) =~= nodes_view(old(nodes)@).push(n@));
    }
}

/// The id of an edge from `source` to `target`.
pub fn edge_id(source: &String, target: &String) -> (r: String)
    ensures
        r@ == edge_id_spec(source@, target@),
{
    let mut r: String = source.clone();
    r.append("-");
    r.append(target.as_str());
    r
}

/// Appends the edge from `source` to `target` with the label; edges are
/// never deduplicated.
pub fn add_edge(edges: &mut Vec<GraphEdge>, source: &String, target: &String, label: String)
    ensures
        edges_view(final(edges)@) == edges_view(old(edges)@).push(
            EdgeD {
                id: edge_id_spec(source@, target@),
                source: source@,
                target: target@,
                label: label@,
            },
        ),
{
    let id = edge_id(source, target);
    let e = GraphEdge { id, source: source.clone(), target: target.clone(), label };
    edges.push(e);
    assert(edges_view(final(edges)@) =~= edges_view(old(edges)@).push(
        EdgeD {
            id: edge_id_spec(source@, target@),
            source: source@,
            target: target@,
            label: label@,
        },
    ));
}

} // verus!
