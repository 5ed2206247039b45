//! The dependency graph, kept in a graph of the `petgraph` crate.

use vstd::prelude::*;
use petgraph::graph::EdgeIndex;
use petgraph::graph::Graph;
use petgraph::graph::NodeIndex;
use petgraph::Directed;
use crate::analysis::mir::data_flow::DependencyGraphNode;
use crate::analysis::mir::data_flow::EdgeInstance;
use crate::analysis::mir::data_flow::EdgeInstanceModel;
use crate::analysis::mir::data_flow::GraphEdge;
use crate::analysis::mir::data_flow::NodeModel;
use crate::analysis::mir::data_flow::EdgeDataFlowType;
use crate::span::IRSpan;
use crate::span::SpanModel;

verus! {

/// The marker type of petgraph for graphs with directed edges.
#[verifier::external_type_specification]
#[verifier::external_body]
pub struct ExDirected(petgraph::Directed);

/// petgraph's adjacency-list graph. Verus sees nothing inside it: what it holds
/// is named by [`graph_nodes`] and [`graph_edges`].
#[verifier::external_type_specification]
#[verifier::external_body]
#[verifier::reject_recursive_types(N)]
#[verifier::reject_recursive_types(E)]
#[verifier::reject_recursive_types(Ty)]
#[verifier::reject_recursive_types(Ix)]
pub struct ExGraph<N, E, Ty, Ix>(petgraph::graph::Graph<N, E, Ty, Ix>);

/// The node weights that a petgraph graph holds, by node index.
pub uninterp spec fn graph_nodes(
    g: Graph<DependencyGraphNode, GraphEdge, Directed, usize>,
) -> Seq<DependencyGraphNode>;

/// The edges that a petgraph graph holds, by edge index: source node index,
/// target node index and weight of each.
pub uninterp spec fn graph_edges(
    g: Graph<DependencyGraphNode, GraphEdge, Directed, usize>,
) -> Seq<(usize, usize, GraphEdge)>;

/// `Graph::with_capacity(0, 0)`: a graph without nodes and without edges.
#[verifier::external_body]
fn graph_new() -> (g: Graph<DependencyGraphNode, GraphEdge, Directed, usize>)
    ensures
        graph_nodes(g).len() == 0,
        graph_edges(g).len() == 0,
{
    Graph::with_capacity(0, 0)
}

/// `Graph::node_count`: the number of nodes.
#[verifier::external_body]
fn graph_node_count(g: &Graph<DependencyGraphNode, GraphEdge, Directed, usize>) -> (r: usize)
    ensures
        r == graph_nodes(*g).len(),
{
    g.node_count()
}

/// `Graph::edge_count`: the number of edges.
#[verifier::external_body]
fn graph_edge_count(g: &Graph<DependencyGraphNode, GraphEdge, Directed, usize>) -> (r: usize)
    ensures
        r == graph_edges(*g).len(),
{
    g.edge_count()
}

/// Indexing a `Graph` by a `NodeIndex`: the weight of that node. The index has
/// to be one of a node of the graph.
#[verifier::external_body]
fn graph_node_weight(
    g: &Graph<DependencyGraphNode, GraphEdge, Directed, usize>,
    i: usize,
) -> (r: &DependencyGraphNode)
    requires
        i < graph_nodes(*g).len(),
    ensures
        *r == graph_nodes(*g)[i as int],
{
    &g[NodeIndex::new(i)]
}

/// Indexing a `Graph` by an `EdgeIndex`: the weight of that edge. The index has
/// to be one of an edge of the graph.
#[verifier::external_body]
fn graph_edge_weight(
    g: &Graph<DependencyGraphNode, GraphEdge, Directed, usize>,
    e: usize,
) -> (r: &GraphEdge)
    requires
        e < graph_edges(*g).len(),
    ensures
        *r == graph_edges(*g)[e as int].2,
{
    &g[EdgeIndex::new(e)]
}

/// `Graph::edge_endpoints`: source and target of an edge, `None` for an index
/// that is not one of an edge of the graph.
#[verifier::external_body]
fn graph_edge_endpoints(
    g: &Graph<DependencyGraphNode, GraphEdge, Directed, usize>,
    e: usize,
) -> (r: Option<(usize, usize)>)
    ensures
        e < graph_edges(*g).len() ==> r == Some(
            (graph_edges(*g)[e as int].0, graph_edges(*g)[e as int].1),
        ),
        e >= graph_edges(*g).len() ==> r is None,
{
    g.edge_endpoints(EdgeIndex::new(e)).map(|(a, b)| (a.index(), b.index()))
}

/// `Graph::add_node`: appends a node with the given weight and returns its
/// index. Nodes that were there keep their indices, edges are untouched. With
/// `usize` indices the graph has no capacity limit of its own.
#[verifier::external_body]
fn graph_add_node(
    g: &mut Graph<DependencyGraphNode, GraphEdge, Directed, usize>,
    weight: DependencyGraphNode,
) -> (r: usize)
    ensures
        graph_nodes(*final(g)) == graph_nodes(*old(g)).push(weight),
        graph_edges(*final(g)) == graph_edges(*old(g)),
        r == graph_nodes(*old(g)).len(),
{
    g.add_node(weight).index()
}

/// `Graph::add_edge`: appends an edge from `a` to `b` with the given weight and
/// returns its index. Both nodes have to exist. Edges that were there keep their
/// indices, nodes are untouched.
#[verifier::external_body]
fn graph_add_edge(
    g: &mut Graph<DependencyGraphNode, GraphEdge, Directed, usize>,
    a: usize,
    b: usize,
    weight: GraphEdge,
) -> (r: usize)
    requires
        a < graph_nodes(*old(g)).len(),
        b < graph_nodes(*old(g)).len(),
    ensures
        graph_nodes(*final(g)) == graph_nodes(*old(g)),
        graph_edges(*final(g)) == graph_edges(*old(g)).push((a, b, weight)),
        r == graph_edges(*old(g)).len(),
{
    g.add_edge(NodeIndex::new(a), NodeIndex::new(b), weight).index()
}

/// `Graph::find_edge`: the index of some edge from `a` to `b`, `None` if and
/// only if there is none.
#[verifier::external_body]
fn graph_find_edge(
    g: &Graph<DependencyGraphNode, GraphEdge, Directed, usize>,
    a: usize,
    b: usize,
) -> (r: Option<usize>)
    requires
        a < graph_nodes(*g).len(),
        b < graph_nodes(*g).len(),
    ensures
        match r {
            Some(e) => e < graph_edges(*g).len() && graph_edges(*g)[e as int].0 == a
                && graph_edges(*g)[e as int].1 == b,
            None => forall|e: int|
                0 <= e < graph_edges(*g).len() ==> !((#[trigger] graph_edges(*g)[e]).0 == a
                    && graph_edges(*g)[e].1 == b),
        },
{
    g.find_edge(NodeIndex::new(a), NodeIndex::new(b)).map(|e| e.index())
}

/// Assignment through `IndexMut` by an `EdgeIndex`: replaces the weight of one
/// edge and nothing else. The index has to be one of an edge of the graph.
#[verifier::external_body]
fn graph_set_edge_weight(
    g: &mut Graph<DependencyGraphNode, GraphEdge, Directed, usize>,
    e: usize,
    weight: GraphEdge,
)
    requires
        e < graph_edges(*old(g)).len(),
    ensures
        graph_nodes(*final(g)) == graph_nodes(*old(g)),
        graph_edges(*final(g)) == graph_edges(*old(g)).update(
            e as int,
            (graph_edges(*old(g))[e as int].0, graph_edges(*old(g))[e as int].1, weight),
        ),
{
    g[EdgeIndex::new(e)] = weight;
}

/// The mathematical value of one edge: its two node indices and its instances.
pub struct EdgeModel {
    pub from: int,
    pub to: int,
    pub instances: Seq<EdgeInstanceModel>,
}

/// The mathematical value of a dependency graph: nodes by index, and edges by
/// index, which is the order in which they were first recorded.
pub struct GraphModel {
    pub nodes: Seq<NodeModel>,
    pub edges: Seq<EdgeModel>,
}

impl GraphModel {
    /// The empty graph.
    pub open spec fn empty() -> GraphModel {
        GraphModel { nodes: Seq::empty(), edges: Seq::empty() }
    }

    /// No node occurs twice; every edge joins two nodes of the graph, holds at
    /// least one instance and does not lead into the function input; no two
    /// edges join the same nodes in the same direction.
    pub open spec fn wf(self) -> bool {
        &&& forall|i: int, j: int|
            0 <= i < j < self.nodes.len() ==> #[trigger] self.nodes[i] != #[trigger] self.nodes[j]
        &&& forall|e: int|
            0 <= e < self.edges.len() ==> {
                &&& 0 <= (#[trigger] self.edges[e]).from < self.nodes.len()
                &&& 0 <= self.edges[e].to < self.nodes.len()
                &&& self.edges[e].instances.len() > 0
                &&& !(self.nodes[self.edges[e].to] is FunctionInput)
            }
        &&& forall|e: int, f: int|
            0 <= e < f < self.edges.len() ==> !((#[trigger] self.edges[e]).from == (
            #[trigger] self.edges[f]).from && self.edges[e].to == self.edges[f].to)
    }

    /// The index of a node, or the number of nodes if the graph does not hold it.
    pub open spec fn node_index(self, n: NodeModel) -> int {
        if self.nodes.contains(n) {
            self.nodes.index_of(n)
        } else {
            self.nodes.len() as int
        }
    }

    /// The graph with a node added, unless it is there already.
    pub open spec fn with_node(self, n: NodeModel) -> GraphModel {
        if self.nodes.contains(n) {
            self
        } else {
            GraphModel { nodes: self.nodes.push(n), edges: self.edges }
        }
    }

    /// Whether `e` is an edge from node `a` to node `b`.
    pub open spec fn joins(self, e: int, a: int, b: int) -> bool {
        0 <= e < self.edges.len() && self.edges[e].from == a && self.edges[e].to == b
    }

    /// The edge from node `a` to node `b`, if there is one.
    pub open spec fn edge_between(self, a: int, b: int) -> Option<int> {
        if exists|e: int| self.joins(e, a, b) {
            Some(choose|e: int| self.joins(e, a, b))
        } else {
            None
        }
    }

    /// The graph after an instance was recorded between two of its nodes: it is
    /// the last instance of the edge between them, which is a new edge if
    /// there was none.
    pub open spec fn add_flow_at(self, a: int, b: int, instance: EdgeInstanceModel) -> GraphModel {
        match self.edge_between(a, b) {
            Some(e) => GraphModel {
                nodes: self.nodes,
                edges: self.edges.update(
                    e,
                    EdgeModel { from: a, to: b, instances: self.edges[e].instances.push(instance) },
                ),
            },
            None => GraphModel {
                nodes: self.nodes,
                edges: self.edges.push(EdgeModel { from: a, to: b, instances: seq![instance] }),
            },
        }
    }

    /// The graph after one flow from node `from` to node `to` was recorded:
    /// both nodes are there, and the instance is recorded between them.
    pub open spec fn add_flow(
        self,
        from: NodeModel,
        to: NodeModel,
        instance: EdgeInstanceModel,
    ) -> GraphModel {
        let g = self.with_node(from).with_node(to);
        g.add_flow_at(g.node_index(from), g.node_index(to), instance)
    }

    /// The edges among the first `k` that leave node `a`, in ascending order.
    pub open spec fn out_edges_upto(self, a: int, k: int) -> Seq<int>
        decreases k,
    {
        if k <= 0 {
            Seq::empty()
        } else {
            let before = self.out_edges_upto(a, k - 1);
            if self.edges[k - 1].from == a {
                before.push(k - 1)
            } else {
                before
            }
        }
    }

    /// The edges that leave node `a`, in the order in which they were recorded.
    pub open spec fn out_edges(self, a: int) -> Seq<int> {
        self.out_edges_upto(a, self.edges.len() as int)
    }

    /// The location of the first instance of edge `e`.
    pub open spec fn first_span(self, e: int) -> SpanModel {
        self.edges[e].instances[0].span
    }
}

/// In a graph without repeated nodes, a node found at an index has that index.
pub proof fn lemma_node_index(g: GraphModel, n: NodeModel, i: int)
    requires
        g.wf(),
        0 <= i < g.nodes.len(),
        g.nodes[i] == n,
    ensures
        g.nodes.contains(n),
        g.node_index(n) == i,
{
    assert(g.nodes.contains(n));
    let j = g.nodes.index_of(n);
    if j < i {
        assert(g.nodes[j] != g.nodes[i]);
    } else if i < j {
        assert(g.nodes[i] != g.nodes[j]);
    }
}

/// In a graph without parallel edges, an edge found between two nodes is the
/// edge between them.
pub proof fn lemma_edge_between(g: GraphModel, a: int, b: int, e: int)
    requires
        g.wf(),
        g.joins(e, a, b),
    ensures
        g.edge_between(a, b) == Some(e),
{
    let f = choose|f: int| g.joins(f, a, b);
    if f < e {
        assert(!(g.edges[f].from == g.edges[e].from && g.edges[f].to == g.edges[e].to));
    } else if e < f {
        assert(!(g.edges[e].from == g.edges[f].from && g.edges[e].to == g.edges[f].to));
    }
}

/// The edges that leave a node are exactly the edges whose source it is, and
/// they are listed in ascending order.
pub proof fn lemma_out_edges_upto(g: GraphModel, a: int, k: int)
    requires
        0 <= k <= g.edges.len(),
    ensures
        forall|x: int|
            g.out_edges_upto(a, k).contains(x) <==> (0 <= x < k && g.edges[x].from == a),
        forall|i: int, j: int|
            0 <= i < j < g.out_edges_upto(a, k).len() ==> g.out_edges_upto(a, k)[i]
                < g.out_edges_upto(a, k)[j],
        forall|i: int|
            0 <= i < g.out_edges_upto(a, k).len() ==> 0 <= #[trigger] g.out_edges_upto(a, k)[i]
                < k,
    decreases k,
{
    if k > 0 {
        lemma_out_edges_upto(g, a, k - 1);
        let before = g.out_edges_upto(a, k - 1);
        let now = g.out_edges_upto(a, k);
        if g.edges[k - 1].from == a {
            assert(now == before.push(k - 1));
            assert(now[now.len() - 1] == k - 1);
            assert forall|x: int| now.contains(x) <==> (0 <= x < k && g.edges[x].from == a) by {
                if now.contains(x) {
                    let i = choose|i: int| 0 <= i < now.len() && now[i] == x;
                    if i < before.len() {
                        assert(before[i] == x);
                        assert(before.contains(x));
                    }
                }
                if 0 <= x < k && g.edges[x].from == a {
                    if x == k - 1 {
                        assert(now[now.len() - 1] == x);
                    } else {
                        assert(before.contains(x));
                        let i = choose|i: int| 0 <= i < before.len() && before[i] == x;
                        assert(now[i] == x);
                    }
                }
            }
            assert forall|i: int, j: int| 0 <= i < j < now.len() implies now[i] < now[j] by {
                if j < before.len() {
                    assert(before[i] < before[j]);
                } else {
                    assert(now[i] == before[i]);
                }
            }
        } else {
            assert(now == before);
        }
    }
}

/// One edge as seen from its source node: its index and the node it leads to.
#[derive(Debug, Clone, Copy, PartialEq, Eq)]
pub struct OutEdge {
    pub edge: usize,
    pub target: usize,
}

/// Whether `list` holds the edges among the first `k` that leave node `a`, in
/// ascending order, each with its target.
pub open spec fn lists_out_edges_upto(g: GraphModel, a: int, k: int, list: Seq<OutEdge>) -> bool {
    &&& list.len() == g.out_edges_upto(a, k).len()
    &&& forall|i: int|
        0 <= i < list.len() ==> (#[trigger] list[i]).edge == g.out_edges_upto(a, k)[i]
            && list[i].target == g.edges[g.out_edges_upto(a, k)[i]].to
}

/// Whether `list` holds the edges that leave node `a`, in the order in which
/// they were recorded, each with its target.
pub open spec fn lists_out_edges(g: GraphModel, a: int, list: Seq<OutEdge>) -> bool {
    lists_out_edges_upto(g, a, g.edges.len() as int, list)
}

/// Whether `adjacency` holds for every node of the graph its outgoing edges.
pub open spec fn is_adjacency_of(g: GraphModel, adjacency: Seq<Vec<OutEdge>>) -> bool {
    &&& adjacency.len() == g.nodes.len()
    &&& forall|a: int| 0 <= a < adjacency.len() ==> lists_out_edges(g, a, (#[trigger] adjacency[a])@)
}

/// The dependency graph of one function body: value nodes and sink nodes, and
/// between them edges that hold every flow recorded from one node to another.
pub struct DependencyGraph {
    graph: Graph<DependencyGraphNode, GraphEdge, Directed, usize>,
}

impl View for DependencyGraph {
    type V = GraphModel;

    closed spec fn view(&self) -> GraphModel {
        GraphModel {
            nodes: Seq::new(graph_nodes(self.graph).len(), |i: int| graph_nodes(self.graph)[i]@),
            edges: Seq::new(
                graph_edges(self.graph).len(),
                |i: int|
                    EdgeModel {
                        from: graph_edges(self.graph)[i].0 as int,
                        to: graph_edges(self.graph)[i].1 as int,
                        instances: graph_edges(self.graph)[i].2@,
                    },
            ),
        }
    }
}

impl DependencyGraph {
    /// The invariant of the graph: that of its value.
    pub open spec fn wf(&self) -> bool {
        self@.wf()
    }

    /// A graph without nodes and edges.
    pub fn new() -> (g: DependencyGraph)
        ensures
            g@ == GraphModel::empty(),
            g.wf(),
    {
        let g = DependencyGraph { graph: graph_new() };
        assert(g@.nodes =~= Seq::empty());
        assert(g@.edges =~= Seq::empty());
        g
    }

    /// The number of nodes.
    pub fn node_count(&self) -> (r: usize)
        ensures
            r == self@.nodes.len(),
    {
        graph_node_count(&self.graph)
    }

    /// The number of edges.
    pub fn edge_count(&self) -> (r: usize)
        ensures
            r == self@.edges.len(),
    {
        graph_edge_count(&self.graph)
    }

    /// The node with index `i`.
    pub fn node(&self, i: usize) -> (r: &DependencyGraphNode)
        requires
            i < self@.nodes.len(),
        ensures
            r@ == self@.nodes[i as int],
    {
        graph_node_weight(&self.graph, i)
    }

    /// The edge with index `e`.
    pub fn edge(&self, e: usize) -> (r: &GraphEdge)
        requires
            e < self@.edges.len(),
        ensures
            r@ == self@.edges[e as int].instances,
    {
        graph_edge_weight(&self.graph, e)
    }

    /// Source and target of the edge with index `e`, `None` if there is no such
    /// edge.
    pub fn edge_endpoints(&self, e: usize) -> (r: Option<(usize, usize)>)
        ensures
            match r {
                Some(ends) => e < self@.edges.len() && ends.0 == self@.edges[e as int].from
                    && ends.1 == self@.edges[e as int].to,
                None => e >= self@.edges.len(),
            },
    {
        graph_edge_endpoints(&self.graph, e)
    }

    /// For every node the edges that leave it, in the order in which they were
    /// recorded.
    pub fn outgoing(&self) -> (r: Vec<Vec<OutEdge>>)
        requires
            self.wf(),
        ensures
            is_adjacency_of(self@, r@),
    {
        let nodes = self.node_count();
        let edges = self.edge_count();
        let mut adjacency: Vec<Vec<OutEdge>> = Vec::new();
        let mut a: usize = 0;
        while a < nodes
            invariant
                a <= nodes,
                adjacency.len() == a,
                forall|k: int| 0 <= k < a ==> (#[trigger] adjacency[k])@.len() == 0,
            decreases nodes - a,
        {
            adjacency.push(Vec::new());
            a += 1;
        }
        let mut e: usize = 0;
        while e < edges
            invariant
                e <= edges,
                edges == self@.edges.len(),
                nodes == self@.nodes.len(),
                self.wf(),
                adjacency.len() == nodes,
                forall|k: int|
                    0 <= k < nodes ==> lists_out_edges_upto(
                        self@,
                        k,
                        e as int,
                        (#[trigger] adjacency[k])@,
                    ),
            decreases edges - e,
        {
            match self.edge_endpoints(e) {
                Some((from, to)) => {
                    let ghost before = adjacency@;
                    adjacency[from].push(OutEdge { edge: e, target: to });
                    proof {
                        assert forall|k: int| 0 <= k < nodes implies lists_out_edges_upto(
                            self@,
                            k,
                            e + 1,
                            (#[trigger] adjacency[k])@,
                        ) by {
                            assert(lists_out_edges_upto(self@, k, e as int, before[k]@));
                            if k == from {
                                assert(adjacency[k]@ == before[k]@.push(
                                    OutEdge { edge: e, target: to },
                                ));
                            } else {
                                assert(adjacency[k]@ == before[k]@);
                            }
                        }
                    }
                },
                None => {},
            }
            e += 1;
        }
        adjacency
    }

    /// The index of a node, `None` if the graph does not hold it.
    pub fn find_node(&self, n: &DependencyGraphNode) -> (r: Option<usize>)
        ensures
            match r {
                Some(i) => i < self@.nodes.len() && self@.nodes[i as int] == n@,
                None => !self@.nodes.contains(n@),
            },
    {
        let count = graph_node_count(&self.graph);
        let mut i: usize = 0;
        while i < count
            invariant
                i <= count,
                count == self@.nodes.len(),
                forall|k: int| 0 <= k < i ==> self@.nodes[k] != n@,
            decreases count - i,
        {
            if graph_node_weight(&self.graph, i).same(n) {
                return Some(i);
            }
            i += 1;
        }
        None
    }

    /// The index of a node, which is added to the graph if it is not there yet.
    fn node_index_or_insert(&mut self, n: DependencyGraphNode) -> (r: usize)
        requires
            old(self).wf(),
        ensures
            final(self).wf(),
            final(self)@ == old(self)@.with_node(n@),
            r == final(self)@.node_index(n@),
            r < final(self)@.nodes.len(),
            final(self)@.nodes[r as int] == n@,
    {
        match self.find_node(&n) {
            Some(i) => {
                proof {
                    lemma_node_index(self@, n@, i as int);
                }
                i
            },
            None => {
                let ghost before = self@;
                let i = graph_add_node(&mut self.graph, n);
                proof {
                    assert(self@.nodes =~= before.nodes.push(n@));
                    assert(self@.edges =~= before.edges);
                    assert(self@.wf()) by {
                        assert forall|a: int, b: int| 0 <= a < b < self@.nodes.len() implies self@.nodes[a]
                            != self@.nodes[b] by {
                            if b == before.nodes.len() {
                                assert(before.nodes.contains(before.nodes[a]));
                            } else {
                                assert(before.nodes[a] != before.nodes[b]);
                            }
                        }
                        assert forall|e: int| 0 <= e < self@.edges.len() implies 0 <= (
                        #[trigger] self@.edges[e]).from < self@.nodes.len() && 0 <= self@.edges[e].to
                            < self@.nodes.len() && self@.edges[e].instances.len() > 0 && !(
                        self@.nodes[self@.edges[e].to] is FunctionInput) by {
                            assert(before.edges[e].instances.len() > 0);
                        }
                    }
                    lemma_node_index(self@, n@, i as int);
                }
                i
            },
        }
    }

    /// Records one flow from node `from` to node `to`. Either node is added if
    /// the graph does not hold it yet; the instance is appended to the edge
    /// between the two, which is added if there was none.
    pub fn add_data_dependency_edge(
        &mut self,
        from: DependencyGraphNode,
        to: DependencyGraphNode,
        span: IRSpan,
        flow_type: EdgeDataFlowType,
    )
        requires
            old(self).wf(),
            !(to@ is FunctionInput),
        ensures
            final(self).wf(),
            final(self)@ == old(self)@.add_flow(
                from@,
                to@,
                EdgeInstanceModel { span: span@, data_flow_type: flow_type },
            ),
    {
        let ghost start = self@;
        let ghost from_model = from@;
        let ghost to_model = to@;
        let from_idx = self.node_index_or_insert(from);
        proof {
            assert(self@.nodes[from_idx as int] == from_model) by {
                if start.nodes.contains(from_model) {
                } else {
                    assert(self@.nodes =~= start.nodes.push(from_model));
                }
            }
        }
        let to_idx = self.node_index_or_insert(to);
        let ghost g = self@;
        proof {
            assert(g == start.with_node(from_model).with_node(to_model));
            assert(g.nodes[from_idx as int] == from_model);
            lemma_node_index(g, from_model, from_idx as int);
            assert(g.nodes[to_idx as int] == to_model);
        }
        let new_edge = EdgeInstance { span, data_flow_type: flow_type };
        let ghost instance = new_edge@;
        match graph_find_edge(&self.graph, from_idx, to_idx) {
            Some(e) => {
                proof {
                    assert(g.joins(e as int, from_idx as int, to_idx as int));
                    lemma_edge_between(g, from_idx as int, to_idx as int, e as int);
                }
                let mut weight = graph_edge_weight(&self.graph, e).clone();
                weight.instances.push(new_edge);
                proof {
                    assert(weight@ =~= g.edges[e as int].instances.push(instance));
                }
                graph_set_edge_weight(&mut self.graph, e, weight);
                proof {
                    let after = g.add_flow_at(from_idx as int, to_idx as int, instance);
                    assert(self@.nodes =~= g.nodes);
                    assert(self@.edges =~= after.edges);
                }
            },
            None => {
                proof {
                    assert(forall|e: int| !g.joins(e, from_idx as int, to_idx as int));
                }
                let weight = GraphEdge { instances: vec![new_edge] };
                proof {
                    assert(weight@ =~= seq![instance]);
                }
                graph_add_edge(&mut self.graph, from_idx, to_idx, weight);
                proof {
                    let after = g.add_flow_at(from_idx as int, to_idx as int, instance);
                    assert(self@.nodes =~= g.nodes);
                    assert(self@.edges =~= after.edges);
                }
            },
        }
        proof {
            lemma_add_flow_at_wf(g, from_idx as int, to_idx as int, instance);
        }
    }
}

/// Recording an instance between two nodes of a well-formed graph leaves it
/// well-formed.
pub proof fn lemma_add_flow_at_wf(g: GraphModel, a: int, b: int, instance: EdgeInstanceModel)
    requires
        g.wf(),
        0 <= a < g.nodes.len(),
        0 <= b < g.nodes.len(),
        !(g.nodes[b] is FunctionInput),
    ensures
        g.add_flow_at(a, b, instance).wf(),
{
    let after = g.add_flow_at(a, b, instance);
    match g.edge_between(a, b) {
        Some(e) => {
            assert(g.joins(e, a, b));
            assert forall|x: int, y: int| 0 <= x < y < after.edges.len() implies !((
            #[trigger] after.edges[x]).from == (#[trigger] after.edges[y]).from && after.edges[x].to
                == after.edges[y].to) by {
                assert(!(g.edges[x].from == g.edges[y].from && g.edges[x].to == g.edges[y].to));
            }
            assert forall|x: int| 0 <= x < after.edges.len() implies 0 <= (
            #[trigger] after.edges[x]).from < after.nodes.len() && 0 <= after.edges[x].to
                < after.nodes.len() && after.edges[x].instances.len() > 0 && !(
            after.nodes[after.edges[x].to] is FunctionInput) by {
                assert(g.edges[x].instances.len() > 0);
            }
        },
        None => {
            assert forall|x: int, y: int| 0 <= x < y < after.edges.len() implies !((
            #[trigger] after.edges[x]).from == (#[trigger] after.edges[y]).from && after.edges[x].to
                == after.edges[y].to) by {
                if y == g.edges.len() {
                    assert(!g.joins(x, a, b));
                } else {
                    assert(!(g.edges[x].from == g.edges[y].from && g.edges[x].to == g.edges[y].to));
                }
            }
            assert forall|x: int| 0 <= x < after.edges.len() implies 0 <= (
            #[trigger] after.edges[x]).from < after.nodes.len() && 0 <= after.edges[x].to
                < after.nodes.len() && after.edges[x].instances.len() > 0 && !(
            after.nodes[after.edges[x].to] is FunctionInput) by {
                if x < g.edges.len() {
                    assert(g.edges[x].instances.len() > 0);
                }
            }
        },
    }
}

} // verus!
