//! The drawing of a dependency graph with its markings.

use vstd::prelude::*;
use vstd::string::StringExecFns;
use crate::analysis::mir::data_flow::DependencyGraphNode;
use crate::analysis::mir::data_flow::EdgeDataFlowType;
use crate::analysis::mir::data_flow::EdgeInstanceModel;
use crate::analysis::mir::data_flow::GraphEdge;
use crate::analysis::mir::data_flow::NodeModel;
use crate::analysis::mir::data_flow_checker::Marking;
use crate::analysis::mir::graph::DependencyGraph;
use crate::analysis::mir::graph::GraphModel;
use crate::text::debug_text;
use crate::text::decimal_text;
use crate::text::str_debug;
use crate::text::usize_to_string;

verus! {

/// One statement of a graph description: a node or an edge, with attributes as
/// pairs of key and value.
#[derive(Debug, PartialEq, Eq)]
pub enum DotStatement {
    Node { id: String, attributes: Vec<(String, String)> },
    Edge { from: String, to: String, attributes: Vec<(String, String)> },
}

/// The mathematical value of a [`DotStatement`].
pub enum DotStatementModel {
    Node { id: Seq<char>, attributes: Seq<(Seq<char>, Seq<char>)> },
    Edge { from: Seq<char>, to: Seq<char>, attributes: Seq<(Seq<char>, Seq<char>)> },
}

impl DeepView for DotStatement {
    type V = DotStatementModel;

    open spec fn deep_view(&self) -> DotStatementModel {
        match self {
            DotStatement::Node { id, attributes } => DotStatementModel::Node {
                id: id@,
                attributes: attributes.deep_view(),
            },
            DotStatement::Edge { from, to, attributes } => DotStatementModel::Edge {
                from: from@,
                to: to@,
                attributes: attributes.deep_view(),
            },
        }
    }
}

/// The description of a directed graph for drawing.
#[derive(Debug, PartialEq, Eq)]
pub struct DotGraph {
    pub id: String,
    pub strict: bool,
    pub statements: Vec<DotStatement>,
}

/// The mathematical value of a [`DotGraph`].
pub struct DotGraphModel {
    pub id: Seq<char>,
    pub strict: bool,
    pub statements: Seq<DotStatementModel>,
}

impl DeepView for DotGraph {
    type V = DotGraphModel;

    open spec fn deep_view(&self) -> DotGraphModel {
        DotGraphModel {
            id: self.id@,
            strict: self.strict,
            statements: self.statements.deep_view(),
        }
    }
}

/// The name under which a node is drawn: a local by its number, any other node
/// by its kind, a call with the type of the called function.
pub open spec fn node_name(n: NodeModel) -> Seq<char> {
    match n {
        NodeModel::Local { dst, ty } => decimal_text(dst as nat),
        NodeModel::FunctionCall { function, span } => "Call: "@ + function.name,
        NodeModel::ReturnedToCaller => "Return"@,
        NodeModel::FunctionInput => "Input"@,
        NodeModel::Assembly { spans } => "Assembly"@,
        NodeModel::ControlFlow => "ControlFlow"@,
    }
}

/// The shape in which a node is drawn.
pub open spec fn node_shape(n: NodeModel) -> Seq<char> {
    if n is Local {
        "circle"@
    } else {
        "rectangle"@
    }
}

/// The colour that stands for a marking.
pub open spec fn marking_color(m: Option<Marking>) -> Option<Seq<char>> {
    match m {
        Some(Marking::TaintSource(_)) => Some("red"@),
        Some(Marking::Tainted) => Some("orange"@),
        Some(Marking::TaintSink) => Some("green"@),
        None => None,
    }
}

/// The attributes of a node: shape and quoted label, and for a marked node its
/// colour, filled.
pub open spec fn node_attributes(n: NodeModel, m: Option<Marking>) -> Seq<(Seq<char>, Seq<char>)> {
    let base = seq![("shape"@, node_shape(n)), ("label"@, debug_text(node_name(n)))];
    match marking_color(m) {
        Some(color) => base.push(("color"@, color)).push(("style"@, "filled"@)),
        None => base,
    }
}

/// Whether some instance has the given kind of flow.
pub open spec fn has_flow(instances: Seq<EdgeInstanceModel>, kind: EdgeDataFlowType) -> bool {
    exists|i: int| 0 <= i < instances.len() && (#[trigger] instances[i]).data_flow_type == kind
}

/// The label of an edge: the kinds of flow that it holds, each once, in
/// alphabetical order.
pub open spec fn flows_label(instances: Seq<EdgeInstanceModel>) -> Seq<char> {
    let moved = has_flow(instances, EdgeDataFlowType::Move);
    let used = has_flow(instances, EdgeDataFlowType::Used);
    if moved && used {
        "Move, Used"@
    } else if moved {
        "Move"@
    } else if used {
        "Used"@
    } else {
        ""@
    }
}

/// The colour of an edge: red where it leaves a source or a tainted node, else
/// green where it leads into a sink, else black.
pub open spec fn edge_color(from: Option<Marking>, to: Option<Marking>) -> Seq<char> {
    if from is Some && from != Some(Marking::TaintSink) {
        "red"@
    } else if to == Some(Marking::TaintSink) {
        "green"@
    } else {
        "black"@
    }
}

/// The statement for node `i`.
pub open spec fn node_statement(g: GraphModel, m: Seq<Option<Marking>>, i: int) -> DotStatementModel {
    DotStatementModel::Node {
        id: decimal_text(i as nat),
        attributes: node_attributes(g.nodes[i], m[i]),
    }
}

/// The statement for edge `e`.
pub open spec fn edge_statement(g: GraphModel, m: Seq<Option<Marking>>, e: int) -> DotStatementModel {
    DotStatementModel::Edge {
        from: decimal_text(g.edges[e].from as nat),
        to: decimal_text(g.edges[e].to as nat),
        attributes: seq![
            ("label"@, flows_label(g.edges[e].instances)),
            ("color"@, edge_color(m[g.edges[e].from], m[g.edges[e].to])),
        ],
    }
}

/// The drawing of a graph with its markings: a statement for every node, by
/// index, then one for every edge, by index.
pub open spec fn rendered(g: GraphModel, m: Seq<Option<Marking>>) -> DotGraphModel {
    DotGraphModel {
        id: "Dataflowgraph"@,
        strict: false,
        statements: Seq::new(
            g.nodes.len() + g.edges.len(),
            |i: int|
                if i < g.nodes.len() {
                    node_statement(g, m, i)
                } else {
                    edge_statement(g, m, i - g.nodes.len())
                },
        ),
    }
}

fn pair(key: &str, value: String) -> (r: (String, String))
    ensures
        r.deep_view() == (key@, value@),
{
    (key.to_owned(), value)
}

/// The name under which a node is drawn.
pub fn name_of_node(node: &DependencyGraphNode) -> (r: String)
    ensures
        r@ == node_name(node@),
{
    match node {
        DependencyGraphNode::Local { dst, ty: _ } => usize_to_string(*dst),
        DependencyGraphNode::FunctionCall { function, span: _ } => {
            "Call: ".to_owned().concat(function.name.as_str())
        },
        DependencyGraphNode::ReturnedToCaller => "Return".to_owned(),
        DependencyGraphNode::FunctionInput => "Input".to_owned(),
        DependencyGraphNode::Assembly { spans: _ } => "Assembly".to_owned(),
        DependencyGraphNode::ControlFlow => "ControlFlow".to_owned(),
    }
}

/// The label of an edge.
pub fn label_of_edge(edge: &GraphEdge) -> (r: String)
    ensures
        r@ == flows_label(edge@),
{
    let mut moved = false;
    let mut used = false;
    let mut i: usize = 0;
    while i < edge.instances.len()
        invariant
            i <= edge.instances.len(),
            moved == has_flow(edge@.subrange(0, i as int), EdgeDataFlowType::Move),
            used == has_flow(edge@.subrange(0, i as int), EdgeDataFlowType::Used),
        decreases edge.instances.len() - i,
    {
        let ghost before = edge@.subrange(0, i as int);
        let ghost after = edge@.subrange(0, i + 1);
        proof {
            assert(after[i as int] == edge@[i as int]);
            assert forall|kind: EdgeDataFlowType| has_flow(after, kind) == (has_flow(before, kind)
                || edge@[i as int].data_flow_type == kind) by {
                if has_flow(before, kind) {
                    let k = choose|k: int| 0 <= k < before.len() && (#[trigger] before[k]).data_flow_type == kind;
                    assert(after[k].data_flow_type == kind);
                }
                if has_flow(after, kind) {
                    let k = choose|k: int| 0 <= k < after.len() && (#[trigger] after[k]).data_flow_type == kind;
                    if k < i {
                        assert(before[k].data_flow_type == kind);
                    }
                }
            }
        }
        match edge.instances[i].data_flow_type {
            EdgeDataFlowType::Move => {
                moved = true;
            },
            EdgeDataFlowType::Used => {
                used = true;
            },
        }
        i += 1;
    }
    assert(edge@.subrange(0, i as int) =~= edge@);
    if moved && used {
        "Move, Used".to_owned()
    } else if moved {
        "Move".to_owned()
    } else if used {
        "Used".to_owned()
    } else {
        "".to_owned()
    }
}

fn attributes_of_node(node: &DependencyGraphNode, marking: Option<Marking>) -> (r: Vec<
    (String, String),
>)
    ensures
        r.deep_view() == node_attributes(node@, marking),
{
    let shape = match node {
        DependencyGraphNode::Local { dst: _, ty: _ } => "circle".to_owned(),
        _ => "rectangle".to_owned(),
    };
    let name = name_of_node(node);
    let mut attributes: Vec<(String, String)> = Vec::new();
    attributes.push(pair("shape", shape));
    attributes.push(pair("label", str_debug(name.as_str())));
    match marking {
        Some(Marking::TaintSource(_)) => {
            attributes.push(pair("color", "red".to_owned()));
            attributes.push(pair("style", "filled".to_owned()));
        },
        Some(Marking::Tainted) => {
            attributes.push(pair("color", "orange".to_owned()));
            attributes.push(pair("style", "filled".to_owned()));
        },
        Some(Marking::TaintSink) => {
            attributes.push(pair("color", "green".to_owned()));
            attributes.push(pair("style", "filled".to_owned()));
        },
        None => {},
    }
    assert(attributes.deep_view() =~= node_attributes(node@, marking));
    attributes
}

/// The drawing of a graph with its markings.
pub fn render_graph(graph: &DependencyGraph, markings: &Vec<Option<Marking>>) -> (r: DotGraph)
    requires
        graph.wf(),
        markings.len() == graph@.nodes.len(),
    ensures
        r.deep_view() == rendered(graph@, markings@),
{
    let ghost g = graph@;
    let ghost m = markings@;
    let nodes = graph.node_count();
    let edges = graph.edge_count();
    let mut statements: Vec<DotStatement> = Vec::new();
    let mut i: usize = 0;
    while i < nodes
        invariant
            i <= nodes,
            g == graph@,
            m == markings@,
            nodes == g.nodes.len(),
            m.len() == nodes,
            statements.len() == i,
            forall|k: int| 0 <= k < i ==> statements[k].deep_view() == node_statement(g, m, k),
        decreases nodes - i,
    {
        let attributes = attributes_of_node(graph.node(i), markings[i]);
        statements.push(DotStatement::Node { id: usize_to_string(i), attributes });
        i += 1;
    }
    let mut e: usize = 0;
    while e < edges
        invariant
            e <= edges,
            g == graph@,
            m == markings@,
            graph.wf(),
            nodes == g.nodes.len(),
            edges == g.edges.len(),
            m.len() == nodes,
            statements.len() == nodes + e,
            forall|k: int| 0 <= k < nodes ==> statements[k].deep_view() == node_statement(g, m, k),
            forall|k: int|
                nodes <= k < nodes + e ==> statements[k].deep_view() == edge_statement(
                    g,
                    m,
                    k - nodes,
                ),
        decreases edges - e,
    {
        match graph.edge_endpoints(e) {
            Some((from, to)) => {
                let color = match (markings[from], markings[to]) {
                    (Some(Marking::TaintSource(_)), _) => "red".to_owned(),
                    (Some(Marking::Tainted), _) => "red".to_owned(),
                    (_, Some(Marking::TaintSink)) => "green".to_owned(),
                    _ => "black".to_owned(),
                };
                let mut attributes: Vec<(String, String)> = Vec::new();
                attributes.push(pair("label", label_of_edge(graph.edge(e))));
                attributes.push(pair("color", color));
                assert(attributes.deep_view() =~= seq![
                    ("label"@, flows_label(g.edges[e as int].instances)),
                    ("color"@, edge_color(m[from as int], m[to as int])),
                ]);
                statements.push(
                    DotStatement::Edge {
                        from: usize_to_string(from),
                        to: usize_to_string(to),
                        attributes,
                    },
                );
            },
            None => {},
        }
        e += 1;
    }
    let graph = DotGraph { id: "Dataflowgraph".to_owned(), strict: false, statements };
    assert(graph.deep_view().statements =~= rendered(g, m).statements);
    graph
}

} // verus!
