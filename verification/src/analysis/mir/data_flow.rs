//! Nodes and edges of the dependency graph, and the tracker that builds the
//! graph of a function body.

use vstd::prelude::*;
use crate::analysis::mir::body::BasicBlockData;
use crate::analysis::mir::body::Body;
use crate::analysis::mir::body::Dependency;
use crate::analysis::mir::body::InlineAsmOperand;
use crate::analysis::mir::body::Operand;
use crate::analysis::mir::body::Place;
use crate::analysis::mir::body::Rvalue;
use crate::analysis::mir::body::Statement;
use crate::analysis::mir::body::StatementKind;
use crate::analysis::mir::body::Terminator;
use crate::analysis::mir::body::TerminatorKind;
use crate::analysis::mir::body::asm_inputs;
use crate::analysis::mir::body::asm_operand_inputs;
use crate::analysis::mir::body::asm_operand_outputs;
use crate::analysis::mir::body::asm_outputs;
use crate::analysis::mir::body::block_declared;
use crate::analysis::mir::body::declared;
use crate::analysis::mir::body::operand_dependency;
use crate::analysis::mir::body::operand_place;
use crate::analysis::mir::body::operands_dependency;
use crate::analysis::mir::body::place_dependency;
use crate::analysis::mir::body::rvalue_dependency;
use crate::analysis::mir::body::statement_declared;
use crate::analysis::mir::body::terminator_declared;
use crate::analysis::mir::data_flow_checker::is_sink_type;
use crate::analysis::mir::data_flow_checker::type_is_sink;
use crate::analysis::mir::graph::DependencyGraph;
use crate::analysis::mir::graph::GraphModel;
use crate::span::IRSpan;
use crate::span::SpanModel;
use crate::span::spans_model;
use crate::span::clone_spans;
use crate::span::same_spans;

verus! {

/// What the analysis knows of one generic argument of a function item.
#[derive(Debug, PartialEq, Eq, Hash)]
pub enum GenericArgInfo {
    /// A type argument that is a nominal type, with its definition path.
    Adt { path: String },
    /// Any other argument: a lifetime, a constant, a type that is not nominal.
    Other,
}

/// The mathematical value of a [`GenericArgInfo`].
pub enum GenericArgModel {
    Adt { path: Seq<char> },
    Other,
}

impl View for GenericArgInfo {
    type V = GenericArgModel;

    open spec fn view(&self) -> GenericArgModel {
        match self {
            GenericArgInfo::Adt { path } => GenericArgModel::Adt { path: path@ },
            GenericArgInfo::Other => GenericArgModel::Other,
        }
    }
}

impl Clone for GenericArgInfo {
    fn clone(&self) -> (r: Self)
        ensures
            r@ == self@,
    {
        match self {
            GenericArgInfo::Adt { path } => GenericArgInfo::Adt { path: path.clone() },
            GenericArgInfo::Other => GenericArgInfo::Other,
        }
    }
}

impl GenericArgInfo {
    /// Whether two generic arguments are the same.
    pub fn same(&self, other: &GenericArgInfo) -> (r: bool)
        ensures
            r == (self@ == other@),
    {
        match (self, other) {
            (GenericArgInfo::Adt { path: a }, GenericArgInfo::Adt { path: b }) => *a == *b,
            (GenericArgInfo::Other, GenericArgInfo::Other) => true,
            _ => false,
        }
    }
}

/// The values of a sequence of generic arguments.
pub open spec fn generics_model(args: Seq<GenericArgInfo>) -> Seq<GenericArgModel> {
    Seq::new(args.len(), |i: int| args[i]@)
}

/// The shape of a static type, as far as the analysis reads it.
#[derive(Debug, PartialEq, Eq, Hash)]
pub enum TypeKind {
    /// A nominal type (struct, enum, union) with its definition path.
    Adt { path: String },
    /// The type of a function item: its definition path and generic arguments.
    FnDef { path: String, generics: Vec<GenericArgInfo> },
    /// Any other type.
    Other,
}

/// The mathematical value of a [`TypeKind`].
pub enum TypeKindModel {
    Adt { path: Seq<char> },
    FnDef { path: Seq<char>, generics: Seq<GenericArgModel> },
    Other,
}

impl View for TypeKind {
    type V = TypeKindModel;

    open spec fn view(&self) -> TypeKindModel {
        match self {
            TypeKind::Adt { path } => TypeKindModel::Adt { path: path@ },
            TypeKind::FnDef { path, generics } => TypeKindModel::FnDef {
                path: path@,
                generics: generics_model(generics@),
            },
            TypeKind::Other => TypeKindModel::Other,
        }
    }
}

fn clone_generics(args: &Vec<GenericArgInfo>) -> (r: Vec<GenericArgInfo>)
    ensures
        generics_model(r@) == generics_model(args@),
{
    let mut out: Vec<GenericArgInfo> = Vec::new();
    let mut i: usize = 0;
    while i < args.len()
        invariant
            i <= args.len(),
            out.len() == i,
            forall|k: int| 0 <= k < i ==> out[k]@ == args[k]@,
        decreases args.len() - i,
    {
        out.push(args[i].clone());
        i += 1;
    }
    assert(generics_model(out@) =~= generics_model(args@));
    out
}

fn same_generics(a: &Vec<GenericArgInfo>, b: &Vec<GenericArgInfo>) -> (r: bool)
    ensures
        r == (generics_model(a@) == generics_model(b@)),
{
    if a.len() != b.len() {
        assert(generics_model(a@).len() != generics_model(b@).len());
        return false;
    }
    let mut i: usize = 0;
    while i < a.len()
        invariant
            i <= a.len(),
            a.len() == b.len(),
            forall|k: int| 0 <= k < i ==> a[k]@ == b[k]@,
        decreases a.len() - i,
    {
        if !a[i].same(&b[i]) {
            assert(generics_model(a@)[i as int] != generics_model(b@)[i as int]);
            return false;
        }
        i += 1;
    }
    assert(generics_model(a@) =~= generics_model(b@));
    true
}

impl Clone for TypeKind {
    fn clone(&self) -> (r: Self)
        ensures
            r@ == self@,
    {
        match self {
            TypeKind::Adt { path } => TypeKind::Adt { path: path.clone() },
            TypeKind::FnDef { path, generics } => TypeKind::FnDef {
                path: path.clone(),
                generics: clone_generics(generics),
            },
            TypeKind::Other => TypeKind::Other,
        }
    }
}

impl TypeKind {
    /// Whether two type shapes are the same.
    pub fn same(&self, other: &TypeKind) -> (r: bool)
        ensures
            r == (self@ == other@),
    {
        match (self, other) {
            (TypeKind::Adt { path: a }, TypeKind::Adt { path: b }) => *a == *b,
            (
                TypeKind::FnDef { path: a, generics: ga },
                TypeKind::FnDef { path: b, generics: gb },
            ) => *a == *b && same_generics(ga, gb),
            (TypeKind::Other, TypeKind::Other) => true,
            _ => false,
        }
    }
}

/// A static type: how it is printed, and its shape.
#[derive(Debug, PartialEq, Eq, Hash)]
pub struct TypeInfo {
    pub name: String,
    pub kind: TypeKind,
}

/// The mathematical value of a [`TypeInfo`].
pub struct TypeModel {
    pub name: Seq<char>,
    pub kind: TypeKindModel,
}

impl View for TypeInfo {
    type V = TypeModel;

    open spec fn view(&self) -> TypeModel {
        TypeModel { name: self.name@, kind: self.kind@ }
    }
}

impl Clone for TypeInfo {
    fn clone(&self) -> (r: Self)
        ensures
            r@ == self@,
    {
        TypeInfo { name: self.name.clone(), kind: self.kind.clone() }
    }
}

impl TypeInfo {
    /// Whether two types are the same.
    pub fn same(&self, other: &TypeInfo) -> (r: bool)
        ensures
            r == (self@ == other@),
    {
        self.name == other.name && self.kind.same(&other.kind)
    }
}

/// A node of the dependency graph.
#[derive(Debug, PartialEq, Eq, Hash)]
pub enum DependencyGraphNode {
    /// A storage location of the body.
    Local { dst: usize, ty: TypeInfo },
    /// The result of one call, identified by its call site.
    FunctionCall { function: TypeInfo, span: IRSpan },
    /// The value handed back to the caller.
    ReturnedToCaller,
    /// The values that enter through the parameters.
    FunctionInput,
    /// An inline assembly block, with the locations it covers.
    Assembly { spans: Vec<IRSpan> },
    /// A value consumed as a branch condition.
    ControlFlow,
}

/// The mathematical value of a [`DependencyGraphNode`].
pub enum NodeModel {
    Local { dst: usize, ty: TypeModel },
    FunctionCall { function: TypeModel, span: SpanModel },
    ReturnedToCaller,
    FunctionInput,
    Assembly { spans: Seq<SpanModel> },
    ControlFlow,
}

impl View for DependencyGraphNode {
    type V = NodeModel;

    open spec fn view(&self) -> NodeModel {
        match self {
            DependencyGraphNode::Local { dst, ty } => NodeModel::Local { dst: *dst, ty: ty@ },
            DependencyGraphNode::FunctionCall { function, span } => NodeModel::FunctionCall {
                function: function@,
                span: span@,
            },
            DependencyGraphNode::ReturnedToCaller => NodeModel::ReturnedToCaller,
            DependencyGraphNode::FunctionInput => NodeModel::FunctionInput,
            DependencyGraphNode::Assembly { spans } => NodeModel::Assembly {
                spans: spans_model(spans@),
            },
            DependencyGraphNode::ControlFlow => NodeModel::ControlFlow,
        }
    }
}

impl Clone for DependencyGraphNode {
    fn clone(&self) -> (r: Self)
        ensures
            r@ == self@,
    {
        match self {
            DependencyGraphNode::Local { dst, ty } => DependencyGraphNode::Local {
                dst: *dst,
                ty: ty.clone(),
            },
            DependencyGraphNode::FunctionCall { function, span } => {
                DependencyGraphNode::FunctionCall { function: function.clone(), span: span.clone() }
            },
            DependencyGraphNode::ReturnedToCaller => DependencyGraphNode::ReturnedToCaller,
            DependencyGraphNode::FunctionInput => DependencyGraphNode::FunctionInput,
            DependencyGraphNode::Assembly { spans } => DependencyGraphNode::Assembly {
                spans: clone_spans(spans),
            },
            DependencyGraphNode::ControlFlow => DependencyGraphNode::ControlFlow,
        }
    }
}

impl DependencyGraphNode {
    /// Whether two nodes are the same node: node identity is structural.
    pub fn same(&self, other: &DependencyGraphNode) -> (r: bool)
        ensures
            r == (self@ == other@),
    {
        match (self, other) {
            (
                DependencyGraphNode::Local { dst: a, ty: ta },
                DependencyGraphNode::Local { dst: b, ty: tb },
            ) => *a == *b && ta.same(tb),
            (
                DependencyGraphNode::FunctionCall { function: fa, span: sa },
                DependencyGraphNode::FunctionCall { function: fb, span: sb },
            ) => fa.same(fb) && sa.same(sb),
            (DependencyGraphNode::ReturnedToCaller, DependencyGraphNode::ReturnedToCaller) => true,
            (DependencyGraphNode::FunctionInput, DependencyGraphNode::FunctionInput) => true,
            (
                DependencyGraphNode::Assembly { spans: a },
                DependencyGraphNode::Assembly { spans: b },
            ) => same_spans(a, b),
            (DependencyGraphNode::ControlFlow, DependencyGraphNode::ControlFlow) => true,
            _ => false,
        }
    }
}

/// How a value flows along an edge: moved, or used by copy or by reference.
#[derive(Debug, PartialEq, Eq, Hash, Clone, Copy, Structural)]
pub enum EdgeDataFlowType {
    Move,
    Used,
}

/// One recorded flow between two nodes: where it happens and of what kind it is.
#[derive(Debug)]
pub struct EdgeInstance {
    pub span: IRSpan,
    pub data_flow_type: EdgeDataFlowType,
}

/// The mathematical value of an [`EdgeInstance`].
pub struct EdgeInstanceModel {
    pub span: SpanModel,
    pub data_flow_type: EdgeDataFlowType,
}

impl View for EdgeInstance {
    type V = EdgeInstanceModel;

    open spec fn view(&self) -> EdgeInstanceModel {
        EdgeInstanceModel { span: self.span@, data_flow_type: self.data_flow_type }
    }
}

impl Clone for EdgeInstance {
    fn clone(&self) -> (r: Self)
        ensures
            r@ == self@,
    {
        EdgeInstance { span: self.span.clone(), data_flow_type: self.data_flow_type }
    }
}

/// The values of a sequence of edge instances.
pub open spec fn instances_model(instances: Seq<EdgeInstance>) -> Seq<EdgeInstanceModel> {
    Seq::new(instances.len(), |i: int| instances[i]@)
}

/// Whether every instance of a sequence is a move.
pub open spec fn all_moves(instances: Seq<EdgeInstanceModel>) -> bool {
    forall|i: int| 0 <= i < instances.len() ==> (#[trigger] instances[i]).data_flow_type
        == EdgeDataFlowType::Move
}

/// An edge of the dependency graph: every flow recorded between its two nodes,
/// in the order in which they were recorded.
#[derive(Debug)]
pub struct GraphEdge {
    pub instances: Vec<EdgeInstance>,
}

impl View for GraphEdge {
    type V = Seq<EdgeInstanceModel>;

    open spec fn view(&self) -> Seq<EdgeInstanceModel> {
        instances_model(self.instances@)
    }
}

impl Clone for GraphEdge {
    fn clone(&self) -> (r: Self)
        ensures
            r@ == self@,
    {
        let mut out: Vec<EdgeInstance> = Vec::new();
        let mut i: usize = 0;
        while i < self.instances.len()
            invariant
                i <= self.instances.len(),
                out.len() == i,
                forall|k: int| 0 <= k < i ==> out[k]@ == self.instances[k]@,
            decreases self.instances.len() - i,
        {
            out.push(self.instances[i].clone());
            i += 1;
        }
        assert(instances_model(out@) =~= instances_model(self.instances@));
        GraphEdge { instances: out }
    }
}

impl GraphEdge {
    /// Whether every flow recorded on this edge is a move.
    pub fn is_move_only(&self) -> (r: bool)
        ensures
            r == all_moves(self@),
    {
        let mut i: usize = 0;
        while i < self.instances.len()
            invariant
                i <= self.instances.len(),
                forall|k: int| 0 <= k < i ==> (#[trigger] self@[k]).data_flow_type
                    == EdgeDataFlowType::Move,
            decreases self.instances.len() - i,
        {
            match self.instances[i].data_flow_type {
                EdgeDataFlowType::Move => {},
                EdgeDataFlowType::Used => {
                    assert(self@[i as int].data_flow_type == EdgeDataFlowType::Used);
                    return false;
                },
            }
            i += 1;
        }
        true
    }
}

/// The node of a local of a body.
pub open spec fn local_node(body: Body, local: usize) -> NodeModel {
    NodeModel::Local { dst: local, ty: body.local_decls@[local as int].ty@ }
}

/// The value of an edge instance with the given location and kind of flow.
pub open spec fn instance(span: SpanModel, flow: EdgeDataFlowType) -> EdgeInstanceModel {
    EdgeInstanceModel { span, data_flow_type: flow }
}

/// The graph after the first `k` flows of a list were recorded, in order, from
/// their locals into the node `to`.
pub open spec fn flows_into(
    g: GraphModel,
    body: Body,
    dependencies: Seq<Dependency>,
    k: int,
    to: NodeModel,
    span: SpanModel,
) -> GraphModel
    decreases k,
{
    if k <= 0 {
        g
    } else {
        flows_into(g, body, dependencies, k - 1, to, span).add_flow(
            local_node(body, dependencies[k - 1].0),
            to,
            instance(span, dependencies[k - 1].1),
        )
    }
}

/// The graph after the first `k` flows of a list were recorded, in order, from
/// the node `from` into their locals.
pub open spec fn flows_out_of(
    g: GraphModel,
    body: Body,
    from: NodeModel,
    dependencies: Seq<Dependency>,
    k: int,
    span: SpanModel,
) -> GraphModel
    decreases k,
{
    if k <= 0 {
        g
    } else {
        flows_out_of(g, body, from, dependencies, k - 1, span).add_flow(
            from,
            local_node(body, dependencies[k - 1].0),
            instance(span, dependencies[k - 1].1),
        )
    }
}

/// The graph after an instruction: an assignment records a flow from every
/// local that its value reads into its destination; a memory copy records one
/// flow from its source into its destination.
pub open spec fn after_statement(g: GraphModel, body: Body, statement: Statement) -> GraphModel {
    match statement.kind {
        StatementKind::Assign(place, rvalue) => flows_into(
            g,
            body,
            rvalue_dependency(rvalue),
            rvalue_dependency(rvalue).len() as int,
            local_node(body, place.local),
            statement.span@,
        ),
        StatementKind::CopyNonOverlapping { src, dst } => match (operand_place(dst), src) {
            (Some(to), Operand::Copy(from)) => g.add_flow(
                local_node(body, from.local),
                local_node(body, to.local),
                instance(statement.span@, EdgeDataFlowType::Used),
            ),
            (Some(to), Operand::Move(from)) => g.add_flow(
                local_node(body, from.local),
                local_node(body, to.local),
                instance(statement.span@, EdgeDataFlowType::Move),
            ),
            _ => g,
        },
        StatementKind::Other => g,
    }
}

/// The node of a call: the type of the called function and the call site.
pub open spec fn call_node(func: TypeInfo, fn_span: IRSpan) -> NodeModel {
    NodeModel::FunctionCall { function: func@, span: fn_span@ }
}

/// The graph after a terminator. A branch records the flow of its condition
/// into the control flow. A return records the flow of local 0 to the caller.
/// A call records the flows of its arguments into the node of the call, and a
/// move from there into its destination, which for a tail call is the caller.
/// A yield records the flow of its value to the caller and a move from the
/// function input into the resume argument. An assembly block records the
/// flows of what it reads into its node and from there into what it writes.
pub open spec fn after_terminator(g: GraphModel, body: Body, terminator: Terminator) -> GraphModel {
    match terminator.kind {
        TerminatorKind::SwitchInt { discr } => flows_into(
            g,
            body,
            operand_dependency(discr, None),
            operand_dependency(discr, None).len() as int,
            NodeModel::ControlFlow,
            terminator.span@,
        ),
        TerminatorKind::Return => g.add_flow(
            local_node(body, 0),
            NodeModel::ReturnedToCaller,
            instance(terminator.span@, EdgeDataFlowType::Move),
        ),
        TerminatorKind::Call { func, args, destination, fn_span } => flows_into(
            g,
            body,
            operands_dependency(args@, None, args@.len() as int),
            operands_dependency(args@, None, args@.len() as int).len() as int,
            call_node(func, fn_span),
            fn_span@,
        ).add_flow(
            call_node(func, fn_span),
            local_node(body, destination.local),
            instance(fn_span@, EdgeDataFlowType::Move),
        ),
        TerminatorKind::TailCall { func, args, fn_span } => flows_into(
            g,
            body,
            operands_dependency(args@, None, args@.len() as int),
            operands_dependency(args@, None, args@.len() as int).len() as int,
            call_node(func, fn_span),
            fn_span@,
        ).add_flow(
            call_node(func, fn_span),
            NodeModel::ReturnedToCaller,
            instance(fn_span@, EdgeDataFlowType::Move),
        ),
        TerminatorKind::Yield { value, resume_arg } => flows_into(
            g,
            body,
            operand_dependency(value, None),
            operand_dependency(value, None).len() as int,
            NodeModel::ReturnedToCaller,
            terminator.span@,
        ).add_flow(
            NodeModel::FunctionInput,
            local_node(body, resume_arg.local),
            instance(terminator.span@, EdgeDataFlowType::Move),
        ),
        TerminatorKind::InlineAsm { operands, line_spans } => flows_out_of(
            flows_into(
                g,
                body,
                asm_inputs(operands@, operands@.len() as int),
                asm_inputs(operands@, operands@.len() as int).len() as int,
                NodeModel::Assembly { spans: spans_model(line_spans@) },
                terminator.span@,
            ),
            body,
            NodeModel::Assembly { spans: spans_model(line_spans@) },
            asm_outputs(operands@, operands@.len() as int),
            asm_outputs(operands@, operands@.len() as int).len() as int,
            terminator.span@,
        ),
        _ => g,
    }
}

/// The graph after the first `k` instructions of a list.
pub open spec fn after_statements(g: GraphModel, body: Body, statements: Seq<Statement>, k: int) -> GraphModel
    decreases k,
{
    if k <= 0 {
        g
    } else {
        after_statement(after_statements(g, body, statements, k - 1), body, statements[k - 1])
    }
}

/// The graph after a basic block that ends in a terminator: after its
/// instructions, in order, and then after its terminator.
pub open spec fn after_block(g: GraphModel, body: Body, block: BasicBlockData) -> GraphModel
    recommends
        block.terminator is Some,
{
    after_terminator(
        after_statements(g, body, block.statements@, block.statements@.len() as int),
        body,
        block.terminator->0,
    )
}

/// The graph after the first `k` basic blocks of a body.
pub open spec fn after_blocks(g: GraphModel, body: Body, k: int) -> GraphModel
    decreases k,
{
    if k <= 0 {
        g
    } else {
        after_block(after_blocks(g, body, k - 1), body, body.basic_blocks@[k - 1])
    }
}

/// The graph after a move from the function input into each of the first `k`
/// parameters was recorded.
pub open spec fn after_arguments(g: GraphModel, body: Body, k: int) -> GraphModel
    decreases k,
{
    if k <= 0 {
        g
    } else {
        after_arguments(g, body, k - 1).add_flow(
            NodeModel::FunctionInput,
            local_node(body, k as usize),
            instance(body.span@, EdgeDataFlowType::Move),
        )
    }
}

/// The graph after a whole body: after its parameters, then after its basic
/// blocks in order.
pub open spec fn after_body(g: GraphModel, body: Body) -> GraphModel {
    after_blocks(
        after_arguments(g, body, body.arg_count as int),
        body,
        body.basic_blocks@.len() as int,
    )
}

impl DependencyGraphNode {
    /// The node of a local of a body.
    pub fn from_local(local: usize, body: &Body) -> (r: DependencyGraphNode)
        requires
            local < body.local_decls@.len(),
        ensures
            r@ == local_node(*body, local),
    {
        DependencyGraphNode::Local { dst: local, ty: body.local_decls[local].ty.clone() }
    }
}

/// Builds the dependency graph of one function body.
pub struct DataFlowTaintTracker<'a> {
    /// For every local that was looked at, whether its type is the wrapper
    /// type.
    pub sanitized_locals: Vec<bool>,
    pub data_dependency_graph: DependencyGraph,
    pub current_body: &'a Body,
}

impl<'a> DataFlowTaintTracker<'a> {
    /// A tracker for a body, with an empty graph.
    pub fn new(body: &'a Body) -> (r: Self)
        ensures
            r.data_dependency_graph@ == GraphModel::empty(),
            r.data_dependency_graph.wf(),
            r.sanitized_locals@.len() == 0,
            *r.current_body == *body,
    {
        DataFlowTaintTracker {
            sanitized_locals: Vec::new(),
            data_dependency_graph: DependencyGraph::new(),
            current_body: body,
        }
    }

    /// Records the flow of a place.
    pub fn get_place_dependency(
        &self,
        place: &Place,
        dependencies: &mut Vec<Dependency>,
        flow_type: EdgeDataFlowType,
    )
        ensures
            final(dependencies)@ == old(dependencies)@ + place_dependency(*place, flow_type),
    {
        dependencies.push((place.local, flow_type));
        assert(dependencies@ =~= old(dependencies)@ + place_dependency(*place, flow_type));
    }

    /// Records the flow of an operand.
    pub fn get_operand_dependency(
        &self,
        operand: &Operand,
        dependencies: &mut Vec<Dependency>,
        force_flow: Option<EdgeDataFlowType>,
    )
        ensures
            final(dependencies)@ == old(dependencies)@ + operand_dependency(*operand, force_flow),
    {
        match operand {
            Operand::Copy(place) => {
                let flow = match force_flow {
                    Some(forced) => forced,
                    None => EdgeDataFlowType::Used,
                };
                self.get_place_dependency(place, dependencies, flow)
            },
            Operand::Move(place) => {
                let flow = match force_flow {
                    Some(forced) => forced,
                    None => EdgeDataFlowType::Move,
                };
                self.get_place_dependency(place, dependencies, flow)
            },
            Operand::Constant => {
                assert(dependencies@ =~= old(dependencies)@ + Seq::<Dependency>::empty());
            },
        }
    }

    /// Records the flows of a list of operands, in order.
    fn get_operands_dependency(
        &self,
        operands: &Vec<Operand>,
        dependencies: &mut Vec<Dependency>,
        force_flow: Option<EdgeDataFlowType>,
    )
        ensures
            final(dependencies)@ == old(dependencies)@ + operands_dependency(
                operands@,
                force_flow,
                operands@.len() as int,
            ),
    {
        let ghost start = dependencies@;
        assert(dependencies@ =~= start + operands_dependency(operands@, force_flow, 0));
        let mut i: usize = 0;
        while i < operands.len()
            invariant
                i <= operands.len(),
                dependencies@ == start + operands_dependency(operands@, force_flow, i as int),
            decreases operands.len() - i,
        {
            let ghost before = operands_dependency(operands@, force_flow, i as int);
            self.get_operand_dependency(&operands[i], dependencies, force_flow);
            assert(dependencies@ =~= start + (before + operand_dependency(
                operands@[i as int],
                force_flow,
            )));
            i += 1;
        }
    }

    /// Records the flows of a value expression: every local that it reads,
    /// moved where the expression moves it and used otherwise.
    pub fn get_rvalue_dependency(&self, rvalue: &Rvalue, dependencies: &mut Vec<Dependency>)
        ensures
            final(dependencies)@ == old(dependencies)@ + rvalue_dependency(*rvalue),
    {
        match rvalue {
            Rvalue::Use(operand) => {
                self.get_operand_dependency(operand, dependencies, None);
            },
            Rvalue::Repeat(operand) => {
                self.get_operand_dependency(operand, dependencies, None);
            },
            Rvalue::Ref(place) => {
                self.get_place_dependency(place, dependencies, EdgeDataFlowType::Used);
            },
            Rvalue::ThreadLocalRef => {
                assert(dependencies@ =~= old(dependencies)@ + Seq::<Dependency>::empty());
            },
            Rvalue::AddressOf(place) => {
                self.get_place_dependency(place, dependencies, EdgeDataFlowType::Used);
            },
            Rvalue::Len(place) => {
                self.get_place_dependency(place, dependencies, EdgeDataFlowType::Used);
            },
            Rvalue::Cast(operand) => {
                self.get_operand_dependency(operand, dependencies, None);
            },
            Rvalue::BinaryOp(a, b) => {
                self.get_operand_dependency(a, dependencies, None);
                self.get_operand_dependency(b, dependencies, None);
                assert(dependencies@ =~= old(dependencies)@ + rvalue_dependency(*rvalue));
            },
            Rvalue::NullaryOp => {
                assert(dependencies@ =~= old(dependencies)@ + Seq::<Dependency>::empty());
            },
            Rvalue::UnaryOp(operand) => {
                self.get_operand_dependency(operand, dependencies, None);
            },
            Rvalue::Discriminant(place) => {
                self.get_place_dependency(place, dependencies, EdgeDataFlowType::Used);
            },
            Rvalue::Aggregate(fields) => {
                self.get_operands_dependency(fields, dependencies, None);
            },
            Rvalue::ShallowInitBox(operand) => {
                self.get_operand_dependency(operand, dependencies, None);
            },
            Rvalue::CopyForDeref(place) => {
                self.get_place_dependency(place, dependencies, EdgeDataFlowType::Used);
            },
        }
    }

    /// Records one flow from node `from` to node `to` in the graph.
    pub fn add_data_dependency_edge(
        &mut self,
        from: DependencyGraphNode,
        to: DependencyGraphNode,
        span: IRSpan,
        flow_type: EdgeDataFlowType,
    )
        requires
            old(self).data_dependency_graph.wf(),
            !(to@ is FunctionInput),
        ensures
            final(self).data_dependency_graph.wf(),
            final(self).data_dependency_graph@ == old(self).data_dependency_graph@.add_flow(
                from@,
                to@,
                instance(span@, flow_type),
            ),
            final(self).current_body == old(self).current_body,
            final(self).sanitized_locals == old(self).sanitized_locals,
    {
        self.data_dependency_graph.add_data_dependency_edge(from, to, span, flow_type);
    }

    /// Records the flows of a list from their locals into one node.
    fn add_flows_into(
        &mut self,
        dependencies: &Vec<Dependency>,
        to: &DependencyGraphNode,
        span: &IRSpan,
    )
        requires
            old(self).data_dependency_graph.wf(),
            declared(dependencies@, old(self).current_body.local_decls@.len() as int),
            !(to@ is FunctionInput),
        ensures
            final(self).data_dependency_graph.wf(),
            final(self).data_dependency_graph@ == flows_into(
                old(self).data_dependency_graph@,
                *old(self).current_body,
                dependencies@,
                dependencies@.len() as int,
                to@,
                span@,
            ),
            final(self).current_body == old(self).current_body,
            final(self).sanitized_locals == old(self).sanitized_locals,
    {
        let ghost start = self.data_dependency_graph@;
        let ghost body = *self.current_body;
        let mut i: usize = 0;
        while i < dependencies.len()
            invariant
                i <= dependencies.len(),
                self.data_dependency_graph.wf(),
                declared(dependencies@, body.local_decls@.len() as int),
                !(to@ is FunctionInput),
                *self.current_body == body,
                self.current_body == old(self).current_body,
                self.sanitized_locals == old(self).sanitized_locals,
                self.data_dependency_graph@ == flows_into(
                    start,
                    body,
                    dependencies@,
                    i as int,
                    to@,
                    span@,
                ),
            decreases dependencies.len() - i,
        {
            let (local, flow) = dependencies[i];
            assert(dependencies@[i as int].0 < body.local_decls@.len());
            self.add_data_dependency_edge(
                DependencyGraphNode::from_local(local, self.current_body),
                to.clone(),
                span.clone(),
                flow,
            );
            i += 1;
        }
    }

    /// Records the flows of a list from one node into their locals.
    fn add_flows_out_of(
        &mut self,
        from: &DependencyGraphNode,
        dependencies: &Vec<Dependency>,
        span: &IRSpan,
    )
        requires
            old(self).data_dependency_graph.wf(),
            declared(dependencies@, old(self).current_body.local_decls@.len() as int),
        ensures
            final(self).data_dependency_graph.wf(),
            final(self).data_dependency_graph@ == flows_out_of(
                old(self).data_dependency_graph@,
                *old(self).current_body,
                from@,
                dependencies@,
                dependencies@.len() as int,
                span@,
            ),
            final(self).current_body == old(self).current_body,
            final(self).sanitized_locals == old(self).sanitized_locals,
    {
        let ghost start = self.data_dependency_graph@;
        let ghost body = *self.current_body;
        let mut i: usize = 0;
        while i < dependencies.len()
            invariant
                i <= dependencies.len(),
                self.data_dependency_graph.wf(),
                declared(dependencies@, body.local_decls@.len() as int),
                *self.current_body == body,
                self.current_body == old(self).current_body,
                self.sanitized_locals == old(self).sanitized_locals,
                self.data_dependency_graph@ == flows_out_of(
                    start,
                    body,
                    from@,
                    dependencies@,
                    i as int,
                    span@,
                ),
            decreases dependencies.len() - i,
        {
            let (local, flow) = dependencies[i];
            assert(dependencies@[i as int].0 < body.local_decls@.len());
            self.add_data_dependency_edge(
                from.clone(),
                DependencyGraphNode::from_local(local, self.current_body),
                span.clone(),
                flow,
            );
            i += 1;
        }
    }

    /// Records the flows of one instruction.
    pub fn visit_statement(&mut self, statement: &Statement)
        requires
            old(self).data_dependency_graph.wf(),
            statement_declared(statement.kind, old(self).current_body.local_decls@.len() as int),
        ensures
            final(self).data_dependency_graph.wf(),
            final(self).data_dependency_graph@ == after_statement(
                old(self).data_dependency_graph@,
                *old(self).current_body,
                *statement,
            ),
            final(self).current_body == old(self).current_body,
            final(self).sanitized_locals == old(self).sanitized_locals,
    {
        match &statement.kind {
            StatementKind::Assign(place, rvalue) => {
                let mut dependencies: Vec<Dependency> = Vec::new();
                self.get_rvalue_dependency(rvalue, &mut dependencies);
                assert(dependencies@ =~= rvalue_dependency(*rvalue));
                let to = DependencyGraphNode::from_local(place.local, self.current_body);
                self.add_flows_into(&dependencies, &to, &statement.span);
            },
            StatementKind::CopyNonOverlapping { src, dst } => {
                let to = match dst {
                    Operand::Copy(place) => Some(*place),
                    Operand::Move(place) => Some(*place),
                    Operand::Constant => None,
                };
                match to {
                    Some(to) => {
                        match src {
                            Operand::Copy(from) => {
                                self.add_data_dependency_edge(
                                    DependencyGraphNode::from_local(from.local, self.current_body),
                                    DependencyGraphNode::from_local(to.local, self.current_body),
                                    statement.span.clone(),
                                    EdgeDataFlowType::Used,
                                );
                            },
                            Operand::Move(from) => {
                                self.add_data_dependency_edge(
                                    DependencyGraphNode::from_local(from.local, self.current_body),
                                    DependencyGraphNode::from_local(to.local, self.current_body),
                                    statement.span.clone(),
                                    EdgeDataFlowType::Move,
                                );
                            },
                            Operand::Constant => {},
                        }
                    },
                    None => {},
                }
            },
            StatementKind::Other => {},
        }
    }

    /// Gathers what an assembly block reads and what it writes.
    fn get_asm_dependency(
        &self,
        operands: &Vec<InlineAsmOperand>,
        inputs: &mut Vec<Dependency>,
        outputs: &mut Vec<Dependency>,
    )
        requires
            old(inputs)@.len() == 0,
            old(outputs)@.len() == 0,
        ensures
            final(inputs)@ == asm_inputs(operands@, operands@.len() as int),
            final(outputs)@ == asm_outputs(operands@, operands@.len() as int),
    {
        assert(inputs@ =~= asm_inputs(operands@, 0));
        assert(outputs@ =~= asm_outputs(operands@, 0));
        let mut i: usize = 0;
        while i < operands.len()
            invariant
                i <= operands.len(),
                inputs@ == asm_inputs(operands@, i as int),
                outputs@ == asm_outputs(operands@, i as int),
            decreases operands.len() - i,
        {
            let ghost inputs_before = inputs@;
            let ghost outputs_before = outputs@;
            match &operands[i] {
                InlineAsmOperand::In { value } => {
                    self.get_operand_dependency(value, inputs, Some(EdgeDataFlowType::Used));
                },
                InlineAsmOperand::Out { place } => {
                    match place {
                        Some(place) => {
                            self.get_place_dependency(place, outputs, EdgeDataFlowType::Used);
                        },
                        None => {},
                    }
                },
                InlineAsmOperand::InOut { in_value, out_place } => {
                    self.get_operand_dependency(in_value, inputs, Some(EdgeDataFlowType::Used));
                    match out_place {
                        Some(place) => {
                            self.get_place_dependency(place, outputs, EdgeDataFlowType::Move);
                        },
                        None => {},
                    }
                },
                InlineAsmOperand::Const => {},
                InlineAsmOperand::SymFn => {},
                InlineAsmOperand::SymStatic => {},
                InlineAsmOperand::Label => {},
            }
            assert(inputs@ =~= inputs_before + asm_operand_inputs(operands@[i as int]));
            assert(outputs@ =~= outputs_before + asm_operand_outputs(operands@[i as int]));
            i += 1;
        }
    }

    /// Records the flows of one terminator.
    pub fn visit_terminator(&mut self, terminator: &Terminator)
        requires
            old(self).data_dependency_graph.wf(),
            terminator_declared(terminator.kind, old(self).current_body.local_decls@.len() as int),
        ensures
            final(self).data_dependency_graph.wf(),
            final(self).data_dependency_graph@ == after_terminator(
                old(self).data_dependency_graph@,
                *old(self).current_body,
                *terminator,
            ),
            final(self).current_body == old(self).current_body,
            final(self).sanitized_locals == old(self).sanitized_locals,
    {
        let mut dependencies: Vec<Dependency> = Vec::new();
        match &terminator.kind {
            TerminatorKind::Goto => {},
            TerminatorKind::SwitchInt { discr } => {
                self.get_operand_dependency(discr, &mut dependencies, None);
                assert(dependencies@ =~= operand_dependency(*discr, None));
                self.add_flows_into(
                    &dependencies,
                    &DependencyGraphNode::ControlFlow,
                    &terminator.span,
                );
            },
            TerminatorKind::UnwindResume => {},
            TerminatorKind::UnwindTerminate => {},
            TerminatorKind::Return => {
                self.add_data_dependency_edge(
                    DependencyGraphNode::from_local(0, self.current_body),
                    DependencyGraphNode::ReturnedToCaller,
                    terminator.span.clone(),
                    EdgeDataFlowType::Move,
                );
            },
            TerminatorKind::Unreachable => {},
            TerminatorKind::Drop => {},
            TerminatorKind::Call { func, args, destination, fn_span } => {
                self.get_operands_dependency(args, &mut dependencies, None);
                assert(dependencies@ =~= operands_dependency(args@, None, args@.len() as int));
                let func_call = DependencyGraphNode::FunctionCall {
                    function: func.clone(),
                    span: fn_span.clone(),
                };
                self.add_flows_into(&dependencies, &func_call, fn_span);
                self.add_data_dependency_edge(
                    func_call,
                    DependencyGraphNode::from_local(destination.local, self.current_body),
                    fn_span.clone(),
                    EdgeDataFlowType::Move,
                );
            },
            TerminatorKind::TailCall { func, args, fn_span } => {
                self.get_operands_dependency(args, &mut dependencies, None);
                assert(dependencies@ =~= operands_dependency(args@, None, args@.len() as int));
                let func_call = DependencyGraphNode::FunctionCall {
                    function: func.clone(),
                    span: fn_span.clone(),
                };
                self.add_flows_into(&dependencies, &func_call, fn_span);
                self.add_data_dependency_edge(
                    func_call,
                    DependencyGraphNode::ReturnedToCaller,
                    fn_span.clone(),
                    EdgeDataFlowType::Move,
                );
            },
            TerminatorKind::Assert => {},
            TerminatorKind::Yield { value, resume_arg } => {
                self.get_operand_dependency(value, &mut dependencies, None);
                assert(dependencies@ =~= operand_dependency(*value, None));
                self.add_flows_into(
                    &dependencies,
                    &DependencyGraphNode::ReturnedToCaller,
                    &terminator.span,
                );
                self.add_data_dependency_edge(
                    DependencyGraphNode::FunctionInput,
                    DependencyGraphNode::from_local(resume_arg.local, self.current_body),
                    terminator.span.clone(),
                    EdgeDataFlowType::Move,
                );
            },
            TerminatorKind::CoroutineDrop => {},
            TerminatorKind::FalseEdge => {},
            TerminatorKind::FalseUnwind => {},
            TerminatorKind::InlineAsm { operands, line_spans } => {
                let mut inputs = dependencies;
                let mut outputs: Vec<Dependency> = Vec::new();
                self.get_asm_dependency(operands, &mut inputs, &mut outputs);
                let asm_block = DependencyGraphNode::Assembly { spans: clone_spans(line_spans) };
                self.add_flows_into(&inputs, &asm_block, &terminator.span);
                self.add_flows_out_of(&asm_block, &outputs, &terminator.span);
            },
        }
    }

    /// Records the flows of one basic block: of its instructions, in order,
    /// then of its terminator.
    pub fn visit_basic_block_data(&mut self, data: &BasicBlockData)
        requires
            old(self).data_dependency_graph.wf(),
            data.terminator is Some,
            block_declared(*data, old(self).current_body.local_decls@.len() as int),
        ensures
            final(self).data_dependency_graph.wf(),
            final(self).data_dependency_graph@ == after_block(
                old(self).data_dependency_graph@,
                *old(self).current_body,
                *data,
            ),
            final(self).current_body == old(self).current_body,
            final(self).sanitized_locals == old(self).sanitized_locals,
    {
        let ghost start = self.data_dependency_graph@;
        let ghost body = *self.current_body;
        let mut i: usize = 0;
        while i < data.statements.len()
            invariant
                i <= data.statements.len(),
                self.data_dependency_graph.wf(),
                block_declared(*data, body.local_decls@.len() as int),
                *self.current_body == body,
                self.current_body == old(self).current_body,
                self.sanitized_locals == old(self).sanitized_locals,
                self.data_dependency_graph@ == after_statements(
                    start,
                    body,
                    data.statements@,
                    i as int,
                ),
            decreases data.statements.len() - i,
        {
            assert(statement_declared(data.statements@[i as int].kind, body.local_decls@.len() as int));
            self.visit_statement(&data.statements[i]);
            i += 1;
        }
        match &data.terminator {
            Some(terminator) => {
                self.visit_terminator(terminator);
            },
            None => {},
        }
    }

    /// Records the flows of the whole body: a move from the function input
    /// into every parameter, then the flows of every basic block, in order.
    /// Notes for every local whether its type is the wrapper type.
    pub fn visit_body(&mut self)
        requires
            old(self).data_dependency_graph.wf(),
            old(self).current_body.wf(),
        ensures
            final(self).data_dependency_graph.wf(),
            final(self).data_dependency_graph@ == after_body(
                old(self).data_dependency_graph@,
                *old(self).current_body,
            ),
            final(self).current_body == old(self).current_body,
            final(self).sanitized_locals@.len() == old(self).current_body.local_decls@.len(),
            forall|i: int|
                0 <= i < final(self).sanitized_locals@.len() ==> final(self).sanitized_locals@[i]
                    == is_sink_type(
                    old(self).current_body.local_decls@[i].ty@,
                ),
    {
        let ghost start = self.data_dependency_graph@;
        let body = self.current_body;
        let mut sanitized: Vec<bool> = Vec::new();
        let mut local: usize = 0;
        while local < body.local_decls.len()
            invariant
                local <= body.local_decls.len(),
                sanitized@.len() == local,
                forall|i: int|
                    0 <= i < local ==> sanitized@[i]
                        == is_sink_type(
                        body.local_decls@[i].ty@,
                    ),
            decreases body.local_decls.len() - local,
        {
            sanitized.push(
                type_is_sink(&body.local_decls[local].ty),
            );
            local += 1;
        }
        self.sanitized_locals = sanitized;
        let mut arg: usize = 0;
        while arg < body.arg_count
            invariant
                arg <= body.arg_count,
                body.wf(),
                self.data_dependency_graph.wf(),
                self.current_body == body,
                body == old(self).current_body,
                self.sanitized_locals@ == sanitized@,
                self.data_dependency_graph@ == after_arguments(start, *body, arg as int),
            decreases body.arg_count - arg,
        {
            arg += 1;
            self.add_data_dependency_edge(
                DependencyGraphNode::FunctionInput,
                DependencyGraphNode::from_local(arg, body),
                body.span.clone(),
                EdgeDataFlowType::Move,
            );
        }
        let ghost entered = self.data_dependency_graph@;
        let mut block: usize = 0;
        while block < body.basic_blocks.len()
            invariant
                block <= body.basic_blocks.len(),
                body.wf(),
                self.data_dependency_graph.wf(),
                self.current_body == body,
                body == old(self).current_body,
                self.sanitized_locals@ == sanitized@,
                self.data_dependency_graph@ == after_blocks(entered, *body, block as int),
            decreases body.basic_blocks.len() - block,
        {
            assert(block_declared(body.basic_blocks@[block as int], body.local_decls@.len() as int));
            assert(body.basic_blocks@[block as int].terminator is Some);
            self.visit_basic_block_data(&body.basic_blocks[block]);
            block += 1;
        }
    }
}

/// Why a body cannot be analysed.
#[derive(Debug, Clone, Copy, PartialEq, Eq, Structural)]
pub enum BodyError {
    /// A basic block of the body has no terminator.
    MissingTerminator,
    /// The body lets data flow through a local that it does not declare.
    UndeclaredLocal,
}

/// Why a body is refused, if it is: a block without terminator comes first;
/// with every block terminated, a local that is not declared.
pub open spec fn refusal(body: Body) -> Option<BodyError> {
    if !body.terminated() {
        Some(BodyError::MissingTerminator)
    } else if !body.locals_declared() {
        Some(BodyError::UndeclaredLocal)
    } else {
        None
    }
}

impl BodyError {
    /// The message of the error.
    pub fn message(&self) -> (r: String)
        ensures
            r@ == match self {
                BodyError::MissingTerminator => "A basic block has no terminator"@,
                BodyError::UndeclaredLocal => "A local is used that is not declared"@,
            },
    {
        match self {
            BodyError::MissingTerminator => "A basic block has no terminator".to_owned(),
            BodyError::UndeclaredLocal => "A local is used that is not declared".to_owned(),
        }
    }
}

fn all_declared(dependencies: &Vec<Dependency>, locals: usize) -> (r: bool)
    ensures
        r == declared(dependencies@, locals as int),
{
    let mut i: usize = 0;
    while i < dependencies.len()
        invariant
            i <= dependencies.len(),
            forall|k: int| 0 <= k < i ==> (#[trigger] dependencies@[k]).0 < locals,
        decreases dependencies.len() - i,
    {
        if dependencies[i].0 >= locals {
            return false;
        }
        i += 1;
    }
    true
}

impl<'a> DataFlowTaintTracker<'a> {
    /// Whether an instruction names declared locals only.
    pub fn statement_is_declared(&self, statement: &Statement) -> (r: bool)
        ensures
            r == statement_declared(statement.kind, self.current_body.local_decls@.len() as int),
    {
        let locals = self.current_body.local_decls.len();
        match &statement.kind {
            StatementKind::Assign(place, rvalue) => {
                let mut dependencies: Vec<Dependency> = Vec::new();
                self.get_rvalue_dependency(rvalue, &mut dependencies);
                assert(dependencies@ =~= rvalue_dependency(*rvalue));
                place.local < locals && all_declared(&dependencies, locals)
            },
            StatementKind::CopyNonOverlapping { src, dst } => {
                match (src, dst) {
                    (Operand::Constant, _) => true,
                    (_, Operand::Constant) => true,
                    (Operand::Copy(from), Operand::Copy(to)) => from.local < locals && to.local
                        < locals,
                    (Operand::Copy(from), Operand::Move(to)) => from.local < locals && to.local
                        < locals,
                    (Operand::Move(from), Operand::Copy(to)) => from.local < locals && to.local
                        < locals,
                    (Operand::Move(from), Operand::Move(to)) => from.local < locals && to.local
                        < locals,
                }
            },
            StatementKind::Other => true,
        }
    }

    /// Whether a terminator names declared locals only.
    pub fn terminator_is_declared(&self, terminator: &Terminator) -> (r: bool)
        ensures
            r == terminator_declared(terminator.kind, self.current_body.local_decls@.len() as int),
    {
        let locals = self.current_body.local_decls.len();
        let mut dependencies: Vec<Dependency> = Vec::new();
        match &terminator.kind {
            TerminatorKind::SwitchInt { discr } => {
                self.get_operand_dependency(discr, &mut dependencies, None);
                assert(dependencies@ =~= operand_dependency(*discr, None));
                all_declared(&dependencies, locals)
            },
            TerminatorKind::Return => 0 < locals,
            TerminatorKind::Call { func: _, args, destination, fn_span: _ } => {
                self.get_operands_dependency(args, &mut dependencies, None);
                assert(dependencies@ =~= operands_dependency(args@, None, args@.len() as int));
                destination.local < locals && all_declared(&dependencies, locals)
            },
            TerminatorKind::TailCall { func: _, args, fn_span: _ } => {
                self.get_operands_dependency(args, &mut dependencies, None);
                assert(dependencies@ =~= operands_dependency(args@, None, args@.len() as int));
                all_declared(&dependencies, locals)
            },
            TerminatorKind::Yield { value, resume_arg } => {
                self.get_operand_dependency(value, &mut dependencies, None);
                assert(dependencies@ =~= operand_dependency(*value, None));
                resume_arg.local < locals && all_declared(&dependencies, locals)
            },
            TerminatorKind::InlineAsm { operands, line_spans: _ } => {
                let mut outputs: Vec<Dependency> = Vec::new();
                self.get_asm_dependency(operands, &mut dependencies, &mut outputs);
                all_declared(&dependencies, locals) && all_declared(&outputs, locals)
            },
            _ => true,
        }
    }

    /// Whether a basic block names declared locals only.
    pub fn block_is_declared(&self, data: &BasicBlockData) -> (r: bool)
        ensures
            r == block_declared(*data, self.current_body.local_decls@.len() as int),
    {
        let mut i: usize = 0;
        while i < data.statements.len()
            invariant
                i <= data.statements.len(),
                forall|k: int|
                    0 <= k < i ==> statement_declared(
                        (#[trigger] data.statements@[k]).kind,
                        self.current_body.local_decls@.len() as int,
                    ),
            decreases data.statements.len() - i,
        {
            if !self.statement_is_declared(&data.statements[i]) {
                return false;
            }
            i += 1;
        }
        match &data.terminator {
            Some(terminator) => self.terminator_is_declared(terminator),
            None => true,
        }
    }

    /// Whether every basic block of the body of this tracker ends in a
    /// terminator.
    pub fn body_is_terminated(&self) -> (r: bool)
        ensures
            r == self.current_body.terminated(),
    {
        let body = self.current_body;
        let mut block: usize = 0;
        while block < body.basic_blocks.len()
            invariant
                block <= body.basic_blocks.len(),
                body == self.current_body,
                forall|k: int|
                    0 <= k < block ==> (#[trigger] body.basic_blocks@[k]).terminator is Some,
            decreases body.basic_blocks.len() - block,
        {
            if body.basic_blocks[block].terminator.is_none() {
                return false;
            }
            block += 1;
        }
        true
    }

    /// Whether the body of this tracker is well-formed.
    pub fn body_is_well_formed(&self) -> (r: bool)
        ensures
            r == self.current_body.wf(),
    {
        self.body_is_terminated() && self.body_declares_locals()
    }

    /// Whether the body of this tracker declares every local that it lets
    /// data flow through.
    pub fn body_declares_locals(&self) -> (r: bool)
        ensures
            r == self.current_body.locals_declared(),
    {
        let body = self.current_body;
        if body.arg_count != 0 && body.arg_count >= body.local_decls.len() {
            return false;
        }
        let mut block: usize = 0;
        while block < body.basic_blocks.len()
            invariant
                block <= body.basic_blocks.len(),
                body == self.current_body,
                forall|k: int|
                    0 <= k < block ==> block_declared(
                        #[trigger] body.basic_blocks@[k],
                        body.local_decls@.len() as int,
                    ),
            decreases body.basic_blocks.len() - block,
        {
            if !self.block_is_declared(&body.basic_blocks[block]) {
                return false;
            }
            block += 1;
        }
        true
    }
}

/// The dependency graph of a function body. A body that is not well-formed is
/// refused, and only such a body: one with a basic block that has no
/// terminator, or else one that lets data flow through a local that it does
/// not declare.
pub fn build_dependency_graph(body: &Body) -> (r: Result<DependencyGraph, BodyError>)
    ensures
        match r {
            Ok(graph) => body.wf() && graph.wf() && graph@ == after_body(GraphModel::empty(), *body),
            Err(error) => refusal(*body) == Some(error),
        },
{
    let mut tracker = DataFlowTaintTracker::new(body);
    if !tracker.body_is_terminated() {
        return Err(BodyError::MissingTerminator);
    }
    if !tracker.body_declares_locals() {
        return Err(BodyError::UndeclaredLocal);
    }
    tracker.visit_body();
    Ok(tracker.data_dependency_graph)
}

} // verus!
