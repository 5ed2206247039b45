//! Function bodies as the analysis reads them: basic blocks of instructions
//! that end in a terminator, over storage locations known by their index.

use vstd::prelude::*;
use crate::analysis::mir::data_flow::EdgeDataFlowType;
use crate::analysis::mir::data_flow::TypeInfo;
use crate::span::IRSpan;

verus! {

/// A place of a function body: the storage location that it lies in.
#[derive(Debug, Clone, Copy, PartialEq, Eq)]
pub struct Place {
    pub local: usize,
}

/// An operand of an instruction.
#[derive(Debug, Clone, Copy, PartialEq, Eq)]
pub enum Operand {
    Copy(Place),
    Move(Place),
    Constant,
}

/// The value expression of an assignment, with the operands and places that it
/// reads.
#[derive(Debug, PartialEq, Eq)]
pub enum Rvalue {
    Use(Operand),
    Repeat(Operand),
    Ref(Place),
    ThreadLocalRef,
    AddressOf(Place),
    Len(Place),
    Cast(Operand),
    BinaryOp(Operand, Operand),
    NullaryOp,
    UnaryOp(Operand),
    Discriminant(Place),
    Aggregate(Vec<Operand>),
    ShallowInitBox(Operand),
    CopyForDeref(Place),
}

/// What an instruction does, as far as data flows.
#[derive(Debug, PartialEq, Eq)]
pub enum StatementKind {
    /// `place = rvalue`.
    Assign(Place, Rvalue),
    /// The intrinsic that copies memory from `src` to `dst`.
    CopyNonOverlapping { src: Operand, dst: Operand },
    /// An instruction through which no data flows: storage markers, type
    /// ascriptions and the like.
    Other,
}

/// An instruction with its location.
#[derive(Debug, PartialEq, Eq)]
pub struct Statement {
    pub kind: StatementKind,
    pub span: IRSpan,
}

/// An operand of an inline assembly block.
#[derive(Debug, Clone, Copy, PartialEq, Eq)]
pub enum InlineAsmOperand {
    In { value: Operand },
    Out { place: Option<Place> },
    InOut { in_value: Operand, out_place: Option<Place> },
    Const,
    SymFn,
    SymStatic,
    Label,
}

/// How a basic block ends.
#[derive(Debug, PartialEq, Eq)]
pub enum TerminatorKind {
    Goto,
    SwitchInt { discr: Operand },
    UnwindResume,
    UnwindTerminate,
    Return,
    Unreachable,
    Drop,
    Call { func: TypeInfo, args: Vec<Operand>, destination: Place, fn_span: IRSpan },
    TailCall { func: TypeInfo, args: Vec<Operand>, fn_span: IRSpan },
    Assert,
    Yield { value: Operand, resume_arg: Place },
    CoroutineDrop,
    FalseEdge,
    FalseUnwind,
    InlineAsm { operands: Vec<InlineAsmOperand>, line_spans: Vec<IRSpan> },
}

/// A terminator with its location.
#[derive(Debug, PartialEq, Eq)]
pub struct Terminator {
    pub kind: TerminatorKind,
    pub span: IRSpan,
}

/// A basic block: its instructions in order, and its terminator.
#[derive(Debug, PartialEq, Eq)]
pub struct BasicBlockData {
    pub statements: Vec<Statement>,
    pub terminator: Option<Terminator>,
}

/// The declaration of a storage location.
#[derive(Debug, PartialEq, Eq)]
pub struct LocalDecl {
    pub ty: TypeInfo,
}

/// A function body. Local 0 holds the return value, locals 1 to `arg_count`
/// hold the parameters.
#[derive(Debug, PartialEq, Eq)]
pub struct Body {
    pub basic_blocks: Vec<BasicBlockData>,
    pub local_decls: Vec<LocalDecl>,
    pub arg_count: usize,
    pub span: IRSpan,
}

/// A local that a value depends on, and how the value flows from it.
pub type Dependency = (usize, EdgeDataFlowType);

/// The flow that is recorded for a place.
pub open spec fn place_dependency(place: Place, flow: EdgeDataFlowType) -> Seq<Dependency> {
    seq![(place.local, flow)]
}

/// The kind of flow to record: the forced one if there is one.
pub open spec fn flow_or(force: Option<EdgeDataFlowType>, flow: EdgeDataFlowType) -> EdgeDataFlowType {
    match force {
        Some(forced) => forced,
        None => flow,
    }
}

/// The flow that is recorded for an operand: a copy is a use and a move is a
/// move, unless a kind of flow is forced; a constant depends on nothing.
pub open spec fn operand_dependency(operand: Operand, force: Option<EdgeDataFlowType>) -> Seq<
    Dependency,
> {
    match operand {
        Operand::Copy(place) => place_dependency(place, flow_or(force, EdgeDataFlowType::Used)),
        Operand::Move(place) => place_dependency(place, flow_or(force, EdgeDataFlowType::Move)),
        Operand::Constant => Seq::empty(),
    }
}

/// The flows that are recorded for the first `k` operands of a list, in order.
pub open spec fn operands_dependency(
    operands: Seq<Operand>,
    force: Option<EdgeDataFlowType>,
    k: int,
) -> Seq<Dependency>
    decreases k,
{
    if k <= 0 {
        Seq::empty()
    } else {
        operands_dependency(operands, force, k - 1) + operand_dependency(operands[k - 1], force)
    }
}

/// The flows that are recorded for a value expression: every local that it
/// reads, in the order of its operands; moved where the operand that reads it
/// is a move, used where it is a copy or where the expression reads a place by
/// reference, address, length, discriminant or copy for a dereference.
pub open spec fn rvalue_dependency(rvalue: Rvalue) -> Seq<Dependency> {
    match rvalue {
        Rvalue::Use(operand) => operand_dependency(operand, None),
        Rvalue::Repeat(operand) => operand_dependency(operand, None),
        Rvalue::Ref(place) => place_dependency(place, EdgeDataFlowType::Used),
        Rvalue::ThreadLocalRef => Seq::empty(),
        Rvalue::AddressOf(place) => place_dependency(place, EdgeDataFlowType::Used),
        Rvalue::Len(place) => place_dependency(place, EdgeDataFlowType::Used),
        Rvalue::Cast(operand) => operand_dependency(operand, None),
        Rvalue::BinaryOp(a, b) => operand_dependency(a, None) + operand_dependency(b, None),
        Rvalue::NullaryOp => Seq::empty(),
        Rvalue::UnaryOp(operand) => operand_dependency(operand, None),
        Rvalue::Discriminant(place) => place_dependency(place, EdgeDataFlowType::Used),
        Rvalue::Aggregate(fields) => operands_dependency(fields@, None, fields@.len() as int),
        Rvalue::ShallowInitBox(operand) => operand_dependency(operand, None),
        Rvalue::CopyForDeref(place) => place_dependency(place, EdgeDataFlowType::Used),
    }
}

/// The flows into an assembly block that are recorded for one of its operands.
pub open spec fn asm_operand_inputs(operand: InlineAsmOperand) -> Seq<Dependency> {
    match operand {
        InlineAsmOperand::In { value } => operand_dependency(value, Some(EdgeDataFlowType::Used)),
        InlineAsmOperand::InOut { in_value, out_place } => operand_dependency(
            in_value,
            Some(EdgeDataFlowType::Used),
        ),
        _ => Seq::empty(),
    }
}

/// The flows out of an assembly block that are recorded for one of its
/// operands.
pub open spec fn asm_operand_outputs(operand: InlineAsmOperand) -> Seq<Dependency> {
    match operand {
        InlineAsmOperand::Out { place: Some(place) } => place_dependency(
            place,
            EdgeDataFlowType::Used,
        ),
        InlineAsmOperand::InOut { in_value, out_place: Some(place) } => place_dependency(
            place,
            EdgeDataFlowType::Move,
        ),
        _ => Seq::empty(),
    }
}

/// The flows into an assembly block for its first `k` operands, in order.
pub open spec fn asm_inputs(operands: Seq<InlineAsmOperand>, k: int) -> Seq<Dependency>
    decreases k,
{
    if k <= 0 {
        Seq::empty()
    } else {
        asm_inputs(operands, k - 1) + asm_operand_inputs(operands[k - 1])
    }
}

/// The flows out of an assembly block for its first `k` operands, in order.
pub open spec fn asm_outputs(operands: Seq<InlineAsmOperand>, k: int) -> Seq<Dependency>
    decreases k,
{
    if k <= 0 {
        Seq::empty()
    } else {
        asm_outputs(operands, k - 1) + asm_operand_outputs(operands[k - 1])
    }
}

/// Whether every local of a list of flows is below `locals`.
pub open spec fn declared(dependencies: Seq<Dependency>, locals: int) -> bool {
    forall|i: int| 0 <= i < dependencies.len() ==> (#[trigger] dependencies[i]).0 < locals
}

/// The locals that an operand of `CopyNonOverlapping` names, if it names one.
pub open spec fn operand_place(operand: Operand) -> Option<Place> {
    match operand {
        Operand::Copy(place) => Some(place),
        Operand::Move(place) => Some(place),
        Operand::Constant => None,
    }
}

/// Whether every local through which an instruction lets data flow is below
/// `locals`.
pub open spec fn statement_declared(kind: StatementKind, locals: int) -> bool {
    match kind {
        StatementKind::Assign(place, rvalue) => place.local < locals && declared(
            rvalue_dependency(rvalue),
            locals,
        ),
        StatementKind::CopyNonOverlapping { src, dst } => match (
            operand_place(src),
            operand_place(dst),
        ) {
            (Some(from), Some(to)) => from.local < locals && to.local < locals,
            _ => true,
        },
        StatementKind::Other => true,
    }
}

/// Whether every local through which a terminator lets data flow is below
/// `locals`.
pub open spec fn terminator_declared(kind: TerminatorKind, locals: int) -> bool {
    match kind {
        TerminatorKind::SwitchInt { discr } => declared(operand_dependency(discr, None), locals),
        TerminatorKind::Return => 0 < locals,
        TerminatorKind::Call { func, args, destination, fn_span } => destination.local < locals
            && declared(operands_dependency(args@, None, args@.len() as int), locals),
        TerminatorKind::TailCall { func, args, fn_span } => declared(
            operands_dependency(args@, None, args@.len() as int),
            locals,
        ),
        TerminatorKind::Yield { value, resume_arg } => resume_arg.local < locals && declared(
            operand_dependency(value, None),
            locals,
        ),
        TerminatorKind::InlineAsm { operands, line_spans } => declared(
            asm_inputs(operands@, operands@.len() as int),
            locals,
        ) && declared(asm_outputs(operands@, operands@.len() as int), locals),
        _ => true,
    }
}

/// Whether a basic block names declared locals only.
pub open spec fn block_declared(block: BasicBlockData, locals: int) -> bool {
    &&& forall|i: int|
        0 <= i < block.statements@.len() ==> statement_declared(
            (#[trigger] block.statements@[i]).kind,
            locals,
        )
    &&& match block.terminator {
        Some(terminator) => terminator_declared(terminator.kind, locals),
        None => true,
    }
}

impl Body {
    /// Whether every basic block of the body ends in a terminator.
    pub open spec fn terminated(&self) -> bool {
        forall|b: int|
            0 <= b < self.basic_blocks@.len() ==> (#[trigger] self.basic_blocks@[b]).terminator
                is Some
    }

    /// Whether the body declares every local that it lets data flow through:
    /// its parameters, and the locals that its instructions and terminators
    /// name.
    pub open spec fn locals_declared(&self) -> bool {
        &&& self.arg_count == 0 || self.arg_count < self.local_decls@.len()
        &&& forall|b: int|
            0 <= b < self.basic_blocks@.len() ==> block_declared(
                #[trigger] self.basic_blocks@[b],
                self.local_decls@.len() as int,
            )
    }

    /// A body is well-formed if every basic block ends in a terminator and
    /// every local through which data flows is declared.
    pub open spec fn wf(&self) -> bool {
        self.terminated() && self.locals_declared()
    }
}

} // verus!
