//! The problems that the analysis reports.

use vstd::prelude::*;
use crate::analysis::taint_source::TaintSource;
use crate::analysis::taint_source::TaintSourceModel;
use crate::span::IRSpan;
use crate::span::SpanModel;
use crate::span::clone_spans;
use crate::span::spans_model;

verus! {

/// How tainted data was used before it was wrapped.
#[derive(Debug, PartialEq, Eq)]
pub enum TaintUsageType {
    ReturnedToCaller,
    /// Passed to a call, with the location of the call.
    FunctionCall(IRSpan),
    Assembly,
    ControlFlow,
    Copied,
}

/// The mathematical value of a [`TaintUsageType`].
pub enum UsageModel {
    ReturnedToCaller,
    FunctionCall(SpanModel),
    Assembly,
    ControlFlow,
    Copied,
}

impl View for TaintUsageType {
    type V = UsageModel;

    open spec fn view(&self) -> UsageModel {
        match self {
            TaintUsageType::ReturnedToCaller => UsageModel::ReturnedToCaller,
            TaintUsageType::FunctionCall(span) => UsageModel::FunctionCall(span@),
            TaintUsageType::Assembly => UsageModel::Assembly,
            TaintUsageType::ControlFlow => UsageModel::ControlFlow,
            TaintUsageType::Copied => UsageModel::Copied,
        }
    }
}

impl Clone for TaintUsageType {
    fn clone(&self) -> (r: Self)
        ensures
            r@ == self@,
    {
        match self {
            TaintUsageType::ReturnedToCaller => TaintUsageType::ReturnedToCaller,
            TaintUsageType::FunctionCall(span) => TaintUsageType::FunctionCall(span.clone()),
            TaintUsageType::Assembly => TaintUsageType::Assembly,
            TaintUsageType::ControlFlow => TaintUsageType::ControlFlow,
            TaintUsageType::Copied => TaintUsageType::Copied,
        }
    }
}

/// What is wrong with the way taint flows from one source. The statement chain
/// holds the locations of the flows that the taint followed up to the problem.
#[derive(Debug, PartialEq, Eq)]
pub enum TaintProblemType {
    /// The taint came back to a node it had passed; the closing flow is given.
    DataDependencyLoop { statement_chain: Vec<IRSpan>, loop_closure: IRSpan },
    /// The taint flows on to several nodes; one location for each is given.
    Duplicated { statement_chain: Vec<IRSpan>, targets: Vec<IRSpan> },
    /// The taint was used at the given location.
    Used { statement_chain: Vec<IRSpan>, used_in: IRSpan, usage_type: TaintUsageType },
}

/// The mathematical value of a [`TaintProblemType`].
pub enum ProblemTypeModel {
    DataDependencyLoop { statement_chain: Seq<SpanModel>, loop_closure: SpanModel },
    Duplicated { statement_chain: Seq<SpanModel>, targets: Seq<SpanModel> },
    Used { statement_chain: Seq<SpanModel>, used_in: SpanModel, usage_type: UsageModel },
}

impl View for TaintProblemType {
    type V = ProblemTypeModel;

    open spec fn view(&self) -> ProblemTypeModel {
        match self {
            TaintProblemType::DataDependencyLoop { statement_chain, loop_closure } => {
                ProblemTypeModel::DataDependencyLoop {
                    statement_chain: spans_model(statement_chain@),
                    loop_closure: loop_closure@,
                }
            },
            TaintProblemType::Duplicated { statement_chain, targets } => {
                ProblemTypeModel::Duplicated {
                    statement_chain: spans_model(statement_chain@),
                    targets: spans_model(targets@),
                }
            },
            TaintProblemType::Used { statement_chain, used_in, usage_type } => {
                ProblemTypeModel::Used {
                    statement_chain: spans_model(statement_chain@),
                    used_in: used_in@,
                    usage_type: usage_type@,
                }
            },
        }
    }
}

impl Clone for TaintProblemType {
    fn clone(&self) -> (r: Self)
        ensures
            r@ == self@,
    {
        match self {
            TaintProblemType::DataDependencyLoop { statement_chain, loop_closure } => {
                TaintProblemType::DataDependencyLoop {
                    statement_chain: clone_spans(statement_chain),
                    loop_closure: loop_closure.clone(),
                }
            },
            TaintProblemType::Duplicated { statement_chain, targets } => {
                TaintProblemType::Duplicated {
                    statement_chain: clone_spans(statement_chain),
                    targets: clone_spans(targets),
                }
            },
            TaintProblemType::Used { statement_chain, used_in, usage_type } => {
                TaintProblemType::Used {
                    statement_chain: clone_spans(statement_chain),
                    used_in: used_in.clone(),
                    usage_type: usage_type.clone(),
                }
            },
        }
    }
}

/// One problem found for one call of a taint source.
#[derive(Debug)]
pub struct TaintProblem<'tsrc> {
    /// The descriptor of the catalog that names the called function.
    pub taint_source: &'tsrc TaintSource<'tsrc>,
    /// The fully qualified name of the called function.
    pub source_func_sig: String,
    /// Where the taint enters.
    pub source_span: IRSpan,
    pub problem_type: TaintProblemType,
}

/// The mathematical value of a [`TaintProblem`].
pub struct TaintProblemModel {
    pub taint_source: TaintSourceModel,
    pub source_func_sig: Seq<char>,
    pub source_span: SpanModel,
    pub problem_type: ProblemTypeModel,
}

impl<'tsrc> View for TaintProblem<'tsrc> {
    type V = TaintProblemModel;

    open spec fn view(&self) -> TaintProblemModel {
        TaintProblemModel {
            taint_source: (*self.taint_source)@,
            source_func_sig: self.source_func_sig@,
            source_span: self.source_span@,
            problem_type: self.problem_type@,
        }
    }
}

/// The values of a sequence of problems.
pub open spec fn problems_model(problems: Seq<TaintProblem>) -> Seq<TaintProblemModel> {
    Seq::new(problems.len(), |i: int| problems[i]@)
}

impl<'tsrc> Clone for TaintProblem<'tsrc> {
    fn clone(&self) -> (r: Self)
        ensures
            r@ == self@,
    {
        TaintProblem {
            taint_source: self.taint_source,
            source_func_sig: self.source_func_sig.clone(),
            source_span: self.source_span.clone(),
            problem_type: self.problem_type.clone(),
        }
    }
}

/// A problem that holds the description of its taint source itself.
#[derive(Debug, PartialEq, Eq)]
pub struct TaintProblemOwned {
    pub taint_source_description: String,
    pub source_func_sig: String,
    pub source_span: IRSpan,
    pub problem_type: TaintProblemType,
}

/// The mathematical value of a [`TaintProblemOwned`].
pub struct TaintProblemOwnedModel {
    pub taint_source_description: Seq<char>,
    pub source_func_sig: Seq<char>,
    pub source_span: SpanModel,
    pub problem_type: ProblemTypeModel,
}

impl View for TaintProblemOwned {
    type V = TaintProblemOwnedModel;

    open spec fn view(&self) -> TaintProblemOwnedModel {
        TaintProblemOwnedModel {
            taint_source_description: self.taint_source_description@,
            source_func_sig: self.source_func_sig@,
            source_span: self.source_span@,
            problem_type: self.problem_type@,
        }
    }
}

impl Clone for TaintProblemOwned {
    fn clone(&self) -> (r: Self)
        ensures
            r@ == self@,
    {
        TaintProblemOwned {
            taint_source_description: self.taint_source_description.clone(),
            source_func_sig: self.source_func_sig.clone(),
            source_span: self.source_span.clone(),
            problem_type: self.problem_type.clone(),
        }
    }
}

/// The owned form of a problem's value: the description of the taint source in
/// place of the descriptor, everything else as it is.
pub open spec fn owned_model(p: TaintProblemModel) -> TaintProblemOwnedModel {
    TaintProblemOwnedModel {
        taint_source_description: p.taint_source.description,
        source_func_sig: p.source_func_sig,
        source_span: p.source_span,
        problem_type: p.problem_type,
    }
}

impl<'tsrc> TaintProblem<'tsrc> {
    /// The problem with the description of its taint source in place of the
    /// descriptor.
    pub fn into_owned(self) -> (r: TaintProblemOwned)
        ensures
            r@ == owned_model(self@),
    {
        TaintProblemOwned {
            taint_source_description: self.taint_source.description.to_owned(),
            source_func_sig: self.source_func_sig,
            source_span: self.source_span,
            problem_type: self.problem_type,
        }
    }
}

} // verus!
