//! The analysis of the functions of one crate.

use vstd::prelude::*;
use crate::analysis::mir::body::Body;
use crate::analysis::mir::data_flow::BodyError;
use crate::analysis::mir::data_flow::after_body;
use crate::analysis::mir::data_flow::build_dependency_graph;
use crate::analysis::mir::data_flow::refusal;
use crate::analysis::mir::data_flow_checker::DataFlowCheckResult;
use crate::analysis::mir::data_flow_checker::all_problems;
use crate::analysis::mir::data_flow_checker::check_data_flow;
use crate::analysis::mir::data_flow_checker::final_markings;
use crate::analysis::mir::dot::rendered;
use crate::analysis::mir::graph::GraphModel;
use crate::analysis::taint_problem::problems_model;
use crate::analysis::taint_source::TaintSource;
use crate::analysis::taint_source::TaintSourceModel;
use crate::analysis::taint_source::sources_model;
use crate::output::FunctionInfo;

verus! {

/// A function of the crate under analysis, with its body.
#[derive(Debug)]
pub struct FunctionBody {
    pub function: FunctionInfo,
    pub body: Body,
}

/// What the analysis of one function came to: its findings, or the reason why
/// its body was refused.
#[derive(Debug)]
pub struct FunctionOutcome<'tsrc> {
    pub function_name: String,
    pub outcome: Result<DataFlowCheckResult<'tsrc>, BodyError>,
}

/// Whether `outcome` is what the analysis of a body under a catalog comes to:
/// a body that is not well-formed is refused, with the error that says why;
/// for any other the problems are those of its dependency graph, and the graph
/// is drawn if that was asked for.
pub open spec fn is_outcome_of(
    outcome: Result<DataFlowCheckResult, BodyError>,
    body: Body,
    catalog: Seq<TaintSourceModel>,
    draw_graph: bool,
) -> bool {
    match outcome {
        Ok(check) => {
            &&& body.wf()
            &&& problems_model(check.taint_problems@) == all_problems(
                after_body(GraphModel::empty(), body),
                catalog,
            )
            &&& match check.data_dependency_graph {
                Some(drawing) => draw_graph && drawing.deep_view() == rendered(
                    after_body(GraphModel::empty(), body),
                    final_markings(after_body(GraphModel::empty(), body), catalog),
                ),
                None => !draw_graph,
            }
        },
        Err(error) => refusal(body) == Some(error),
    }
}

/// Analyses one function body: builds its dependency graph and checks the
/// data flow in it.
pub fn analyze_function<'tsrc>(
    body: &Body,
    taint_sources: &'tsrc Vec<TaintSource<'tsrc>>,
    draw_graph: bool,
) -> (r: Result<DataFlowCheckResult<'tsrc>, BodyError>)
    ensures
        is_outcome_of(r, *body, sources_model(taint_sources@), draw_graph),
{
    match build_dependency_graph(body) {
        Ok(graph) => Ok(check_data_flow(graph, taint_sources, draw_graph)),
        Err(error) => Err(error),
    }
}

/// Analyses the functions of a crate, one by one and each on its own. A body
/// that is refused fails the analysis of its function only. Without data flow
/// analysis nothing is analysed.
pub fn mir_analysis<'tsrc>(
    functions: &Vec<FunctionBody>,
    taint_sources: &'tsrc Vec<TaintSource<'tsrc>>,
    data_flow_analysis: bool,
    draw_graphs: bool,
) -> (r: Vec<FunctionOutcome<'tsrc>>)
    ensures
        !data_flow_analysis ==> r@.len() == 0,
        data_flow_analysis ==> r@.len() == functions@.len(),
        forall|i: int|
            0 <= i < r@.len() ==> (#[trigger] r@[i]).function_name@
                == functions@[i].function.function_name@ && is_outcome_of(
                r@[i].outcome,
                functions@[i].body,
                sources_model(taint_sources@),
                draw_graphs,
            ),
{
    let mut outcomes: Vec<FunctionOutcome<'tsrc>> = Vec::new();
    if !data_flow_analysis {
        return outcomes;
    }
    let mut i: usize = 0;
    while i < functions.len()
        invariant
            i <= functions.len(),
            outcomes@.len() == i,
            forall|k: int|
                0 <= k < i ==> (#[trigger] outcomes@[k]).function_name@
                    == functions@[k].function.function_name@ && is_outcome_of(
                    outcomes@[k].outcome,
                    functions@[k].body,
                    sources_model(taint_sources@),
                    draw_graphs,
                ),
        decreases functions.len() - i,
    {
        let outcome = analyze_function(&functions[i].body, taint_sources, draw_graphs);
        outcomes.push(
            FunctionOutcome { function_name: functions[i].function.function_name.clone(), outcome },
        );
        i += 1;
    }
    outcomes
}

} // verus!
