use untrusted_value_taint_checker::analysis::mir::data_flow::DependencyGraphNode;
use untrusted_value_taint_checker::analysis::mir::data_flow::EdgeDataFlowType;
use untrusted_value_taint_checker::analysis::mir::data_flow::TypeInfo;
use untrusted_value_taint_checker::analysis::mir::data_flow::TypeKind;
use untrusted_value_taint_checker::analysis::mir::data_flow_checker::check_data_flow;
use untrusted_value_taint_checker::analysis::mir::graph::DependencyGraph;
use untrusted_value_taint_checker::analysis::taint_problem::TaintProblemType;
use untrusted_value_taint_checker::analysis::taint_problem::TaintUsageType;
use untrusted_value_taint_checker::analysis::taint_source::TaintSource;
use untrusted_value_taint_checker::span::IRSpan;

fn at(line: usize) -> IRSpan {
    IRSpan {
        file_name: Some("src/main.rs".to_string()),
        start_line: line,
        start_col: 5,
        end_line: line,
        end_col: 30,
    }
}

fn plain_local(index: usize) -> DependencyGraphNode {
    DependencyGraphNode::Local {
        dst: index,
        ty: TypeInfo { name: "String".to_string(), kind: TypeKind::Adt { path: "std::string::String".to_string() } },
    }
}

fn wrapper_local(index: usize) -> DependencyGraphNode {
    DependencyGraphNode::Local {
        dst: index,
        ty: TypeInfo {
            name: "UntrustedValue<String>".to_string(),
            kind: TypeKind::Adt { path: "untrusted_value::UntrustedValue".to_string() },
        },
    }
}

fn call(path: &str, line: usize) -> DependencyGraphNode {
    DependencyGraphNode::FunctionCall {
        function: TypeInfo {
            name: format!("fn() -> String {{{}}}", path),
            kind: TypeKind::FnDef { path: path.to_string(), generics: Vec::new() },
        },
        span: at(line),
    }
}

fn catalog() -> Vec<TaintSource<'static>> {
    vec![
        TaintSource { functions: vec!["env_read"], description: "reads the environment" },
        TaintSource { functions: vec!["read_input", "env_read"], description: "reads input" },
    ]
}

#[test]
fn taint_moved_into_wrapper_is_no_problem() {
    let mut graph = DependencyGraph::new();
    graph.add_data_dependency_edge(call("env_read", 1), plain_local(1), at(1), EdgeDataFlowType::Move);
    graph.add_data_dependency_edge(plain_local(1), wrapper_local(2), at(2), EdgeDataFlowType::Move);
    let sources = catalog();
    let result = check_data_flow(graph, &sources, false);
    assert_eq!(result.taint_problems.len(), 0);
    assert!(result.data_dependency_graph.is_none());
}

#[test]
fn copy_of_taint_is_reported_at_the_copy() {
    let mut graph = DependencyGraph::new();
    graph.add_data_dependency_edge(call("env_read", 1), plain_local(1), at(7), EdgeDataFlowType::Used);
    let sources = catalog();
    let result = check_data_flow(graph, &sources, false);
    assert_eq!(result.taint_problems.len(), 1);
    let problem = &result.taint_problems[0];
    assert_eq!(problem.source_func_sig, "env_read");
    assert_eq!(problem.taint_source.description, "reads the environment");
    assert_eq!(problem.source_span, at(7));
    assert_eq!(
        problem.problem_type,
        TaintProblemType::Used {
            statement_chain: Vec::new(),
            used_in: at(7),
            usage_type: TaintUsageType::Copied,
        }
    );
}

#[test]
fn cycle_is_reported_with_its_closing_edge() {
    let mut graph = DependencyGraph::new();
    graph.add_data_dependency_edge(call("env_read", 1), plain_local(1), at(1), EdgeDataFlowType::Move);
    graph.add_data_dependency_edge(plain_local(1), plain_local(2), at(2), EdgeDataFlowType::Move);
    graph.add_data_dependency_edge(plain_local(2), plain_local(1), at(3), EdgeDataFlowType::Move);
    let sources = catalog();
    let result = check_data_flow(graph, &sources, false);
    assert_eq!(result.taint_problems.len(), 1);
    assert_eq!(result.taint_problems[0].source_span, at(1));
    assert_eq!(
        result.taint_problems[0].problem_type,
        TaintProblemType::DataDependencyLoop {
            statement_chain: vec![at(1), at(2)],
            loop_closure: at(3),
        }
    );
}

#[test]
fn fan_out_lists_both_targets() {
    let mut graph = DependencyGraph::new();
    graph.add_data_dependency_edge(call("read_input", 1), plain_local(1), at(4), EdgeDataFlowType::Move);
    graph.add_data_dependency_edge(call("read_input", 1), plain_local(2), at(5), EdgeDataFlowType::Move);
    let sources = catalog();
    let result = check_data_flow(graph, &sources, false);
    assert_eq!(result.taint_problems.len(), 1);
    assert_eq!(result.taint_problems[0].source_func_sig, "read_input");
    assert_eq!(result.taint_problems[0].taint_source.description, "reads input");
    assert_eq!(result.taint_problems[0].source_span, at(4));
    assert_eq!(
        result.taint_problems[0].problem_type,
        TaintProblemType::Duplicated { statement_chain: Vec::new(), targets: vec![at(4), at(5)] }
    );
}

#[test]
fn taint_returned_to_caller_is_reported() {
    let mut graph = DependencyGraph::new();
    graph.add_data_dependency_edge(call("read_input", 1), plain_local(1), at(1), EdgeDataFlowType::Move);
    graph.add_data_dependency_edge(
        plain_local(1),
        DependencyGraphNode::ReturnedToCaller,
        at(9),
        EdgeDataFlowType::Move,
    );
    let sources = catalog();
    let result = check_data_flow(graph, &sources, false);
    assert_eq!(result.taint_problems.len(), 1);
    assert_eq!(
        result.taint_problems[0].problem_type,
        TaintProblemType::Used {
            statement_chain: vec![at(1)],
            used_in: at(9),
            usage_type: TaintUsageType::ReturnedToCaller,
        }
    );
}

#[test]
fn first_matching_descriptor_of_the_catalog_wins() {
    let mut graph = DependencyGraph::new();
    graph.add_data_dependency_edge(call("env_read", 1), plain_local(1), at(1), EdgeDataFlowType::Used);
    let sources = catalog();
    let result = check_data_flow(graph, &sources, false);
    assert_eq!(result.taint_problems[0].taint_source.description, "reads the environment");
}

#[test]
fn source_without_outgoing_edge_reports_nothing() {
    let mut graph = DependencyGraph::new();
    graph.add_data_dependency_edge(plain_local(1), call("env_read", 1), at(1), EdgeDataFlowType::Move);
    let sources = catalog();
    let result = check_data_flow(graph, &sources, false);
    assert_eq!(result.taint_problems.len(), 0);
}

#[test]
fn source_moved_directly_into_final_sink_reports_nothing() {
    let mut graph = DependencyGraph::new();
    graph.add_data_dependency_edge(call("env_read", 1), wrapper_local(1), at(1), EdgeDataFlowType::Move);
    let sources = catalog();
    let result = check_data_flow(graph, &sources, false);
    assert_eq!(result.taint_problems.len(), 0);
}

#[test]
fn walk_goes_on_from_a_sink_that_the_source_feeds() {
    let mut graph = DependencyGraph::new();
    graph.add_data_dependency_edge(call("env_read", 1), wrapper_local(1), at(1), EdgeDataFlowType::Move);
    graph.add_data_dependency_edge(
        wrapper_local(1),
        DependencyGraphNode::ReturnedToCaller,
        at(2),
        EdgeDataFlowType::Move,
    );
    let sources = catalog();
    let result = check_data_flow(graph, &sources, false);
    assert_eq!(result.taint_problems.len(), 1);
    assert_eq!(
        result.taint_problems[0].problem_type,
        TaintProblemType::Used {
            statement_chain: vec![at(1)],
            used_in: at(2),
            usage_type: TaintUsageType::ReturnedToCaller,
        }
    );
}

#[test]
fn unmarked_neighbour_of_a_sink_ends_the_walk() {
    let mut graph = DependencyGraph::new();
    graph.add_data_dependency_edge(call("env_read", 1), wrapper_local(1), at(1), EdgeDataFlowType::Move);
    graph.add_data_dependency_edge(wrapper_local(1), plain_local(2), at(2), EdgeDataFlowType::Used);
    let sources = catalog();
    let result = check_data_flow(graph, &sources, false);
    assert_eq!(result.taint_problems.len(), 0);
}

#[test]
fn every_source_with_fan_out_gets_exactly_one_duplicated_problem() {
    let mut graph = DependencyGraph::new();
    graph.add_data_dependency_edge(call("env_read", 1), plain_local(1), at(1), EdgeDataFlowType::Move);
    graph.add_data_dependency_edge(call("env_read", 1), plain_local(2), at(2), EdgeDataFlowType::Used);
    graph.add_data_dependency_edge(call("env_read", 1), plain_local(3), at(3), EdgeDataFlowType::Move);
    graph.add_data_dependency_edge(call("read_input", 10), plain_local(4), at(11), EdgeDataFlowType::Move);
    graph.add_data_dependency_edge(call("read_input", 10), wrapper_local(5), at(12), EdgeDataFlowType::Move);
    let sources = catalog();
    let result = check_data_flow(graph, &sources, false);
    assert_eq!(result.taint_problems.len(), 2);
    assert_eq!(
        result.taint_problems[0].problem_type,
        TaintProblemType::Duplicated {
            statement_chain: Vec::new(),
            targets: vec![at(1), at(2), at(3)],
        }
    );
    assert_eq!(
        result.taint_problems[1].problem_type,
        TaintProblemType::Duplicated { statement_chain: Vec::new(), targets: vec![at(11), at(12)] }
    );
}

#[test]
fn tainted_argument_of_a_call_is_reported_with_the_call_site() {
    let mut graph = DependencyGraph::new();
    graph.add_data_dependency_edge(call("env_read", 1), plain_local(1), at(1), EdgeDataFlowType::Move);
    graph.add_data_dependency_edge(plain_local(1), call("consume", 20), at(20), EdgeDataFlowType::Move);
    let sources = catalog();
    let result = check_data_flow(graph, &sources, false);
    assert_eq!(result.taint_problems.len(), 1);
    assert_eq!(
        result.taint_problems[0].problem_type,
        TaintProblemType::Used {
            statement_chain: vec![at(1)],
            used_in: at(20),
            usage_type: TaintUsageType::FunctionCall(at(20)),
        }
    );
}

#[test]
fn wrapping_call_absorbs_the_taint() {
    let mut graph = DependencyGraph::new();
    graph.add_data_dependency_edge(call("env_read", 1), plain_local(1), at(1), EdgeDataFlowType::Move);
    graph.add_data_dependency_edge(
        plain_local(1),
        call("untrusted_value::UntrustedValue::wrap", 2),
        at(2),
        EdgeDataFlowType::Move,
    );
    let sources = catalog();
    let result = check_data_flow(graph, &sources, false);
    assert_eq!(result.taint_problems.len(), 0);
}

#[test]
fn control_flow_and_assembly_are_uses() {
    let sources = catalog();
    let mut graph = DependencyGraph::new();
    graph.add_data_dependency_edge(call("env_read", 1), plain_local(1), at(1), EdgeDataFlowType::Move);
    graph.add_data_dependency_edge(plain_local(1), DependencyGraphNode::ControlFlow, at(2), EdgeDataFlowType::Used);
    let result = check_data_flow(graph, &sources, false);
    assert_eq!(
        result.taint_problems[0].problem_type,
        TaintProblemType::Used {
            statement_chain: vec![at(1)],
            used_in: at(2),
            usage_type: TaintUsageType::ControlFlow,
        }
    );
    let mut graph = DependencyGraph::new();
    graph.add_data_dependency_edge(call("env_read", 1), plain_local(1), at(1), EdgeDataFlowType::Move);
    graph.add_data_dependency_edge(
        plain_local(1),
        DependencyGraphNode::Assembly { spans: vec![at(3)] },
        at(3),
        EdgeDataFlowType::Used,
    );
    let result = check_data_flow(graph, &sources, false);
    assert_eq!(
        result.taint_problems[0].problem_type,
        TaintProblemType::Used {
            statement_chain: vec![at(1)],
            used_in: at(3),
            usage_type: TaintUsageType::Assembly,
        }
    );
}

#[test]
fn repeated_flow_accumulates_on_one_edge_and_a_use_among_moves_is_a_copy() {
    let mut graph = DependencyGraph::new();
    graph.add_data_dependency_edge(call("env_read", 1), plain_local(1), at(1), EdgeDataFlowType::Move);
    graph.add_data_dependency_edge(plain_local(1), plain_local(2), at(2), EdgeDataFlowType::Move);
    graph.add_data_dependency_edge(plain_local(1), plain_local(2), at(3), EdgeDataFlowType::Used);
    assert_eq!(graph.node_count(), 3);
    assert_eq!(graph.edge_count(), 2);
    assert_eq!(graph.edge(1).instances.len(), 2);
    assert!(graph.edge(0).is_move_only());
    assert!(!graph.edge(1).is_move_only());
    let sources = catalog();
    let result = check_data_flow(graph, &sources, false);
    assert_eq!(result.taint_problems.len(), 1);
    assert_eq!(
        result.taint_problems[0].problem_type,
        TaintProblemType::Used {
            statement_chain: vec![at(1)],
            used_in: at(2),
            usage_type: TaintUsageType::Copied,
        }
    );
}
