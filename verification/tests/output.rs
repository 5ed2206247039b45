use std::str::FromStr;
use untrusted_value_taint_checker::analysis::mir::data_flow::DependencyGraphNode;
use untrusted_value_taint_checker::analysis::mir::data_flow::EdgeDataFlowType;
use untrusted_value_taint_checker::analysis::mir::data_flow::EdgeInstance;
use untrusted_value_taint_checker::analysis::mir::data_flow::GraphEdge;
use untrusted_value_taint_checker::analysis::mir::data_flow::TypeInfo;
use untrusted_value_taint_checker::analysis::mir::data_flow::TypeKind;
use untrusted_value_taint_checker::analysis::mir::data_flow_checker::check_data_flow;
use untrusted_value_taint_checker::analysis::mir::dot::label_of_edge;
use untrusted_value_taint_checker::analysis::mir::dot::name_of_node;
use untrusted_value_taint_checker::analysis::mir::dot::DotGraph;
use untrusted_value_taint_checker::analysis::mir::dot::DotStatement;
use untrusted_value_taint_checker::analysis::mir::graph::DependencyGraph;
use untrusted_value_taint_checker::analysis::taint_problem::TaintProblem;
use untrusted_value_taint_checker::analysis::taint_problem::TaintProblemOwned;
use untrusted_value_taint_checker::analysis::taint_problem::TaintProblemType;
use untrusted_value_taint_checker::analysis::taint_problem::TaintUsageType;
use untrusted_value_taint_checker::analysis::taint_source::TaintSource;
use untrusted_value_taint_checker::analysis::taint_source::TaintSourceDefinitionOwned;
use untrusted_value_taint_checker::analysis::taint_source::TaintSourceOwned;
use untrusted_value_taint_checker::output::summarize;
use untrusted_value_taint_checker::output::AnalysisProblem;
use untrusted_value_taint_checker::output::AnalysisResult;
use untrusted_value_taint_checker::output::FunctionInfo;
use untrusted_value_taint_checker::output::FunctionProblems;
use untrusted_value_taint_checker::output::OutputFormatType;
use untrusted_value_taint_checker::output::PackageAnalysisResult;
use untrusted_value_taint_checker::output::ProgramOutput;
use untrusted_value_taint_checker::span::IRSpan;

fn span(line: usize) -> IRSpan {
    IRSpan { file_name: Some("src/main.rs".to_string()), start_line: line, start_col: 4, end_line: line + 1, end_col: 120 }
}

fn pair(key: &str, value: &str) -> (String, String) {
    (key.to_string(), value.to_string())
}

#[test]
fn span_is_written_with_file_lines_and_columns() {
    assert_eq!(span(7).to_text(), "src/main.rs:7:4-8:120");
    let nowhere = IRSpan { file_name: None, start_line: 0, start_col: 10, end_line: 1000, end_col: usize::MAX };
    assert_eq!(nowhere.to_text(), format!("unknown:0:10-1000:{}", usize::MAX));
    assert!(span(1).same(&span(1)));
    assert!(!span(1).same(&span(2)));
    assert!(!span(1).same(&IRSpan { file_name: None, ..span(1) }));
}

#[test]
fn output_format_is_known_by_its_name_in_any_case() {
    assert_eq!(OutputFormatType::from_name("console"), Ok(OutputFormatType::Console));
    assert_eq!(OutputFormatType::from_name("JSON"), Ok(OutputFormatType::Json));
    assert_eq!(OutputFormatType::from_name("Console"), Ok(OutputFormatType::Console));
    assert_eq!(OutputFormatType::from_str("jSoN"), Ok(OutputFormatType::Json));
    assert_eq!(OutputFormatType::from_name("XML"), Err("Unknown output format: XML".to_string()));
    assert_eq!(OutputFormatType::from_str(""), Err("Unknown output format: ".to_string()));
    assert_eq!(OutputFormatType::from_lowered("json", "JSON"), Ok(OutputFormatType::Json));
    assert_eq!(
        OutputFormatType::from_lowered("JSON", "JSON"),
        Err("Unknown output format: JSON".to_string())
    );
}

#[test]
fn success_is_one_coloured_line() {
    let result = AnalysisResult {
        package_name: "tool".to_string(),
        package_version: "1.2.3".to_string(),
        result: PackageAnalysisResult::Success,
    };
    assert_eq!(
        result.to_console(),
        "\x1b[32mNo problems found\x1b[39m in package \x1b[33mtool\x1b[39m v\x1b[38;5;245m1.2.3\x1b[39m"
    );
    assert_eq!(ProgramOutput::AnalysisResult(result).to_console().len(), 76);
}

fn report() -> AnalysisProblem {
    AnalysisProblem {
        description: "reads the environment".to_string(),
        problematic_function: "main".to_string(),
        problematic_function_loc: span(1),
        taint_source: "std::env::var".to_string(),
        taint_source_loc: span(3),
        detailed: TaintProblemOwned {
            taint_source_description: "reads the environment".to_string(),
            source_func_sig: "std::env::var".to_string(),
            source_span: span(3),
            problem_type: TaintProblemType::Used {
                statement_chain: Vec::new(),
                used_in: span(3),
                usage_type: TaintUsageType::Copied,
            },
        },
    }
}

fn report_text() -> String {
    [
        "\x1b[1m\x1b[31mSanitizing problem\x1b[39m\x1b[0m found in \x1b[33mtool\x1b[39m:\x1b[33m\x1b[3mmain\x1b[0m\x1b[39m \x1b[38;5;245msrc/main.rs:1:4-2:120\x1b[39m\n",
        " \x1b[1m|\x1b[0m Usage of \x1b[34m\x1b[1mstd::env::var\x1b[0m\x1b[39m at \x1b[38;5;245msrc/main.rs:3:4-4:120\x1b[39m\n",
        " \x1b[1m|\x1b[0m without wrapping the result as \x1b[32m\x1b[1mUntrustedValue\x1b[0m\x1b[39m is discouraged\n",
        " \x1b[1m|\x1b[0m \x1b[3m>\x1b[0m \x1b[3mreads the environment\x1b[0m\n",
        " \x1b[1m|\x1b[0m Make sure to wrap the result like this \x1b[32m\x1b[1mUntrustedValue::from(\x1b[0m\x1b[39m\x1b[34m\x1b[1mstd::env::var\x1b[0m\x1b[39m(...)\x1b[32m\x1b[1m)\x1b[0m\x1b[39m\n\n",
    ]
    .concat()
}

#[test]
fn failure_is_five_lines_and_an_empty_one_for_every_problem() {
    let result = AnalysisResult {
        package_name: "tool".to_string(),
        package_version: "1.2.3".to_string(),
        result: PackageAnalysisResult::Failure(vec![report(), report()]),
    };
    assert_eq!(result.to_console(), format!("{}{}", report_text(), report_text()));
    let none = AnalysisResult {
        package_name: "tool".to_string(),
        package_version: "1.2.3".to_string(),
        result: PackageAnalysisResult::Failure(Vec::new()),
    };
    assert_eq!(none.to_console(), "");
}

#[test]
fn taint_source_list_names_the_group_and_lists_its_sources() {
    let list = TaintSourceDefinitionOwned {
        taint_module_name: "env".to_string(),
        taint_module_description: "environment".to_string(),
        sources: vec![
            TaintSourceOwned {
                functions: vec!["std::env::var".to_string(), "std::env::vars".to_string()],
                description: "variables".to_string(),
            },
            TaintSourceOwned { functions: Vec::new(), description: "nothing".to_string() },
        ],
    };
    let expected = [
        "Taint sources module \x1b[32m\x1b[1menv\x1b[0m\x1b[39m:\n",
        " \x1b[1m|\x1b[0m \x1b[34m\x1b[3m> environment\x1b[0m\x1b[39m\n",
        " \x1b[1m|\x1b[0m \x1b[34m\x1b[3m> variables\x1b[0m\x1b[39m\n",
        " \x1b[1m|\x1b[0m - \x1b[33m\x1b[3mstd::env::var\x1b[0m\x1b[39m\n",
        " \x1b[1m|\x1b[0m - \x1b[33m\x1b[3mstd::env::vars\x1b[0m\x1b[39m\n",
        " \x1b[1m|\x1b[0m \x1b[34m\x1b[3m> nothing\x1b[0m\x1b[39m\n",
    ]
    .concat();
    assert_eq!(list.to_console(), expected);
    assert_eq!(ProgramOutput::TaintSourceList(list).to_console(), expected);
    assert_eq!(ProgramOutput::Message("Compiling 1/2".to_string()).to_console(), "Compiling 1/2");
}

#[test]
fn summary_reports_every_problem_of_every_function() {
    let source = TaintSource { functions: vec!["std::env::var"], description: "reads the environment" };
    let problem = |line: usize| TaintProblem {
        taint_source: &source,
        source_func_sig: "std::env::var".to_string(),
        source_span: span(line),
        problem_type: TaintProblemType::Used {
            statement_chain: Vec::new(),
            used_in: span(line),
            usage_type: TaintUsageType::Copied,
        },
    };
    let functions = vec![
        FunctionProblems {
            function: FunctionInfo { function_name: "clean".to_string(), span: span(10) },
            problems: Vec::new(),
        },
        FunctionProblems {
            function: FunctionInfo { function_name: "main".to_string(), span: span(1) },
            problems: vec![problem(3), problem(5)],
        },
        FunctionProblems {
            function: FunctionInfo { function_name: "other".to_string(), span: span(20) },
            problems: vec![problem(21)],
        },
    ];
    let result = summarize("tool".to_string(), "1.2.3".to_string(), functions);
    assert_eq!(result.package_name, "tool");
    assert_eq!(result.package_version, "1.2.3");
    let second = AnalysisProblem {
        taint_source_loc: span(5),
        detailed: TaintProblemOwned {
            source_span: span(5),
            problem_type: TaintProblemType::Used {
                statement_chain: Vec::new(),
                used_in: span(5),
                usage_type: TaintUsageType::Copied,
            },
            ..report().detailed
        },
        ..report()
    };
    let third = AnalysisProblem {
        problematic_function: "other".to_string(),
        problematic_function_loc: span(20),
        taint_source_loc: span(21),
        detailed: TaintProblemOwned {
            source_span: span(21),
            problem_type: TaintProblemType::Used {
                statement_chain: Vec::new(),
                used_in: span(21),
                usage_type: TaintUsageType::Copied,
            },
            ..report().detailed
        },
        ..report()
    };
    assert_eq!(result.result, PackageAnalysisResult::Failure(vec![report(), second, third]));
}

#[test]
fn summary_of_functions_without_problems_is_a_success() {
    let functions: Vec<FunctionProblems> = vec![FunctionProblems {
        function: FunctionInfo { function_name: "clean".to_string(), span: span(10) },
        problems: Vec::new(),
    }];
    assert_eq!(
        summarize("tool".to_string(), "1.0.0".to_string(), functions).result,
        PackageAnalysisResult::Success
    );
    assert_eq!(
        summarize("tool".to_string(), "1.0.0".to_string(), Vec::new()).result,
        PackageAnalysisResult::Success
    );
}

#[test]
fn owned_problem_keeps_every_field() {
    let source = TaintSource { functions: vec!["f"], description: "why" };
    let problem = TaintProblem {
        taint_source: &source,
        source_func_sig: "f".to_string(),
        source_span: span(1),
        problem_type: TaintProblemType::DataDependencyLoop {
            statement_chain: vec![span(2), span(3)],
            loop_closure: span(4),
        },
    };
    let copy = problem.clone();
    assert_eq!(
        problem.into_owned(),
        TaintProblemOwned {
            taint_source_description: "why".to_string(),
            source_func_sig: "f".to_string(),
            source_span: span(1),
            problem_type: TaintProblemType::DataDependencyLoop {
                statement_chain: vec![span(2), span(3)],
                loop_closure: span(4),
            },
        }
    );
    assert_eq!(copy.into_owned().clone().source_span, span(1));
}

#[test]
fn nodes_and_edges_are_named_for_the_drawing() {
    let ty = TypeInfo { name: "fn(&str) {std::env::var}".to_string(), kind: TypeKind::Other };
    assert_eq!(name_of_node(&DependencyGraphNode::Local { dst: 1204, ty: ty.clone() }), "1204");
    assert_eq!(name_of_node(&DependencyGraphNode::Local { dst: 0, ty: ty.clone() }), "0");
    assert_eq!(
        name_of_node(&DependencyGraphNode::FunctionCall { function: ty, span: span(1) }),
        "Call: fn(&str) {std::env::var}"
    );
    assert_eq!(name_of_node(&DependencyGraphNode::ReturnedToCaller), "Return");
    assert_eq!(name_of_node(&DependencyGraphNode::FunctionInput), "Input");
    assert_eq!(name_of_node(&DependencyGraphNode::Assembly { spans: Vec::new() }), "Assembly");
    assert_eq!(name_of_node(&DependencyGraphNode::ControlFlow), "ControlFlow");
    let edge = |flows: &[EdgeDataFlowType]| GraphEdge {
        instances: flows.iter().map(|f| EdgeInstance { span: span(1), data_flow_type: *f }).collect(),
    };
    assert_eq!(label_of_edge(&edge(&[EdgeDataFlowType::Move, EdgeDataFlowType::Move])), "Move");
    assert_eq!(label_of_edge(&edge(&[EdgeDataFlowType::Used])), "Used");
    assert_eq!(label_of_edge(&edge(&[EdgeDataFlowType::Used, EdgeDataFlowType::Move, EdgeDataFlowType::Used])), "Move, Used");
    assert_eq!(label_of_edge(&edge(&[])), "");
}

#[test]
fn drawing_shows_every_node_and_edge_with_its_marking() {
    let text = TypeInfo { name: "String".to_string(), kind: TypeKind::Other };
    let wrapper = TypeInfo {
        name: "UntrustedValue<String>".to_string(),
        kind: TypeKind::Adt { path: "untrusted_value::UntrustedValue".to_string() },
    };
    let read = DependencyGraphNode::FunctionCall {
        function: TypeInfo {
            name: "fn(\"x\\y\") {read}".to_string(),
            kind: TypeKind::FnDef { path: "read".to_string(), generics: Vec::new() },
        },
        span: span(1),
    };
    let mut graph = DependencyGraph::new();
    graph.add_data_dependency_edge(read, DependencyGraphNode::Local { dst: 11, ty: text.clone() }, span(1), EdgeDataFlowType::Move);
    graph.add_data_dependency_edge(
        DependencyGraphNode::Local { dst: 11, ty: text.clone() },
        DependencyGraphNode::Local { dst: 12, ty: wrapper.clone() },
        span(2),
        EdgeDataFlowType::Move,
    );
    graph.add_data_dependency_edge(
        DependencyGraphNode::Local { dst: 12, ty: wrapper },
        DependencyGraphNode::Local { dst: 13, ty: text.clone() },
        span(3),
        EdgeDataFlowType::Used,
    );
    graph.add_data_dependency_edge(
        DependencyGraphNode::Local { dst: 14, ty: text.clone() },
        DependencyGraphNode::Local { dst: 12, ty: TypeInfo { name: "UntrustedValue<String>".to_string(), kind: TypeKind::Adt { path: "untrusted_value::UntrustedValue".to_string() } } },
        span(4),
        EdgeDataFlowType::Used,
    );
    graph.add_data_dependency_edge(
        DependencyGraphNode::Local { dst: 14, ty: text.clone() },
        DependencyGraphNode::Local { dst: 13, ty: text },
        span(5),
        EdgeDataFlowType::Move,
    );
    let sources = vec![TaintSource { functions: vec!["read"], description: "reads" }];
    let result = check_data_flow(graph, &sources, true);
    let node = |id: &str, shape: &str, label: &str, color: Option<&str>| {
        let mut attributes = vec![pair("shape", shape), pair("label", label)];
        if let Some(color) = color {
            attributes.push(pair("color", color));
            attributes.push(pair("style", "filled"));
        }
        DotStatement::Node { id: id.to_string(), attributes }
    };
    let edge = |from: &str, to: &str, label: &str, color: &str| DotStatement::Edge {
        from: from.to_string(),
        to: to.to_string(),
        attributes: vec![pair("label", label), pair("color", color)],
    };
    assert_eq!(
        result.data_dependency_graph,
        Some(DotGraph {
            id: "Dataflowgraph".to_string(),
            strict: false,
            statements: vec![
                node("0", "rectangle", "\"Call: fn(\\\"x\\\\y\\\") {read}\"", Some("red")),
                node("1", "circle", "\"11\"", Some("orange")),
                node("2", "circle", "\"12\"", Some("green")),
                node("3", "circle", "\"13\"", None),
                node("4", "circle", "\"14\"", None),
                edge("0", "1", "Move", "red"),
                edge("1", "2", "Move", "red"),
                edge("2", "3", "Used", "black"),
                edge("4", "2", "Used", "green"),
                edge("4", "3", "Move", "black"),
            ],
        })
    );
    assert_eq!(result.taint_problems.len(), 0);
}
