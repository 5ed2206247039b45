use untrusted_value_taint_checker::analysis::taint_source::collect_sources;
use untrusted_value_taint_checker::analysis::taint_source::get_taint_sources_definitions;
use untrusted_value_taint_checker::analysis::taint_source::load_taint_module;
use untrusted_value_taint_checker::analysis::taint_source::select_taint_sources;
use untrusted_value_taint_checker::analysis::taint_source::TaintModuleJson;
use untrusted_value_taint_checker::analysis::taint_source::TaintModuleLibraryJson;
use untrusted_value_taint_checker::analysis::taint_source::TaintSource;
use untrusted_value_taint_checker::analysis::taint_source::TaintSourceDefinition;
use untrusted_value_taint_checker::analysis::taint_source::TaintSourceDefinitionOwned;
use untrusted_value_taint_checker::analysis::taint_source::TaintSourceError;
use untrusted_value_taint_checker::analysis::taint_source::TaintSourceJson;
use untrusted_value_taint_checker::analysis::taint_source::TaintSourceOwned;

fn definitions() -> Vec<TaintSourceDefinition<'static>> {
    vec![
        TaintSourceDefinition {
            taint_module_name: "env",
            taint_module_description: "environment",
            sources: vec![
                TaintSource { functions: vec!["std::env::var", "std::env::vars"], description: "variables" },
                TaintSource { functions: vec!["std::env::args"], description: "arguments" },
            ],
        },
        TaintSourceDefinition {
            taint_module_name: "fs",
            taint_module_description: "files",
            sources: vec![
                TaintSource { functions: vec!["std::fs::read"], description: "content" },
                TaintSource { functions: vec!["std::env::args"], description: "arguments" },
            ],
        },
    ]
}

fn prefixes(list: &[&str]) -> Vec<String> {
    list.iter().map(|s| s.to_string()).collect()
}

#[test]
fn built_in_catalog_names_environment_and_files() {
    let catalog = get_taint_sources_definitions();
    assert_eq!(catalog.len(), 2);
    assert_eq!(catalog[0].taint_module_name, "env");
    assert_eq!(catalog[0].taint_module_description, "Values that the environment of the process hands in");
    assert_eq!(
        catalog[0].sources,
        vec![
            TaintSource {
                functions: vec!["std::env::var", "std::env::var_os", "std::env::vars", "std::env::vars_os"],
                description: "Environment variables are set by whoever starts the process",
            },
            TaintSource {
                functions: vec!["std::env::args", "std::env::args_os"],
                description: "Command line arguments are set by whoever starts the process",
            },
        ]
    );
    assert_eq!(catalog[1].taint_module_name, "fs");
    assert_eq!(catalog[1].taint_module_description, "Values that are read from the file system");
    assert_eq!(
        catalog[1].sources,
        vec![TaintSource {
            functions: vec!["std::fs::File::open", "std::fs::read", "std::fs::read_to_string"],
            description: "The content of a file may come from an untrusted party",
        }]
    );
}

#[test]
fn without_prefixes_every_source_is_in_use() {
    let selected = select_taint_sources(&definitions(), &Vec::new()).unwrap();
    assert_eq!(
        selected,
        vec![
            TaintSource { functions: vec!["std::env::var", "std::env::vars"], description: "variables" },
            TaintSource { functions: vec!["std::env::args"], description: "arguments" },
            TaintSource { functions: vec!["std::fs::read"], description: "content" },
            TaintSource { functions: vec!["std::env::args"], description: "arguments" },
        ]
    );
    assert_eq!(collect_sources(&definitions()), selected);
}

#[test]
fn a_prefix_selects_the_sources_that_name_a_function_with_it_each_once() {
    let selected = select_taint_sources(&definitions(), &prefixes(&["std::env::a"])).unwrap();
    assert_eq!(selected, vec![TaintSource { functions: vec!["std::env::args"], description: "arguments" }]);
    let selected = select_taint_sources(&definitions(), &prefixes(&["std::env::vars"])).unwrap();
    assert_eq!(
        selected,
        vec![TaintSource { functions: vec!["std::env::var", "std::env::vars"], description: "variables" }]
    );
}

#[test]
fn several_prefixes_filter_the_catalog_in_its_order_each_source_once() {
    let selected = select_taint_sources(&definitions(), &prefixes(&["std::fs", "std::env::args", "std::"])).unwrap();
    assert_eq!(
        selected,
        vec![
            TaintSource { functions: vec!["std::env::var", "std::env::vars"], description: "variables" },
            TaintSource { functions: vec!["std::env::args"], description: "arguments" },
            TaintSource { functions: vec!["std::fs::read"], description: "content" },
        ]
    );
    let selected = select_taint_sources(&definitions(), &prefixes(&["std::fs", "std::env::v"])).unwrap();
    assert_eq!(
        selected,
        vec![
            TaintSource { functions: vec!["std::env::var", "std::env::vars"], description: "variables" },
            TaintSource { functions: vec!["std::fs::read"], description: "content" },
        ]
    );
    let selected = select_taint_sources(&definitions(), &prefixes(&["std::env::var", "std::env::vars", "tokio"])).unwrap();
    assert_eq!(
        selected,
        vec![TaintSource { functions: vec!["std::env::var", "std::env::vars"], description: "variables" }]
    );
}

#[test]
fn a_selection_without_sources_is_refused() {
    assert_eq!(
        select_taint_sources(&definitions(), &prefixes(&["tokio::"])),
        Err(TaintSourceError::NoTaintSources)
    );
    assert_eq!(select_taint_sources(&Vec::new(), &Vec::new()), Err(TaintSourceError::NoTaintSources));
    let only_empty = vec![TaintSourceDefinition {
        taint_module_name: "none",
        taint_module_description: "none",
        sources: Vec::new(),
    }];
    assert_eq!(select_taint_sources(&only_empty, &Vec::new()), Err(TaintSourceError::NoTaintSources));
    assert_eq!(TaintSourceError::NoTaintSources.message(), "No taint sources found");
}

#[test]
fn the_empty_prefix_selects_every_source_that_names_a_function() {
    let with_nameless = vec![TaintSourceDefinition {
        taint_module_name: "m",
        taint_module_description: "d",
        sources: vec![
            TaintSource { functions: Vec::new(), description: "nameless" },
            TaintSource { functions: vec!["f"], description: "named" },
        ],
    }];
    let selected = select_taint_sources(&with_nameless, &prefixes(&[""])).unwrap();
    assert_eq!(selected, vec![TaintSource { functions: vec!["f"], description: "named" }]);
}

#[test]
fn names_function_and_names_prefix() {
    let source = TaintSource { functions: vec!["std::env::var", "std::fs::read"], description: "d" };
    assert!(source.names_function("std::fs::read"));
    assert!(!source.names_function("std::fs"));
    assert!(!source.names_function("std::fs::read_to_string"));
    assert!(source.names_prefix("std::fs"));
    assert!(source.names_prefix("std::env::var"));
    assert!(!source.names_prefix("std::env::vars"));
    assert!(source.names_some_prefix(&prefixes(&["tokio", "std::fs::r"])));
    assert!(!source.names_some_prefix(&prefixes(&["tokio", "std::fs::w"])));
    assert!(!source.names_some_prefix(&Vec::new()));
    assert!(source.same(&TaintSource { functions: vec!["std::env::var", "std::fs::read"], description: "d" }));
    assert!(!source.same(&TaintSource { functions: vec!["std::env::var"], description: "d" }));
    assert!(!source.same(&TaintSource { functions: vec!["std::env::var", "std::fs::read"], description: "e" }));
    assert!(!source.same(&TaintSource { functions: vec!["std::env::var", "std::fs::write"], description: "d" }));
}

#[test]
fn loading_a_catalog_file_qualifies_the_functions_with_the_prefix_of_their_library() {
    let module = TaintModuleJson {
        taint_module_name: "std".to_string(),
        description: "standard library".to_string(),
        content: vec![
            TaintModuleLibraryJson {
                module_prefix: "std::env".to_string(),
                taint_sources: vec![
                    TaintSourceJson { functions: vec!["var".to_string(), "vars".to_string()], description: "variables".to_string() },
                    TaintSourceJson { functions: Vec::new(), description: "nothing".to_string() },
                ],
            },
            TaintModuleLibraryJson {
                module_prefix: "".to_string(),
                taint_sources: vec![TaintSourceJson { functions: vec!["main".to_string()], description: "entry".to_string() }],
            },
            TaintModuleLibraryJson { module_prefix: "unused".to_string(), taint_sources: Vec::new() },
        ],
    };
    let loaded = load_taint_module(&module);
    assert_eq!(
        loaded,
        TaintSourceDefinitionOwned {
            taint_module_name: "std".to_string(),
            taint_module_description: "standard library".to_string(),
            sources: vec![
                TaintSourceOwned {
                    functions: vec!["std::env::var".to_string(), "std::env::vars".to_string()],
                    description: "variables".to_string(),
                },
                TaintSourceOwned { functions: Vec::new(), description: "nothing".to_string() },
                TaintSourceOwned { functions: vec!["main".to_string()], description: "entry".to_string() },
            ],
        }
    );
    let borrowed = loaded.as_definition();
    assert_eq!(borrowed.taint_module_name, "std");
    assert_eq!(borrowed.sources[0], TaintSource { functions: vec!["std::env::var", "std::env::vars"], description: "variables" });
    assert_eq!(TaintSourceDefinitionOwned::from_definition(&borrowed), loaded);
    assert_eq!(TaintSourceOwned::from_source(&borrowed.sources[2]), loaded.sources[2]);
    assert_eq!(loaded.sources[2].as_source(), borrowed.sources[2]);
}
