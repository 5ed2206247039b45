use untrusted_value_taint_checker::analysis::build_plan::BuildInvocation;
use untrusted_value_taint_checker::analysis::build_plan::BuildPlan;
use untrusted_value_taint_checker::analysis::build_plan::CompileMode;
use untrusted_value_taint_checker::analysis::build_plan::TargetKind;
use untrusted_value_taint_checker::cargo::is_link_flag;
use untrusted_value_taint_checker::cargo::replay_build_script;
use untrusted_value_taint_checker::cargo::replay_on_plan;
use untrusted_value_taint_checker::cargo::scan_build_script;
use untrusted_value_taint_checker::cargo::strip_json_from_plan;
use untrusted_value_taint_checker::cargo::BuildScriptCommand;
use untrusted_value_taint_checker::cargo::BuildScriptError;

fn s(text: &str) -> String {
    text.to_string()
}

fn invocation(kind: TargetKind) -> BuildInvocation {
    BuildInvocation {
        package_name: s("tool"),
        package_version: s("0.1.0"),
        target_kind: kind,
        kind: None,
        compile_mode: CompileMode::Build,
        outputs: Vec::new(),
        links: Vec::new(),
        program: s("rustc"),
        args: vec![s("--edition=2021")],
        env: vec![(s("A"), s("1")), (s("B"), s("2"))],
        cwd: None,
    }
}

fn args_after(kind: TargetKind, command: BuildScriptCommand) -> Vec<String> {
    let mut next = invocation(kind);
    command.apply(&mut next);
    assert_eq!(next.env, vec![(s("A"), s("1")), (s("B"), s("2"))]);
    next.args
}

#[test]
fn parse_reads_every_instruction() {
    assert_eq!(
        BuildScriptCommand::parse("cargo:rustc-link-arg=-s"),
        Some(Ok(BuildScriptCommand::LinkArg(s("-s"))))
    );
    assert_eq!(
        BuildScriptCommand::parse("cargo:rustc-link-arg-bin=tool=-Wl,x=y"),
        Some(Ok(BuildScriptCommand::LinkArgBin(s("tool"), s("-Wl,x=y"))))
    );
    assert_eq!(
        BuildScriptCommand::parse("cargo:rustc-link-arg-bins=-s"),
        Some(Ok(BuildScriptCommand::LinkArgBins(s("-s"))))
    );
    assert_eq!(
        BuildScriptCommand::parse("cargo:rustc-link-lib=static=z"),
        Some(Ok(BuildScriptCommand::LinkLib(s("static=z"))))
    );
    assert_eq!(
        BuildScriptCommand::parse("cargo:rustc-link-search=native=/usr/lib=x"),
        Some(Ok(BuildScriptCommand::LinkSearch(Some(s("native")), s("/usr/lib=x"))))
    );
    assert_eq!(
        BuildScriptCommand::parse("cargo:rustc-link-search=/usr/lib"),
        Some(Ok(BuildScriptCommand::LinkSearch(None, s("/usr/lib"))))
    );
    assert_eq!(
        BuildScriptCommand::parse("cargo:rustc-flags=-l z -L /lib"),
        Some(Ok(BuildScriptCommand::Flags(s("-l z -L /lib"))))
    );
    assert_eq!(
        BuildScriptCommand::parse("cargo:rustc-cfg=feature=\"a=b\""),
        Some(Ok(BuildScriptCommand::Cfg(s("feature"), Some(s("\"a=b\"")))))
    );
    assert_eq!(
        BuildScriptCommand::parse("cargo:rustc-cfg=unix"),
        Some(Ok(BuildScriptCommand::Cfg(s("unix"), None)))
    );
    assert_eq!(
        BuildScriptCommand::parse("cargo:rustc-env=KEY=a=b"),
        Some(Ok(BuildScriptCommand::Env(s("KEY"), s("a=b"))))
    );
    assert_eq!(
        BuildScriptCommand::parse("cargo:rustc-env=KEY="),
        Some(Ok(BuildScriptCommand::Env(s("KEY"), s(""))))
    );
    assert_eq!(
        BuildScriptCommand::parse("cargo:rustc-cdylib-link-arg=-s"),
        Some(Ok(BuildScriptCommand::CdylibLinkArg(s("-s"))))
    );
    assert_eq!(
        BuildScriptCommand::parse("cargo:rerun-if-changed=build.rs"),
        Some(Ok(BuildScriptCommand::RerunIfChanged(s("build.rs"))))
    );
    assert_eq!(
        BuildScriptCommand::parse("cargo:rustc-check-cfg=cfg(x)"),
        Some(Ok(BuildScriptCommand::RustcCheckCfg(s("cfg(x)"))))
    );
    assert_eq!(
        BuildScriptCommand::parse("cargo:rustc-link-arg="),
        Some(Ok(BuildScriptCommand::LinkArg(s(""))))
    );
}

#[test]
fn parse_gives_the_first_way_of_the_list_that_applies() {
    assert_eq!(
        BuildScriptCommand::parse("cargo:rustc-link-arg=tests=-s"),
        Some(Ok(BuildScriptCommand::LinkArg(s("tests=-s"))))
    );
    assert_eq!(
        BuildScriptCommand::parse("cargo:rustc-link-arg=examples=-s"),
        Some(Ok(BuildScriptCommand::LinkArg(s("examples=-s"))))
    );
    assert_eq!(
        BuildScriptCommand::parse("cargo:rustc-link-arg=benches=-s"),
        Some(Ok(BuildScriptCommand::LinkArg(s("benches=-s"))))
    );
}

#[test]
fn parse_refuses_malformed_lines_and_knows_no_other() {
    assert_eq!(
        BuildScriptCommand::parse("cargo:rustc-link-arg-bin=tool"),
        Some(Err(BuildScriptError::LinkArgNotProperlyFormatted))
    );
    assert_eq!(
        BuildScriptCommand::parse("cargo:rustc-env=KEY"),
        Some(Err(BuildScriptError::EnvNotProperlyFormatted))
    );
    assert_eq!(BuildScriptError::LinkArgNotProperlyFormatted.message(), "Link arg not properly formatted");
    assert_eq!(BuildScriptError::EnvNotProperlyFormatted.message(), "Env not properly formatted");
    assert_eq!(BuildScriptCommand::parse("cargo:warning=hello"), None);
    assert_eq!(BuildScriptCommand::parse(""), None);
    assert_eq!(BuildScriptCommand::parse("cargo:rustc-link-arg"), None);
    assert_eq!(BuildScriptCommand::parse(" cargo:rustc-link-arg=x"), None);
    assert_eq!(BuildScriptCommand::parse("Cargo:rustc-cfg=x"), None);
}

#[test]
fn link_arguments_go_to_the_targets_they_are_for() {
    let link = || vec![s("--edition=2021"), s("-C"), s("link-arg=-s")];
    let plain = || vec![s("--edition=2021")];
    assert_eq!(args_after(TargetKind::Bin, BuildScriptCommand::LinkArg(s("-s"))), link());
    assert_eq!(args_after(TargetKind::Test, BuildScriptCommand::LinkArg(s("-s"))), link());
    assert_eq!(args_after(TargetKind::Bench, BuildScriptCommand::LinkArg(s("-s"))), link());
    assert_eq!(args_after(TargetKind::ExampleBin, BuildScriptCommand::LinkArg(s("-s"))), link());
    assert_eq!(args_after(TargetKind::Lib(vec![s("rlib"), s("cdylib")]), BuildScriptCommand::LinkArg(s("-s"))), link());
    assert_eq!(args_after(TargetKind::Lib(vec![s("rlib")]), BuildScriptCommand::LinkArg(s("-s"))), plain());
    assert_eq!(args_after(TargetKind::ExampleLib(vec![s("cdylib")]), BuildScriptCommand::LinkArg(s("-s"))), plain());
    assert_eq!(args_after(TargetKind::CustomBuild, BuildScriptCommand::LinkArg(s("-s"))), plain());

    assert_eq!(args_after(TargetKind::Bin, BuildScriptCommand::LinkArgBin(s("tool"), s("-s"))), link());
    assert_eq!(args_after(TargetKind::Bin, BuildScriptCommand::LinkArgBin(s("other"), s("-s"))), plain());
    assert_eq!(args_after(TargetKind::Test, BuildScriptCommand::LinkArgBin(s("tool"), s("-s"))), plain());
    assert_eq!(args_after(TargetKind::Bin, BuildScriptCommand::LinkArgBins(s("-s"))), link());
    assert_eq!(args_after(TargetKind::Bench, BuildScriptCommand::LinkArgBins(s("-s"))), plain());
    assert_eq!(args_after(TargetKind::Test, BuildScriptCommand::LinkArgTests(s("-s"))), link());
    assert_eq!(args_after(TargetKind::Bin, BuildScriptCommand::LinkArgTests(s("-s"))), plain());
    assert_eq!(args_after(TargetKind::ExampleBin, BuildScriptCommand::LinkArgExamples(s("-s"))), link());
    assert_eq!(args_after(TargetKind::ExampleLib(Vec::new()), BuildScriptCommand::LinkArgExamples(s("-s"))), link());
    assert_eq!(args_after(TargetKind::Lib(Vec::new()), BuildScriptCommand::LinkArgExamples(s("-s"))), plain());
    assert_eq!(args_after(TargetKind::Bench, BuildScriptCommand::LinkArgBenches(s("-s"))), link());
    assert_eq!(args_after(TargetKind::Test, BuildScriptCommand::LinkArgBenches(s("-s"))), plain());
    assert_eq!(args_after(TargetKind::Lib(vec![s("cdylib")]), BuildScriptCommand::CdylibLinkArg(s("-s"))), link());
    assert_eq!(args_after(TargetKind::Bin, BuildScriptCommand::CdylibLinkArg(s("-s"))), plain());
    assert_eq!(
        args_after(TargetKind::Lib(Vec::new()), BuildScriptCommand::LinkLib(s("z"))),
        vec![s("--edition=2021"), s("-l"), s("z")]
    );
    assert_eq!(args_after(TargetKind::Bin, BuildScriptCommand::LinkLib(s("z"))), plain());
}

#[test]
fn search_paths_configuration_and_flags_go_to_every_target() {
    assert_eq!(
        args_after(TargetKind::CustomBuild, BuildScriptCommand::LinkSearch(Some(s("native")), s("/lib"))),
        vec![s("--edition=2021"), s("-L"), s("native=/lib")]
    );
    assert_eq!(
        args_after(TargetKind::Bin, BuildScriptCommand::LinkSearch(None, s("/lib"))),
        vec![s("--edition=2021"), s("-L"), s("/lib")]
    );
    assert_eq!(
        args_after(TargetKind::Bin, BuildScriptCommand::Cfg(s("feature"), Some(s("\"x\"")))),
        vec![s("--edition=2021"), s("--cfg"), s("feature=\"x\"")]
    );
    assert_eq!(
        args_after(TargetKind::Bin, BuildScriptCommand::Cfg(s("unix"), None)),
        vec![s("--edition=2021"), s("--cfg"), s("unix")]
    );
    assert_eq!(
        args_after(TargetKind::Bin, BuildScriptCommand::Flags(s("-lz  -L/lib --cfg x -Lother -l"))),
        vec![s("--edition=2021"), s("-lz"), s("-L/lib"), s("-Lother"), s("-l")]
    );
    assert_eq!(args_after(TargetKind::Bin, BuildScriptCommand::Flags(s(""))), vec![s("--edition=2021")]);
    assert_eq!(args_after(TargetKind::Bin, BuildScriptCommand::Flags(s("-l"))), vec![s("--edition=2021"), s("-l")]);
    assert_eq!(
        args_after(TargetKind::Bin, BuildScriptCommand::RerunIfChanged(s("build.rs"))),
        vec![s("--edition=2021")]
    );
    assert_eq!(
        args_after(TargetKind::Bin, BuildScriptCommand::RustcCheckCfg(s("cfg(x)"))),
        vec![s("--edition=2021")]
    );
}

#[test]
fn a_variable_is_replaced_where_it_is_set_and_added_where_it_is_not() {
    let mut next = invocation(TargetKind::Bin);
    BuildScriptCommand::Env(s("B"), s("3")).apply(&mut next);
    assert_eq!(next.env, vec![(s("A"), s("1")), (s("B"), s("3"))]);
    BuildScriptCommand::Env(s("C"), s("4")).apply(&mut next);
    assert_eq!(next.env, vec![(s("A"), s("1")), (s("B"), s("3")), (s("C"), s("4"))]);
    assert_eq!(next.args, vec![s("--edition=2021")]);
    assert_eq!(next.package_name, "tool");
    assert_eq!(next.program, "rustc");
}

#[test]
fn is_cdylib_holds_of_libraries_with_that_crate_type_only() {
    assert!(TargetKind::Lib(vec![s("lib"), s("cdylib")]).is_cdylib());
    assert!(!TargetKind::Lib(vec![s("lib")]).is_cdylib());
    assert!(!TargetKind::Lib(Vec::new()).is_cdylib());
    assert!(!TargetKind::ExampleLib(vec![s("cdylib")]).is_cdylib());
    assert!(!TargetKind::Bin.is_cdylib());
}

#[test]
fn replay_hands_on_every_line_until_one_is_refused() {
    let lines = vec![
        s("cargo:rustc-cfg=fast"),
        s("hello"),
        s("cargo:rustc-env=A=9"),
        s("cargo:warning=x"),
        s("cargo:rustc-env=BROKEN"),
        s("cargo:rustc-cfg=never"),
        s("also unknown"),
    ];
    let mut next = invocation(TargetKind::Bin);
    let replay = replay_build_script(&lines, &mut next);
    assert_eq!(replay.unknown, vec![1, 3]);
    assert_eq!(replay.error, Some(BuildScriptError::EnvNotProperlyFormatted));
    assert_eq!(next.args, vec![s("--edition=2021"), s("--cfg"), s("fast")]);
    assert_eq!(next.env, vec![(s("A"), s("9")), (s("B"), s("2"))]);

    let mut next = invocation(TargetKind::Bin);
    let replay = replay_build_script(&Vec::new(), &mut next);
    assert_eq!(replay.unknown, Vec::<usize>::new());
    assert_eq!(replay.error, None);
    assert_eq!(next, invocation(TargetKind::Bin));
}

#[test]
fn target_kind_is_read_from_the_names_of_a_build_plan() {
    assert_eq!(TargetKind::from_names(vec![s("bin")]), TargetKind::Bin);
    assert_eq!(TargetKind::from_names(vec![s("example")]), TargetKind::ExampleBin);
    assert_eq!(TargetKind::from_names(vec![s("test")]), TargetKind::Test);
    assert_eq!(TargetKind::from_names(vec![s("bench")]), TargetKind::Bench);
    assert_eq!(TargetKind::from_names(vec![s("custom-build")]), TargetKind::CustomBuild);
    assert_eq!(TargetKind::from_names(vec![s("lib")]), TargetKind::Lib(vec![s("lib")]));
    assert_eq!(
        TargetKind::from_names(vec![s("bin"), s("cdylib")]),
        TargetKind::Lib(vec![s("bin"), s("cdylib")])
    );
    assert_eq!(TargetKind::from_names(Vec::new()), TargetKind::Lib(Vec::new()));
}

#[test]
fn link_flags_are_known_by_their_start() {
    assert!(is_link_flag("-l"));
    assert!(is_link_flag("-lz"));
    assert!(!is_link_flag("-L"));
    assert!(!is_link_flag("l"));
    assert!(!is_link_flag(""));
    assert!(!is_link_flag(" -l"));
}

#[test]
fn scan_reads_the_lines_where_no_invocation_follows() {
    let lines = vec![s("x"), s("cargo:rustc-cfg=a"), s("cargo:rustc-link-arg-bin=broken"), s("y")];
    let scan = scan_build_script(&lines);
    assert_eq!(scan.unknown, vec![0]);
    assert_eq!(scan.error, Some(BuildScriptError::LinkArgNotProperlyFormatted));
    let scan = scan_build_script(&vec![s("x"), s("cargo:rustc-cfg=a"), s("y")]);
    assert_eq!(scan.unknown, vec![0, 2]);
    assert_eq!(scan.error, None);
}

#[test]
fn replay_on_a_plan_changes_the_invocation_after_the_script_only() {
    let plan = || BuildPlan {
        invocations: vec![
            invocation(TargetKind::CustomBuild),
            invocation(TargetKind::Bin),
            invocation(TargetKind::Test),
        ],
        inputs: vec![s("Cargo.toml")],
    };
    let lines = vec![s("cargo:rustc-link-arg-bins=-s"), s("cargo:rustc-env=C=3"), s("noise")];

    let mut replayed = plan();
    let replay = replay_on_plan(&lines, &mut replayed, 0);
    assert_eq!(replay.unknown, vec![2]);
    assert_eq!(replay.error, None);
    let mut expected = plan();
    expected.invocations[1].args = vec![s("--edition=2021"), s("-C"), s("link-arg=-s")];
    expected.invocations[1].env = vec![(s("A"), s("1")), (s("B"), s("2")), (s("C"), s("3"))];
    assert_eq!(replayed, expected);

    let mut replayed = plan();
    let replay = replay_on_plan(&lines, &mut replayed, 1);
    assert_eq!(replay.unknown, vec![2]);
    let mut expected = plan();
    expected.invocations[2].env = vec![(s("A"), s("1")), (s("B"), s("2")), (s("C"), s("3"))];
    assert_eq!(replayed, expected);

    for script in [2, 3, usize::MAX] {
        let mut replayed = plan();
        let replay = replay_on_plan(&lines, &mut replayed, script);
        assert_eq!(replay.unknown, vec![2]);
        assert_eq!(replay.error, None);
        assert_eq!(replayed, plan());
    }
}

#[test]
fn json_arguments_leave_the_invocations_that_compile() {
    let mut script = invocation(TargetKind::CustomBuild);
    script.compile_mode = CompileMode::RunCustomBuild;
    script.args = vec![s("--json=x"), s("run")];
    let mut build = invocation(TargetKind::Bin);
    build.args = vec![s("--json=diagnostic-rendered-ansi"), s("-O"), s("--json=artifacts")];
    let mut plan = BuildPlan { invocations: vec![script, build], inputs: Vec::new() };
    strip_json_from_plan(&mut plan);
    assert_eq!(plan.invocations[0].args, vec![s("--json=x"), s("run")]);
    assert_eq!(plan.invocations[1].args, vec![s("-O")]);
    assert_eq!(plan.invocations[1].env, vec![(s("A"), s("1")), (s("B"), s("2"))]);
    assert_eq!(plan.invocations[1].package_name, "tool");
}
