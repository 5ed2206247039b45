//! What the checker reports: the verdict on a package with its problems, and
//! its text for a terminal.

use vstd::prelude::*;
use vstd::string::StringExecFns;
use crate::analysis::taint_problem::TaintProblem;
use crate::analysis::taint_problem::TaintProblemModel;
use crate::analysis::taint_problem::TaintProblemOwned;
use crate::analysis::taint_problem::owned_model;
use crate::analysis::taint_source::DefinitionModel;
use crate::analysis::taint_source::TaintSourceDefinitionOwned;
use crate::analysis::taint_source::TaintSourceModel;
use crate::analysis::taint_source::TaintSourceOwned;
use crate::span::IRSpan;
use crate::span::span_text;
use crate::text::blue;
use crate::text::blue_text;
use crate::text::bold;
use crate::text::bold_text;
use crate::text::green;
use crate::text::green_text;
use crate::text::italic;
use crate::text::italic_text;
use crate::text::light_gray;
use crate::text::light_gray_text;
use crate::text::lowercase_text;
use crate::text::red;
use crate::text::red_text;
use crate::text::str_eq;
use crate::text::str_to_lowercase;
use crate::text::yellow;
use crate::text::yellow_text;

verus! {

/// A function that was analysed: its name and where it is declared.
#[derive(Debug, PartialEq, Eq)]
pub struct FunctionInfo {
    pub function_name: String,
    pub span: IRSpan,
}

/// The problems that were found in one function.
#[derive(Debug)]
pub struct FunctionProblems<'tsrc> {
    pub function: FunctionInfo,
    pub problems: Vec<TaintProblem<'tsrc>>,
}

/// One problem as it is reported.
#[derive(Debug, PartialEq, Eq)]
pub struct AnalysisProblem {
    pub description: String,
    pub problematic_function: String,
    pub problematic_function_loc: IRSpan,
    pub taint_source: String,
    pub taint_source_loc: IRSpan,
    pub detailed: TaintProblemOwned,
}

/// The verdict on a package.
#[derive(Debug, PartialEq, Eq)]
pub enum PackageAnalysisResult {
    Success,
    Failure(Vec<AnalysisProblem>),
}

/// The verdict on a package, with its name and version.
#[derive(Debug, PartialEq, Eq)]
pub struct AnalysisResult {
    pub package_name: String,
    pub package_version: String,
    pub result: PackageAnalysisResult,
}

/// What the program puts out.
#[derive(Debug, PartialEq, Eq)]
pub enum ProgramOutput {
    AnalysisResult(AnalysisResult),
    TaintSourceList(TaintSourceDefinitionOwned),
    Message(String),
}

/// The form of the output.
#[derive(Debug, Clone, Copy, PartialEq, Eq, Structural)]
pub enum OutputFormatType {
    Console,
    Json,
}

/// The form of the output that a name in lower case stands for; `None` for
/// any name but `console` and `json`.
pub open spec fn format_named(lowered: Seq<char>) -> Option<OutputFormatType> {
    if lowered == "console"@ {
        Some(OutputFormatType::Console)
    } else if lowered == "json"@ {
        Some(OutputFormatType::Json)
    } else {
        None
    }
}

impl OutputFormatType {
    /// The form of the output for a name that was brought to lower case; for
    /// an unknown name an error that quotes the name as it was given.
    pub fn from_lowered(lowered: &str, given: &str) -> (r: Result<OutputFormatType, String>)
        ensures
            match r {
                Ok(format) => format_named(lowered@) == Some(format),
                Err(message) => format_named(lowered@) is None && message@
                    == "Unknown output format: "@ + given@,
            },
    {
        if str_eq(lowered, "console") {
            Ok(OutputFormatType::Console)
        } else if str_eq(lowered, "json") {
            Ok(OutputFormatType::Json)
        } else {
            Err("Unknown output format: ".to_owned().concat(given))
        }
    }

    /// The form of the output for a name, whatever its case.
    pub fn from_name(name: &str) -> (r: Result<OutputFormatType, String>)
        ensures
            match r {
                Ok(format) => format_named(lowercase_text(name@)) == Some(format),
                Err(message) => format_named(lowercase_text(name@)) is None && message@
                    == "Unknown output format: "@ + name@,
            },
    {
        let lowered = str_to_lowercase(name);
        OutputFormatType::from_lowered(lowered.as_str(), name)
    }
}

impl std::str::FromStr for OutputFormatType {
    type Err = String;

    /// The form of the output for a name, whatever its case; for any name but
    /// `console` and `json` an error that quotes the name as it was given.
    fn from_str(s: &str) -> (r: Result<Self, Self::Err>)
        ensures
            match r {
                Ok(format) => format_named(lowercase_text(s@)) == Some(format),
                Err(message) => format_named(lowercase_text(s@)) is None && message@
                    == "Unknown output format: "@ + s@,
            },
    {
        OutputFormatType::from_name(s)
    }
}

/// Whether a reported problem is the report of a problem of a function.
pub open spec fn reports(report: AnalysisProblem, function: FunctionInfo, problem: TaintProblemModel) -> bool {
    &&& report.description@ == problem.taint_source.description
    &&& report.problematic_function@ == function.function_name@
    &&& report.problematic_function_loc@ == function.span@
    &&& report.taint_source@ == problem.source_func_sig
    &&& report.taint_source_loc@ == problem.source_span
    &&& report.detailed@ == owned_model(problem)
}

/// The number of problems of the first `k` functions of a list.
pub open spec fn problem_count(functions: Seq<FunctionProblems>, k: int) -> int
    decreases k,
{
    if k <= 0 {
        0
    } else {
        problem_count(functions, k - 1) + functions[k - 1].problems@.len()
    }
}

/// Whether `reports` holds, in order, the reports of the problems of the first
/// `k` functions of a list.
pub open spec fn reports_all(reports: Seq<AnalysisProblem>, functions: Seq<FunctionProblems>, k: int) -> bool
    decreases k,
{
    if k <= 0 {
        reports.len() == 0
    } else {
        let before = problem_count(functions, k - 1);
        let here = functions[k - 1].problems@;
        &&& reports.len() == before + here.len()
        &&& reports_all(reports.subrange(0, before), functions, k - 1)
        &&& forall|i: int|
            0 <= i < here.len() ==> self::reports(
                #[trigger] reports[before + i],
                functions[k - 1].function,
                here[i]@,
            )
    }
}

/// The verdict on a package: a success where no function has a problem, else
/// a failure with one report for every problem, function by function.
pub fn summarize<'tsrc>(
    package_name: String,
    package_version: String,
    functions: Vec<FunctionProblems<'tsrc>>,
) -> (r: AnalysisResult)
    ensures
        r.package_name@ == package_name@,
        r.package_version@ == package_version@,
        match r.result {
            PackageAnalysisResult::Success => problem_count(functions@, functions@.len() as int)
                == 0,
            PackageAnalysisResult::Failure(found) => found@.len() > 0 && reports_all(
                found@,
                functions@,
                functions@.len() as int,
            ),
        },
{
    let mut found: Vec<AnalysisProblem> = Vec::new();
    let mut f: usize = 0;
    while f < functions.len()
        invariant
            f <= functions.len(),
            found@.len() == problem_count(functions@, f as int),
            reports_all(found@, functions@, f as int),
        decreases functions.len() - f,
    {
        let ghost before = found@;
        let entry = &functions[f];
        let mut i: usize = 0;
        while i < entry.problems.len()
            invariant
                i <= entry.problems.len(),
                f < functions.len(),
                *entry == functions@[f as int],
                before.len() == problem_count(functions@, f as int),
                found@.len() == before.len() + i,
                found@.subrange(0, before.len() as int) == before,
                forall|k: int|
                    0 <= k < i ==> reports(
                        #[trigger] found@[before.len() + k],
                        entry.function,
                        entry.problems@[k]@,
                    ),
            decreases entry.problems.len() - i,
        {
            let problem = entry.problems[i].clone();
            let ghost earlier = found@;
            found.push(
                AnalysisProblem {
                    description: problem.taint_source.description.to_owned(),
                    problematic_function: entry.function.function_name.clone(),
                    problematic_function_loc: entry.function.span.clone(),
                    taint_source: problem.source_func_sig.clone(),
                    taint_source_loc: problem.source_span.clone(),
                    detailed: problem.into_owned(),
                },
            );
            assert(found@.subrange(0, before.len() as int) =~= earlier.subrange(
                0,
                before.len() as int,
            ));
            assert forall|k: int| 0 <= k < i + 1 implies reports(
                #[trigger] found@[before.len() + k],
                entry.function,
                entry.problems@[k]@,
            ) by {
                if k < i {
                    assert(found@[before.len() + k] == earlier[before.len() + k]);
                }
            }
            i += 1;
        }
        f += 1;
    }
    let result = if found.len() == 0 {
        PackageAnalysisResult::Success
    } else {
        PackageAnalysisResult::Failure(found)
    };
    AnalysisResult { package_name, package_version, result }
}

/// The line that says that a package has no problem.
pub open spec fn success_console(package_name: Seq<char>, package_version: Seq<char>) -> Seq<char> {
    green_text("No problems found"@) + " in package "@ + yellow_text(package_name) + " v"@
        + light_gray_text(package_version)
}

/// The lines that report one problem.
pub open spec fn problem_console(package_name: Seq<char>, problem: AnalysisProblem) -> Seq<char> {
    bold_text(red_text("Sanitizing problem"@)) + " found in "@ + yellow_text(package_name) + ":"@
        + yellow_text(italic_text(problem.problematic_function@)) + " "@ + light_gray_text(
        span_text(problem.problematic_function_loc@),
    ) + "\n"@ + " "@ + bold_text("|"@) + " Usage of "@ + blue_text(
        bold_text(problem.taint_source@),
    ) + " at "@ + light_gray_text(span_text(problem.taint_source_loc@)) + "\n"@ + " "@ + bold_text(
        "|"@,
    ) + " without wrapping the result as "@ + green_text(bold_text("UntrustedValue"@))
        + " is discouraged\n"@ + " "@ + bold_text("|"@) + " "@ + italic_text(">"@) + " "@
        + italic_text(problem.description@) + "\n"@ + " "@ + bold_text("|"@)
        + " Make sure to wrap the result like this "@ + green_text(
        bold_text("UntrustedValue::from("@),
    ) + blue_text(bold_text(problem.taint_source@)) + "(...)"@ + green_text(bold_text(")"@))
        + "\n\n"@
}

/// The lines that report the first `k` problems of a list.
pub open spec fn problems_console(package_name: Seq<char>, problems: Seq<AnalysisProblem>, k: int) -> Seq<
    char,
>
    decreases k,
{
    if k <= 0 {
        Seq::empty()
    } else {
        problems_console(package_name, problems, k - 1) + problem_console(
            package_name,
            problems[k - 1],
        )
    }
}

/// The text that reports the verdict on a package.
pub open spec fn result_console(result: AnalysisResult) -> Seq<char> {
    match result.result {
        PackageAnalysisResult::Success => success_console(
            result.package_name@,
            result.package_version@,
        ),
        PackageAnalysisResult::Failure(problems) => problems_console(
            result.package_name@,
            problems@,
            problems@.len() as int,
        ),
    }
}

fn problem_to_console(package_name: &str, problem: &AnalysisProblem) -> (r: String)
    ensures
        r@ == problem_console(package_name@, *problem),
{
    let bar = bold("|");
    let source = blue(bold(problem.taint_source.as_str()).as_str());
    bold(red("Sanitizing problem").as_str()).concat(" found in ").concat(
        yellow(package_name).as_str(),
    ).concat(":").concat(
        yellow(italic(problem.problematic_function.as_str()).as_str()).as_str(),
    ).concat(" ").concat(
        light_gray(problem.problematic_function_loc.to_text().as_str()).as_str(),
    ).concat("\n").concat(" ").concat(bar.as_str()).concat(" Usage of ").concat(
        source.as_str(),
    ).concat(" at ").concat(
        light_gray(problem.taint_source_loc.to_text().as_str()).as_str(),
    ).concat("\n").concat(" ").concat(bar.as_str()).concat(
        " without wrapping the result as ",
    ).concat(green(bold("UntrustedValue").as_str()).as_str()).concat(" is discouraged\n").concat(
        " ",
    ).concat(bar.as_str()).concat(" ").concat(italic(">").as_str()).concat(" ").concat(
        italic(problem.description.as_str()).as_str(),
    ).concat("\n").concat(" ").concat(bar.as_str()).concat(
        " Make sure to wrap the result like this ",
    ).concat(green(bold("UntrustedValue::from(").as_str()).as_str()).concat(
        source.as_str(),
    ).concat("(...)").concat(green(bold(")").as_str()).as_str()).concat("\n\n")
}

impl AnalysisResult {
    /// The text that reports the verdict, coloured for a terminal: one line for
    /// a success, five lines and an empty one for every problem of a failure.
    pub fn to_console(&self) -> (r: String)
        ensures
            r@ == result_console(*self),
    {
        match &self.result {
            PackageAnalysisResult::Success => {
                green("No problems found").concat(" in package ").concat(
                    yellow(self.package_name.as_str()).as_str(),
                ).concat(" v").concat(light_gray(self.package_version.as_str()).as_str())
            },
            PackageAnalysisResult::Failure(problems) => {
                let mut result = String::new();
                assert(result@ =~= problems_console(self.package_name@, problems@, 0));
                let mut i: usize = 0;
                while i < problems.len()
                    invariant
                        i <= problems.len(),
                        result@ == problems_console(self.package_name@, problems@, i as int),
                    decreases problems.len() - i,
                {
                    let entry = problem_to_console(self.package_name.as_str(), &problems[i]);
                    result = result.concat(entry.as_str());
                    i += 1;
                }
                result
            },
        }
    }
}

/// The lines that list one taint source: its description, then its functions.
pub open spec fn source_console(source: TaintSourceModel, k: int) -> Seq<char>
    decreases k,
{
    if k <= 0 {
        " "@ + bold_text("|"@) + " "@ + blue_text(italic_text("> "@ + source.description)) + "\n"@
    } else {
        source_console(source, k - 1) + (" "@ + bold_text("|"@) + " - "@ + yellow_text(
            italic_text(source.functions[k - 1]),
        ) + "\n"@)
    }
}

/// The lines that list a group of taint sources with the first `k` of its
/// sources: its name, its description, then the sources.
pub open spec fn definition_console(definition: DefinitionModel, k: int) -> Seq<char>
    decreases k,
{
    if k <= 0 {
        "Taint sources module "@ + green_text(bold_text(definition.taint_module_name)) + ":\n"@
            + " "@ + bold_text("|"@) + " "@ + blue_text(
            italic_text("> "@ + definition.taint_module_description),
        ) + "\n"@
    } else {
        definition_console(definition, k - 1) + source_console(
            definition.sources[k - 1],
            definition.sources[k - 1].functions.len() as int,
        )
    }
}

fn source_to_console(source: &TaintSourceOwned) -> (r: String)
    ensures
        r@ == source_console(source@, source@.functions.len() as int),
{
    let bar = bold("|");
    let described = "> ".to_owned().concat(source.description.as_str());
    let mut result = " ".to_owned().concat(bar.as_str()).concat(" ").concat(
        blue(italic(described.as_str()).as_str()).as_str(),
    ).concat("\n");
    let mut i: usize = 0;
    while i < source.functions.len()
        invariant
            i <= source.functions.len(),
            bar@ == bold_text("|"@),
            result@ == source_console(source@, i as int),
        decreases source.functions.len() - i,
    {
        let line = " ".to_owned().concat(bar.as_str()).concat(" - ").concat(
            yellow(italic(source.functions[i].as_str()).as_str()).as_str(),
        ).concat("\n");
        result = result.concat(line.as_str());
        i += 1;
    }
    result
}

impl TaintSourceDefinitionOwned {
    /// The text that lists the group, coloured for a terminal.
    pub fn to_console(&self) -> (r: String)
        ensures
            r@ == definition_console(self@, self@.sources.len() as int),
    {
        let bar = bold("|");
        let described = "> ".to_owned().concat(self.taint_module_description.as_str());
        let mut result = "Taint sources module ".to_owned().concat(
            green(bold(self.taint_module_name.as_str()).as_str()).as_str(),
        ).concat(":\n").concat(" ").concat(bar.as_str()).concat(" ").concat(
            blue(italic(described.as_str()).as_str()).as_str(),
        ).concat("\n");
        let mut i: usize = 0;
        while i < self.sources.len()
            invariant
                i <= self.sources.len(),
                result@ == definition_console(self@, i as int),
            decreases self.sources.len() - i,
        {
            let lines = source_to_console(&self.sources[i]);
            result = result.concat(lines.as_str());
            i += 1;
        }
        result
    }
}

/// The text of an output for a terminal.
pub open spec fn output_console(output: ProgramOutput) -> Seq<char> {
    match output {
        ProgramOutput::Message(message) => message@,
        ProgramOutput::AnalysisResult(result) => result_console(result),
        ProgramOutput::TaintSourceList(list) => definition_console(
            list@,
            list@.sources.len() as int,
        ),
    }
}

impl ProgramOutput {
    /// The text of the output for a terminal.
    pub fn to_console(&self) -> (r: String)
        ensures
            r@ == output_console(*self),
    {
        match self {
            ProgramOutput::Message(message) => message.clone(),
            ProgramOutput::AnalysisResult(result) => result.to_console(),
            ProgramOutput::TaintSourceList(list) => list.to_console(),
        }
    }
}

} // verus!
