//! The options of the checker, and the rules by which the arguments of the
//! program are parted and checked.

use vstd::prelude::*;
use crate::analysis::build_plan::texts;
use crate::output::OutputFormatType;
use crate::text::is_prefix_of;
use crate::text::occurs_in;
use crate::text::str_contains;
use crate::text::str_eq;
use crate::text::str_strip_prefix;

verus! {

/// The options of the checker.
#[derive(Debug, PartialEq, Eq)]
pub struct Args {
    pub targets: Vec<String>,
    pub graph_dir: String,
    pub output_format: OutputFormatType,
    /// Name prefixes that select the taint sources in use; none selects all.
    pub taint_sources: Vec<String>,
    pub list_taint_sources: bool,
}

/// The first position from `k` on at which the separator `--` stands among the
/// arguments; their number if it stands at none.
pub open spec fn separator_at(arguments: Seq<Seq<char>>, k: int) -> int
    decreases arguments.len() - k,
{
    if k < 0 || k >= arguments.len() {
        arguments.len() as int
    } else if arguments[k] == "--"@ {
        k
    } else {
        separator_at(arguments, k + 1)
    }
}

/// Among the arguments from position `from` up to position `k`, those that do
/// not choose a message format.
pub open spec fn kept_arguments(arguments: Seq<Seq<char>>, from: int, k: int) -> Seq<Seq<char>>
    decreases k - from,
{
    if k <= from {
        Seq::empty()
    } else {
        let before = kept_arguments(arguments, from, k - 1);
        if is_prefix_of("--message-format="@, arguments[k - 1]) {
            before
        } else {
            before.push(arguments[k - 1])
        }
    }
}

/// The arguments for the build tool: what stands between the name of the
/// program and the separator `--`, without a choice of message format.
pub open spec fn build_tool_arguments(arguments: Seq<Seq<char>>) -> Seq<Seq<char>> {
    kept_arguments(arguments, 1, separator_at(arguments, 1))
}

/// The arguments for the compiler: what follows the separator `--`.
pub open spec fn compiler_arguments(arguments: Seq<Seq<char>>) -> Seq<Seq<char>> {
    if separator_at(arguments, 1) + 1 <= arguments.len() {
        arguments.subrange(separator_at(arguments, 1) + 1, arguments.len() as int)
    } else {
        Seq::empty()
    }
}

/// Parts the arguments of the program into those for the build tool and those
/// for the compiler.
pub fn split_arguments(arguments: &Vec<String>) -> (r: (Vec<String>, Vec<String>))
    ensures
        texts(r.0@) == build_tool_arguments(texts(arguments@)),
        texts(r.1@) == compiler_arguments(texts(arguments@)),
{
    let ghost all = texts(arguments@);
    let mut direct: Vec<String> = Vec::new();
    let mut passed: Vec<String> = Vec::new();
    if arguments.len() <= 1 {
        assert(texts(direct@) =~= build_tool_arguments(all));
        assert(texts(passed@) =~= compiler_arguments(all));
        return (direct, passed);
    }
    let mut i: usize = 1;
    assert(texts(direct@) =~= kept_arguments(all, 1, 1));
    while i < arguments.len() && !str_eq(arguments[i].as_str(), "--")
        invariant
            1 <= i <= arguments.len(),
            all == texts(arguments@),
            separator_at(all, 1) == separator_at(all, i as int),
            texts(direct@) == kept_arguments(all, 1, i as int),
        decreases arguments.len() - i,
    {
        let ghost before = texts(direct@);
        if str_strip_prefix(arguments[i].as_str(), "--message-format=").is_none() {
            direct.push(arguments[i].clone());
            assert(texts(direct@) =~= before.push(all[i as int]));
        }
        i += 1;
    }
    assert(separator_at(all, 1) == i);
    if i < arguments.len() {
        i += 1;
    }
    let ghost from = i as int;
    assert(texts(passed@) =~= all.subrange(from, i as int));
    while i < arguments.len()
        invariant
            1 <= from <= i <= arguments.len(),
            all == texts(arguments@),
            texts(passed@) == all.subrange(from, i as int),
        decreases arguments.len() - i,
    {
        let ghost before = texts(passed@);
        passed.push(arguments[i].clone());
        assert(texts(passed@) =~= before.push(all[i as int]));
        assert(texts(passed@) =~= all.subrange(from, i + 1));
        i += 1;
    }
    (direct, passed)
}

/// Whether an argument selects targets in a way that the checker refuses.
pub open spec fn is_forbidden(argument: Seq<char>) -> bool {
    ||| argument == "--bins"@
    ||| argument == "--examples"@
    ||| argument == "--example"@
    ||| argument == "--tests"@
    ||| argument == "--test"@
    ||| argument == "--benches"@
    ||| argument == "--bench"@
    ||| argument == "--all-targets"@
}

fn forbidden(argument: &str) -> (r: bool)
    ensures
        r == is_forbidden(argument@),
{
    str_eq(argument, "--bins") || str_eq(argument, "--examples") || str_eq(argument, "--example")
        || str_eq(argument, "--tests") || str_eq(argument, "--test") || str_eq(
        argument,
        "--benches",
    ) || str_eq(argument, "--bench") || str_eq(argument, "--all-targets")
}

/// The position of the first argument that the checker refuses, if there is
/// one.
pub fn first_forbidden_argument(arguments: &Vec<String>) -> (r: Option<usize>)
    ensures
        match r {
            Some(i) => i < arguments@.len() && is_forbidden(arguments@[i as int]@) && forall|k: int|
                0 <= k < i ==> !is_forbidden(#[trigger] arguments@[k]@),
            None => forall|k: int|
                0 <= k < arguments@.len() ==> !is_forbidden(#[trigger] arguments@[k]@),
        },
{
    let mut i: usize = 0;
    while i < arguments.len()
        invariant
            i <= arguments.len(),
            forall|k: int| 0 <= k < i ==> !is_forbidden(#[trigger] arguments@[k]@),
        decreases arguments.len() - i,
    {
        if forbidden(arguments[i].as_str()) {
            return Some(i);
        }
        i += 1;
    }
    None
}

/// Among the first `k` arguments, those that do not ask for messages in JSON.
pub open spec fn without_json(arguments: Seq<Seq<char>>, k: int) -> Seq<Seq<char>>
    decreases k,
{
    if k <= 0 {
        Seq::empty()
    } else {
        let before = without_json(arguments, k - 1);
        if is_prefix_of("--json="@, arguments[k - 1]) {
            before
        } else {
            before.push(arguments[k - 1])
        }
    }
}

/// The arguments without those that ask for messages in JSON.
pub fn strip_json_arguments(arguments: &Vec<String>) -> (r: Vec<String>)
    ensures
        texts(r@) == without_json(texts(arguments@), arguments@.len() as int),
{
    let mut kept: Vec<String> = Vec::new();
    assert(texts(kept@) =~= without_json(texts(arguments@), 0));
    let mut i: usize = 0;
    while i < arguments.len()
        invariant
            i <= arguments.len(),
            texts(kept@) == without_json(texts(arguments@), i as int),
        decreases arguments.len() - i,
    {
        let ghost before = texts(kept@);
        if str_strip_prefix(arguments[i].as_str(), "--json=").is_none() {
            kept.push(arguments[i].clone());
            assert(texts(kept@) =~= before.push(texts(arguments@)[i as int]));
        }
        i += 1;
    }
    kept
}

/// The number of lines among the first `k` that hold the word `invocations`.
pub open spec fn plan_lines(lines: Seq<Seq<char>>, k: int) -> int
    decreases k,
{
    if k <= 0 {
        0
    } else {
        plan_lines(lines, k - 1) + if occurs_in("invocations"@, lines[k - 1]) {
            1int
        } else {
            0int
        }
    }
}

/// Picks the build plan out of what the build tool printed: the one line that
/// holds the word `invocations`. Where there is not exactly one, the number of
/// such lines is the error.
pub fn find_build_plan(lines: &Vec<String>) -> (r: Result<usize, usize>)
    ensures
        match r {
            Ok(i) => plan_lines(texts(lines@), lines@.len() as int) == 1 && i < lines@.len()
                && occurs_in("invocations"@, lines@[i as int]@),
            Err(count) => count == plan_lines(texts(lines@), lines@.len() as int) && count != 1,
        },
{
    let mut count: usize = 0;
    let mut found: usize = 0;
    let mut i: usize = 0;
    while i < lines.len()
        invariant
            i <= lines.len(),
            count == plan_lines(texts(lines@), i as int),
            count <= i,
            count > 0 ==> found < i && occurs_in("invocations"@, lines@[found as int]@),
        decreases lines.len() - i,
    {
        if str_contains(lines[i].as_str(), "invocations") {
            count += 1;
            found = i;
        }
        i += 1;
    }
    if count == 1 {
        Ok(found)
    } else {
        Err(count)
    }
}

} // verus!
