//! What a build script says to the build tool, and how that is handed on to
//! the invocation that follows the script.

use vstd::prelude::*;
use vstd::string::StringExecFns;
use crate::analysis::build_plan::BuildInvocation;
use crate::analysis::build_plan::BuildPlan;
use crate::analysis::build_plan::CompileMode;
use crate::analysis::build_plan::TargetKind;
use crate::analysis::build_plan::text_pairs;
use crate::analysis::build_plan::texts;
use crate::args::strip_json_arguments;
use crate::args::without_json;
use crate::text::is_prefix_of;
use crate::text::lowercase_text;
use crate::text::str_split_once;
use crate::text::str_strip_prefix;
use crate::text::str_to_lowercase;

verus! {

/// An instruction that a build script prints for the build tool.
#[derive(Debug, PartialEq, Eq)]
pub enum BuildScriptCommand {
    LinkArg(String),
    /// Binary and flag.
    LinkArgBin(String, String),
    LinkArgBins(String),
    LinkLib(String),
    LinkArgTests(String),
    LinkArgExamples(String),
    LinkArgBenches(String),
    /// Kind and path.
    LinkSearch(Option<String>, String),
    Flags(String),
    /// Key and value.
    Cfg(String, Option<String>),
    /// Variable and value.
    Env(String, String),
    CdylibLinkArg(String),
    RerunIfChanged(String),
    RustcCheckCfg(String),
}

/// The mathematical value of a [`BuildScriptCommand`].
pub enum CommandModel {
    LinkArg(Seq<char>),
    LinkArgBin(Seq<char>, Seq<char>),
    LinkArgBins(Seq<char>),
    LinkLib(Seq<char>),
    LinkArgTests(Seq<char>),
    LinkArgExamples(Seq<char>),
    LinkArgBenches(Seq<char>),
    LinkSearch(Option<Seq<char>>, Seq<char>),
    Flags(Seq<char>),
    Cfg(Seq<char>, Option<Seq<char>>),
    Env(Seq<char>, Seq<char>),
    CdylibLinkArg(Seq<char>),
    RerunIfChanged(Seq<char>),
    RustcCheckCfg(Seq<char>),
}

impl View for BuildScriptCommand {
    type V = CommandModel;

    open spec fn view(&self) -> CommandModel {
        match self {
            BuildScriptCommand::LinkArg(arg) => CommandModel::LinkArg(arg@),
            BuildScriptCommand::LinkArgBin(bin, arg) => CommandModel::LinkArgBin(bin@, arg@),
            BuildScriptCommand::LinkArgBins(arg) => CommandModel::LinkArgBins(arg@),
            BuildScriptCommand::LinkLib(arg) => CommandModel::LinkLib(arg@),
            BuildScriptCommand::LinkArgTests(arg) => CommandModel::LinkArgTests(arg@),
            BuildScriptCommand::LinkArgExamples(arg) => CommandModel::LinkArgExamples(arg@),
            BuildScriptCommand::LinkArgBenches(arg) => CommandModel::LinkArgBenches(arg@),
            BuildScriptCommand::LinkSearch(kind, path) => CommandModel::LinkSearch(
                match kind {
                    Some(kind) => Some(kind@),
                    None => None,
                },
                path@,
            ),
            BuildScriptCommand::Flags(flags) => CommandModel::Flags(flags@),
            BuildScriptCommand::Cfg(key, value) => CommandModel::Cfg(
                key@,
                match value {
                    Some(value) => Some(value@),
                    None => None,
                },
            ),
            BuildScriptCommand::Env(key, value) => CommandModel::Env(key@, value@),
            BuildScriptCommand::CdylibLinkArg(arg) => CommandModel::CdylibLinkArg(arg@),
            BuildScriptCommand::RerunIfChanged(arg) => CommandModel::RerunIfChanged(arg@),
            BuildScriptCommand::RustcCheckCfg(arg) => CommandModel::RustcCheckCfg(arg@),
        }
    }
}

/// Why a line of a build script is refused.
#[derive(Debug, Clone, Copy, PartialEq, Eq, Structural)]
pub enum BuildScriptError {
    /// A link argument for a binary that does not name the binary.
    LinkArgNotProperlyFormatted,
    /// An environment variable without a value.
    EnvNotProperlyFormatted,
}

impl BuildScriptError {
    /// The message of the error.
    pub fn message(&self) -> (r: String)
        ensures
            r@ == match self {
                BuildScriptError::LinkArgNotProperlyFormatted => "Link arg not properly formatted"@,
                BuildScriptError::EnvNotProperlyFormatted => "Env not properly formatted"@,
            },
    {
        match self {
            BuildScriptError::LinkArgNotProperlyFormatted => {
                "Link arg not properly formatted".to_owned()
            },
            BuildScriptError::EnvNotProperlyFormatted => "Env not properly formatted".to_owned(),
        }
    }
}

/// The first position from `k` on at which `c` stands in `s`; the length of
/// `s` if it stands at none.
pub open spec fn first_at(s: Seq<char>, c: char, k: int) -> int
    decreases s.len() - k,
{
    if k < 0 || k >= s.len() {
        s.len() as int
    } else if s[k] == c {
        k
    } else {
        first_at(s, c, k + 1)
    }
}

/// What stands before and after the first `c` in `s`, if `c` occurs.
pub open spec fn split_first(s: Seq<char>, c: char) -> Option<(Seq<char>, Seq<char>)> {
    let i = first_at(s, c, 0);
    if i >= s.len() {
        None
    } else {
        Some((s.subrange(0, i), s.subrange(i + 1, s.len() as int)))
    }
}

/// The first occurrence of a character is where a text splits into a part
/// without the character, the character, and the rest.
pub proof fn lemma_first_at(s: Seq<char>, c: char, before: Seq<char>, after: Seq<char>, k: int)
    requires
        s == before + seq![c] + after,
        !before.contains(c),
        0 <= k <= before.len(),
    ensures
        first_at(s, c, k) == before.len(),
    decreases before.len() - k,
{
    if k < before.len() {
        assert(s[k] == before[k]);
        assert(before.contains(before[k]));
        lemma_first_at(s, c, before, after, k + 1);
    } else {
        assert(s[k] == c);
    }
}

/// The first position from `k` on is not before `k` and not after the end.
pub proof fn lemma_first_at_bounds(s: Seq<char>, c: char, k: int)
    requires
        0 <= k <= s.len(),
    ensures
        k <= first_at(s, c, k) <= s.len(),
    decreases s.len() - k,
{
    if k < s.len() && s[k] != c {
        lemma_first_at_bounds(s, c, k + 1);
    }
}

/// A text in which a character does not occur has no first occurrence of it.
pub proof fn lemma_first_at_absent(s: Seq<char>, c: char, k: int)
    requires
        !s.contains(c),
        0 <= k,
    ensures
        first_at(s, c, k) == s.len(),
    decreases s.len() - k,
{
    if k < s.len() {
        assert(s.contains(s[k]));
        lemma_first_at_absent(s, c, k + 1);
    }
}

fn split_at_first<'a>(s: &'a str, c: char) -> (r: Option<(&'a str, &'a str)>)
    ensures
        match r {
            Some((before, after)) => split_first(s@, c) == Some((before@, after@)),
            None => split_first(s@, c) is None,
        },
{
    match str_split_once(s, c) {
        Some((before, after)) => {
            proof {
                lemma_first_at(s@, c, before@, after@, 0);
                assert(s@.subrange(0, before@.len() as int) =~= before@);
                assert(s@.subrange(before@.len() as int + 1, s@.len() as int) =~= after@);
            }
            Some((before, after))
        },
        None => {
            proof {
                lemma_first_at_absent(s@, c, 0);
            }
            None
        },
    }
}

/// What follows a prefix in a text that starts with it.
pub open spec fn rest(text: Seq<char>, prefix: Seq<char>) -> Seq<char> {
    text.subrange(prefix.len() as int, text.len() as int)
}

/// A text that may have a kind in front of `=`: the kind, if there is one, and
/// what follows.
pub open spec fn optional_key(arg: Seq<char>) -> (Option<Seq<char>>, Seq<char>) {
    match split_first(arg, '=') {
        Some((key, value)) => (Some(key), value),
        None => (None, arg),
    }
}

/// What a line that a build script printed says. The instruction is known by
/// how the line starts; where several ways apply, the first of this list
/// counts. A line that starts in none of these ways says nothing.
pub open spec fn parsed(text: Seq<char>) -> Option<Result<CommandModel, BuildScriptError>> {
    if is_prefix_of("cargo:rustc-link-arg="@, text) {
        Some(Ok(CommandModel::LinkArg(rest(text, "cargo:rustc-link-arg="@))))
    } else if is_prefix_of("cargo:rustc-link-arg-bin="@, text) {
        match split_first(rest(text, "cargo:rustc-link-arg-bin="@), '=') {
            Some((bin, arg)) => Some(Ok(CommandModel::LinkArgBin(bin, arg))),
            None => Some(Err(BuildScriptError::LinkArgNotProperlyFormatted)),
        }
    } else if is_prefix_of("cargo:rustc-link-arg-bins="@, text) {
        Some(Ok(CommandModel::LinkArgBins(rest(text, "cargo:rustc-link-arg-bins="@))))
    } else if is_prefix_of("cargo:rustc-link-lib="@, text) {
        Some(Ok(CommandModel::LinkLib(rest(text, "cargo:rustc-link-lib="@))))
    } else if is_prefix_of("cargo:rustc-link-arg=tests="@, text) {
        Some(Ok(CommandModel::LinkArgTests(rest(text, "cargo:rustc-link-arg=tests="@))))
    } else if is_prefix_of("cargo:rustc-link-arg=examples="@, text) {
        Some(Ok(CommandModel::LinkArgExamples(rest(text, "cargo:rustc-link-arg=examples="@))))
    } else if is_prefix_of("cargo:rustc-link-arg=benches="@, text) {
        Some(Ok(CommandModel::LinkArgBenches(rest(text, "cargo:rustc-link-arg=benches="@))))
    } else if is_prefix_of("cargo:rustc-link-search="@, text) {
        Some(
            Ok(
                CommandModel::LinkSearch(
                    optional_key(rest(text, "cargo:rustc-link-search="@)).0,
                    optional_key(rest(text, "cargo:rustc-link-search="@)).1,
                ),
            ),
        )
    } else if is_prefix_of("cargo:rustc-flags="@, text) {
        Some(Ok(CommandModel::Flags(rest(text, "cargo:rustc-flags="@))))
    } else if is_prefix_of("cargo:rustc-cfg="@, text) {
        match split_first(rest(text, "cargo:rustc-cfg="@), '=') {
            Some((key, value)) => Some(Ok(CommandModel::Cfg(key, Some(value)))),
            None => Some(Ok(CommandModel::Cfg(rest(text, "cargo:rustc-cfg="@), None))),
        }
    } else if is_prefix_of("cargo:rustc-env="@, text) {
        match split_first(rest(text, "cargo:rustc-env="@), '=') {
            Some((key, value)) => Some(Ok(CommandModel::Env(key, value))),
            None => Some(Err(BuildScriptError::EnvNotProperlyFormatted)),
        }
    } else if is_prefix_of("cargo:rustc-cdylib-link-arg="@, text) {
        Some(Ok(CommandModel::CdylibLinkArg(rest(text, "cargo:rustc-cdylib-link-arg="@))))
    } else if is_prefix_of("cargo:rerun-if-changed="@, text) {
        Some(Ok(CommandModel::RerunIfChanged(rest(text, "cargo:rerun-if-changed="@))))
    } else if is_prefix_of("cargo:rustc-check-cfg="@, text) {
        Some(Ok(CommandModel::RustcCheckCfg(rest(text, "cargo:rustc-check-cfg="@))))
    } else {
        None
    }
}

/// The value of a parsed line.
pub open spec fn parsed_model(r: Option<Result<BuildScriptCommand, BuildScriptError>>) -> Option<
    Result<CommandModel, BuildScriptError>,
> {
    match r {
        Some(Ok(command)) => Some(Ok(command@)),
        Some(Err(error)) => Some(Err(error)),
        None => None,
    }
}

impl BuildScriptCommand {
    /// Reads one line that a build script printed.
    pub fn parse(text: &str) -> (r: Option<Result<BuildScriptCommand, BuildScriptError>>)
        ensures
            parsed_model(r) == parsed(text@),
    {
        if let Some(arg) = str_strip_prefix(text, "cargo:rustc-link-arg=") {
            Some(Ok(BuildScriptCommand::LinkArg(arg.to_owned())))
        } else if let Some(arg) = str_strip_prefix(text, "cargo:rustc-link-arg-bin=") {
            match split_at_first(arg, '=') {
                Some((bin, arg)) => Some(
                    Ok(BuildScriptCommand::LinkArgBin(bin.to_owned(), arg.to_owned())),
                ),
                None => Some(Err(BuildScriptError::LinkArgNotProperlyFormatted)),
            }
        } else if let Some(arg) = str_strip_prefix(text, "cargo:rustc-link-arg-bins=") {
            Some(Ok(BuildScriptCommand::LinkArgBins(arg.to_owned())))
        } else if let Some(arg) = str_strip_prefix(text, "cargo:rustc-link-lib=") {
            Some(Ok(BuildScriptCommand::LinkLib(arg.to_owned())))
        } else if let Some(arg) = str_strip_prefix(text, "cargo:rustc-link-arg=tests=") {
            Some(Ok(BuildScriptCommand::LinkArgTests(arg.to_owned())))
        } else if let Some(arg) = str_strip_prefix(text, "cargo:rustc-link-arg=examples=") {
            Some(Ok(BuildScriptCommand::LinkArgExamples(arg.to_owned())))
        } else if let Some(arg) = str_strip_prefix(text, "cargo:rustc-link-arg=benches=") {
            Some(Ok(BuildScriptCommand::LinkArgBenches(arg.to_owned())))
        } else if let Some(arg) = str_strip_prefix(text, "cargo:rustc-link-search=") {
            match split_at_first(arg, '=') {
                Some((kind, path)) => Some(
                    Ok(BuildScriptCommand::LinkSearch(Some(kind.to_owned()), path.to_owned())),
                ),
                None => Some(Ok(BuildScriptCommand::LinkSearch(None, arg.to_owned()))),
            }
        } else if let Some(arg) = str_strip_prefix(text, "cargo:rustc-flags=") {
            Some(Ok(BuildScriptCommand::Flags(arg.to_owned())))
        } else if let Some(arg) = str_strip_prefix(text, "cargo:rustc-cfg=") {
            match split_at_first(arg, '=') {
                Some((key, value)) => Some(
                    Ok(BuildScriptCommand::Cfg(key.to_owned(), Some(value.to_owned()))),
                ),
                None => Some(Ok(BuildScriptCommand::Cfg(arg.to_owned(), None))),
            }
        } else if let Some(arg) = str_strip_prefix(text, "cargo:rustc-env=") {
            match split_at_first(arg, '=') {
                Some((key, value)) => Some(
                    Ok(BuildScriptCommand::Env(key.to_owned(), value.to_owned())),
                ),
                None => Some(Err(BuildScriptError::EnvNotProperlyFormatted)),
            }
        } else if let Some(arg) = str_strip_prefix(text, "cargo:rustc-cdylib-link-arg=") {
            Some(Ok(BuildScriptCommand::CdylibLinkArg(arg.to_owned())))
        } else if let Some(arg) = str_strip_prefix(text, "cargo:rerun-if-changed=") {
            Some(Ok(BuildScriptCommand::RerunIfChanged(arg.to_owned())))
        } else if let Some(arg) = str_strip_prefix(text, "cargo:rustc-check-cfg=") {
            Some(Ok(BuildScriptCommand::RustcCheckCfg(arg.to_owned())))
        } else {
            None
        }
    }
}

/// The two arguments that hand a flag to the linker.
pub open spec fn link_arg(arg: Seq<char>) -> Seq<Seq<char>> {
    seq!["-C"@, "link-arg="@ + arg]
}

/// A word, if in lower case it starts with `-l`; nothing else.
pub open spec fn kept_flag(word: Seq<char>) -> Seq<Seq<char>> {
    if is_prefix_of("-l"@, lowercase_text(word)) {
        seq![word]
    } else {
        Seq::empty()
    }
}

/// Of the words of a text, which single spaces part, those that in lower case
/// start with `-l`, in order.
pub open spec fn link_flags(flags: Seq<char>) -> Seq<Seq<char>>
    decreases flags.len(),
{
    let i = first_at(flags, ' ', 0);
    if 0 <= i < flags.len() {
        kept_flag(flags.subrange(0, i)) + link_flags(flags.subrange(i + 1, flags.len() as int))
    } else {
        kept_flag(flags)
    }
}

/// The first position from `k` on at which an environment holds a variable;
/// its length if it holds the variable at none.
pub open spec fn variable_at(env: Seq<(Seq<char>, Seq<char>)>, key: Seq<char>, k: int) -> int
    decreases env.len() - k,
{
    if k < 0 || k >= env.len() {
        env.len() as int
    } else if env[k].0 == key {
        k
    } else {
        variable_at(env, key, k + 1)
    }
}

/// An environment with a variable set: its value is replaced where the
/// environment holds the variable, else the variable is added at the end.
pub open spec fn env_with(env: Seq<(Seq<char>, Seq<char>)>, key: Seq<char>, value: Seq<char>) -> Seq<
    (Seq<char>, Seq<char>),
> {
    let i = variable_at(env, key, 0);
    if 0 <= i < env.len() {
        env.update(i, (key, value))
    } else {
        env.push((key, value))
    }
}

/// Whether a target is linked into something that runs: a binary, an example
/// binary, a test or a benchmark.
pub open spec fn is_executable(kind: TargetKind) -> bool {
    kind is Bench || kind is Bin || kind is ExampleBin || kind is Test
}

/// The arguments `args` of an invocation after an instruction of the build
/// script that ran before it. A link argument is handed on only to a target
/// of the kind that the instruction is for; a search path, a configuration and
/// the link flags of a list of flags are handed on to every target.
pub open spec fn args_with(args: Seq<Seq<char>>, next: BuildInvocation, command: CommandModel) -> Seq<Seq<char>> {
    let kind = next.target_kind;
    match command {
        CommandModel::LinkArg(arg) => if is_executable(kind) || kind.spec_is_cdylib() {
            args + link_arg(arg)
        } else {
            args
        },
        CommandModel::LinkArgBin(bin, arg) => if kind is Bin && next.package_name@ == bin {
            args + link_arg(arg)
        } else {
            args
        },
        CommandModel::LinkArgBins(arg) => if kind is Bin {
            args + link_arg(arg)
        } else {
            args
        },
        CommandModel::LinkLib(arg) => if kind is Lib {
            args + seq!["-l"@, arg]
        } else {
            args
        },
        CommandModel::LinkArgTests(arg) => if kind is Test {
            args + link_arg(arg)
        } else {
            args
        },
        CommandModel::LinkArgExamples(arg) => if kind is ExampleBin || kind is ExampleLib {
            args + link_arg(arg)
        } else {
            args
        },
        CommandModel::LinkArgBenches(arg) => if kind is Bench {
            args + link_arg(arg)
        } else {
            args
        },
        CommandModel::LinkSearch(Some(search), path) => args + seq![
            "-L"@,
            search + "="@ + path,
        ],
        CommandModel::LinkSearch(None, path) => args + seq!["-L"@, path],
        CommandModel::Flags(flags) => args + link_flags(flags),
        CommandModel::Cfg(key, Some(value)) => args + seq!["--cfg"@, key + "="@ + value],
        CommandModel::Cfg(key, None) => args + seq!["--cfg"@, key],
        CommandModel::Env(key, value) => args,
        CommandModel::CdylibLinkArg(arg) => if kind.spec_is_cdylib() {
            args + link_arg(arg)
        } else {
            args
        },
        CommandModel::RerunIfChanged(arg) => args,
        CommandModel::RustcCheckCfg(arg) => args,
    }
}

/// The arguments of an invocation after an instruction of the build script
/// that ran before it.
pub open spec fn args_after(next: BuildInvocation, command: CommandModel) -> Seq<Seq<char>> {
    args_with(texts(next.args@), next, command)
}

/// The environment of an invocation after an instruction of the build script
/// that ran before it: only an instruction that sets a variable changes it.
pub open spec fn env_after(env: Seq<(Seq<char>, Seq<char>)>, command: CommandModel) -> Seq<
    (Seq<char>, Seq<char>),
> {
    match command {
        CommandModel::Env(key, value) => env_with(env, key, value),
        _ => env,
    }
}

/// Whether a word, brought to lower case, is a link flag: whether it starts
/// with `-l`.
pub fn is_link_flag(lowered: &str) -> (r: bool)
    ensures
        r == is_prefix_of("-l"@, lowered@),
{
    str_strip_prefix(lowered, "-l").is_some()
}

fn push_two(args: &mut Vec<String>, first: String, second: String)
    ensures
        texts(final(args)@) == texts(old(args)@) + seq![first@, second@],
{
    args.push(first);
    args.push(second);
    assert(texts(args@) =~= texts(old(args)@) + seq![first@, second@]);
}

fn push_link_arg(args: &mut Vec<String>, arg: &str)
    ensures
        texts(final(args)@) == texts(old(args)@) + link_arg(arg@),
{
    push_two(args, "-C".to_owned(), "link-arg=".to_owned().concat(arg));
}

fn push_link_flags(args: &mut Vec<String>, flags: &str)
    ensures
        texts(final(args)@) == texts(old(args)@) + link_flags(flags@),
{
    let ghost start = texts(args@);
    let mut remaining: &str = flags;
    let mut done = false;
    assert(texts(args@) + link_flags(remaining@) =~= start + link_flags(flags@));
    while !done
        invariant
            !done ==> texts(args@) + link_flags(remaining@) == start + link_flags(flags@),
            done ==> texts(args@) == start + link_flags(flags@),
        decreases remaining@.len() + (if done { 0int } else { 1int }),
    {
        let ghost before = texts(args@);
        let ghost text = remaining@;
        proof {
            lemma_first_at_bounds(text, ' ', 0);
        }
        let (word, following) = match split_at_first(remaining, ' ') {
            Some((word, following)) => (word, Some(following)),
            None => (remaining, None),
        };
        let lowered = str_to_lowercase(word);
        if is_link_flag(lowered.as_str()) {
            args.push(word.to_owned());
        }
        assert(texts(args@) =~= before + kept_flag(word@));
        match following {
            Some(following) => {
                assert(link_flags(text) == kept_flag(word@) + link_flags(following@));
                assert(before + kept_flag(word@) + link_flags(following@) =~= before + link_flags(
                    text,
                ));
                remaining = following;
            },
            None => {
                done = true;
            },
        }
    }
}

fn set_variable(env: &mut Vec<(String, String)>, key: String, value: String)
    ensures
        text_pairs(final(env)@) == env_with(text_pairs(old(env)@), key@, value@),
{
    let ghost start = text_pairs(env@);
    let mut i: usize = 0;
    while i < env.len()
        invariant
            i <= env.len(),
            env@ == old(env)@,
            start == text_pairs(env@),
            variable_at(start, key@, 0) == variable_at(start, key@, i as int),
        decreases env.len() - i,
    {
        if env[i].0 == key {
            assert(start[i as int].0 == key@);
            env.set(i, (key, value));
            assert(text_pairs(env@) =~= start.update(i as int, (key@, value@)));
            return ;
        }
        assert(start[i as int].0 != key@);
        i += 1;
    }
    env.push((key, value));
    assert(text_pairs(env@) =~= start.push((key@, value@)));
}

impl BuildScriptCommand {
    /// Hands an instruction of a build script on to the invocation that
    /// follows the script: to its arguments or to its environment.
    pub fn apply(self, next: &mut BuildInvocation)
        ensures
            texts(final(next).args@) == args_after(*old(next), self@),
            text_pairs(final(next).env@) == env_after(text_pairs(old(next).env@), self@),
            final(next).package_name == old(next).package_name,
            final(next).package_version == old(next).package_version,
            final(next).target_kind == old(next).target_kind,
            final(next).kind == old(next).kind,
            final(next).compile_mode == old(next).compile_mode,
            final(next).outputs == old(next).outputs,
            final(next).links == old(next).links,
            final(next).program == old(next).program,
            final(next).cwd == old(next).cwd,
    {
        let ghost args = texts(next.args@);
        let cdylib = next.target_kind.is_cdylib();
        match self {
            BuildScriptCommand::LinkArg(arg) => {
                let executable = match &next.target_kind {
                    TargetKind::Bench => true,
                    TargetKind::Bin => true,
                    TargetKind::ExampleBin => true,
                    TargetKind::Test => true,
                    _ => false,
                };
                if executable || cdylib {
                    push_link_arg(&mut next.args, arg.as_str());
                }
            },
            BuildScriptCommand::LinkArgBin(bin, arg) => {
                let binary = match &next.target_kind {
                    TargetKind::Bin => true,
                    _ => false,
                };
                if binary && next.package_name == bin {
                    push_link_arg(&mut next.args, arg.as_str());
                }
            },
            BuildScriptCommand::LinkArgBins(arg) => {
                match &next.target_kind {
                    TargetKind::Bin => {
                        push_link_arg(&mut next.args, arg.as_str());
                    },
                    _ => {},
                }
            },
            BuildScriptCommand::LinkLib(arg) => {
                let library = match &next.target_kind {
                    TargetKind::Lib(_) => true,
                    _ => false,
                };
                if library {
                    push_two(&mut next.args, "-l".to_owned(), arg);
                }
            },
            BuildScriptCommand::LinkArgTests(arg) => {
                match &next.target_kind {
                    TargetKind::Test => {
                        push_link_arg(&mut next.args, arg.as_str());
                    },
                    _ => {},
                }
            },
            BuildScriptCommand::LinkArgExamples(arg) => {
                let example = match &next.target_kind {
                    TargetKind::ExampleBin => true,
                    TargetKind::ExampleLib(_) => true,
                    _ => false,
                };
                if example {
                    push_link_arg(&mut next.args, arg.as_str());
                }
            },
            BuildScriptCommand::LinkArgBenches(arg) => {
                match &next.target_kind {
                    TargetKind::Bench => {
                        push_link_arg(&mut next.args, arg.as_str());
                    },
                    _ => {},
                }
            },
            BuildScriptCommand::LinkSearch(kind, path) => {
                let location = match kind {
                    Some(kind) => kind.concat("=").concat(path.as_str()),
                    None => path,
                };
                push_two(&mut next.args, "-L".to_owned(), location);
            },
            BuildScriptCommand::Flags(flags) => {
                push_link_flags(&mut next.args, flags.as_str());
            },
            BuildScriptCommand::Cfg(key, value) => {
                let combined = match value {
                    Some(value) => key.concat("=").concat(value.as_str()),
                    None => key,
                };
                push_two(&mut next.args, "--cfg".to_owned(), combined);
            },
            BuildScriptCommand::Env(key, value) => {
                set_variable(&mut next.env, key, value);
            },
            BuildScriptCommand::CdylibLinkArg(arg) => {
                if cdylib {
                    push_link_arg(&mut next.args, arg.as_str());
                }
            },
            BuildScriptCommand::RustcCheckCfg(_) => {},
            BuildScriptCommand::RerunIfChanged(_) => {},
        }
    }
}

/// What replaying the output of a build script came to.
#[derive(Debug, PartialEq, Eq)]
pub struct BuildScriptReplay {
    /// The positions of the lines that say nothing to the build tool.
    pub unknown: Vec<usize>,
    /// The error of the first line that was refused; the lines after it were
    /// not read.
    pub error: Option<BuildScriptError>,
}

/// What reading the first `k` lines of a build script comes to: the positions
/// of the lines that say nothing, and the error of the first line that is
/// refused, after which no line is read.
pub open spec fn scanned(lines: Seq<Seq<char>>, k: int) -> (Seq<usize>, Option<BuildScriptError>)
    decreases k,
{
    if k <= 0 {
        (Seq::empty(), None)
    } else {
        let before = scanned(lines, k - 1);
        if before.1 is Some {
            before
        } else {
            match parsed(lines[k - 1]) {
                None => (before.0.push((k - 1) as usize), None),
                Some(Err(error)) => (before.0, Some(error)),
                Some(Ok(command)) => before,
            }
        }
    }
}

/// Arguments and environment of the invocation `next` after the first `k`
/// lines of a build script were replayed on it: every instruction that is
/// read before a line is refused is handed on, in order.
pub open spec fn replayed(lines: Seq<Seq<char>>, next: BuildInvocation, k: int) -> (
    Seq<Seq<char>>,
    Seq<(Seq<char>, Seq<char>)>,
)
    decreases k,
{
    if k <= 0 {
        (texts(next.args@), text_pairs(next.env@))
    } else {
        let before = replayed(lines, next, k - 1);
        if scanned(lines, k - 1).1 is Some {
            before
        } else {
            match parsed(lines[k - 1]) {
                Some(Ok(command)) => (
                    args_with(before.0, next, command),
                    env_after(before.1, command),
                ),
                _ => before,
            }
        }
    }
}

/// Replays what a build script printed, line by line, on the invocation that
/// follows the script.
pub fn replay_build_script(lines: &Vec<String>, next: &mut BuildInvocation) -> (r: BuildScriptReplay)
    ensures
        texts(final(next).args@) == replayed(texts(lines@), *old(next), lines@.len() as int).0,
        text_pairs(final(next).env@) == replayed(texts(lines@), *old(next), lines@.len() as int).1,
        r.unknown@ == scanned(texts(lines@), lines@.len() as int).0,
        r.error == scanned(texts(lines@), lines@.len() as int).1,
        final(next).package_name == old(next).package_name,
        final(next).package_version == old(next).package_version,
        final(next).target_kind == old(next).target_kind,
        final(next).kind == old(next).kind,
        final(next).compile_mode == old(next).compile_mode,
        final(next).outputs == old(next).outputs,
        final(next).links == old(next).links,
        final(next).program == old(next).program,
        final(next).cwd == old(next).cwd,
{
    let ghost all = texts(lines@);
    let ghost start = *next;
    let mut unknown: Vec<usize> = Vec::new();
    let mut error: Option<BuildScriptError> = None;
    let mut i: usize = 0;
    while i < lines.len()
        invariant
            i <= lines.len(),
            all == texts(lines@),
            start == *old(next),
            texts(next.args@) == replayed(all, start, i as int).0,
            text_pairs(next.env@) == replayed(all, start, i as int).1,
            unknown@ == scanned(all, i as int).0,
            error == scanned(all, i as int).1,
            next.package_name == start.package_name,
            next.package_version == start.package_version,
            next.target_kind == start.target_kind,
            next.kind == start.kind,
            next.compile_mode == start.compile_mode,
            next.outputs == start.outputs,
            next.links == start.links,
            next.program == start.program,
            next.cwd == start.cwd,
        decreases lines.len() - i,
    {
        if error.is_none() {
            match BuildScriptCommand::parse(lines[i].as_str()) {
                None => {
                    unknown.push(i);
                },
                Some(Err(refused)) => {
                    error = Some(refused);
                },
                Some(Ok(command)) => {
                    let ghost current = *next;
                    assert(args_after(current, command@) == args_with(
                        texts(current.args@),
                        start,
                        command@,
                    ));
                    command.apply(next);
                },
            }
        }
        i += 1;
    }
    BuildScriptReplay { unknown, error }
}

/// Reads what a build script printed, where no invocation follows the script.
pub fn scan_build_script(lines: &Vec<String>) -> (r: BuildScriptReplay)
    ensures
        r.unknown@ == scanned(texts(lines@), lines@.len() as int).0,
        r.error == scanned(texts(lines@), lines@.len() as int).1,
{
    let mut unknown: Vec<usize> = Vec::new();
    let mut error: Option<BuildScriptError> = None;
    let mut i: usize = 0;
    while i < lines.len()
        invariant
            i <= lines.len(),
            unknown@ == scanned(texts(lines@), i as int).0,
            error == scanned(texts(lines@), i as int).1,
        decreases lines.len() - i,
    {
        if error.is_none() {
            match BuildScriptCommand::parse(lines[i].as_str()) {
                None => {
                    unknown.push(i);
                },
                Some(Err(refused)) => {
                    error = Some(refused);
                },
                Some(Ok(_)) => {},
            }
        }
        i += 1;
    }
    BuildScriptReplay { unknown, error }
}

/// Replays what the build script of invocation `script` printed on the plan:
/// on the invocation that follows the script, if one does. No other
/// invocation changes.
pub fn replay_on_plan(lines: &Vec<String>, plan: &mut BuildPlan, script: usize) -> (r:
    BuildScriptReplay)
    ensures
        r.unknown@ == scanned(texts(lines@), lines@.len() as int).0,
        r.error == scanned(texts(lines@), lines@.len() as int).1,
        final(plan).inputs == old(plan).inputs,
        final(plan).invocations@.len() == old(plan).invocations@.len(),
        forall|i: int|
            0 <= i < old(plan).invocations@.len() && i != script + 1 ==> final(plan).invocations@[i]
                == old(plan).invocations@[i],
        script + 1 < old(plan).invocations@.len() ==> {
            let before = old(plan).invocations@[script + 1];
            let after = final(plan).invocations@[script + 1];
            &&& texts(after.args@) == replayed(texts(lines@), before, lines@.len() as int).0
            &&& text_pairs(after.env@) == replayed(texts(lines@), before, lines@.len() as int).1
            &&& after.package_name == before.package_name
            &&& after.package_version == before.package_version
            &&& after.target_kind == before.target_kind
            &&& after.kind == before.kind
            &&& after.compile_mode == before.compile_mode
            &&& after.outputs == before.outputs
            &&& after.links == before.links
            &&& after.program == before.program
            &&& after.cwd == before.cwd
        },
{
    if script < plan.invocations.len() && script + 1 < plan.invocations.len() {
        replay_build_script(lines, &mut plan.invocations[script + 1])
    } else {
        scan_build_script(lines)
    }
}

/// The arguments of every invocation of a plan that compiles a target, without
/// those that ask for messages in JSON; any other invocation as it is.
pub fn strip_json_from_plan(plan: &mut BuildPlan)
    ensures
        final(plan).inputs == old(plan).inputs,
        final(plan).invocations@.len() == old(plan).invocations@.len(),
        forall|i: int|
            0 <= i < old(plan).invocations@.len() ==> {
                let before = old(plan).invocations@[i];
                let after = #[trigger] final(plan).invocations@[i];
                &&& texts(after.args@) == if before.compile_mode == CompileMode::Build {
                    without_json(texts(before.args@), before.args@.len() as int)
                } else {
                    texts(before.args@)
                }
                &&& after.env == before.env
                &&& after.package_name == before.package_name
                &&& after.package_version == before.package_version
                &&& after.target_kind == before.target_kind
                &&& after.kind == before.kind
                &&& after.compile_mode == before.compile_mode
                &&& after.outputs == before.outputs
                &&& after.links == before.links
                &&& after.program == before.program
                &&& after.cwd == before.cwd
            },
{
    let mut i: usize = 0;
    while i < plan.invocations.len()
        invariant
            i <= plan.invocations.len(),
            plan.inputs == old(plan).inputs,
            plan.invocations@.len() == old(plan).invocations@.len(),
            forall|k: int| i <= k < plan.invocations@.len() ==> plan.invocations@[k] == old(plan).invocations@[k],
            forall|k: int|
                0 <= k < i ==> {
                    let before = old(plan).invocations@[k];
                    let after = #[trigger] plan.invocations@[k];
                    &&& texts(after.args@) == if before.compile_mode == CompileMode::Build {
                        without_json(texts(before.args@), before.args@.len() as int)
                    } else {
                        texts(before.args@)
                    }
                    &&& after.env == before.env
                    &&& after.package_name == before.package_name
                    &&& after.package_version == before.package_version
                    &&& after.target_kind == before.target_kind
                    &&& after.kind == before.kind
                    &&& after.compile_mode == before.compile_mode
                    &&& after.outputs == before.outputs
                    &&& after.links == before.links
                    &&& after.program == before.program
                    &&& after.cwd == before.cwd
                },
        decreases plan.invocations.len() - i,
    {
        match plan.invocations[i].compile_mode {
            CompileMode::Build => {
                let kept = strip_json_arguments(&plan.invocations[i].args);
                plan.invocations[i].args = kept;
            },
            CompileMode::RunCustomBuild => {},
        }
        i += 1;
    }
}

} // verus!
