//! The rules by which the compiler is told where its toolchain lies.

use vstd::prelude::*;
use vstd::string::StringExecFns;
use crate::analysis::build_plan::texts;
use crate::text::str_eq;

verus! {

/// The first of two values that is there.
pub open spec fn either(first: Option<Seq<char>>, second: Option<Seq<char>>) -> Option<Seq<char>> {
    match first {
        Some(value) => Some(value),
        None => second,
    }
}

/// The directory of the toolchain that the checker was built with: none under
/// a staged compiler build; the toolchain directory under the home of the
/// toolchain manager where both are known; else the directory that was given.
pub open spec fn sysroot(
    stage: Option<Seq<char>>,
    home: Option<Seq<char>>,
    toolchain: Option<Seq<char>>,
    given: Option<Seq<char>>,
) -> Option<Seq<char>> {
    if stage is Some {
        None
    } else {
        match (home, toolchain) {
            (Some(home), Some(toolchain)) => Some(home + "/toolchains/"@ + toolchain),
            _ => given,
        }
    }
}

/// The value of an optional text.
pub open spec fn text_of(value: Option<&str>) -> Option<Seq<char>> {
    match value {
        Some(value) => Some(value@),
        None => None,
    }
}

/// The directory of the toolchain, from the values of the build environment:
/// the stage of a compiler build, the home and the toolchain of the toolchain
/// manager under either of their names, and a directory given outright, which
/// has to be there where the toolchain manager is not known.
pub fn compile_time_sysroot(
    stage: Option<&str>,
    rustup_home: Option<&str>,
    multirust_home: Option<&str>,
    rustup_toolchain: Option<&str>,
    multirust_toolchain: Option<&str>,
    rust_sysroot: Option<&str>,
) -> (r: Option<String>)
    requires
        stage is None && (either(text_of(rustup_home), text_of(multirust_home)) is None || either(
            text_of(rustup_toolchain),
            text_of(multirust_toolchain),
        ) is None) ==> rust_sysroot is Some,
    ensures
        match r {
            Some(path) => Some(path@),
            None => None,
        } == sysroot(
            text_of(stage),
            either(text_of(rustup_home), text_of(multirust_home)),
            either(text_of(rustup_toolchain), text_of(multirust_toolchain)),
            text_of(rust_sysroot),
        ),
{
    if stage.is_some() {
        return None;
    }
    let home = match rustup_home {
        Some(home) => Some(home),
        None => multirust_home,
    };
    let toolchain = match rustup_toolchain {
        Some(toolchain) => Some(toolchain),
        None => multirust_toolchain,
    };
    match (home, toolchain) {
        (Some(home), Some(toolchain)) => Some(
            home.to_owned().concat("/toolchains/").concat(toolchain),
        ),
        _ => match rust_sysroot {
            Some(given) => Some(given.to_owned()),
            None => None,
        },
    }
}

/// The arguments of the compiler with the toolchain directory: where one is
/// known and the arguments name none, the flag `--sysroot` and the directory
/// are added at the end.
pub open spec fn arguments_with_sysroot(args: Seq<Seq<char>>, sysroot: Option<Seq<char>>) -> Seq<
    Seq<char>,
> {
    match sysroot {
        Some(path) => if args.contains("--sysroot"@) {
            args
        } else {
            args.push("--sysroot"@).push(path)
        },
        None => args,
    }
}

/// The arguments of the compiler with the toolchain directory.
pub fn with_sysroot(arguments: Vec<String>, sysroot: Option<String>) -> (r: Vec<String>)
    ensures
        texts(r@) == arguments_with_sysroot(
            texts(arguments@),
            match sysroot {
                Some(path) => Some(path@),
                None => None,
            },
        ),
{
    let ghost given = texts(arguments@);
    let mut args = arguments;
    match sysroot {
        Some(path) => {
            let mut i: usize = 0;
            while i < args.len()
                invariant
                    i <= args.len(),
                    texts(args@) == given,
                    given == texts(arguments@),
                    sysroot == Some(path),
                    forall|k: int| 0 <= k < i ==> texts(args@)[k] != "--sysroot"@,
                decreases args.len() - i,
            {
                if str_eq(args[i].as_str(), "--sysroot") {
                    assert(texts(args@)[i as int] == "--sysroot"@);
                    assert(given.contains("--sysroot"@));
                    return args;
                }
                i += 1;
            }
            let ghost before = texts(args@);
            args.push("--sysroot".to_owned());
            args.push(path);
            assert(texts(args@) =~= before.push("--sysroot"@).push(path@));
            args
        },
        None => args,
    }
}

} // verus!
