//! The build plan of the build tool: what is run, in order, to build a crate.

use vstd::prelude::*;
use crate::text::str_eq;

verus! {

/// What an invocation of a build plan does.
#[derive(Debug, Clone, Copy, PartialEq, Eq, Structural)]
pub enum CompileMode {
    /// It runs a build script.
    RunCustomBuild,
    /// It compiles a target.
    Build,
}

/// The kind of target that an invocation builds. A library target carries its
/// crate types.
#[derive(Debug, PartialEq, Eq)]
pub enum TargetKind {
    Lib(Vec<String>),
    Bin,
    Test,
    Bench,
    ExampleLib(Vec<String>),
    ExampleBin,
    CustomBuild,
}

/// The values of a sequence of texts.
pub open spec fn texts(list: Seq<String>) -> Seq<Seq<char>> {
    Seq::new(list.len(), |i: int| list[i]@)
}

/// The values of a sequence of pairs of texts.
pub open spec fn text_pairs(list: Seq<(String, String)>) -> Seq<(Seq<char>, Seq<char>)> {
    Seq::new(list.len(), |i: int| (list[i].0@, list[i].1@))
}

impl TargetKind {
    /// Whether the target is a library with the crate type `cdylib`.
    pub open spec fn spec_is_cdylib(&self) -> bool {
        match self {
            TargetKind::Lib(kinds) => texts(kinds@).contains("cdylib"@),
            _ => false,
        }
    }

    /// Whether the target is a library with the crate type `cdylib`.
    pub fn is_cdylib(&self) -> (r: bool)
        ensures
            r == self.spec_is_cdylib(),
    {
        match self {
            TargetKind::Lib(kinds) => {
                let mut i: usize = 0;
                while i < kinds.len()
                    invariant
                        i <= kinds.len(),
                        *self matches TargetKind::Lib(held) && held == *kinds,
                        forall|k: int| 0 <= k < i ==> texts(kinds@)[k] != "cdylib"@,
                    decreases kinds.len() - i,
                {
                    if str_eq(kinds[i].as_str(), "cdylib") {
                        assert(texts(kinds@)[i as int] == "cdylib"@);
                        return true;
                    }
                    i += 1;
                }
                false
            },
            _ => false,
        }
    }
}

/// One step of a build plan: a program to run for a target of a package, with
/// its arguments, its environment, and the links to make afterwards.
#[derive(Debug, PartialEq, Eq)]
pub struct BuildInvocation {
    pub package_name: String,
    pub package_version: String,
    pub target_kind: TargetKind,
    pub kind: Option<String>,
    pub compile_mode: CompileMode,
    pub outputs: Vec<String>,
    /// Pairs of link name and target.
    pub links: Vec<(String, String)>,
    pub program: String,
    pub args: Vec<String>,
    /// Pairs of variable and value; no variable occurs twice.
    pub env: Vec<(String, String)>,
    pub cwd: Option<String>,
}

/// A build plan: the steps to take, in order.
#[derive(Debug, PartialEq, Eq)]
pub struct BuildPlan {
    pub invocations: Vec<BuildInvocation>,
    pub inputs: Vec<String>,
}

/// The kind of target that a list of names of a build plan stands for: a
/// single `bin`, `example`, `test`, `bench` or `custom-build` names that kind;
/// any other list holds the crate types of a library.
pub open spec fn kind_named(names: Seq<Seq<char>>) -> TargetKindModel {
    if names.len() == 1 && names[0] == "bin"@ {
        TargetKindModel::Bin
    } else if names.len() == 1 && names[0] == "example"@ {
        TargetKindModel::ExampleBin
    } else if names.len() == 1 && names[0] == "test"@ {
        TargetKindModel::Test
    } else if names.len() == 1 && names[0] == "bench"@ {
        TargetKindModel::Bench
    } else if names.len() == 1 && names[0] == "custom-build"@ {
        TargetKindModel::CustomBuild
    } else {
        TargetKindModel::Lib(names)
    }
}

/// The mathematical value of a [`TargetKind`].
pub enum TargetKindModel {
    Lib(Seq<Seq<char>>),
    Bin,
    Test,
    Bench,
    ExampleLib(Seq<Seq<char>>),
    ExampleBin,
    CustomBuild,
}

impl View for TargetKind {
    type V = TargetKindModel;

    open spec fn view(&self) -> TargetKindModel {
        match self {
            TargetKind::Lib(kinds) => TargetKindModel::Lib(texts(kinds@)),
            TargetKind::Bin => TargetKindModel::Bin,
            TargetKind::Test => TargetKindModel::Test,
            TargetKind::Bench => TargetKindModel::Bench,
            TargetKind::ExampleLib(kinds) => TargetKindModel::ExampleLib(texts(kinds@)),
            TargetKind::ExampleBin => TargetKindModel::ExampleBin,
            TargetKind::CustomBuild => TargetKindModel::CustomBuild,
        }
    }
}

impl TargetKind {
    /// The kind of target that a list of names of a build plan stands for.
    pub fn from_names(names: Vec<String>) -> (r: TargetKind)
        ensures
            r@ == kind_named(texts(names@)),
    {
        if names.len() == 1 {
            let name = names[0].as_str();
            if str_eq(name, "bin") {
                return TargetKind::Bin;
            } else if str_eq(name, "example") {
                return TargetKind::ExampleBin;
            } else if str_eq(name, "test") {
                return TargetKind::Test;
            } else if str_eq(name, "bench") {
                return TargetKind::Bench;
            } else if str_eq(name, "custom-build") {
                return TargetKind::CustomBuild;
            }
        }
        TargetKind::Lib(names)
    }
}

} // verus!
