//! The catalog of taint sources: functions whose results come from outside
//! the program.

use vstd::prelude::*;
use vstd::string::StringExecFns;
use crate::text::is_prefix_of;
use crate::text::str_eq;
use crate::text::str_strip_prefix;

verus! {

/// A named group of taint sources.
#[derive(Debug, Hash, PartialEq, Eq)]
pub struct TaintSourceDefinition<'a> {
    pub taint_module_name: &'a str,
    pub taint_module_description: &'a str,
    pub sources: Vec<TaintSource<'a>>,
}

/// Functions, by their fully qualified names, whose results are tainted, and
/// the reason why.
#[derive(Debug, Hash, PartialEq, Eq)]
pub struct TaintSource<'a> {
    pub functions: Vec<&'a str>,
    pub description: &'a str,
}

/// The mathematical value of a taint source.
pub struct TaintSourceModel {
    pub functions: Seq<Seq<char>>,
    pub description: Seq<char>,
}

/// The values of a sequence of names.
pub open spec fn names_model(names: Seq<&str>) -> Seq<Seq<char>> {
    Seq::new(names.len(), |i: int| names[i]@)
}

impl<'a> View for TaintSource<'a> {
    type V = TaintSourceModel;

    open spec fn view(&self) -> TaintSourceModel {
        TaintSourceModel { functions: names_model(self.functions@), description: self.description@ }
    }
}

/// The values of a sequence of taint sources.
pub open spec fn sources_model(sources: Seq<TaintSource>) -> Seq<TaintSourceModel> {
    Seq::new(sources.len(), |i: int| sources[i]@)
}

impl<'a> Clone for TaintSource<'a> {
    fn clone(&self) -> (r: Self)
        ensures
            r@ == self@,
    {
        let mut functions: Vec<&'a str> = Vec::new();
        let mut i: usize = 0;
        while i < self.functions.len()
            invariant
                i <= self.functions.len(),
                functions.len() == i,
                forall|k: int| 0 <= k < i ==> functions[k]@ == self.functions[k]@,
            decreases self.functions.len() - i,
        {
            functions.push(self.functions[i]);
            i += 1;
        }
        assert(names_model(functions@) =~= names_model(self.functions@));
        TaintSource { functions, description: self.description }
    }
}

impl<'a> TaintSource<'a> {
    /// Whether this source names the function `name`.
    pub fn names_function(&self, name: &str) -> (r: bool)
        ensures
            r == self@.functions.contains(name@),
    {
        let mut i: usize = 0;
        while i < self.functions.len()
            invariant
                i <= self.functions.len(),
                forall|k: int| 0 <= k < i ==> self@.functions[k] != name@,
            decreases self.functions.len() - i,
        {
            if str_eq(self.functions[i], name) {
                assert(self@.functions[i as int] == name@);
                return true;
            }
            i += 1;
        }
        false
    }
}

/// The mathematical value of a group of taint sources.
pub struct DefinitionModel {
    pub taint_module_name: Seq<char>,
    pub taint_module_description: Seq<char>,
    pub sources: Seq<TaintSourceModel>,
}

impl<'a> View for TaintSourceDefinition<'a> {
    type V = DefinitionModel;

    open spec fn view(&self) -> DefinitionModel {
        DefinitionModel {
            taint_module_name: self.taint_module_name@,
            taint_module_description: self.taint_module_description@,
            sources: sources_model(self.sources@),
        }
    }
}

/// The values of a sequence of groups.
pub open spec fn definitions_model(definitions: Seq<TaintSourceDefinition>) -> Seq<DefinitionModel> {
    Seq::new(definitions.len(), |i: int| definitions[i]@)
}

/// A taint source that owns its text.
#[derive(Debug, PartialEq, Eq)]
pub struct TaintSourceOwned {
    pub functions: Vec<String>,
    pub description: String,
}

/// The values of a sequence of owned names.
pub open spec fn strings_model(names: Seq<String>) -> Seq<Seq<char>> {
    Seq::new(names.len(), |i: int| names[i]@)
}

impl View for TaintSourceOwned {
    type V = TaintSourceModel;

    open spec fn view(&self) -> TaintSourceModel {
        TaintSourceModel { functions: strings_model(self.functions@), description: self.description@ }
    }
}

/// The values of a sequence of owned taint sources.
pub open spec fn owned_sources_model(sources: Seq<TaintSourceOwned>) -> Seq<TaintSourceModel> {
    Seq::new(sources.len(), |i: int| sources[i]@)
}

/// A group of taint sources that owns its text.
#[derive(Debug, PartialEq, Eq)]
pub struct TaintSourceDefinitionOwned {
    pub taint_module_name: String,
    pub taint_module_description: String,
    pub sources: Vec<TaintSourceOwned>,
}

impl View for TaintSourceDefinitionOwned {
    type V = DefinitionModel;

    open spec fn view(&self) -> DefinitionModel {
        DefinitionModel {
            taint_module_name: self.taint_module_name@,
            taint_module_description: self.taint_module_description@,
            sources: owned_sources_model(self.sources@),
        }
    }
}

impl TaintSourceOwned {
    /// The owned form of a taint source.
    pub fn from_source(source: &TaintSource) -> (r: TaintSourceOwned)
        ensures
            r@ == source@,
    {
        let mut functions: Vec<String> = Vec::new();
        let mut i: usize = 0;
        while i < source.functions.len()
            invariant
                i <= source.functions.len(),
                functions.len() == i,
                forall|k: int| 0 <= k < i ==> functions[k]@ == source.functions[k]@,
            decreases source.functions.len() - i,
        {
            functions.push(source.functions[i].to_owned());
            i += 1;
        }
        assert(strings_model(functions@) =~= names_model(source.functions@));
        TaintSourceOwned { functions, description: source.description.to_owned() }
    }
}

impl TaintSourceDefinitionOwned {
    /// The owned form of a group of taint sources.
    pub fn from_definition(definition: &TaintSourceDefinition) -> (r: TaintSourceDefinitionOwned)
        ensures
            r@ == definition@,
    {
        let mut sources: Vec<TaintSourceOwned> = Vec::new();
        let mut i: usize = 0;
        while i < definition.sources.len()
            invariant
                i <= definition.sources.len(),
                sources.len() == i,
                forall|k: int| 0 <= k < i ==> sources[k]@ == definition.sources[k]@,
            decreases definition.sources.len() - i,
        {
            sources.push(TaintSourceOwned::from_source(&definition.sources[i]));
            i += 1;
        }
        assert(owned_sources_model(sources@) =~= sources_model(definition.sources@));
        TaintSourceDefinitionOwned {
            taint_module_name: definition.taint_module_name.to_owned(),
            taint_module_description: definition.taint_module_description.to_owned(),
            sources,
        }
    }
}

/// The taint sources of the first `k` groups, in order.
pub open spec fn sources_upto(definitions: Seq<DefinitionModel>, k: int) -> Seq<TaintSourceModel>
    decreases k,
{
    if k <= 0 {
        Seq::empty()
    } else {
        sources_upto(definitions, k - 1) + definitions[k - 1].sources
    }
}

/// All taint sources of all groups, in order.
pub open spec fn all_sources(definitions: Seq<DefinitionModel>) -> Seq<TaintSourceModel> {
    sources_upto(definitions, definitions.len() as int)
}

/// Whether a taint source names a function that starts with the prefix.
pub open spec fn names_with_prefix(source: TaintSourceModel, prefix: Seq<char>) -> bool {
    exists|i: int|
        0 <= i < source.functions.len() && is_prefix_of(prefix, #[trigger] source.functions[i])
}

/// Whether a taint source names a function that starts with one of the
/// prefixes.
pub open spec fn names_with_some_prefix(source: TaintSourceModel, prefixes: Seq<Seq<char>>) -> bool {
    exists|p: int| 0 <= p < prefixes.len() && names_with_prefix(source, #[trigger] prefixes[p])
}

/// Among the first `k` taint sources those that name a function that starts
/// with one of the prefixes, in their order, each once: where one occurs again
/// it is left out.
pub open spec fn matching_upto(
    sources: Seq<TaintSourceModel>,
    prefixes: Seq<Seq<char>>,
    k: int,
) -> Seq<TaintSourceModel>
    decreases k,
{
    if k <= 0 {
        Seq::empty()
    } else {
        let before = matching_upto(sources, prefixes, k - 1);
        if names_with_some_prefix(sources[k - 1], prefixes) && !before.contains(sources[k - 1]) {
            before.push(sources[k - 1])
        } else {
            before
        }
    }
}

/// The taint sources in use: all of them where no prefix is given, else the
/// catalog filtered to those that name a function that starts with one of the
/// prefixes, in the order of the catalog, each once.
pub open spec fn selected_sources(
    definitions: Seq<DefinitionModel>,
    prefixes: Seq<Seq<char>>,
) -> Seq<TaintSourceModel> {
    if prefixes.len() == 0 {
        all_sources(definitions)
    } else {
        matching_upto(all_sources(definitions), prefixes, all_sources(definitions).len() as int)
    }
}

/// What a selection by prefixes holds: exactly the taint sources of the
/// catalog that name a function that starts with one of the prefixes, and
/// none of them twice.
pub proof fn lemma_selection_is_filtered_catalog(
    sources: Seq<TaintSourceModel>,
    prefixes: Seq<Seq<char>>,
    k: int,
)
    requires
        0 <= k <= sources.len(),
    ensures
        forall|s: TaintSourceModel|
            #[trigger] matching_upto(sources, prefixes, k).contains(s) <==> (
            names_with_some_prefix(s, prefixes) && sources.subrange(0, k).contains(s)),
        matching_upto(sources, prefixes, k).no_duplicates(),
    decreases k,
{
    let now = matching_upto(sources, prefixes, k);
    if k > 0 {
        lemma_selection_is_filtered_catalog(sources, prefixes, k - 1);
        let before = matching_upto(sources, prefixes, k - 1);
        let last = sources[k - 1];
        let head = sources.subrange(0, k - 1);
        let all = sources.subrange(0, k);
        assert(all =~= head.push(last));
        assert forall|s: TaintSourceModel| #[trigger] now.contains(s) <==> (names_with_some_prefix(
            s,
            prefixes,
        ) && all.contains(s)) by {
            if now.contains(s) {
                let i = choose|i: int| 0 <= i < now.len() && now[i] == s;
                if i < before.len() {
                    assert(before[i] == s);
                    assert(before.contains(s));
                    assert(head.contains(s));
                    let j = choose|j: int| 0 <= j < head.len() && head[j] == s;
                    assert(all[j] == s);
                } else {
                    assert(s == last);
                    assert(all[k - 1] == s);
                }
            }
            if names_with_some_prefix(s, prefixes) && all.contains(s) {
                let j = choose|j: int| 0 <= j < all.len() && all[j] == s;
                if j < k - 1 {
                    assert(head[j] == s);
                    assert(head.contains(s));
                    assert(before.contains(s));
                    let i = choose|i: int| 0 <= i < before.len() && before[i] == s;
                    assert(now[i] == s);
                } else if before.contains(s) {
                    let i = choose|i: int| 0 <= i < before.len() && before[i] == s;
                    assert(now[i] == s);
                } else {
                    assert(now == before.push(last));
                    assert(now[now.len() - 1] == s);
                }
            }
        }
        assert forall|i: int, j: int| 0 <= i < now.len() && 0 <= j < now.len() && i != j implies now[i]
            != now[j] by {
            if i < before.len() && j < before.len() {
                assert(before[i] != before[j]);
            } else if i < before.len() {
                assert(before.contains(before[i]));
            } else if j < before.len() {
                assert(before.contains(before[j]));
            }
        }
    } else {
        assert(sources.subrange(0, 0) =~= Seq::empty());
    }
}

/// Why no analysis can be made with a selection of taint sources.
#[derive(Debug, Clone, Copy, PartialEq, Eq, Structural)]
pub enum TaintSourceError {
    /// The selection holds no taint source.
    NoTaintSources,
}

impl<'a> TaintSource<'a> {
    /// Whether two taint sources are the same.
    pub fn same(&self, other: &TaintSource) -> (r: bool)
        ensures
            r == (self@ == other@),
    {
        if !str_eq(self.description, other.description) {
            return false;
        }
        if self.functions.len() != other.functions.len() {
            assert(self@.functions.len() != other@.functions.len());
            return false;
        }
        let mut i: usize = 0;
        while i < self.functions.len()
            invariant
                i <= self.functions.len(),
                self.functions.len() == other.functions.len(),
                forall|k: int| 0 <= k < i ==> self.functions[k]@ == other.functions[k]@,
            decreases self.functions.len() - i,
        {
            if !str_eq(self.functions[i], other.functions[i]) {
                assert(self@.functions[i as int] != other@.functions[i as int]);
                return false;
            }
            i += 1;
        }
        assert(self@.functions =~= other@.functions);
        true
    }

    /// Whether this source names a function that starts with the prefix.
    pub fn names_prefix(&self, prefix: &str) -> (r: bool)
        ensures
            r == names_with_prefix(self@, prefix@),
    {
        let mut i: usize = 0;
        while i < self.functions.len()
            invariant
                i <= self.functions.len(),
                forall|k: int| 0 <= k < i ==> !is_prefix_of(prefix@, #[trigger] self@.functions[k]),
            decreases self.functions.len() - i,
        {
            if str_strip_prefix(self.functions[i], prefix).is_some() {
                assert(is_prefix_of(prefix@, self@.functions[i as int]));
                return true;
            }
            i += 1;
        }
        false
    }
}

fn holds_source(list: &Vec<TaintSource>, source: &TaintSource) -> (r: bool)
    ensures
        r == sources_model(list@).contains(source@),
{
    let mut i: usize = 0;
    while i < list.len()
        invariant
            i <= list.len(),
            forall|k: int| 0 <= k < i ==> sources_model(list@)[k] != source@,
        decreases list.len() - i,
    {
        if list[i].same(source) {
            assert(sources_model(list@)[i as int] == source@);
            return true;
        }
        i += 1;
    }
    false
}

/// All taint sources of all groups, in order.
pub fn collect_sources<'a>(definitions: &Vec<TaintSourceDefinition<'a>>) -> (r: Vec<TaintSource<'a>>)
    ensures
        sources_model(r@) == all_sources(definitions_model(definitions@)),
{
    let ghost model = definitions_model(definitions@);
    let mut out: Vec<TaintSource<'a>> = Vec::new();
    assert(sources_model(out@) =~= sources_upto(model, 0));
    let mut d: usize = 0;
    while d < definitions.len()
        invariant
            d <= definitions.len(),
            model == definitions_model(definitions@),
            sources_model(out@) == sources_upto(model, d as int),
        decreases definitions.len() - d,
    {
        let ghost before = sources_model(out@);
        let group = &definitions[d].sources;
        let mut i: usize = 0;
        while i < group.len()
            invariant
                i <= group.len(),
                sources_model(out@) == before + sources_model(group@).subrange(0, i as int),
            decreases group.len() - i,
        {
            let ghost inner = sources_model(out@);
            out.push(group[i].clone());
            assert(sources_model(out@) =~= inner.push(group[i as int]@));
            assert(sources_model(out@) =~= before + sources_model(group@).subrange(0, i + 1));
            i += 1;
        }
        assert(sources_model(group@).subrange(0, group.len() as int) =~= model[d as int].sources);
        d += 1;
    }
    out
}

impl<'a> TaintSource<'a> {
    /// Whether this source names a function that starts with one of the
    /// prefixes.
    pub fn names_some_prefix(&self, prefixes: &Vec<String>) -> (r: bool)
        ensures
            r == names_with_some_prefix(self@, strings_model(prefixes@)),
    {
        let mut p: usize = 0;
        while p < prefixes.len()
            invariant
                p <= prefixes.len(),
                forall|k: int|
                    0 <= k < p ==> !names_with_prefix(self@, #[trigger] strings_model(prefixes@)[k]),
            decreases prefixes.len() - p,
        {
            if self.names_prefix(prefixes[p].as_str()) {
                assert(names_with_prefix(self@, strings_model(prefixes@)[p as int]));
                return true;
            }
            p += 1;
        }
        false
    }
}

/// The taint sources in use for a list of name prefixes: the whole catalog
/// where no prefix is given, else the catalog filtered to the sources that
/// name a function with one of the prefixes. A selection that holds no taint
/// source is refused, and no other.
pub fn select_taint_sources<'a>(
    definitions: &Vec<TaintSourceDefinition<'a>>,
    prefixes: &Vec<String>,
) -> (r: Result<Vec<TaintSource<'a>>, TaintSourceError>)
    ensures
        match r {
            Ok(sources) => sources_model(sources@) == selected_sources(
                definitions_model(definitions@),
                strings_model(prefixes@),
            ) && sources@.len() > 0,
            Err(error) => error == TaintSourceError::NoTaintSources && selected_sources(
                definitions_model(definitions@),
                strings_model(prefixes@),
            ).len() == 0,
        },
{
    let all = collect_sources(definitions);
    let ghost pool = sources_model(all@);
    let ghost wanted = strings_model(prefixes@);
    let selected = if prefixes.len() == 0 {
        all
    } else {
        let mut out: Vec<TaintSource<'a>> = Vec::new();
        assert(sources_model(out@) =~= matching_upto(pool, wanted, 0));
        let mut i: usize = 0;
        while i < all.len()
            invariant
                i <= all.len(),
                pool == sources_model(all@),
                wanted == strings_model(prefixes@),
                sources_model(out@) == matching_upto(pool, wanted, i as int),
            decreases all.len() - i,
        {
            let ghost before = sources_model(out@);
            if all[i].names_some_prefix(prefixes) && !holds_source(&out, &all[i]) {
                out.push(all[i].clone());
                assert(sources_model(out@) =~= before.push(pool[i as int]));
            }
            i += 1;
        }
        out
    };
    if selected.len() == 0 {
        Err(TaintSourceError::NoTaintSources)
    } else {
        Ok(selected)
    }
}

impl TaintSourceError {
    /// The message of the error.
    pub fn message(&self) -> (r: String)
        ensures
            r@ == "No taint sources found"@,
    {
        "No taint sources found".to_owned()
    }
}

/// One declared entry of a catalog file: function names that are relative to
/// the prefix of their library, and the reason why they are taint sources.
#[derive(Debug, PartialEq, Eq)]
pub struct TaintSourceJson {
    pub functions: Vec<String>,
    pub description: String,
}

/// The declared entries of one library.
#[derive(Debug, PartialEq, Eq)]
pub struct TaintModuleLibraryJson {
    pub module_prefix: String,
    pub taint_sources: Vec<TaintSourceJson>,
}

/// One catalog file: a named group of libraries.
#[derive(Debug, PartialEq, Eq)]
pub struct TaintModuleJson {
    pub taint_module_name: String,
    pub description: String,
    pub content: Vec<TaintModuleLibraryJson>,
}

/// The fully qualified name of a function of a library: the name itself where
/// the library has no prefix, else prefix and name joined by `::`.
pub open spec fn qualified(prefix: Seq<char>, function: Seq<char>) -> Seq<char> {
    if prefix.len() == 0 {
        function
    } else {
        prefix + "::"@ + function
    }
}

/// The taint source that a declared entry of a library with this prefix stands
/// for.
pub open spec fn declared_source(prefix: Seq<char>, entry: TaintSourceJson) -> TaintSourceModel {
    TaintSourceModel {
        functions: Seq::new(
            entry.functions@.len(),
            |i: int| qualified(prefix, entry.functions@[i]@),
        ),
        description: entry.description@,
    }
}

/// The taint sources of a library.
pub open spec fn library_sources(library: TaintModuleLibraryJson) -> Seq<TaintSourceModel> {
    Seq::new(
        library.taint_sources@.len(),
        |i: int| declared_source(library.module_prefix@, library.taint_sources@[i]),
    )
}

/// The taint sources of the first `k` libraries of a list, in order.
pub open spec fn libraries_sources(content: Seq<TaintModuleLibraryJson>, k: int) -> Seq<
    TaintSourceModel,
>
    decreases k,
{
    if k <= 0 {
        Seq::empty()
    } else {
        libraries_sources(content, k - 1) + library_sources(content[k - 1])
    }
}

/// The group of taint sources that a catalog file declares.
pub open spec fn declared_definition(module: TaintModuleJson) -> DefinitionModel {
    DefinitionModel {
        taint_module_name: module.taint_module_name@,
        taint_module_description: module.description@,
        sources: libraries_sources(module.content@, module.content@.len() as int),
    }
}

fn qualify(prefix: &str, function: &str) -> (r: String)
    ensures
        r@ == qualified(prefix@, function@),
{
    if prefix.is_empty() {
        function.to_owned()
    } else {
        let name = prefix.to_owned().concat("::").concat(function);
        name
    }
}

fn load_source(prefix: &str, entry: &TaintSourceJson) -> (r: TaintSourceOwned)
    ensures
        r@ == declared_source(prefix@, *entry),
{
    let mut functions: Vec<String> = Vec::new();
    let mut i: usize = 0;
    while i < entry.functions.len()
        invariant
            i <= entry.functions.len(),
            functions.len() == i,
            forall|k: int| 0 <= k < i ==> functions[k]@ == qualified(prefix@, entry.functions@[k]@),
        decreases entry.functions.len() - i,
    {
        functions.push(qualify(prefix, entry.functions[i].as_str()));
        i += 1;
    }
    assert(strings_model(functions@) =~= declared_source(prefix@, *entry).functions);
    TaintSourceOwned { functions, description: entry.description.clone() }
}

/// Loads one catalog file: every declared entry becomes a taint source whose
/// functions carry the prefix of their library.
pub fn load_taint_module(module: &TaintModuleJson) -> (r: TaintSourceDefinitionOwned)
    ensures
        r@ == declared_definition(*module),
{
    let mut sources: Vec<TaintSourceOwned> = Vec::new();
    assert(owned_sources_model(sources@) =~= libraries_sources(module.content@, 0));
    let mut l: usize = 0;
    while l < module.content.len()
        invariant
            l <= module.content.len(),
            owned_sources_model(sources@) == libraries_sources(module.content@, l as int),
        decreases module.content.len() - l,
    {
        let library = &module.content[l];
        let ghost before = owned_sources_model(sources@);
        let mut i: usize = 0;
        while i < library.taint_sources.len()
            invariant
                i <= library.taint_sources.len(),
                owned_sources_model(sources@) == before + library_sources(*library).subrange(
                    0,
                    i as int,
                ),
            decreases library.taint_sources.len() - i,
        {
            let ghost inner = owned_sources_model(sources@);
            let source = load_source(library.module_prefix.as_str(), &library.taint_sources[i]);
            sources.push(source);
            assert(owned_sources_model(sources@) =~= inner.push(library_sources(*library)[i as int]));
            assert(owned_sources_model(sources@) =~= before + library_sources(*library).subrange(
                0,
                i + 1,
            ));
            i += 1;
        }
        assert(library_sources(*library).subrange(0, library.taint_sources@.len() as int)
            =~= library_sources(*library));
        l += 1;
    }
    TaintSourceDefinitionOwned {
        taint_module_name: module.taint_module_name.clone(),
        taint_module_description: module.description.clone(),
        sources,
    }
}

impl TaintSourceOwned {
    /// The taint source, with its text borrowed.
    pub fn as_source<'a>(&'a self) -> (r: TaintSource<'a>)
        ensures
            r@ == self@,
    {
        let mut functions: Vec<&'a str> = Vec::new();
        let mut i: usize = 0;
        while i < self.functions.len()
            invariant
                i <= self.functions.len(),
                functions.len() == i,
                forall|k: int| 0 <= k < i ==> functions[k]@ == self.functions[k]@,
            decreases self.functions.len() - i,
        {
            functions.push(self.functions[i].as_str());
            i += 1;
        }
        assert(names_model(functions@) =~= strings_model(self.functions@));
        TaintSource { functions, description: self.description.as_str() }
    }
}

impl TaintSourceDefinitionOwned {
    /// The group of taint sources, with its text borrowed.
    pub fn as_definition<'a>(&'a self) -> (r: TaintSourceDefinition<'a>)
        ensures
            r@ == self@,
    {
        let mut sources: Vec<TaintSource<'a>> = Vec::new();
        let mut i: usize = 0;
        while i < self.sources.len()
            invariant
                i <= self.sources.len(),
                sources.len() == i,
                forall|k: int| 0 <= k < i ==> sources[k]@ == self.sources[k]@,
            decreases self.sources.len() - i,
        {
            sources.push(self.sources[i].as_source());
            i += 1;
        }
        assert(sources_model(sources@) =~= owned_sources_model(self.sources@));
        TaintSourceDefinition {
            taint_module_name: self.taint_module_name.as_str(),
            taint_module_description: self.taint_module_description.as_str(),
            sources,
        }
    }
}

/// The taint sources around the environment of the process.
pub open spec fn environment_definition() -> DefinitionModel {
    DefinitionModel {
        taint_module_name: "env"@,
        taint_module_description: "Values that the environment of the process hands in"@,
        sources: seq![
            TaintSourceModel {
                functions: seq![
                    "std::env::var"@,
                    "std::env::var_os"@,
                    "std::env::vars"@,
                    "std::env::vars_os"@,
                ],
                description: "Environment variables are set by whoever starts the process"@,
            },
            TaintSourceModel {
                functions: seq!["std::env::args"@, "std::env::args_os"@],
                description: "Command line arguments are set by whoever starts the process"@,
            },
        ],
    }
}

/// The taint sources around files.
pub open spec fn file_definition() -> DefinitionModel {
    DefinitionModel {
        taint_module_name: "fs"@,
        taint_module_description: "Values that are read from the file system"@,
        sources: seq![
            TaintSourceModel {
                functions: seq![
                    "std::fs::File::open"@,
                    "std::fs::read"@,
                    "std::fs::read_to_string"@,
                ],
                description: "The content of a file may come from an untrusted party"@,
            },
        ],
    }
}

/// The catalog that is built in.
pub open spec fn builtin_definitions() -> Seq<DefinitionModel> {
    seq![environment_definition(), file_definition()]
}

fn builtin_source(functions: Vec<&'static str>, description: &'static str) -> (r: TaintSource<
    'static,
>)
    ensures
        r@ == (TaintSourceModel { functions: names_model(functions@), description: description@ }),
{
    TaintSource { functions, description }
}

/// The catalog of taint sources that is built in: groups of functions of the
/// standard library whose results come from outside the program.
pub fn get_taint_sources_definitions() -> (r: Vec<TaintSourceDefinition<'static>>)
    ensures
        definitions_model(r@) == builtin_definitions(),
{
    let mut names: Vec<&'static str> = Vec::new();
    names.push("std::env::var");
    names.push("std::env::var_os");
    names.push("std::env::vars");
    names.push("std::env::vars_os");
    assert(names_model(names@) =~= environment_definition().sources[0].functions);
    let variables = builtin_source(
        names,
        "Environment variables are set by whoever starts the process",
    );
    let mut names: Vec<&'static str> = Vec::new();
    names.push("std::env::args");
    names.push("std::env::args_os");
    assert(names_model(names@) =~= environment_definition().sources[1].functions);
    let arguments = builtin_source(
        names,
        "Command line arguments are set by whoever starts the process",
    );
    let mut sources: Vec<TaintSource<'static>> = Vec::new();
    sources.push(variables);
    sources.push(arguments);
    assert(sources_model(sources@) =~= environment_definition().sources);
    let environment = TaintSourceDefinition {
        taint_module_name: "env",
        taint_module_description: "Values that the environment of the process hands in",
        sources,
    };
    let mut names: Vec<&'static str> = Vec::new();
    names.push("std::fs::File::open");
    names.push("std::fs::read");
    names.push("std::fs::read_to_string");
    assert(names_model(names@) =~= file_definition().sources[0].functions);
    let content = builtin_source(names, "The content of a file may come from an untrusted party");
    let mut sources: Vec<TaintSource<'static>> = Vec::new();
    sources.push(content);
    assert(sources_model(sources@) =~= file_definition().sources);
    let files = TaintSourceDefinition {
        taint_module_name: "fs",
        taint_module_description: "Values that are read from the file system",
        sources,
    };
    let mut definitions: Vec<TaintSourceDefinition<'static>> = Vec::new();
    definitions.push(environment);
    definitions.push(files);
    assert(definitions_model(definitions@) =~= builtin_definitions());
    definitions
}

} // verus!
