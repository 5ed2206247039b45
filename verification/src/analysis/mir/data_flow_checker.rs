//! The check of the data flow in a dependency graph: classification of the
//! nodes, propagation of taint, and the walk from every source to the first
//! problem on its way.

use std::collections::VecDeque;
use vstd::prelude::*;
use vstd::seq_lib::*;
use vstd::set_lib::*;
use crate::analysis::mir::data_flow::DependencyGraphNode;
use crate::analysis::mir::data_flow::GenericArgInfo;
use crate::analysis::mir::data_flow::GenericArgModel;
use crate::analysis::mir::data_flow::NodeModel;
use crate::analysis::mir::data_flow::TypeInfo;
use crate::analysis::mir::data_flow::TypeKind;
use crate::analysis::mir::data_flow::TypeKindModel;
use crate::analysis::mir::data_flow::TypeModel;
use crate::analysis::mir::data_flow::all_moves;
use crate::analysis::mir::data_flow::generics_model;
use crate::analysis::mir::dot::DotGraph;
use crate::analysis::mir::dot::render_graph;
use crate::analysis::mir::dot::rendered;
use crate::analysis::mir::graph::DependencyGraph;
use crate::analysis::mir::graph::GraphModel;
use crate::analysis::mir::graph::OutEdge;
use crate::analysis::mir::graph::is_adjacency_of;
use crate::analysis::mir::graph::lemma_out_edges_upto;
use crate::analysis::mir::graph::lists_out_edges;
use crate::analysis::taint_source::TaintSource;
use crate::analysis::taint_source::TaintSourceModel;
use crate::analysis::taint_source::sources_model;
use crate::analysis::taint_problem::ProblemTypeModel;
use crate::analysis::taint_problem::TaintProblem;
use crate::analysis::taint_problem::TaintProblemModel;
use crate::analysis::taint_problem::TaintProblemType;
use crate::analysis::taint_problem::TaintUsageType;
use crate::analysis::taint_problem::UsageModel;
use crate::analysis::taint_problem::problems_model;
use crate::span::IRSpan;
use crate::span::SpanModel;
use crate::span::spans_model;
use crate::text::str_eq;

verus! {

/// What the analysis holds of a node. A node without a marking is untainted.
#[derive(Debug, Clone, Copy, PartialEq, Eq, Structural)]
pub enum Marking {
    /// A call of a taint source: the index of its descriptor in the catalog.
    TaintSource(usize),
    /// Reached by taint.
    Tainted,
    /// Absorbs taint: the wrapper type and what constructs it.
    TaintSink,
}

/// The definition path of the wrapper type that absorbs taint.
pub open spec fn wrapper_type_path() -> Seq<char> {
    "untrusted_value::UntrustedValue"@
}

/// The definition path of the constructor of the wrapper type.
pub open spec fn wrapper_constructor_path() -> Seq<char> {
    "untrusted_value::UntrustedValue::wrap"@
}

/// The definition path of the conversion `From::from`.
pub open spec fn from_path() -> Seq<char> {
    "std::convert::From::from"@
}

/// The definition path of the conversion `Into::into`.
pub open spec fn into_path() -> Seq<char> {
    "std::convert::Into::into"@
}

/// Whether a type is the wrapper type.
pub open spec fn is_sink_type(ty: TypeModel) -> bool {
    ty.kind == (TypeKindModel::Adt { path: wrapper_type_path() })
}

/// Whether generic argument `i` is the wrapper type.
pub open spec fn is_wrapper_arg(generics: Seq<GenericArgModel>, i: int) -> bool {
    0 <= i < generics.len() && generics[i] == (GenericArgModel::Adt { path: wrapper_type_path() })
}

/// Whether a call of the function item `path` with these generic arguments
/// wraps its argument: the constructor of the wrapper type, or a conversion
/// whose target is the wrapper type.
pub open spec fn is_sink_call(path: Seq<char>, generics: Seq<GenericArgModel>) -> bool {
    ||| path == wrapper_constructor_path()
    ||| path == from_path() && is_wrapper_arg(generics, 0)
    ||| path == into_path() && is_wrapper_arg(generics, 1)
}

/// The first descriptor of the catalog, from index `k` on, that names `name`.
pub open spec fn source_naming_from(catalog: Seq<TaintSourceModel>, name: Seq<char>, k: int) -> Option<
    int,
>
    decreases catalog.len() - k,
{
    if k < 0 || k >= catalog.len() {
        None
    } else if catalog[k].functions.contains(name) {
        Some(k)
    } else {
        source_naming_from(catalog, name, k + 1)
    }
}

/// The first descriptor of the catalog that names `name`.
pub open spec fn source_naming(catalog: Seq<TaintSourceModel>, name: Seq<char>) -> Option<int> {
    source_naming_from(catalog, name, 0)
}

/// The marking that a node has by what it is: a local of the wrapper type is a
/// sink; a call of a function is a source if the catalog names it, with the
/// first descriptor that does, else a sink if it wraps its argument.
pub open spec fn classify_node(n: NodeModel, catalog: Seq<TaintSourceModel>) -> Option<Marking> {
    match n {
        NodeModel::Local { dst, ty } => if is_sink_type(ty) {
            Some(Marking::TaintSink)
        } else {
            None
        },
        NodeModel::FunctionCall { function, span } => match function.kind {
            TypeKindModel::FnDef { path, generics } => match source_naming(catalog, path) {
                Some(k) => Some(Marking::TaintSource(k as usize)),
                None => if is_sink_call(path, generics) {
                    Some(Marking::TaintSink)
                } else {
                    None
                },
            },
            _ => None,
        },
        _ => None,
    }
}

/// The markings of all nodes by what they are.
pub open spec fn classified(g: GraphModel, catalog: Seq<TaintSourceModel>) -> Seq<Option<Marking>> {
    Seq::new(g.nodes.len(), |i: int| classify_node(g.nodes[i], catalog))
}

/// Whether a type is the wrapper type.
pub fn type_is_sink(ty: &TypeInfo) -> (r: bool)
    ensures
        r == is_sink_type(ty@),
{
    match &ty.kind {
        TypeKind::Adt { path } => str_eq(path.as_str(), "untrusted_value::UntrustedValue"),
        _ => false,
    }
}

fn arg_is_wrapper(generics: &Vec<GenericArgInfo>, i: usize) -> (r: bool)
    ensures
        r == is_wrapper_arg(generics_model(generics@), i as int),
{
    if i < generics.len() {
        match &generics[i] {
            GenericArgInfo::Adt { path } => str_eq(
                path.as_str(),
                "untrusted_value::UntrustedValue",
            ),
            GenericArgInfo::Other => false,
        }
    } else {
        false
    }
}

/// Whether a call of the function item `path` with these generic arguments
/// wraps its argument.
pub fn call_is_sink(path: &str, generics: &Vec<GenericArgInfo>) -> (r: bool)
    ensures
        r == is_sink_call(path@, generics_model(generics@)),
{
    proof {
        reveal_strlit("untrusted_value::UntrustedValue::wrap");
        reveal_strlit("std::convert::From::from");
        reveal_strlit("std::convert::Into::into");
        assert(from_path()[14] != into_path()[14]);
        assert(wrapper_constructor_path().len() != from_path().len());
        assert(wrapper_constructor_path().len() != into_path().len());
    }
    if str_eq(path, "untrusted_value::UntrustedValue::wrap") {
        true
    } else if str_eq(path, "std::convert::From::from") {
        arg_is_wrapper(generics, 0)
    } else if str_eq(path, "std::convert::Into::into") {
        arg_is_wrapper(generics, 1)
    } else {
        false
    }
}

/// The index of the first descriptor of the catalog that names `name`.
pub fn find_taint_source(taint_sources: &Vec<TaintSource>, name: &str) -> (r: Option<usize>)
    ensures
        match r {
            Some(k) => source_naming(sources_model(taint_sources@), name@) == Some(k as int),
            None => source_naming(sources_model(taint_sources@), name@) is None,
        },
        r is Some ==> r->0 < taint_sources.len(),
{
    let ghost catalog = sources_model(taint_sources@);
    let mut k: usize = 0;
    while k < taint_sources.len()
        invariant
            k <= taint_sources.len(),
            catalog == sources_model(taint_sources@),
            source_naming(catalog, name@) == source_naming_from(catalog, name@, k as int),
        decreases taint_sources.len() - k,
    {
        if taint_sources[k].names_function(name) {
            return Some(k);
        }
        k += 1;
    }
    None
}

/// The marking that a node has by what it is.
pub fn classify(node: &DependencyGraphNode, taint_sources: &Vec<TaintSource>) -> (r: Option<Marking>)
    ensures
        r == classify_node(node@, sources_model(taint_sources@)),
{
    match node {
        DependencyGraphNode::Local { dst: _, ty } => {
            if type_is_sink(ty) {
                Some(Marking::TaintSink)
            } else {
                None
            }
        },
        DependencyGraphNode::FunctionCall { function, span: _ } => {
            match &function.kind {
                TypeKind::FnDef { path, generics } => {
                    match find_taint_source(taint_sources, path.as_str()) {
                        Some(k) => Some(Marking::TaintSource(k)),
                        None => {
                            if call_is_sink(path.as_str(), generics) {
                                Some(Marking::TaintSink)
                            } else {
                                None
                            }
                        },
                    }
                },
                _ => None,
            }
        },
        _ => None,
    }
}

/// The markings of all nodes of a graph by what they are.
pub fn classify_nodes(graph: &DependencyGraph, taint_sources: &Vec<TaintSource>) -> (r: Vec<
    Option<Marking>,
>)
    ensures
        r@ == classified(graph@, sources_model(taint_sources@)),
{
    let count = graph.node_count();
    let mut markings: Vec<Option<Marking>> = Vec::new();
    let mut i: usize = 0;
    while i < count
        invariant
            i <= count,
            count == graph@.nodes.len(),
            markings.len() == i,
            forall|k: int|
                0 <= k < i ==> markings[k] == classify_node(
                    graph@.nodes[k],
                    sources_model(taint_sources@),
                ),
        decreases count - i,
    {
        markings.push(classify(graph.node(i), taint_sources));
        i += 1;
    }
    assert(markings@ =~= classified(graph@, sources_model(taint_sources@)));
    markings
}

/// Whether a marking is that of a taint source.
pub open spec fn is_source_mark(m: Option<Marking>) -> bool {
    m matches Some(Marking::TaintSource(_))
}

/// Whether the graph has an edge from node `a` to node `b`.
pub open spec fn has_edge(g: GraphModel, a: int, b: int) -> bool {
    exists|e: int| g.joins(e, a, b)
}

/// Whether `p` is a path of the graph that starts at a source and then runs
/// through nodes that have no marking.
pub open spec fn is_taint_path(g: GraphModel, m0: Seq<Option<Marking>>, p: Seq<int>) -> bool {
    &&& p.len() >= 2
    &&& forall|i: int| 0 <= i < p.len() ==> 0 <= #[trigger] p[i] < g.nodes.len()
    &&& is_source_mark(m0[p[0]])
    &&& forall|i: int| 1 <= i < p.len() ==> m0[#[trigger] p[i]] is None
    &&& forall|i: int| 0 <= i < p.len() - 1 ==> has_edge(g, #[trigger] p[i], p[i + 1])
}

/// Whether taint reaches node `n`: some path leads from a source to `n`
/// through nodes that have no marking.
pub open spec fn reached(g: GraphModel, m0: Seq<Option<Marking>>, n: int) -> bool {
    exists|p: Seq<int>| is_taint_path(g, m0, p) && p.last() == n
}

/// The markings after propagation: a marking that was there stays, and a node
/// without one is tainted if and only if taint reaches it.
pub open spec fn saturated(g: GraphModel, m0: Seq<Option<Marking>>) -> Seq<Option<Marking>> {
    Seq::new(
        m0.len(),
        |n: int|
            if m0[n] is Some {
                m0[n]
            } else if reached(g, m0, n) {
                Some(Marking::Tainted)
            } else {
                None
            },
    )
}

/// A node from which taint spreads: a source, or a node that propagation marked.
pub open spec fn is_active(m0: Seq<Option<Marking>>, m: Seq<Option<Marking>>, x: int) -> bool {
    is_source_mark(m0[x]) || (m0[x] is None && m[x] == Some(Marking::Tainted))
}

/// The markings `m` keep those of `m0` and add only taint that is reached.
pub open spec fn marks_sound(g: GraphModel, m0: Seq<Option<Marking>>, m: Seq<Option<Marking>>) -> bool {
    &&& m.len() == m0.len()
    &&& m0.len() == g.nodes.len()
    &&& forall|x: int|
        0 <= x < m.len() ==> {
            &&& m0[x] is Some ==> #[trigger] m[x] == m0[x]
            &&& m0[x] is None ==> (m[x] is None || (m[x] == Some(Marking::Tainted) && reached(
                g,
                m0,
                x,
            )))
        }
}

/// Every node to which an edge leads from node `x` has a marking.
pub open spec fn successors_marked(g: GraphModel, m: Seq<Option<Marking>>, x: int) -> bool {
    forall|e: int| 0 <= e < g.edges.len() && (#[trigger] g.edges[e]).from == x ==> m[g.edges[e].to] is Some
}

/// A sequence of distinct numbers below `n` has at most `n` elements.
pub proof fn lemma_distinct_bounded(s: Seq<usize>, n: int)
    requires
        0 <= n,
        forall|i: int, j: int| 0 <= i < j < s.len() ==> s[i] != s[j],
        forall|i: int| 0 <= i < s.len() ==> s[i] < n,
    ensures
        s.len() <= n,
{
    if s.len() > 0 {
        let t = Seq::new(s.len(), |i: int| s[i] as int);
        assert(t.no_duplicates());
        t.unique_seq_to_set();
        assert(s[0] < n);
        lemma_int_range(0, n);
        assert(t.to_set().subset_of(set_int_range(0, n))) by {
            assert forall|x: int| t.to_set().contains(x) implies set_int_range(0, n).contains(x) by {
                let i = choose|i: int| 0 <= i < t.len() && t[i] == x;
                assert(s[i] < n);
            }
        }
        lemma_len_subset(t.to_set(), set_int_range(0, n));
    }
}

/// Taint that spreads from an active node along an edge reaches the target, if
/// the target had no marking.
pub proof fn lemma_reach_extends(g: GraphModel, m0: Seq<Option<Marking>>, e: int, u: int, t: int)
    requires
        g.joins(e, u, t),
        0 <= u < g.nodes.len(),
        0 <= t < g.nodes.len(),
        m0[t] is None,
        is_source_mark(m0[u]) || (m0[u] is None && reached(g, m0, u)),
    ensures
        reached(g, m0, t),
{
    if is_source_mark(m0[u]) {
        let p = seq![u, t];
        assert(has_edge(g, p[0], p[1]));
        assert(is_taint_path(g, m0, p));
        assert(p.last() == t);
    } else {
        let q = choose|q: Seq<int>| is_taint_path(g, m0, q) && q.last() == u;
        let p = q.push(t);
        assert forall|i: int| 0 <= i < p.len() - 1 implies has_edge(g, #[trigger] p[i], p[i + 1]) by {
            if i < q.len() - 1 {
                assert(has_edge(g, q[i], q[i + 1]));
            } else {
                assert(g.joins(e, p[i], p[i + 1]));
            }
        }
        assert forall|i: int| 1 <= i < p.len() implies m0[#[trigger] p[i]] is None by {
            if i < q.len() {
                assert(m0[q[i]] is None);
            }
        }
        assert forall|i: int| 0 <= i < p.len() implies 0 <= #[trigger] p[i] < g.nodes.len() by {
            if i < q.len() {
                assert(0 <= q[i] < g.nodes.len());
            }
        }
        assert(p[0] == q[0]);
        assert(is_taint_path(g, m0, p));
        assert(p.last() == t);
    }
}

/// Once every successor of every active node has a marking, every node on a
/// path of taint is tainted.
pub proof fn lemma_path_tainted(
    g: GraphModel,
    m0: Seq<Option<Marking>>,
    m: Seq<Option<Marking>>,
    p: Seq<int>,
    i: int,
)
    requires
        marks_sound(g, m0, m),
        forall|x: int| 0 <= x < g.nodes.len() && is_active(m0, m, x) ==> successors_marked(g, m, x),
        is_taint_path(g, m0, p),
        1 <= i < p.len(),
    ensures
        m[p[i]] == Some(Marking::Tainted),
    decreases i,
{
    if i > 1 {
        lemma_path_tainted(g, m0, m, p, i - 1);
    }
    let u = p[i - 1];
    let t = p[i];
    assert(0 <= u < g.nodes.len());
    assert(0 <= t < g.nodes.len());
    assert(m0[t] is None);
    assert(is_active(m0, m, u)) by {
        if i > 1 {
            assert(m0[p[i - 1]] is None);
        }
    }
    assert(successors_marked(g, m, u));
    assert(has_edge(g, p[i - 1], p[i - 1 + 1]));
    let e = choose|e: int| g.joins(e, u, t);
    assert(g.edges[e].from == u);
    assert(m[g.edges[e].to] is Some);
    assert(m[t] == Some(Marking::Tainted));
}

/// Markings that keep the old ones, add only reached taint, and leave no
/// successor of an active node without a marking, are the saturated markings.
pub proof fn lemma_closed_is_saturated(g: GraphModel, m0: Seq<Option<Marking>>, m: Seq<Option<Marking>>)
    requires
        marks_sound(g, m0, m),
        forall|x: int| 0 <= x < g.nodes.len() && is_active(m0, m, x) ==> successors_marked(g, m, x),
    ensures
        m == saturated(g, m0),
{
    let s = saturated(g, m0);
    assert forall|x: int| 0 <= x < m.len() implies m[x] == s[x] by {
        if m0[x] is None && m[x] is None && reached(g, m0, x) {
            let p = choose|p: Seq<int>| is_taint_path(g, m0, p) && p.last() == x;
            lemma_path_tainted(g, m0, m, p, p.len() - 1);
        }
    }
    assert(m =~= s);
}

/// Propagation: from the sources taint spreads along the edges to every node
/// that has no marking yet, breadth first. A marking that is there is never
/// changed, and a node that has one passes no taint on, unless it is a source.
pub fn propagate_taint(
    graph: &DependencyGraph,
    adjacency: &Vec<Vec<OutEdge>>,
    markings: &mut Vec<Option<Marking>>,
)
    requires
        graph.wf(),
        is_adjacency_of(graph@, adjacency@),
        old(markings).len() == graph@.nodes.len(),
    ensures
        final(markings)@ == saturated(graph@, old(markings)@),
        forall|n: int|
            0 <= n < old(markings).len() && old(markings)[n] is Some ==> final(markings)[n] == old(
                markings,
            )[n],
{
    let ghost g = graph@;
    let ghost m0 = markings@;
    let count = markings.len();
    let mut queue: VecDeque<usize> = VecDeque::new();
    let mut i: usize = 0;
    while i < count
        invariant
            i <= count,
            count == m0.len(),
            markings@ == m0,
            forall|k: int| 0 <= k < queue@.len() ==> queue@[k] < i && is_source_mark(m0[queue@[k] as int]),
            forall|a: int, b: int| 0 <= a < b < queue@.len() ==> queue@[a] < queue@[b],
            forall|x: int| 0 <= x < i && is_source_mark(m0[x]) ==> queue@.contains(x as usize),
        decreases count - i,
    {
        let ghost before = queue@;
        match markings[i] {
            Some(Marking::TaintSource(_)) => {
                queue.push_back(i);
                proof {
                    assert forall|x: int| 0 <= x < i + 1 && is_source_mark(m0[x]) implies queue@.contains(
                        x as usize,
                    ) by {
                        if x < i {
                            assert(before.contains(x as usize));
                            let k = choose|k: int| 0 <= k < before.len() && before[k] == x as usize;
                            assert(queue@[k] == x as usize);
                        } else {
                            assert(queue@[queue@.len() - 1] == x as usize);
                        }
                    }
                }
            },
            _ => {},
        }
        i += 1;
    }
    // Every node that ever entered the queue, in the order of entry; the first
    // `done` of them have left it again.
    let ghost mut seen: Seq<usize> = queue@;
    let ghost mut done: int = 0;
    proof {
        assert(queue@ =~= seen.subrange(done, seen.len() as int));
    }
    while queue.len() > 0
        invariant
            g == graph@,
            graph.wf(),
            is_adjacency_of(g, adjacency@),
            count == g.nodes.len(),
            marks_sound(g, m0, markings@),
            0 <= done <= seen.len(),
            queue@ == seen.subrange(done, seen.len() as int),
            forall|k: int| 0 <= k < seen.len() ==> seen[k] < count && is_active(m0, markings@, seen[k] as int),
            forall|a: int, b: int| 0 <= a < b < seen.len() ==> seen[a] != seen[b],
            forall|x: int| 0 <= x < count && is_active(m0, markings@, x) ==> seen.contains(x as usize),
            forall|k: int| 0 <= k < done ==> successors_marked(g, markings@, seen[k] as int),
        decreases count - done,
    {
        proof {
            lemma_distinct_bounded(seen, count as int);
            assert(queue@[0] == seen[done]);
        }
        let u = queue.pop_front().unwrap();
        proof {
            assert(queue@ =~= seen.subrange(done + 1, seen.len() as int));
        }
        let out = &adjacency[u];
        assert(lists_out_edges(g, u as int, out@));
        let mut j: usize = 0;
        while j < out.len()
            invariant
                g == graph@,
                graph.wf(),
                count == g.nodes.len(),
                u < count,
                0 <= done < seen.len(),
                u == seen[done],
                queue@ == seen.subrange(done + 1, seen.len() as int),
                lists_out_edges(g, u as int, out@),
                j <= out.len(),
                marks_sound(g, m0, markings@),
                forall|k: int| 0 <= k < seen.len() ==> seen[k] < count && is_active(m0, markings@, seen[k] as int),
                forall|a: int, b: int| 0 <= a < b < seen.len() ==> seen[a] != seen[b],
                forall|x: int| 0 <= x < count && is_active(m0, markings@, x) ==> seen.contains(x as usize),
                forall|k: int| 0 <= k < done ==> successors_marked(g, markings@, seen[k] as int),
                forall|k: int| 0 <= k < j ==> markings[(#[trigger] out[k]).target as int] is Some,
            decreases out.len() - j,
        {
            let t = out[j].target;
            let ghost e = out[j as int].edge as int;
            proof {
                lemma_out_edges_upto(g, u as int, g.edges.len() as int);
                assert(g.out_edges(u as int)[j as int] == e);
                assert(g.out_edges(u as int).contains(e));
                assert(g.joins(e, u as int, t as int));
                assert(t < count);
            }
            if markings[t].is_none() {
                let ghost before_marks = markings@;
                let ghost before_seen = seen;
                proof {
                    assert(m0[t as int] is None);
                    assert(is_active(m0, before_marks, u as int));
                    lemma_reach_extends(g, m0, e, u as int, t as int);
                }
                markings[t] = Some(Marking::Tainted);
                queue.push_back(t);
                proof {
                    seen = seen.push(t);
                    assert(markings@ == before_marks.update(t as int, Some(Marking::Tainted)));
                    assert(queue@ =~= seen.subrange(done + 1, seen.len() as int));
                    assert forall|k: int| 0 <= k < seen.len() implies seen[k] < count && is_active(
                        m0,
                        markings@,
                        seen[k] as int,
                    ) by {
                        if k < before_seen.len() {
                            assert(is_active(m0, before_marks, before_seen[k] as int));
                        }
                    }
                    assert forall|a: int, b: int| 0 <= a < b < seen.len() implies seen[a] != seen[b] by {
                        if b == before_seen.len() {
                            assert(is_active(m0, before_marks, before_seen[a] as int));
                        }
                    }
                    assert forall|x: int| 0 <= x < count && is_active(m0, markings@, x) implies seen.contains(
                        x as usize,
                    ) by {
                        if x == t {
                            assert(seen[seen.len() - 1] == t);
                        } else {
                            assert(is_active(m0, before_marks, x));
                            assert(before_seen.contains(x as usize));
                            let k = choose|k: int| 0 <= k < before_seen.len() && before_seen[k] == x as usize;
                            assert(seen[k] == x as usize);
                        }
                    }
                    assert forall|k: int| 0 <= k < done implies successors_marked(
                        g,
                        markings@,
                        seen[k] as int,
                    ) by {
                        assert(successors_marked(g, before_marks, before_seen[k] as int));
                    }
                    assert forall|k: int| 0 <= k < j + 1 implies markings[(#[trigger] out[k]).target as int] is Some by {
                        if k < j {
                            assert(before_marks[out[k].target as int] is Some);
                        }
                    }
                }
            }
            j += 1;
        }
        proof {
            assert(successors_marked(g, markings@, u as int)) by {
                lemma_out_edges_upto(g, u as int, g.edges.len() as int);
                assert forall|e: int| 0 <= e < g.edges.len() && (#[trigger] g.edges[e]).from == u as int implies markings@[g.edges[e].to] is Some by {
                    assert(g.out_edges(u as int).contains(e));
                    let k = choose|k: int| 0 <= k < g.out_edges(u as int).len() && g.out_edges(u as int)[k] == e;
                    assert(out[k].target == g.edges[e].to);
                }
            }
            done = done + 1;
        }
    }
    proof {
        assert(done == seen.len());
        assert forall|x: int| 0 <= x < g.nodes.len() && is_active(m0, markings@, x) implies successors_marked(
            g,
            markings@,
            x,
        ) by {
            assert(seen.contains(x as usize));
            let k = choose|k: int| 0 <= k < seen.len() && seen[k] == x as usize;
            assert(successors_marked(g, markings@, seen[k] as int));
        }
        lemma_closed_is_saturated(g, m0, markings@);
    }
}

/// What the walk does at the node that an edge leads to.
pub enum HopModel {
    /// The walk ends and reports nothing.
    End,
    /// The walk goes on from that node.
    Follow,
    /// The walk ends and reports this use of the taint.
    Report(UsageModel),
}

/// What the walk does at the target of edge `e`: a sink absorbs the taint, and
/// so does a node without a marking; a marked local is followed along a pure
/// move and reported as a copy otherwise; a marked call, the return to the
/// caller, assembly and control flow are reported as uses.
pub open spec fn hop(g: GraphModel, m: Seq<Option<Marking>>, e: int) -> HopModel {
    let t = g.edges[e].to;
    match g.nodes[t] {
        NodeModel::Local { dst, ty } => match m[t] {
            Some(Marking::TaintSink) => HopModel::End,
            Some(_) => if all_moves(g.edges[e].instances) {
                HopModel::Follow
            } else {
                HopModel::Report(UsageModel::Copied)
            },
            None => HopModel::End,
        },
        NodeModel::FunctionCall { function, span } => match m[t] {
            Some(Marking::TaintSink) => HopModel::End,
            Some(_) => HopModel::Report(UsageModel::FunctionCall(span)),
            None => HopModel::End,
        },
        NodeModel::ReturnedToCaller => HopModel::Report(UsageModel::ReturnedToCaller),
        NodeModel::Assembly { spans } => HopModel::Report(UsageModel::Assembly),
        NodeModel::ControlFlow => HopModel::Report(UsageModel::ControlFlow),
        NodeModel::FunctionInput => HopModel::End,
    }
}

/// The first locations of a sequence of edges.
pub open spec fn chain_spans(g: GraphModel, chain: Seq<int>) -> Seq<SpanModel> {
    Seq::new(chain.len(), |i: int| g.first_span(chain[i]))
}

/// The mathematical value of a [`TaintFinding`].
pub struct FindingModel {
    pub source_span: SpanModel,
    pub problem_type: ProblemTypeModel,
}

/// The walk from `node`, which was reached from the source by the edges of
/// `chain`, through the nodes of `visited`; `origin` is where the taint left the
/// source. A node met again closes a loop. Several outgoing edges duplicate
/// the taint. A single one is judged by [`hop`]. Without one the taint is
/// dropped and nothing is reported.
pub open spec fn walk(
    g: GraphModel,
    m: Seq<Option<Marking>>,
    origin: SpanModel,
    visited: Seq<int>,
    chain: Seq<int>,
    node: int,
) -> Option<FindingModel>
    decreases g.nodes.len() - visited.len(),
{
    let out = g.out_edges(node);
    if visited.contains(node) {
        Some(
            FindingModel {
                source_span: origin,
                problem_type: ProblemTypeModel::DataDependencyLoop {
                    statement_chain: chain_spans(g, chain.drop_last()),
                    loop_closure: g.first_span(chain.last()),
                },
            },
        )
    } else if visited.len() >= g.nodes.len() {
        None
    } else if out.len() > 1 {
        Some(
            FindingModel {
                source_span: origin,
                problem_type: ProblemTypeModel::Duplicated {
                    statement_chain: chain_spans(g, chain),
                    targets: chain_spans(g, out),
                },
            },
        )
    } else if out.len() == 1 {
        match hop(g, m, out[0]) {
            HopModel::End => None,
            HopModel::Report(usage) => Some(
                FindingModel {
                    source_span: origin,
                    problem_type: ProblemTypeModel::Used {
                        statement_chain: chain_spans(g, chain),
                        used_in: g.first_span(out[0]),
                        usage_type: usage,
                    },
                },
            ),
            HopModel::Follow => walk(
                g,
                m,
                origin,
                visited.push(node),
                chain.push(out[0]),
                g.edges[out[0]].to,
            ),
        }
    } else {
        None
    }
}

/// What is found for the source node `s`: several outgoing edges duplicate the
/// taint at once; a single edge that is not a pure move is a copy; along a
/// single pure move the walk starts; without an edge nothing is reported.
pub open spec fn source_finding(g: GraphModel, m: Seq<Option<Marking>>, s: int) -> Option<
    FindingModel,
> {
    let out = g.out_edges(s);
    if out.len() > 1 {
        Some(
            FindingModel {
                source_span: g.first_span(out[0]),
                problem_type: ProblemTypeModel::Duplicated {
                    statement_chain: Seq::empty(),
                    targets: chain_spans(g, out),
                },
            },
        )
    } else if out.len() == 1 {
        if all_moves(g.edges[out[0]].instances) {
            walk(g, m, g.first_span(out[0]), seq![s], seq![out[0]], g.edges[out[0]].to)
        } else {
            Some(
                FindingModel {
                    source_span: g.first_span(out[0]),
                    problem_type: ProblemTypeModel::Used {
                        statement_chain: Seq::empty(),
                        used_in: g.first_span(out[0]),
                        usage_type: UsageModel::Copied,
                    },
                },
            )
        }
    } else {
        None
    }
}

/// What the walk does at the node that an edge leads to.
pub enum Hop {
    End,
    Follow,
    Report(TaintUsageType),
}

impl View for Hop {
    type V = HopModel;

    open spec fn view(&self) -> HopModel {
        match self {
            Hop::End => HopModel::End,
            Hop::Follow => HopModel::Follow,
            Hop::Report(usage) => HopModel::Report(usage@),
        }
    }
}

/// What is wrong with the flow from one source, and where the taint left it.
#[derive(Debug)]
pub struct TaintFinding {
    pub source_span: IRSpan,
    pub problem_type: TaintProblemType,
}

impl View for TaintFinding {
    type V = FindingModel;

    open spec fn view(&self) -> FindingModel {
        FindingModel { source_span: self.source_span@, problem_type: self.problem_type@ }
    }
}

/// The value of a finding that may be absent.
pub open spec fn finding_model(f: Option<TaintFinding>) -> Option<FindingModel> {
    match f {
        Some(f) => Some(f@),
        None => None,
    }
}

/// The node indices of a list, as numbers.
pub open spec fn node_ints(nodes: Seq<usize>) -> Seq<int> {
    Seq::new(nodes.len(), |i: int| nodes[i] as int)
}

/// The edge indices of a list of outgoing edges, as numbers.
pub open spec fn edge_ints(list: Seq<OutEdge>) -> Seq<int> {
    Seq::new(list.len(), |i: int| list[i].edge as int)
}

/// The location of the first instance of an edge.
fn first_span_of(graph: &DependencyGraph, e: usize) -> (r: IRSpan)
    requires
        graph.wf(),
        e < graph@.edges.len(),
    ensures
        r@ == graph@.first_span(e as int),
{
    let edge = graph.edge(e);
    assert(graph@.edges[e as int].instances.len() > 0);
    assert(edge@.len() == edge.instances@.len());
    assert(edge@[0] == edge.instances@[0]@);
    edge.instances[0].span.clone()
}

/// The first locations of the first `count` edges of a list.
fn first_spans(graph: &DependencyGraph, list: &Vec<OutEdge>, count: usize) -> (r: Vec<IRSpan>)
    requires
        graph.wf(),
        count <= list.len(),
        forall|i: int| 0 <= i < count ==> (#[trigger] list[i]).edge < graph@.edges.len(),
    ensures
        spans_model(r@) == chain_spans(graph@, edge_ints(list@).subrange(0, count as int)),
{
    let mut out: Vec<IRSpan> = Vec::new();
    let mut i: usize = 0;
    while i < count
        invariant
            i <= count,
            count <= list.len(),
            graph.wf(),
            forall|k: int| 0 <= k < count ==> (#[trigger] list[k]).edge < graph@.edges.len(),
            out.len() == i,
            forall|k: int| 0 <= k < i ==> out[k]@ == graph@.first_span(list[k].edge as int),
        decreases count - i,
    {
        out.push(first_span_of(graph, list[i].edge));
        i += 1;
    }
    assert(spans_model(out@) =~= chain_spans(graph@, edge_ints(list@).subrange(0, count as int)));
    out
}

/// What the walk does at the target of an outgoing edge.
fn inspect_hop(graph: &DependencyGraph, markings: &Vec<Option<Marking>>, next: OutEdge) -> (r: Hop)
    requires
        graph.wf(),
        markings.len() == graph@.nodes.len(),
        next.edge < graph@.edges.len(),
        next.target == graph@.edges[next.edge as int].to,
    ensures
        r@ == hop(graph@, markings@, next.edge as int),
{
    let marking = markings[next.target];
    match graph.node(next.target) {
        DependencyGraphNode::Local { dst: _, ty: _ } => {
            match marking {
                Some(Marking::TaintSink) => Hop::End,
                Some(_) => {
                    if graph.edge(next.edge).is_move_only() {
                        Hop::Follow
                    } else {
                        Hop::Report(TaintUsageType::Copied)
                    }
                },
                None => Hop::End,
            }
        },
        DependencyGraphNode::FunctionCall { function: _, span } => {
            match marking {
                Some(Marking::TaintSink) => Hop::End,
                Some(_) => Hop::Report(TaintUsageType::FunctionCall(span.clone())),
                None => Hop::End,
            }
        },
        DependencyGraphNode::ReturnedToCaller => Hop::Report(TaintUsageType::ReturnedToCaller),
        DependencyGraphNode::Assembly { spans: _ } => Hop::Report(TaintUsageType::Assembly),
        DependencyGraphNode::ControlFlow => Hop::Report(TaintUsageType::ControlFlow),
        DependencyGraphNode::FunctionInput => Hop::End,
    }
}

fn list_contains(list: &Vec<usize>, x: usize) -> (r: bool)
    ensures
        r == node_ints(list@).contains(x as int),
{
    let mut i: usize = 0;
    while i < list.len()
        invariant
            i <= list.len(),
            forall|k: int| 0 <= k < i ==> list[k] != x,
        decreases list.len() - i,
    {
        if list[i] == x {
            assert(node_ints(list@)[i as int] == x as int);
            return true;
        }
        i += 1;
    }
    assert forall|k: int| 0 <= k < node_ints(list@).len() implies node_ints(list@)[k] != x as int by {
        assert(list[k] != x);
    }
    false
}

/// Follows the taint of one source node through the graph and says what is
/// wrong with its flow, if anything is.
pub fn trace_source(
    graph: &DependencyGraph,
    adjacency: &Vec<Vec<OutEdge>>,
    markings: &Vec<Option<Marking>>,
    source: usize,
) -> (r: Option<TaintFinding>)
    requires
        graph.wf(),
        is_adjacency_of(graph@, adjacency@),
        markings.len() == graph@.nodes.len(),
        source < graph@.nodes.len(),
    ensures
        finding_model(r) == source_finding(graph@, markings@, source as int),
{
    let ghost g = graph@;
    let ghost m = markings@;
    let out = &adjacency[source];
    proof {
        lemma_out_edges_upto(g, source as int, g.edges.len() as int);
        assert(lists_out_edges(g, source as int, out@));
    }
    if out.len() == 0 {
        return None;
    }
    let first = out[0];
    proof {
        assert(g.out_edges(source as int)[0] == first.edge);
        assert(edge_ints(out@).subrange(0, out.len() as int) =~= g.out_edges(source as int));
    }
    if out.len() > 1 {
        let targets = first_spans(graph, out, out.len());
        let source_span = first_span_of(graph, first.edge);
        let statement_chain: Vec<IRSpan> = Vec::new();
        assert(spans_model(statement_chain@) =~= Seq::empty());
        return Some(
            TaintFinding {
                source_span,
                problem_type: TaintProblemType::Duplicated { statement_chain, targets },
            },
        );
    }
    if !graph.edge(first.edge).is_move_only() {
        let source_span = first_span_of(graph, first.edge);
        let used_in = first_span_of(graph, first.edge);
        let statement_chain: Vec<IRSpan> = Vec::new();
        assert(spans_model(statement_chain@) =~= Seq::empty());
        return Some(
            TaintFinding {
                source_span,
                problem_type: TaintProblemType::Used {
                    statement_chain,
                    used_in,
                    usage_type: TaintUsageType::Copied,
                },
            },
        );
    }
    let origin = first_span_of(graph, first.edge);
    let mut visited: Vec<usize> = Vec::new();
    visited.push(source);
    let mut chain: Vec<OutEdge> = Vec::new();
    chain.push(first);
    let mut node = first.target;
    proof {
        assert(node_ints(visited@) =~= seq![source as int]);
        assert(edge_ints(chain@) =~= seq![first.edge as int]);
    }
    loop
        invariant
            g == graph@,
            m == markings@,
            graph.wf(),
            is_adjacency_of(g, adjacency@),
            m.len() == g.nodes.len(),
            node < g.nodes.len(),
            chain.len() >= 1,
            forall|i: int| 0 <= i < visited.len() ==> visited[i] < g.nodes.len(),
            forall|i: int, j: int| 0 <= i < j < visited.len() ==> visited[i] != visited[j],
            forall|i: int| 0 <= i < chain.len() ==> (#[trigger] chain[i]).edge < g.edges.len(),
            walk(g, m, origin@, node_ints(visited@), edge_ints(chain@), node as int)
                == source_finding(g, m, source as int),
        decreases g.nodes.len() - visited.len(),
    {
        let links = chain.len();
        if list_contains(&visited, node) {
            let loop_closure = first_span_of(graph, chain[links - 1].edge);
            let statement_chain = first_spans(graph, &chain, links - 1);
            proof {
                assert(edge_ints(chain@).subrange(0, links - 1) =~= edge_ints(chain@).drop_last());
            }
            return Some(
                TaintFinding {
                    source_span: origin,
                    problem_type: TaintProblemType::DataDependencyLoop {
                        statement_chain,
                        loop_closure,
                    },
                },
            );
        }
        proof {
            let longer = visited@.push(node);
            assert forall|i: int, j: int| 0 <= i < j < longer.len() implies longer[i] != longer[j] by {
                if j == visited.len() {
                    assert(node_ints(visited@)[i] == visited[i] as int);
                }
            }
            lemma_distinct_bounded(longer, g.nodes.len() as int);
        }
        let out = &adjacency[node];
        proof {
            lemma_out_edges_upto(g, node as int, g.edges.len() as int);
            assert(lists_out_edges(g, node as int, out@));
            assert(edge_ints(out@).subrange(0, out.len() as int) =~= g.out_edges(node as int));
            assert(edge_ints(chain@).subrange(0, links as int) =~= edge_ints(chain@));
        }
        if out.len() == 0 {
            return None;
        }
        let next = out[0];
        proof {
            assert(g.out_edges(node as int)[0] == next.edge);
        }
        if out.len() > 1 {
            let statement_chain = first_spans(graph, &chain, links);
            let targets = first_spans(graph, out, out.len());
            return Some(
                TaintFinding {
                    source_span: origin,
                    problem_type: TaintProblemType::Duplicated { statement_chain, targets },
                },
            );
        }
        match inspect_hop(graph, markings, next) {
            Hop::End => {
                return None;
            },
            Hop::Report(usage_type) => {
                let statement_chain = first_spans(graph, &chain, links);
                let used_in = first_span_of(graph, next.edge);
                return Some(
                    TaintFinding {
                        source_span: origin,
                        problem_type: TaintProblemType::Used { statement_chain, used_in, usage_type },
                    },
                );
            },
            Hop::Follow => {
                let ghost visited_before = node_ints(visited@);
                let ghost chain_before = edge_ints(chain@);
                visited.push(node);
                chain.push(next);
                proof {
                    assert(node_ints(visited@) =~= visited_before.push(node as int));
                    assert(edge_ints(chain@) =~= chain_before.push(next.edge as int));
                }
                node = next.target;
            },
        }
    }
}

/// The fully qualified name of the function that a call node calls; empty for
/// any other node.
pub open spec fn callee_path(n: NodeModel) -> Seq<char> {
    match n {
        NodeModel::FunctionCall { function, span } => match function.kind {
            TypeKindModel::FnDef { path, generics } => path,
            _ => Seq::empty(),
        },
        _ => Seq::empty(),
    }
}

/// The problems reported for node `s`: none if it is no source or if its walk
/// finds nothing, else the one finding of its walk, with the descriptor of the
/// source and the name of the called function.
pub open spec fn problems_of(
    g: GraphModel,
    catalog: Seq<TaintSourceModel>,
    m: Seq<Option<Marking>>,
    s: int,
) -> Seq<TaintProblemModel> {
    match (m[s], source_finding(g, m, s)) {
        (Some(Marking::TaintSource(k)), Some(finding)) => seq![
            TaintProblemModel {
                taint_source: catalog[k as int],
                source_func_sig: callee_path(g.nodes[s]),
                source_span: finding.source_span,
                problem_type: finding.problem_type,
            },
        ],
        _ => Seq::empty(),
    }
}

/// The problems reported for the first `k` nodes, in the order of the nodes.
pub open spec fn problems_upto(
    g: GraphModel,
    catalog: Seq<TaintSourceModel>,
    m: Seq<Option<Marking>>,
    k: int,
) -> Seq<TaintProblemModel>
    decreases k,
{
    if k <= 0 {
        Seq::empty()
    } else {
        problems_upto(g, catalog, m, k - 1) + problems_of(g, catalog, m, k - 1)
    }
}

/// The markings of a graph after classification and propagation.
pub open spec fn final_markings(g: GraphModel, catalog: Seq<TaintSourceModel>) -> Seq<Option<Marking>> {
    saturated(g, classified(g, catalog))
}

/// The problems of a graph under a catalog: those of every source, in the
/// order of the nodes, judged by the markings after propagation.
pub open spec fn all_problems(g: GraphModel, catalog: Seq<TaintSourceModel>) -> Seq<
    TaintProblemModel,
> {
    problems_upto(g, catalog, final_markings(g, catalog), g.nodes.len() as int)
}

/// The first descriptor that names a function is one of the catalog.
pub proof fn lemma_source_naming_bound(catalog: Seq<TaintSourceModel>, name: Seq<char>, k: int)
    requires
        0 <= k,
    ensures
        match source_naming_from(catalog, name, k) {
            Some(i) => k <= i < catalog.len() && catalog[i].functions.contains(name),
            None => true,
        },
    decreases catalog.len() - k,
{
    if k < catalog.len() && !catalog[k].functions.contains(name) {
        lemma_source_naming_bound(catalog, name, k + 1);
    }
}

/// What the analysis of one dependency graph yields.
#[derive(Debug)]
pub struct DataFlowCheckResult<'tsrc> {
    /// The problems found, in the order of the source nodes.
    pub taint_problems: Vec<TaintProblem<'tsrc>>,
    /// The drawing of the graph with its markings, if it was asked for.
    pub data_dependency_graph: Option<DotGraph>,
}

fn callee_of(node: &DependencyGraphNode) -> (r: String)
    ensures
        r@ == callee_path(node@),
{
    match node {
        DependencyGraphNode::FunctionCall { function, span: _ } => match &function.kind {
            TypeKind::FnDef { path, generics: _ } => path.clone(),
            _ => String::new(),
        },
        _ => String::new(),
    }
}

/// Checks the data flow of one dependency graph against a catalog of taint
/// sources: classifies the nodes, propagates the taint, and follows the taint
/// of every source to the first place where it is duplicated, copied, used or
/// caught in a loop before it was wrapped.
pub fn check_data_flow<'tsrc>(
    data_dependency_graph: DependencyGraph,
    taint_sources: &'tsrc Vec<TaintSource<'tsrc>>,
    draw_graph: bool,
) -> (r: DataFlowCheckResult<'tsrc>)
    requires
        data_dependency_graph.wf(),
    ensures
        problems_model(r.taint_problems@) == all_problems(
            data_dependency_graph@,
            sources_model(taint_sources@),
        ),
        match r.data_dependency_graph {
            Some(drawing) => draw_graph && drawing.deep_view() == rendered(
                data_dependency_graph@,
                final_markings(data_dependency_graph@, sources_model(taint_sources@)),
            ),
            None => !draw_graph,
        },
{
    let graph = &data_dependency_graph;
    let ghost g = graph@;
    let ghost catalog = sources_model(taint_sources@);
    let adjacency = graph.outgoing();
    let mut markings = classify_nodes(graph, taint_sources);
    propagate_taint(graph, &adjacency, &mut markings);
    let ghost m = markings@;
    let count = graph.node_count();
    let mut taint_problems: Vec<TaintProblem<'tsrc>> = Vec::new();
    let mut s: usize = 0;
    while s < count
        invariant
            s <= count,
            g == graph@,
            graph.wf(),
            is_adjacency_of(g, adjacency@),
            catalog == sources_model(taint_sources@),
            m == markings@,
            m == final_markings(g, catalog),
            count == g.nodes.len(),
            problems_model(taint_problems@) == problems_upto(g, catalog, m, s as int),
        decreases count - s,
    {
        let ghost before = problems_model(taint_problems@);
        match markings[s] {
            Some(Marking::TaintSource(k)) => {
                proof {
                    assert(classified(g, catalog)[s as int] == m[s as int]);
                    lemma_source_naming_bound(catalog, callee_path(g.nodes[s as int]), 0);
                }
                match trace_source(graph, &adjacency, &markings, s) {
                    Some(finding) => {
                        let problem = TaintProblem {
                            taint_source: &taint_sources[k],
                            source_func_sig: callee_of(graph.node(s)),
                            source_span: finding.source_span,
                            problem_type: finding.problem_type,
                        };
                        let ghost value = problem@;
                        taint_problems.push(problem);
                        proof {
                            assert(problems_of(g, catalog, m, s as int) =~= seq![value]);
                            assert(problems_model(taint_problems@) =~= before + seq![value]);
                        }
                    },
                    None => {
                        assert(before + problems_of(g, catalog, m, s as int) =~= before);
                    },
                }
            },
            _ => {
                assert(before + problems_of(g, catalog, m, s as int) =~= before);
            },
        }
        s += 1;
    }
    let drawing = if draw_graph {
        Some(render_graph(graph, &markings))
    } else {
        None
    };
    DataFlowCheckResult { taint_problems, data_dependency_graph: drawing }
}

/// Propagation is idempotent: a second pass over markings that were
/// propagated changes no marking, and so the problems found under them are
/// the same.
pub proof fn lemma_propagation_idempotent(
    g: GraphModel,
    catalog: Seq<TaintSourceModel>,
    m0: Seq<Option<Marking>>,
)
    requires
        m0.len() == g.nodes.len(),
    ensures
        saturated(g, saturated(g, m0)) == saturated(g, m0),
        problems_upto(g, catalog, saturated(g, saturated(g, m0)), g.nodes.len() as int)
            == problems_upto(g, catalog, saturated(g, m0), g.nodes.len() as int),
{
    let m1 = saturated(g, m0);
    let m2 = saturated(g, m1);
    assert forall|n: int| 0 <= n < m1.len() implies m2[n] == m1[n] by {
        if m1[n] is None && reached(g, m1, n) {
            let p = choose|p: Seq<int>| is_taint_path(g, m1, p) && p.last() == n;
            assert(is_source_mark(m0[p[0]])) by {
                assert(0 <= p[0] < g.nodes.len());
            }
            assert forall|i: int| 1 <= i < p.len() implies m0[#[trigger] p[i]] is None by {
                assert(0 <= p[i] < g.nodes.len());
                assert(m1[p[i]] is None);
            }
            assert(is_taint_path(g, m0, p));
            assert(reached(g, m0, n));
        }
    }
    assert(m2 =~= m1);
}

/// Propagation is monotonic: a node that has a marking keeps it, so a sink
/// stays a sink and a source stays a source.
pub proof fn lemma_propagation_keeps_markings(g: GraphModel, m0: Seq<Option<Marking>>, n: int)
    requires
        0 <= n < m0.len(),
        m0[n] is Some,
    ensures
        saturated(g, m0)[n] == m0[n],
{
}

/// The markings after classification and propagation hold for every node the
/// marking that classification gave it, if it gave one.
pub proof fn lemma_classification_is_final(g: GraphModel, catalog: Seq<TaintSourceModel>, n: int)
    requires
        0 <= n < g.nodes.len(),
        classify_node(g.nodes[n], catalog) is Some,
    ensures
        final_markings(g, catalog)[n] == classify_node(g.nodes[n], catalog),
{
}

/// For a source without an outgoing edge nothing is reported.
pub proof fn lemma_dropped_taint_is_no_problem(
    g: GraphModel,
    catalog: Seq<TaintSourceModel>,
    m: Seq<Option<Marking>>,
    s: int,
)
    requires
        g.out_edges(s).len() == 0,
    ensures
        problems_of(g, catalog, m, s) == Seq::<TaintProblemModel>::empty(),
{
}

/// Where the single outgoing edge of a source is a pure move, what is reported
/// for the source is what the walk finds from the target of that edge on.
pub proof fn lemma_single_move_starts_walk(g: GraphModel, m: Seq<Option<Marking>>, s: int)
    requires
        g.out_edges(s).len() == 1,
        all_moves(g.edges[g.out_edges(s)[0]].instances),
    ensures
        source_finding(g, m, s) == walk(
            g,
            m,
            g.first_span(g.out_edges(s)[0]),
            seq![s],
            seq![g.out_edges(s)[0]],
            g.edges[g.out_edges(s)[0]].to,
        ),
{
}

/// Taint that escapes cleanly: where the single outgoing edge of a source is a
/// pure move into a sink, and nothing is found from that sink on, nothing is
/// reported for the source.
pub proof fn lemma_clean_escape_is_no_problem(
    g: GraphModel,
    catalog: Seq<TaintSourceModel>,
    m: Seq<Option<Marking>>,
    s: int,
)
    requires
        g.out_edges(s).len() == 1,
        all_moves(g.edges[g.out_edges(s)[0]].instances),
        m[g.edges[g.out_edges(s)[0]].to] == Some(Marking::TaintSink),
        walk(
            g,
            m,
            g.first_span(g.out_edges(s)[0]),
            seq![s],
            seq![g.out_edges(s)[0]],
            g.edges[g.out_edges(s)[0]].to,
        ) is None,
    ensures
        problems_of(g, catalog, m, s) == Seq::<TaintProblemModel>::empty(),
{
}

/// Taint that escapes cleanly into a sink from which no edge leads on: nothing
/// is reported for the source.
pub proof fn lemma_escape_into_final_sink(
    g: GraphModel,
    catalog: Seq<TaintSourceModel>,
    m: Seq<Option<Marking>>,
    s: int,
)
    requires
        g.wf(),
        0 <= s < g.nodes.len(),
        g.out_edges(s).len() == 1,
        all_moves(g.edges[g.out_edges(s)[0]].instances),
        m[g.edges[g.out_edges(s)[0]].to] == Some(Marking::TaintSink),
        is_source_mark(m[s]),
        g.out_edges(g.edges[g.out_edges(s)[0]].to).len() == 0,
    ensures
        problems_of(g, catalog, m, s) == Seq::<TaintProblemModel>::empty(),
{
    let e = g.out_edges(s)[0];
    let t = g.edges[e].to;
    lemma_out_edges_upto(g, s, g.edges.len() as int);
    assert(g.out_edges(s).contains(e));
    assert(0 <= t < g.nodes.len());
    assert(t != s);
    assert(!seq![s].contains(t));
    assert(seq![s].len() == 1);
}

/// For a source with two or more outgoing edges exactly one problem is
/// reported: that its taint is duplicated, with an empty statement chain and
/// one target for every outgoing edge, in the order of the edges.
pub proof fn lemma_fan_out_is_duplicated(
    g: GraphModel,
    catalog: Seq<TaintSourceModel>,
    m: Seq<Option<Marking>>,
    s: int,
)
    requires
        g.out_edges(s).len() >= 2,
        is_source_mark(m[s]),
    ensures
        problems_of(g, catalog, m, s).len() == 1,
        problems_of(g, catalog, m, s)[0].problem_type == (ProblemTypeModel::Duplicated {
            statement_chain: Seq::empty(),
            targets: chain_spans(g, g.out_edges(s)),
        }),
        problems_of(g, catalog, m, s)[0].source_span == g.first_span(g.out_edges(s)[0]),
        chain_spans(g, g.out_edges(s)).len() == g.out_edges(s).len(),
        forall|i: int|
            0 <= i < g.out_edges(s).len() ==> chain_spans(g, g.out_edges(s))[i] == g.first_span(
                #[trigger] g.out_edges(s)[i],
            ),
{
}

} // verus!
