//! The space tree: one immutable node per lexical code region, each holding
//! identity (name, kind, line span), a fully-normalized aggregate metrics
//! record, and its child regions in source order.
//!
//! The tree is built in two steps. `extract_space` walks the engine's native
//! region tree through the trusted wrappers of `crate::engine` and copies it
//! verbatim into a `RawSpace`, a tree of plain values. `build_space_tree`
//! then materializes the published tree; its result is pinned exactly to
//! `build_model` of the raw data, so rebuilding from equal raw data always
//! yields an identical tree.

use vstd::prelude::*;
use crate::engine;
use crate::metrics::{
    CodeMetrics, HalsteadMetrics, LocMetrics, AbcMetrics, NomMetrics, NargsMetrics, WmcMetrics,
    NpmMetrics, NpaMetrics, aggregate_metrics, normalize_metrics, metrics_finite,
    lemma_normalize_metrics_finite,
};

verus! {

/// The kind of a code region.
#[derive(Clone, Copy, Debug, PartialEq, Eq, Structural)]
pub enum SpaceKind {
    Unknown,
    Function,
    Class,
    Struct,
    Trait,
    Impl,
    Unit,
    Namespace,
    Interface,
}

/// A region tree copied verbatim from the engine: bit patterns not yet
/// normalized.
#[derive(Debug, PartialEq)]
pub struct RawSpace {
    pub name: Option<String>,
    pub start_line: usize,
    pub end_line: usize,
    pub kind: SpaceKind,
    pub metrics: CodeMetrics,
    pub spaces: Vec<RawSpace>,
}

/// A node of the published space tree: identity fields as the engine
/// reported them, metrics normalized, children in source order.
#[derive(Debug, PartialEq)]
pub struct SpaceNode {
    pub name: Option<String>,
    pub start_line: usize,
    pub end_line: usize,
    pub kind: SpaceKind,
    pub metrics: CodeMetrics,
    pub spaces: Vec<SpaceNode>,
}

/// The mathematical shape shared by raw and published region trees.
#[verifier::ext_equal]
pub ghost struct RegionModel {
    pub name: Option<Seq<char>>,
    pub start_line: int,
    pub end_line: int,
    pub kind: SpaceKind,
    pub metrics: CodeMetrics,
    pub spaces: Seq<RegionModel>,
}

pub open spec fn raw_model(r: RawSpace) -> RegionModel
    decreases r,
{
    RegionModel {
        name: r.name.deep_view(),
        start_line: r.start_line as int,
        end_line: r.end_line as int,
        kind: r.kind,
        metrics: r.metrics,
        spaces: raw_models(r.spaces@),
    }
}

pub open spec fn raw_models(s: Seq<RawSpace>) -> Seq<RegionModel>
    decreases s,
{
    if s.len() == 0 {
        Seq::empty()
    } else {
        raw_models(s.drop_last()) + seq![raw_model(s[s.len() - 1])]
    }
}

pub open spec fn node_model(n: SpaceNode) -> RegionModel
    decreases n,
{
    RegionModel {
        name: n.name.deep_view(),
        start_line: n.start_line as int,
        end_line: n.end_line as int,
        kind: n.kind,
        metrics: n.metrics,
        spaces: node_models(n.spaces@),
    }
}

pub open spec fn node_models(s: Seq<SpaceNode>) -> Seq<RegionModel>
    decreases s,
{
    if s.len() == 0 {
        Seq::empty()
    } else {
        node_models(s.drop_last()) + seq![node_model(s[s.len() - 1])]
    }
}

impl View for RawSpace {
    type V = RegionModel;

    open spec fn view(&self) -> RegionModel {
        raw_model(*self)
    }
}

impl View for SpaceNode {
    type V = RegionModel;

    open spec fn view(&self) -> RegionModel {
        node_model(*self)
    }
}

/// What building does to one region: identity kept verbatim, metrics
/// normalized, children converted in order.
pub open spec fn build_model(m: RegionModel) -> RegionModel
    decreases m,
{
    RegionModel {
        name: m.name,
        start_line: m.start_line,
        end_line: m.end_line,
        kind: m.kind,
        metrics: normalize_metrics(m.metrics),
        spaces: build_models(m.spaces),
    }
}

pub open spec fn build_models(s: Seq<RegionModel>) -> Seq<RegionModel>
    decreases s,
{
    if s.len() == 0 {
        Seq::empty()
    } else {
        build_models(s.drop_last()) + seq![build_model(s[s.len() - 1])]
    }
}

pub proof fn lemma_raw_models_index(s: Seq<RawSpace>)
    ensures
        raw_models(s).len() == s.len(),
        forall|i: int| 0 <= i < s.len() ==> #[trigger] raw_models(s)[i] == raw_model(s[i]),
    decreases s,
{
    if s.len() > 0 {
        lemma_raw_models_index(s.drop_last());
    }
}

pub proof fn lemma_node_models_index(s: Seq<SpaceNode>)
    ensures
        node_models(s).len() == s.len(),
        forall|i: int| 0 <= i < s.len() ==> #[trigger] node_models(s)[i] == node_model(s[i]),
    decreases s,
{
    if s.len() > 0 {
        lemma_node_models_index(s.drop_last());
    }
}

pub proof fn lemma_build_models_index(s: Seq<RegionModel>)
    ensures
        build_models(s).len() == s.len(),
        forall|i: int| 0 <= i < s.len() ==> #[trigger] build_models(s)[i] == build_model(s[i]),
    decreases s,
{
    if s.len() > 0 {
        lemma_build_models_index(s.drop_last());
    }
}

/// Whether a raw tree is the verbatim copy of a native region tree: every
/// identity field and every reported statistic equal to the engine's named
/// data (absent facets zero), children in the engine's order.
pub open spec fn extracted_from(r: RawSpace, s: rust_code_analysis::FuncSpace) -> bool
    decreases r,
{
    &&& r.name.deep_view() == engine::native_name(s)
    &&& r.start_line as int == engine::native_start_line(s)
    &&& r.end_line as int == engine::native_end_line(s)
    &&& r.kind == engine::native_kind(s)
    &&& r.metrics == engine::native_metrics(s)
    &&& r.spaces@.len() == engine::native_children(s).len()
    &&& forall|i: int|
        0 <= i < r.spaces@.len() ==> extracted_from(
            #[trigger] r.spaces@[i],
            engine::native_children(s)[i],
        )
}

/// Whether a published tree is exactly the conversion of a native region
/// tree: identity fields verbatim, the engine's reported record normalized,
/// children converted in order.
pub open spec fn converted_from(m: RegionModel, s: rust_code_analysis::FuncSpace) -> bool
    decreases m,
{
    &&& m.name == engine::native_name(s)
    &&& m.start_line == engine::native_start_line(s)
    &&& m.end_line == engine::native_end_line(s)
    &&& m.kind == engine::native_kind(s)
    &&& m.metrics == normalize_metrics(engine::native_metrics(s))
    &&& m.spaces.len() == engine::native_children(s).len()
    &&& forall|i: int|
        0 <= i < m.spaces.len() ==> converted_from(
            #[trigger] m.spaces[i],
            engine::native_children(s)[i],
        )
}

/// Building the model of a verbatim copy yields exactly the conversion of
/// the native tree it was copied from.
pub proof fn lemma_extracted_builds_converted(r: RawSpace, s: rust_code_analysis::FuncSpace)
    requires
        extracted_from(r, s),
    ensures
        converted_from(build_model(r@), s),
    decreases r,
{
    lemma_raw_models_index(r.spaces@);
    lemma_build_models_index(raw_models(r.spaces@));
    let m = build_model(r@);
    assert forall|i: int| 0 <= i < m.spaces.len() implies converted_from(
        #[trigger] m.spaces[i],
        engine::native_children(s)[i],
    ) by {
        lemma_extracted_builds_converted(r.spaces@[i], engine::native_children(s)[i]);
        assert(m.spaces[i] == build_model(raw_model(r.spaces@[i])));
    }
}

/// Copies the engine's native region tree into plain values, verbatim:
/// name, kind and line span as reported, metric bit patterns untouched and
/// absent facets zeroed, children in the engine's order.
pub fn extract_space(s: &rust_code_analysis::FuncSpace) -> (r: RawSpace)
    ensures
        extracted_from(r, *s),
    decreases engine::space_weight(*s),
{
    let kids = engine::space_children(s);
    let mut spaces: Vec<RawSpace> = Vec::new();
    let mut i: usize = 0;
    while i < kids.len()
        invariant
            i <= kids@.len(),
            kids@ == engine::native_children(*s),
            spaces@.len() == i,
            forall|j: int| 0 <= j < i ==> extracted_from(#[trigger] spaces@[j], kids@[j]),
            forall|j: int|
                0 <= j < kids@.len() ==> engine::space_weight(#[trigger] kids@[j])
                    < engine::space_weight(*s),
        decreases kids@.len() - i,
    {
        let child = extract_space(&kids[i]);
        spaces.push(child);
        i = i + 1;
    }
    let h_a = engine::halstead_bits_a(s);
    let h_b = engine::halstead_bits_b(s);
    let l = engine::loc_bits(s);
    let n = engine::nom_bits(s);
    let g_a = engine::nargs_bits_a(s);
    let g_b = engine::nargs_bits_b(s);
    let m = CodeMetrics {
        cyclomatic: engine::cyclomatic_bits(s),
        cognitive: engine::cognitive_bits(s),
        halstead: HalsteadMetrics {
            n1: h_a.0,
            big_n1: h_a.1,
            n2: h_a.2,
            big_n2: h_a.3,
            length: h_a.4,
            estimated_program_length: h_a.5,
            purity_ratio: h_a.6,
            vocabulary: h_b.0,
            volume: h_b.1,
            difficulty: h_b.2,
            level: h_b.3,
            effort: h_b.4,
            time: h_b.5,
            bugs: h_b.6,
        },
        // The engine reports no average or extremum statistics for line
        // counts; their absence is normalized to zero, never left as a hole.
        loc: LocMetrics {
            sloc: l.0,
            ploc: l.1,
            lloc: l.2,
            cloc: l.3,
            blank: l.4,
            sloc_average: 0,
            ploc_average: 0,
            lloc_average: 0,
            cloc_average: 0,
            blank_average: 0,
            sloc_min: 0,
            sloc_max: 0,
            ploc_min: 0,
            ploc_max: 0,
            lloc_min: 0,
            lloc_max: 0,
            cloc_min: 0,
            cloc_max: 0,
            blank_min: 0,
            blank_max: 0,
        },
        mi: engine::mi_bits(s),
        // The engine reports no assignment/branch/condition statistics;
        // the category is present with its defined default, zero.
        abc: AbcMetrics {
            assignments: 0,
            branches: 0,
            conditions: 0,
            magnitude: 0,
            assignments_average: 0,
            branches_average: 0,
            conditions_average: 0,
            assignments_min: 0,
            assignments_max: 0,
            branches_min: 0,
            branches_max: 0,
            conditions_min: 0,
            conditions_max: 0,
        },
        nom: NomMetrics {
            functions: n.0,
            closures: n.1,
            total: n.2,
            functions_average: 0,
            closures_average: 0,
            average: 0,
            functions_min: n.3,
            functions_max: n.4,
            closures_min: n.5,
            closures_max: n.6,
        },
        nargs: NargsMetrics {
            total_functions: g_a.0,
            total_closures: g_a.1,
            average_functions: g_a.2,
            average_closures: g_a.3,
            total: g_a.4,
            average: g_b.0,
            functions_min: g_b.1,
            functions_max: g_b.2,
            closures_min: g_b.3,
            closures_max: g_b.4,
        },
        nexits: engine::nexits_bits(s),
        // No weighted-method, public-method or public-attribute statistics
        // exist in this engine version: zeroed, never omitted.
        wmc: WmcMetrics { classes: 0, interfaces: 0, total: 0 },
        npm: NpmMetrics { classes: 0, interfaces: 0, total: 0 },
        npa: NpaMetrics { classes: 0, interfaces: 0, total: 0 },
    };
    let out = RawSpace {
        name: engine::space_name(s),
        start_line: engine::space_start_line(s),
        end_line: engine::space_end_line(s),
        kind: engine::space_kind(s),
        metrics: m,
        spaces,
    };
    proof {
        assert(out.metrics == engine::native_metrics(*s));
        assert(extracted_from(out, *s));
    }
    out
}

/// Materializes the published tree from extracted region data.
///
/// The result is exactly `build_model` of the input's shape: identity fields
/// verbatim, every metrics record normalized, children in order. Because
/// `build_model` is a function, two calls on inputs with equal shapes always
/// return structurally and numerically identical trees.
pub fn build_space_tree(raw: &RawSpace) -> (r: SpaceNode)
    ensures
        r@ == build_model(raw@),
    decreases *raw,
{
    let mut children: Vec<SpaceNode> = Vec::new();
    let mut i: usize = 0;
    while i < raw.spaces.len()
        invariant
            i <= raw.spaces@.len(),
            children@.len() == i,
            forall|j: int|
                0 <= j < i ==> #[trigger] node_model(children@[j]) == build_model(
                    raw_model(raw.spaces@[j]),
                ),
        decreases raw.spaces@.len() - i,
    {
        let c = build_space_tree(&raw.spaces[i]);
        proof {
            assert(node_model(c) == build_model(raw_model(raw.spaces@[i as int])));
        }
        children.push(c);
        i = i + 1;
    }
    let name = match &raw.name {
        Some(s) => Some(s.clone()),
        None => None,
    };
    let node = SpaceNode {
        name,
        start_line: raw.start_line,
        end_line: raw.end_line,
        kind: raw.kind,
        metrics: aggregate_metrics(raw.metrics),
        spaces: children,
    };
    proof {
        lemma_node_models_index(node.spaces@);
        lemma_raw_models_index(raw.spaces@);
        lemma_build_models_index(raw_models(raw.spaces@));
        assert(node_models(node.spaces@).len() == build_models(raw_models(raw.spaces@)).len());
        assert forall|j: int| 0 <= j < node_models(node.spaces@).len() implies node_models(
            node.spaces@,
        )[j] == build_models(raw_models(raw.spaces@))[j] by {
            assert(node_models(node.spaces@)[j] == node_model(children@[j]));
            assert(raw_models(raw.spaces@)[j] == raw_model(raw.spaces@[j]));
            assert(build_models(raw_models(raw.spaces@))[j] == build_model(
                raw_model(raw.spaces@[j]),
            ));
        }
        assert(node_models(node.spaces@) =~= build_models(raw_models(raw.spaces@)));
        assert(node_model(node) =~= build_model(raw_model(*raw)));
    }
    node
}

/// The pre-order listing of a region tree: each node before its children,
/// children in source order.
pub open spec fn preorder(m: RegionModel) -> Seq<RegionModel>
    decreases m,
{
    seq![m] + preorder_seq(m.spaces)
}

pub open spec fn preorder_seq(s: Seq<RegionModel>) -> Seq<RegionModel>
    decreases s,
{
    if s.len() == 0 {
        Seq::empty()
    } else {
        preorder_seq(s.drop_last()) + preorder(s[s.len() - 1])
    }
}

/// The number of regions in a tree.
pub open spec fn region_count(m: RegionModel) -> nat
    decreases m,
{
    1 + count_seq(m.spaces)
}

/// The number of regions in a forest: the count of all descendants of a node
/// whose children these are.
pub open spec fn count_seq(s: Seq<RegionModel>) -> nat
    decreases s,
{
    if s.len() == 0 {
        0
    } else {
        count_seq(s.drop_last()) + region_count(s[s.len() - 1])
    }
}

/// The pre-order listing restricted to one region kind.
pub open spec fn select_model(m: RegionModel, k: SpaceKind) -> Seq<RegionModel>
    decreases m,
{
    if m.kind == k {
        seq![m] + select_seq(m.spaces, k)
    } else {
        select_seq(m.spaces, k)
    }
}

pub open spec fn select_seq(s: Seq<RegionModel>, k: SpaceKind) -> Seq<RegionModel>
    decreases s,
{
    if s.len() == 0 {
        Seq::empty()
    } else {
        select_seq(s.drop_last(), k) + select_model(s[s.len() - 1], k)
    }
}

/// The models of a sequence of node references.
pub open spec fn views_of(s: Seq<&SpaceNode>) -> Seq<RegionModel> {
    s.map_values(|p: &SpaceNode| node_model(*p))
}

impl SpaceNode {
    /// Every region of the tree, in pre-order: the node itself first, then
    /// each child's regions, in source order.
    pub fn get_all_spaces<'a>(&'a self) -> (r: Vec<&'a SpaceNode>)
        ensures
            views_of(r@) == preorder(self@),
        decreases *self,
    {
        let mut out: Vec<&'a SpaceNode> = Vec::new();
        out.push(self);
        proof {
            lemma_node_models_index(self.spaces@);
            assert(views_of(out@) =~= seq![self@] + preorder_seq(
                node_models(self.spaces@).take(0),
            ));
        }
        let mut i: usize = 0;
        while i < self.spaces.len()
            invariant
                i <= self.spaces@.len(),
                views_of(out@) == seq![node_model(*self)] + preorder_seq(
                    node_models(self.spaces@).take(i as int),
                ),
            decreases self.spaces@.len() - i,
        {
            let sub = self.spaces[i].get_all_spaces();
            let ghost out_before = out@;
            proof {
                assert(out@ =~= out_before + sub@.take(0));
            }
            let mut k: usize = 0;
            while k < sub.len()
                invariant
                    k <= sub@.len(),
                    out@ == out_before + sub@.take(k as int),
                decreases sub@.len() - k,
            {
                out.push(sub[k]);
                k = k + 1;
                proof {
                    assert(out@ =~= out_before + sub@.take(k as int));
                }
            }
            proof {
                lemma_node_models_index(self.spaces@);
                assert(out@ =~= out_before + sub@);
                assert(views_of(out@) =~= views_of(out_before) + views_of(sub@));
                let cs = node_models(self.spaces@);
                assert(cs.take(i as int + 1).drop_last() =~= cs.take(i as int));
                assert(cs.take(i as int + 1)[cs.take(i as int + 1).len() - 1] == node_model(
                    self.spaces@[i as int],
                ));
                assert(views_of(out@) =~= seq![node_model(*self)] + preorder_seq(
                    cs.take(i as int + 1),
                ));
            }
            i = i + 1;
        }
        proof {
            lemma_node_models_index(self.spaces@);
            assert(node_models(self.spaces@).take(self.spaces@.len() as int) =~= node_models(
                self.spaces@,
            ));
        }
        out
    }

    /// Every region of the tree whose kind equals the filter, at any depth
    /// including the root, in pre-order.
    pub fn select_by_kind<'a>(&'a self, kind: SpaceKind) -> (r: Vec<&'a SpaceNode>)
        ensures
            views_of(r@) == select_model(self@, kind),
        decreases *self,
    {
        let mut out: Vec<&'a SpaceNode> = Vec::new();
        if self.kind == kind {
            out.push(self);
        }
        proof {
            assert(views_of(out@) =~= (if self@.kind == kind {
                seq![self@]
            } else {
                Seq::<RegionModel>::empty()
            }) + select_seq(node_models(self.spaces@).take(0), kind));
        }
        let mut i: usize = 0;
        while i < self.spaces.len()
            invariant
                i <= self.spaces@.len(),
                views_of(out@) == (if node_model(*self).kind == kind {
                    seq![node_model(*self)]
                } else {
                    Seq::<RegionModel>::empty()
                }) + select_seq(node_models(self.spaces@).take(i as int), kind),
            decreases self.spaces@.len() - i,
        {
            let sub = self.spaces[i].select_by_kind(kind);
            let ghost out_before = out@;
            proof {
                assert(out@ =~= out_before + sub@.take(0));
            }
            let mut k: usize = 0;
            while k < sub.len()
                invariant
                    k <= sub@.len(),
                    out@ == out_before + sub@.take(k as int),
                decreases sub@.len() - k,
            {
                out.push(sub[k]);
                k = k + 1;
                proof {
                    assert(out@ =~= out_before + sub@.take(k as int));
                }
            }
            proof {
                lemma_node_models_index(self.spaces@);
                assert(out@ =~= out_before + sub@);
                assert(views_of(out@) =~= views_of(out_before) + views_of(sub@));
                let cs = node_models(self.spaces@);
                assert(cs.take(i as int + 1).drop_last() =~= cs.take(i as int));
                assert(cs.take(i as int + 1)[cs.take(i as int + 1).len() - 1] == node_model(
                    self.spaces@[i as int],
                ));
                assert(views_of(out@) =~= (if node_model(*self).kind == kind {
                    seq![node_model(*self)]
                } else {
                    Seq::<RegionModel>::empty()
                }) + select_seq(cs.take(i as int + 1), kind));
            }
            i = i + 1;
        }
        proof {
            lemma_node_models_index(self.spaces@);
            assert(node_models(self.spaces@).take(self.spaces@.len() as int) =~= node_models(
                self.spaces@,
            ));
        }
        out
    }

    /// Every function region of the tree, in pre-order.
    pub fn get_functions<'a>(&'a self) -> (r: Vec<&'a SpaceNode>)
        ensures
            views_of(r@) == select_model(self@, SpaceKind::Function),
    {
        self.select_by_kind(SpaceKind::Function)
    }

    /// Every class region of the tree, in pre-order.
    pub fn get_classes<'a>(&'a self) -> (r: Vec<&'a SpaceNode>)
        ensures
            views_of(r@) == select_model(self@, SpaceKind::Class),
    {
        self.select_by_kind(SpaceKind::Class)
    }
}

/// The pre-order listing of any tree starts with its root, and its length is
/// one more than the count of all the root's descendants.
pub proof fn lemma_select_all_shape(m: RegionModel)
    ensures
        preorder(m).len() == 1 + count_seq(m.spaces),
        preorder(m)[0] == m,
{
    lemma_preorder_seq_len(m.spaces);
}

pub proof fn lemma_preorder_len(m: RegionModel)
    ensures
        preorder(m).len() == region_count(m),
    decreases m,
{
    lemma_preorder_seq_len(m.spaces);
}

pub proof fn lemma_preorder_seq_len(s: Seq<RegionModel>)
    ensures
        preorder_seq(s).len() == count_seq(s),
    decreases s,
{
    if s.len() > 0 {
        lemma_preorder_seq_len(s.drop_last());
        lemma_preorder_len(s[s.len() - 1]);
    }
}

/// Selecting by kind is exactly the pre-order listing filtered down to that
/// kind: a subsequence of `select_all`'s result, in the same relative order,
/// every element of the filter's kind.
pub proof fn lemma_select_is_filtered_preorder(m: RegionModel, k: SpaceKind)
    ensures
        select_model(m, k) == preorder(m).filter((|x: RegionModel| x.kind == k)),
    decreases m,
{
    broadcast use vstd::seq_lib::group_filter_ensures;

    let pred = (|x: RegionModel| x.kind == k);
    lemma_select_seq_is_filtered(m.spaces, k);
    Seq::<RegionModel>::filter_distributes_over_add(seq![m], preorder_seq(m.spaces), pred);
    reveal_with_fuel(Seq::<RegionModel>::filter, 2);
    assert(seq![m].drop_last() =~= Seq::<RegionModel>::empty());
    assert(seq![m].filter(pred) =~= (if pred(m) {
        seq![m]
    } else {
        Seq::<RegionModel>::empty()
    }));
    assert(select_model(m, k) =~= preorder(m).filter(pred));
}

pub proof fn lemma_select_seq_is_filtered(s: Seq<RegionModel>, k: SpaceKind)
    ensures
        select_seq(s, k) == preorder_seq(s).filter((|x: RegionModel| x.kind == k)),
    decreases s,
{
    let pred = (|x: RegionModel| x.kind == k);
    if s.len() == 0 {
        reveal_with_fuel(Seq::<RegionModel>::filter, 1);
        assert(select_seq(s, k) =~= preorder_seq(s).filter(pred));
    } else {
        lemma_select_seq_is_filtered(s.drop_last(), k);
        lemma_select_is_filtered_preorder(s[s.len() - 1], k);
        Seq::<RegionModel>::filter_distributes_over_add(
            preorder_seq(s.drop_last()),
            preorder(s[s.len() - 1]),
            pred,
        );
    }
}

/// Tree building is deterministic: extractions that carry equal region
/// data always build structurally and numerically identical trees, since
/// `build_space_tree` returns exactly `build_model` of its input's shape.
pub proof fn lemma_build_deterministic(a: RawSpace, b: RawSpace)
    requires
        a@ == b@,
    ensures
        build_model(a@) == build_model(b@),
{
}

/// Whether every metrics record in a tree is fully finite.
pub open spec fn tree_finite(m: RegionModel) -> bool
    decreases m,
{
    metrics_finite(m.metrics) && seq_finite(m.spaces)
}

pub open spec fn seq_finite(s: Seq<RegionModel>) -> bool
    decreases s,
{
    if s.len() == 0 {
        true
    } else {
        seq_finite(s.drop_last()) && tree_finite(s[s.len() - 1])
    }
}

/// Whatever the engine reported, every node of a built tree - leaves
/// included - carries all twelve metric groups with finite values only.
pub proof fn lemma_build_model_finite(m: RegionModel)
    ensures
        tree_finite(build_model(m)),
    decreases m,
{
    lemma_normalize_metrics_finite(m.metrics);
    lemma_build_models_finite(m.spaces);
}

#[verifier::rlimit(60)]
pub proof fn lemma_build_models_finite(s: Seq<RegionModel>)
    ensures
        seq_finite(build_models(s)),
    decreases s,
{
    if s.len() > 0 {
        lemma_build_models_finite(s.drop_last());
        lemma_build_model_finite(s[s.len() - 1]);
        lemma_build_models_index(s);
        lemma_build_models_index(s.drop_last());
        let b = build_models(s);
        assert(b.drop_last() =~= build_models(s.drop_last()));
        assert(b[b.len() - 1] == build_model(s[s.len() - 1]));
    }
}

/// Finiteness of a tree is visible on every element of its pre-order
/// listing.
pub proof fn lemma_tree_finite_preorder(m: RegionModel)
    requires
        tree_finite(m),
    ensures
        forall|i: int|
            0 <= i < preorder(m).len() ==> metrics_finite(#[trigger] preorder(m)[i].metrics),
    decreases m,
{
    lemma_seq_finite_preorder(m.spaces);
}

pub proof fn lemma_seq_finite_preorder(s: Seq<RegionModel>)
    requires
        seq_finite(s),
    ensures
        forall|i: int|
            0 <= i < preorder_seq(s).len() ==> metrics_finite(
                #[trigger] preorder_seq(s)[i].metrics,
            ),
    decreases s,
{
    if s.len() > 0 {
        lemma_seq_finite_preorder(s.drop_last());
        lemma_tree_finite_preorder(s[s.len() - 1]);
    }
}

} // verus!
