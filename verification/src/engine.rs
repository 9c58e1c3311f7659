//! The trusted boundary to the external parsing/metrics engine
//! (the `rust_code_analysis` crate).
//!
//! Everything the library learns about a parsed source unit enters through
//! the wrappers below. Each wrapper's body only makes the external call and
//! converts its arguments and result; the verifier believes the stated
//! contracts without reading the bodies, so the contracts claim no more than
//! the engine's own source shows.
//!
//! The engine is deterministic: what a region holds is a function of the
//! region value alone, and whether parsing succeeds is a function of the
//! language, the bytes and the path alone. Those functions are named below
//! as uninterpreted spec functions (`native_name`, `parses`, ...); each
//! wrapper's `ensures` equates its result with the corresponding name, which
//! lets the callers' own contracts pin their results to the engine's data.
//!
//! Facets that this engine version reports no statistics for (the ABC,
//! weighted-method, public-method and public-attribute categories, and the
//! average/extremum variants of the line counts and method counts) have no
//! wrapper and no name: `native_metrics` below states their absence as zero.

use vstd::prelude::*;
use crate::lang::Language;
use crate::metrics::{
    CodeMetrics, CyclomaticMetrics, CognitiveMetrics, HalsteadMetrics, LocMetrics,
    MaintainabilityIndex, AbcMetrics, NomMetrics, NargsMetrics, NexitsMetrics, WmcMetrics,
    NpmMetrics, NpaMetrics,
};
use crate::space::SpaceKind;

verus! {

#[verifier::external_type_specification]
#[verifier::external_body]
pub struct ExFuncSpace(rust_code_analysis::FuncSpace);

/// The size of a native region subtree, in regions.
///
/// `rust_code_analysis::FuncSpace` is a finite tree of owned nodes (each
/// child lives in its parent's `spaces` vector), so every subtree has a
/// well-defined finite size; this name stands for that measure and founds
/// the termination of the extraction walk.
pub uninterp spec fn space_weight(s: rust_code_analysis::FuncSpace) -> nat;

/// The region's display name, absent for anonymous regions.
pub uninterp spec fn native_name(s: rust_code_analysis::FuncSpace) -> Option<Seq<char>>;

/// The region's 1-based first line.
pub uninterp spec fn native_start_line(s: rust_code_analysis::FuncSpace) -> int;

/// The region's 1-based last line.
pub uninterp spec fn native_end_line(s: rust_code_analysis::FuncSpace) -> int;

/// The region's kind, under the library's naming of the engine's kinds.
pub uninterp spec fn native_kind(s: rust_code_analysis::FuncSpace) -> SpaceKind;

/// The region's child regions, in source order.
pub uninterp spec fn native_children(s: rust_code_analysis::FuncSpace) -> Seq<
    rust_code_analysis::FuncSpace,
>;

/// The region's cyclomatic statistics, as bit patterns:
/// `[sum, average, min, max]`.
pub uninterp spec fn cyclomatic_facet(s: rust_code_analysis::FuncSpace) -> Seq<u64>;

/// The region's cognitive statistics: `[sum, average, min, max]`.
pub uninterp spec fn cognitive_facet(s: rust_code_analysis::FuncSpace) -> Seq<u64>;

/// The region's Halstead statistics: `[n1, big_n1, n2, big_n2, length,
/// estimated_program_length, purity_ratio, vocabulary, volume, difficulty,
/// level, effort, time, bugs]`.
pub uninterp spec fn halstead_facet(s: rust_code_analysis::FuncSpace) -> Seq<u64>;

/// The region's line counts: `[sloc, ploc, lloc, cloc, blank]`.
pub uninterp spec fn loc_facet(s: rust_code_analysis::FuncSpace) -> Seq<u64>;

/// The region's maintainability indices:
/// `[mi_original, mi_sei, mi_visual_studio]`.
pub uninterp spec fn mi_facet(s: rust_code_analysis::FuncSpace) -> Seq<u64>;

/// The region's method counts: `[functions, closures, total,
/// functions_min, functions_max, closures_min, closures_max]`.
pub uninterp spec fn nom_facet(s: rust_code_analysis::FuncSpace) -> Seq<u64>;

/// The region's argument counts: `[total_functions, total_closures,
/// average_functions, average_closures, total, average, functions_min,
/// functions_max, closures_min, closures_max]`.
pub uninterp spec fn nargs_facet(s: rust_code_analysis::FuncSpace) -> Seq<u64>;

/// The region's exit-point statistics: `[sum, average, min, max]`.
pub uninterp spec fn nexits_facet(s: rust_code_analysis::FuncSpace) -> Seq<u64>;

/// What the language inference concludes for given bytes and path.
pub uninterp spec fn guess_of(source: Seq<u8>, path: Seq<char>) -> Option<Language>;

/// Whether the engine can produce a region tree for the given language,
/// bytes and path.
pub uninterp spec fn parses(lang: Language, source: Seq<u8>, path: Seq<char>) -> bool;

/// The complete raw aggregate record of a region, as the engine reports it:
/// the facets named above in their field order, and zero - the engine's
/// defined default for an absent measurement - for every statistic this
/// engine version does not compute (all of ABC, WMC, NPM and NPA, the
/// average/extremum variants of the line counts, and the average method
/// counts).
pub open spec fn native_metrics(s: rust_code_analysis::FuncSpace) -> CodeMetrics {
    CodeMetrics {
        cyclomatic: CyclomaticMetrics {
            sum: cyclomatic_facet(s)[0],
            average: cyclomatic_facet(s)[1],
            min: cyclomatic_facet(s)[2],
            max: cyclomatic_facet(s)[3],
        },
        cognitive: CognitiveMetrics {
            sum: cognitive_facet(s)[0],
            average: cognitive_facet(s)[1],
            min: cognitive_facet(s)[2],
            max: cognitive_facet(s)[3],
        },
        halstead: HalsteadMetrics {
            n1: halstead_facet(s)[0],
            big_n1: halstead_facet(s)[1],
            n2: halstead_facet(s)[2],
            big_n2: halstead_facet(s)[3],
            length: halstead_facet(s)[4],
            estimated_program_length: halstead_facet(s)[5],
            purity_ratio: halstead_facet(s)[6],
            vocabulary: halstead_facet(s)[7],
            volume: halstead_facet(s)[8],
            difficulty: halstead_facet(s)[9],
            level: halstead_facet(s)[10],
            effort: halstead_facet(s)[11],
            time: halstead_facet(s)[12],
            bugs: halstead_facet(s)[13],
        },
        loc: LocMetrics {
            sloc: loc_facet(s)[0],
            ploc: loc_facet(s)[1],
            lloc: loc_facet(s)[2],
            cloc: loc_facet(s)[3],
            blank: loc_facet(s)[4],
            sloc_average: 0,
            ploc_average: 0,
            lloc_average: 0,
            cloc_average: 0,
            blank_average: 0,
            sloc_min: 0,
            sloc_max: 0,
            ploc_min: 0,
            ploc_max: 0,
            lloc_min: 0,
            lloc_max: 0,
            cloc_min: 0,
            cloc_max: 0,
            blank_min: 0,
            blank_max: 0,
        },
        mi: MaintainabilityIndex {
            mi_original: mi_facet(s)[0],
            mi_sei: mi_facet(s)[1],
            mi_visual_studio: mi_facet(s)[2],
        },
        abc: AbcMetrics {
            assignments: 0,
            branches: 0,
            conditions: 0,
            magnitude: 0,
            assignments_average: 0,
            branches_average: 0,
            conditions_average: 0,
            assignments_min: 0,
            assignments_max: 0,
            branches_min: 0,
            branches_max: 0,
            conditions_min: 0,
            conditions_max: 0,
        },
        nom: NomMetrics {
            functions: nom_facet(s)[0],
            closures: nom_facet(s)[1],
            total: nom_facet(s)[2],
            functions_average: 0,
            closures_average: 0,
            average: 0,
            functions_min: nom_facet(s)[3],
            functions_max: nom_facet(s)[4],
            closures_min: nom_facet(s)[5],
            closures_max: nom_facet(s)[6],
        },
        nargs: NargsMetrics {
            total_functions: nargs_facet(s)[0],
            total_closures: nargs_facet(s)[1],
            average_functions: nargs_facet(s)[2],
            average_closures: nargs_facet(s)[3],
            total: nargs_facet(s)[4],
            average: nargs_facet(s)[5],
            functions_min: nargs_facet(s)[6],
            functions_max: nargs_facet(s)[7],
            closures_min: nargs_facet(s)[8],
            closures_max: nargs_facet(s)[9],
        },
        nexits: NexitsMetrics {
            sum: nexits_facet(s)[0],
            average: nexits_facet(s)[1],
            min: nexits_facet(s)[2],
            max: nexits_facet(s)[3],
        },
        wmc: WmcMetrics { classes: 0, interfaces: 0, total: 0 },
        npm: NpmMetrics { classes: 0, interfaces: 0, total: 0 },
        npa: NpaMetrics { classes: 0, interfaces: 0, total: 0 },
    }
}

/// Relies on the `spaces` field of `rust_code_analysis::FuncSpace`: the child
/// regions of a region, in source order. Because each child subtree is a
/// strict part of its parent's owned tree, its size is strictly smaller.
#[verifier::external_body]
pub(crate) fn space_children(s: &rust_code_analysis::FuncSpace) -> (r: &Vec<
    rust_code_analysis::FuncSpace,
>)
    ensures
        r@ == native_children(*s),
        forall|i: int| 0 <= i < r@.len() ==> space_weight(r@[i]) < space_weight(*s),
{
    &s.spaces
}

/// Relies on the `name` field of `rust_code_analysis::FuncSpace`: the
/// region's display name, absent for anonymous regions.
#[verifier::external_body]
pub(crate) fn space_name(s: &rust_code_analysis::FuncSpace) -> (r: Option<String>)
    ensures
        r.deep_view() == native_name(*s),
{
    s.name.clone()
}

/// Relies on the `start_line` field of `rust_code_analysis::FuncSpace`.
#[verifier::external_body]
pub(crate) fn space_start_line(s: &rust_code_analysis::FuncSpace) -> (r: usize)
    ensures
        r as int == native_start_line(*s),
{
    s.start_line
}

/// Relies on the `end_line` field of `rust_code_analysis::FuncSpace`.
#[verifier::external_body]
pub(crate) fn space_end_line(s: &rust_code_analysis::FuncSpace) -> (r: usize)
    ensures
        r as int == native_end_line(*s),
{
    s.end_line
}

/// Relies on the `kind` field of `rust_code_analysis::FuncSpace`, mapping
/// each variant of the engine's `SpaceKind` to the library's, one for one.
/// (This engine version has no interface regions, so `Interface` is never
/// produced.)
#[verifier::external_body]
pub(crate) fn space_kind(s: &rust_code_analysis::FuncSpace) -> (r: SpaceKind)
    ensures
        r == native_kind(*s),
{
    match s.kind {
        rust_code_analysis::SpaceKind::Unknown => SpaceKind::Unknown,
        rust_code_analysis::SpaceKind::Function => SpaceKind::Function,
        rust_code_analysis::SpaceKind::Class => SpaceKind::Class,
        rust_code_analysis::SpaceKind::Struct => SpaceKind::Struct,
        rust_code_analysis::SpaceKind::Trait => SpaceKind::Trait,
        rust_code_analysis::SpaceKind::Impl => SpaceKind::Impl,
        rust_code_analysis::SpaceKind::Unit => SpaceKind::Unit,
        rust_code_analysis::SpaceKind::Namespace => SpaceKind::Namespace,
    }
}

/// Relies on `rust_code_analysis::cyclomatic::Stats`: the accessors
/// `cyclomatic_sum`, `cyclomatic_average`, `cyclomatic_min`,
/// `cyclomatic_max`, each a pure function of the stored statistics, taken
/// as its bit pattern.
#[verifier::external_body]
pub(crate) fn cyclomatic_bits(s: &rust_code_analysis::FuncSpace) -> (r: CyclomaticMetrics)
    ensures
        r.sum == cyclomatic_facet(*s)[0],
        r.average == cyclomatic_facet(*s)[1],
        r.min == cyclomatic_facet(*s)[2],
        r.max == cyclomatic_facet(*s)[3],
{
    let st = &s.metrics.cyclomatic;
    CyclomaticMetrics {
        sum: st.cyclomatic_sum().to_bits(),
        average: st.cyclomatic_average().to_bits(),
        min: st.cyclomatic_min().to_bits(),
        max: st.cyclomatic_max().to_bits(),
    }
}

/// Relies on `rust_code_analysis::cognitive::Stats`: the accessors
/// `cognitive_sum`, `cognitive_average`, `cognitive_min`, `cognitive_max`.
#[verifier::external_body]
pub(crate) fn cognitive_bits(s: &rust_code_analysis::FuncSpace) -> (r: CognitiveMetrics)
    ensures
        r.sum == cognitive_facet(*s)[0],
        r.average == cognitive_facet(*s)[1],
        r.min == cognitive_facet(*s)[2],
        r.max == cognitive_facet(*s)[3],
{
    let st = &s.metrics.cognitive;
    CognitiveMetrics {
        sum: st.cognitive_sum().to_bits(),
        average: st.cognitive_average().to_bits(),
        min: st.cognitive_min().to_bits(),
        max: st.cognitive_max().to_bits(),
    }
}

/// Relies on `rust_code_analysis::halstead::Stats`: the accessors
/// `u_operators`, `operators`, `u_operands`, `operands`, `length`,
/// `estimated_program_length`, `purity_ratio`.
#[verifier::external_body]
pub(crate) fn halstead_bits_a(s: &rust_code_analysis::FuncSpace) -> (r: (
    u64,
    u64,
    u64,
    u64,
    u64,
    u64,
    u64,
))
    ensures
        r.0 == halstead_facet(*s)[0],
        r.1 == halstead_facet(*s)[1],
        r.2 == halstead_facet(*s)[2],
        r.3 == halstead_facet(*s)[3],
        r.4 == halstead_facet(*s)[4],
        r.5 == halstead_facet(*s)[5],
        r.6 == halstead_facet(*s)[6],
{
    let st = &s.metrics.halstead;
    (
        st.u_operators().to_bits(),
        st.operators().to_bits(),
        st.u_operands().to_bits(),
        st.operands().to_bits(),
        st.length().to_bits(),
        st.estimated_program_length().to_bits(),
        st.purity_ratio().to_bits(),
    )
}

/// Relies on `rust_code_analysis::halstead::Stats`: the accessors
/// `vocabulary`, `volume`, `difficulty`, `level`, `effort`, `time`, `bugs`.
#[verifier::external_body]
pub(crate) fn halstead_bits_b(s: &rust_code_analysis::FuncSpace) -> (r: (
    u64,
    u64,
    u64,
    u64,
    u64,
    u64,
    u64,
))
    ensures
        r.0 == halstead_facet(*s)[7],
        r.1 == halstead_facet(*s)[8],
        r.2 == halstead_facet(*s)[9],
        r.3 == halstead_facet(*s)[10],
        r.4 == halstead_facet(*s)[11],
        r.5 == halstead_facet(*s)[12],
        r.6 == halstead_facet(*s)[13],
{
    let st = &s.metrics.halstead;
    (
        st.vocabulary().to_bits(),
        st.volume().to_bits(),
        st.difficulty().to_bits(),
        st.level().to_bits(),
        st.effort().to_bits(),
        st.time().to_bits(),
        st.bugs().to_bits(),
    )
}

/// Relies on `rust_code_analysis::loc::Stats`: the accessors `sloc`,
/// `ploc`, `lloc`, `cloc`, `blank` (the only line statistics this engine
/// version computes).
#[verifier::external_body]
pub(crate) fn loc_bits(s: &rust_code_analysis::FuncSpace) -> (r: (u64, u64, u64, u64, u64))
    ensures
        r.0 == loc_facet(*s)[0],
        r.1 == loc_facet(*s)[1],
        r.2 == loc_facet(*s)[2],
        r.3 == loc_facet(*s)[3],
        r.4 == loc_facet(*s)[4],
{
    let st = &s.metrics.loc;
    (
        st.sloc().to_bits(),
        st.ploc().to_bits(),
        st.lloc().to_bits(),
        st.cloc().to_bits(),
        st.blank().to_bits(),
    )
}

/// Relies on `rust_code_analysis::mi::Stats`: the accessors `mi_original`,
/// `mi_sei`, `mi_visual_studio`.
#[verifier::external_body]
pub(crate) fn mi_bits(s: &rust_code_analysis::FuncSpace) -> (r: MaintainabilityIndex)
    ensures
        r.mi_original == mi_facet(*s)[0],
        r.mi_sei == mi_facet(*s)[1],
        r.mi_visual_studio == mi_facet(*s)[2],
{
    let st = &s.metrics.mi;
    MaintainabilityIndex {
        mi_original: st.mi_original().to_bits(),
        mi_sei: st.mi_sei().to_bits(),
        mi_visual_studio: st.mi_visual_studio().to_bits(),
    }
}

/// Relies on `rust_code_analysis::nom::Stats`: the accessors
/// `functions_sum`, `closures_sum`, `total`, `functions_min`,
/// `functions_max`, `closures_min`, `closures_max` (this engine version
/// computes no method-count averages).
#[verifier::external_body]
pub(crate) fn nom_bits(s: &rust_code_analysis::FuncSpace) -> (r: (
    u64,
    u64,
    u64,
    u64,
    u64,
    u64,
    u64,
))
    ensures
        r.0 == nom_facet(*s)[0],
        r.1 == nom_facet(*s)[1],
        r.2 == nom_facet(*s)[2],
        r.3 == nom_facet(*s)[3],
        r.4 == nom_facet(*s)[4],
        r.5 == nom_facet(*s)[5],
        r.6 == nom_facet(*s)[6],
{
    let st = &s.metrics.nom;
    (
        st.functions_sum().to_bits(),
        st.closures_sum().to_bits(),
        st.total().to_bits(),
        st.functions_min().to_bits(),
        st.functions_max().to_bits(),
        st.closures_min().to_bits(),
        st.closures_max().to_bits(),
    )
}

/// Relies on `rust_code_analysis::nargs::Stats`: the accessors
/// `fn_args_sum`, `closure_args_sum`, `fn_args_average`,
/// `closure_args_average`, `nargs_total`.
#[verifier::external_body]
pub(crate) fn nargs_bits_a(s: &rust_code_analysis::FuncSpace) -> (r: (u64, u64, u64, u64, u64))
    ensures
        r.0 == nargs_facet(*s)[0],
        r.1 == nargs_facet(*s)[1],
        r.2 == nargs_facet(*s)[2],
        r.3 == nargs_facet(*s)[3],
        r.4 == nargs_facet(*s)[4],
{
    let st = &s.metrics.nargs;
    (
        st.fn_args_sum().to_bits(),
        st.closure_args_sum().to_bits(),
        st.fn_args_average().to_bits(),
        st.closure_args_average().to_bits(),
        st.nargs_total().to_bits(),
    )
}

/// Relies on `rust_code_analysis::nargs::Stats`: the accessors
/// `nargs_average`, `fn_args_min`, `fn_args_max`, `closure_args_min`,
/// `closure_args_max`.
#[verifier::external_body]
pub(crate) fn nargs_bits_b(s: &rust_code_analysis::FuncSpace) -> (r: (u64, u64, u64, u64, u64))
    ensures
        r.0 == nargs_facet(*s)[5],
        r.1 == nargs_facet(*s)[6],
        r.2 == nargs_facet(*s)[7],
        r.3 == nargs_facet(*s)[8],
        r.4 == nargs_facet(*s)[9],
{
    let st = &s.metrics.nargs;
    (
        st.nargs_average().to_bits(),
        st.fn_args_min().to_bits(),
        st.fn_args_max().to_bits(),
        st.closure_args_min().to_bits(),
        st.closure_args_max().to_bits(),
    )
}

/// Relies on `rust_code_analysis::exit::Stats`: the accessors `exit_sum`,
/// `exit_average`, `exit_min`, `exit_max`.
#[verifier::external_body]
pub(crate) fn nexits_bits(s: &rust_code_analysis::FuncSpace) -> (r: NexitsMetrics)
    ensures
        r.sum == nexits_facet(*s)[0],
        r.average == nexits_facet(*s)[1],
        r.min == nexits_facet(*s)[2],
        r.max == nexits_facet(*s)[3],
{
    let st = &s.metrics.nexits;
    NexitsMetrics {
        sum: st.exit_sum().to_bits(),
        average: st.exit_average().to_bits(),
        min: st.exit_min().to_bits(),
        max: st.exit_max().to_bits(),
    }
}

/// Relies on `rust_code_analysis::guess_language`: extension-based inference
/// with an emacs-mode fallback read from the byte content - a deterministic
/// function of the bytes and the path, named `guess_of`. Variants of the
/// engine's `LANG` that the library does not expose map to `None`; the
/// engine's JavaScript flavours both map to `Javascript`.
#[verifier::external_body]
pub(crate) fn guess_language_of(source: &[u8], path: &str) -> (r: Option<Language>)
    ensures
        r == guess_of(source@, path@),
{
    match rust_code_analysis::guess_language(source, std::path::Path::new(path)).0 {
        Some(rust_code_analysis::LANG::Mozjs) => Some(Language::Javascript),
        Some(rust_code_analysis::LANG::Javascript) => Some(Language::Javascript),
        Some(rust_code_analysis::LANG::Java) => Some(Language::Java),
        Some(rust_code_analysis::LANG::Rust) => Some(Language::Rust),
        Some(rust_code_analysis::LANG::Cpp) => Some(Language::Cpp),
        Some(rust_code_analysis::LANG::Python) => Some(Language::Python),
        Some(rust_code_analysis::LANG::Tsx) => Some(Language::Tsx),
        Some(rust_code_analysis::LANG::Typescript) => Some(Language::Typescript),
        Some(rust_code_analysis::LANG::Ccomment) => None,
        Some(rust_code_analysis::LANG::Preproc) => None,
        None => None,
    }
}

/// Relies on `rust_code_analysis::get_function_spaces`: parses the bytes
/// under the given language's grammar and computes per-region statistics,
/// returning `None` exactly when no region tree can be produced - a
/// deterministic outcome of the language, the bytes and the path, named
/// `parses`. The library's `Javascript` runs through the engine's `Mozjs`
/// grammar, the one its own extension inference produces; `C` and `Cpp`
/// share the `Cpp` grammar.
#[verifier::external_body]
pub(crate) fn run_engine(lang: Language, source: &[u8], path: &str) -> (r: Option<
    rust_code_analysis::FuncSpace,
>)
    ensures
        r is Some <==> parses(lang, source@, path@),
{
    let native = match lang {
        Language::Python => rust_code_analysis::LANG::Python,
        Language::Rust => rust_code_analysis::LANG::Rust,
        Language::Java => rust_code_analysis::LANG::Java,
        Language::Javascript => rust_code_analysis::LANG::Mozjs,
        Language::Typescript => rust_code_analysis::LANG::Typescript,
        Language::Tsx => rust_code_analysis::LANG::Tsx,
        Language::Cpp => rust_code_analysis::LANG::Cpp,
        Language::C => rust_code_analysis::LANG::Cpp,
    };
    rust_code_analysis::get_function_spaces(&native, source.to_vec(), std::path::Path::new(path), None)
}

} // verus!
