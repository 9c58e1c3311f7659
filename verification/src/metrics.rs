//! The twelve metric group records and their converters.
//!
//! Every field carries the bit pattern of an IEEE 754 double-precision
//! number. A converter is a pure, total function: it copies each raw value
//! reported by the engine, substituting the zero bit pattern (the value 0.0)
//! for any non-finite one, so that a published record never holds a hole or a
//! not-a-number sentinel.

use vstd::prelude::*;

verus! {

/// Whether a double-precision bit pattern encodes a finite number: its
/// exponent field is not all ones (all ones encodes an infinity or a NaN).
pub open spec fn finite_bits(b: u64) -> bool {
    (b >> 52) & 0x7ff != 0x7ff
}

/// A raw value with any non-finite bit pattern replaced by zero.
pub open spec fn normal_bits(b: u64) -> u64 {
    if finite_bits(b) {
        b
    } else {
        0
    }
}

/// The zero bit pattern encodes 0.0, which is finite.
pub proof fn lemma_normal_bits_finite(b: u64)
    ensures
        finite_bits(normal_bits(b)),
{
    assert((0u64 >> 52) & 0x7ff != 0x7ff) by (bit_vector);
}

/// Copies one raw value, normalizing non-finite bit patterns to zero.
fn normalize_value(b: u64) -> (r: u64)
    ensures
        r == normal_bits(b),
{
    if (b >> 52) & 0x7ff != 0x7ff {
        b
    } else {
        0
    }
}

/// Cyclomatic complexity statistics of one region.
#[derive(Clone, Copy, Debug, PartialEq, Eq, Structural)]
pub struct CyclomaticMetrics {
    pub sum: u64,
    pub average: u64,
    pub min: u64,
    pub max: u64,
}

/// Cognitive complexity statistics of one region.
#[derive(Clone, Copy, Debug, PartialEq, Eq, Structural)]
pub struct CognitiveMetrics {
    pub sum: u64,
    pub average: u64,
    pub min: u64,
    pub max: u64,
}

/// Halstead software science measures of one region.
#[derive(Clone, Copy, Debug, PartialEq, Eq, Structural)]
pub struct HalsteadMetrics {
    pub n1: u64,
    pub big_n1: u64,
    pub n2: u64,
    pub big_n2: u64,
    pub length: u64,
    pub estimated_program_length: u64,
    pub purity_ratio: u64,
    pub vocabulary: u64,
    pub volume: u64,
    pub difficulty: u64,
    pub level: u64,
    pub effort: u64,
    pub time: u64,
    pub bugs: u64,
}

/// Line counting statistics of one region.
#[derive(Clone, Copy, Debug, PartialEq, Eq, Structural)]
pub struct LocMetrics {
    pub sloc: u64,
    pub ploc: u64,
    pub lloc: u64,
    pub cloc: u64,
    pub blank: u64,
    pub sloc_average: u64,
    pub ploc_average: u64,
    pub lloc_average: u64,
    pub cloc_average: u64,
    pub blank_average: u64,
    pub sloc_min: u64,
    pub sloc_max: u64,
    pub ploc_min: u64,
    pub ploc_max: u64,
    pub lloc_min: u64,
    pub lloc_max: u64,
    pub cloc_min: u64,
    pub cloc_max: u64,
    pub blank_min: u64,
    pub blank_max: u64,
}

/// Maintainability index variants of one region.
#[derive(Clone, Copy, Debug, PartialEq, Eq, Structural)]
pub struct MaintainabilityIndex {
    pub mi_original: u64,
    pub mi_sei: u64,
    pub mi_visual_studio: u64,
}

/// Assignments, branches and conditions statistics of one region.
#[derive(Clone, Copy, Debug, PartialEq, Eq, Structural)]
pub struct AbcMetrics {
    pub assignments: u64,
    pub branches: u64,
    pub conditions: u64,
    pub magnitude: u64,
    pub assignments_average: u64,
    pub branches_average: u64,
    pub conditions_average: u64,
    pub assignments_min: u64,
    pub assignments_max: u64,
    pub branches_min: u64,
    pub branches_max: u64,
    pub conditions_min: u64,
    pub conditions_max: u64,
}

/// Function and closure counts of one region.
#[derive(Clone, Copy, Debug, PartialEq, Eq, Structural)]
pub struct NomMetrics {
    pub functions: u64,
    pub closures: u64,
    pub total: u64,
    pub functions_average: u64,
    pub closures_average: u64,
    pub average: u64,
    pub functions_min: u64,
    pub functions_max: u64,
    pub closures_min: u64,
    pub closures_max: u64,
}

/// Argument count statistics of one region.
#[derive(Clone, Copy, Debug, PartialEq, Eq, Structural)]
pub struct NargsMetrics {
    pub total_functions: u64,
    pub total_closures: u64,
    pub average_functions: u64,
    pub average_closures: u64,
    pub total: u64,
    pub average: u64,
    pub functions_min: u64,
    pub functions_max: u64,
    pub closures_min: u64,
    pub closures_max: u64,
}

/// Exit point statistics of one region.
#[derive(Clone, Copy, Debug, PartialEq, Eq, Structural)]
pub struct NexitsMetrics {
    pub sum: u64,
    pub average: u64,
    pub min: u64,
    pub max: u64,
}

/// Weighted methods per class of one region.
#[derive(Clone, Copy, Debug, PartialEq, Eq, Structural)]
pub struct WmcMetrics {
    pub classes: u64,
    pub interfaces: u64,
    pub total: u64,
}

/// Public method counts of one region.
#[derive(Clone, Copy, Debug, PartialEq, Eq, Structural)]
pub struct NpmMetrics {
    pub classes: u64,
    pub interfaces: u64,
    pub total: u64,
}

/// Public attribute counts of one region.
#[derive(Clone, Copy, Debug, PartialEq, Eq, Structural)]
pub struct NpaMetrics {
    pub classes: u64,
    pub interfaces: u64,
    pub total: u64,
}

/// The fixed aggregate record: exactly one instance of each of the twelve
/// metric groups, whatever the region's language or kind.
#[derive(Clone, Copy, Debug, PartialEq, Eq, Structural)]
pub struct CodeMetrics {
    pub cyclomatic: CyclomaticMetrics,
    pub cognitive: CognitiveMetrics,
    pub halstead: HalsteadMetrics,
    pub loc: LocMetrics,
    pub mi: MaintainabilityIndex,
    pub abc: AbcMetrics,
    pub nom: NomMetrics,
    pub nargs: NargsMetrics,
    pub nexits: NexitsMetrics,
    pub wmc: WmcMetrics,
    pub npm: NpmMetrics,
    pub npa: NpaMetrics,
}

pub open spec fn spec_convert_cyclomatic(m: CyclomaticMetrics) -> CyclomaticMetrics {
    CyclomaticMetrics {
        sum: normal_bits(m.sum),
        average: normal_bits(m.average),
        min: normal_bits(m.min),
        max: normal_bits(m.max),
    }
}

pub open spec fn spec_convert_cognitive(m: CognitiveMetrics) -> CognitiveMetrics {
    CognitiveMetrics {
        sum: normal_bits(m.sum),
        average: normal_bits(m.average),
        min: normal_bits(m.min),
        max: normal_bits(m.max),
    }
}

pub open spec fn spec_convert_halstead(m: HalsteadMetrics) -> HalsteadMetrics {
    HalsteadMetrics {
        n1: normal_bits(m.n1),
        big_n1: normal_bits(m.big_n1),
        n2: normal_bits(m.n2),
        big_n2: normal_bits(m.big_n2),
        length: normal_bits(m.length),
        estimated_program_length: normal_bits(m.estimated_program_length),
        purity_ratio: normal_bits(m.purity_ratio),
        vocabulary: normal_bits(m.vocabulary),
        volume: normal_bits(m.volume),
        difficulty: normal_bits(m.difficulty),
        level: normal_bits(m.level),
        effort: normal_bits(m.effort),
        time: normal_bits(m.time),
        bugs: normal_bits(m.bugs),
    }
}

pub open spec fn spec_convert_loc(m: LocMetrics) -> LocMetrics {
    LocMetrics {
        sloc: normal_bits(m.sloc),
        ploc: normal_bits(m.ploc),
        lloc: normal_bits(m.lloc),
        cloc: normal_bits(m.cloc),
        blank: normal_bits(m.blank),
        sloc_average: normal_bits(m.sloc_average),
        ploc_average: normal_bits(m.ploc_average),
        lloc_average: normal_bits(m.lloc_average),
        cloc_average: normal_bits(m.cloc_average),
        blank_average: normal_bits(m.blank_average),
        sloc_min: normal_bits(m.sloc_min),
        sloc_max: normal_bits(m.sloc_max),
        ploc_min: normal_bits(m.ploc_min),
        ploc_max: normal_bits(m.ploc_max),
        lloc_min: normal_bits(m.lloc_min),
        lloc_max: normal_bits(m.lloc_max),
        cloc_min: normal_bits(m.cloc_min),
        cloc_max: normal_bits(m.cloc_max),
        blank_min: normal_bits(m.blank_min),
        blank_max: normal_bits(m.blank_max),
    }
}

pub open spec fn spec_convert_mi(m: MaintainabilityIndex) -> MaintainabilityIndex {
    MaintainabilityIndex {
        mi_original: normal_bits(m.mi_original),
        mi_sei: normal_bits(m.mi_sei),
        mi_visual_studio: normal_bits(m.mi_visual_studio),
    }
}

pub open spec fn spec_convert_abc(m: AbcMetrics) -> AbcMetrics {
    AbcMetrics {
        assignments: normal_bits(m.assignments),
        branches: normal_bits(m.branches),
        conditions: normal_bits(m.conditions),
        magnitude: normal_bits(m.magnitude),
        assignments_average: normal_bits(m.assignments_average),
        branches_average: normal_bits(m.branches_average),
        conditions_average: normal_bits(m.conditions_average),
        assignments_min: normal_bits(m.assignments_min),
        assignments_max: normal_bits(m.assignments_max),
        branches_min: normal_bits(m.branches_min),
        branches_max: normal_bits(m.branches_max),
        conditions_min: normal_bits(m.conditions_min),
        conditions_max: normal_bits(m.conditions_max),
    }
}

pub open spec fn spec_convert_nom(m: NomMetrics) -> NomMetrics {
    NomMetrics {
        functions: normal_bits(m.functions),
        closures: normal_bits(m.closures),
        total: normal_bits(m.total),
        functions_average: normal_bits(m.functions_average),
        closures_average: normal_bits(m.closures_average),
        average: normal_bits(m.average),
        functions_min: normal_bits(m.functions_min),
        functions_max: normal_bits(m.functions_max),
        closures_min: normal_bits(m.closures_min),
        closures_max: normal_bits(m.closures_max),
    }
}

pub open spec fn spec_convert_nargs(m: NargsMetrics) -> NargsMetrics {
    NargsMetrics {
        total_functions: normal_bits(m.total_functions),
        total_closures: normal_bits(m.total_closures),
        average_functions: normal_bits(m.average_functions),
        average_closures: normal_bits(m.average_closures),
        total: normal_bits(m.total),
        average: normal_bits(m.average),
        functions_min: normal_bits(m.functions_min),
        functions_max: normal_bits(m.functions_max),
        closures_min: normal_bits(m.closures_min),
        closures_max: normal_bits(m.closures_max),
    }
}

pub open spec fn spec_convert_nexits(m: NexitsMetrics) -> NexitsMetrics {
    NexitsMetrics {
        sum: normal_bits(m.sum),
        average: normal_bits(m.average),
        min: normal_bits(m.min),
        max: normal_bits(m.max),
    }
}

pub open spec fn spec_convert_wmc(m: WmcMetrics) -> WmcMetrics {
    WmcMetrics {
        classes: normal_bits(m.classes),
        interfaces: normal_bits(m.interfaces),
        total: normal_bits(m.total),
    }
}

pub open spec fn spec_convert_npm(m: NpmMetrics) -> NpmMetrics {
    NpmMetrics {
        classes: normal_bits(m.classes),
        interfaces: normal_bits(m.interfaces),
        total: normal_bits(m.total),
    }
}

pub open spec fn spec_convert_npa(m: NpaMetrics) -> NpaMetrics {
    NpaMetrics {
        classes: normal_bits(m.classes),
        interfaces: normal_bits(m.interfaces),
        total: normal_bits(m.total),
    }
}

/// The aggregate conversion: every raw group normalized, none omitted.
pub open spec fn normalize_metrics(m: CodeMetrics) -> CodeMetrics {
    CodeMetrics {
        cyclomatic: spec_convert_cyclomatic(m.cyclomatic),
        cognitive: spec_convert_cognitive(m.cognitive),
        halstead: spec_convert_halstead(m.halstead),
        loc: spec_convert_loc(m.loc),
        mi: spec_convert_mi(m.mi),
        abc: spec_convert_abc(m.abc),
        nom: spec_convert_nom(m.nom),
        nargs: spec_convert_nargs(m.nargs),
        nexits: spec_convert_nexits(m.nexits),
        wmc: spec_convert_wmc(m.wmc),
        npm: spec_convert_npm(m.npm),
        npa: spec_convert_npa(m.npa),
    }
}

pub fn convert_cyclomatic(m: CyclomaticMetrics) -> (r: CyclomaticMetrics)
    ensures
        r == spec_convert_cyclomatic(m),
{
    CyclomaticMetrics {
        sum: normalize_value(m.sum),
        average: normalize_value(m.average),
        min: normalize_value(m.min),
        max: normalize_value(m.max),
    }
}

pub fn convert_cognitive(m: CognitiveMetrics) -> (r: CognitiveMetrics)
    ensures
        r == spec_convert_cognitive(m),
{
    CognitiveMetrics {
        sum: normalize_value(m.sum),
        average: normalize_value(m.average),
        min: normalize_value(m.min),
        max: normalize_value(m.max),
    }
}

pub fn convert_halstead(m: HalsteadMetrics) -> (r: HalsteadMetrics)
    ensures
        r == spec_convert_halstead(m),
{
    HalsteadMetrics {
        n1: normalize_value(m.n1),
        big_n1: normalize_value(m.big_n1),
        n2: normalize_value(m.n2),
        big_n2: normalize_value(m.big_n2),
        length: normalize_value(m.length),
        estimated_program_length: normalize_value(m.estimated_program_length),
        purity_ratio: normalize_value(m.purity_ratio),
        vocabulary: normalize_value(m.vocabulary),
        volume: normalize_value(m.volume),
        difficulty: normalize_value(m.difficulty),
        level: normalize_value(m.level),
        effort: normalize_value(m.effort),
        time: normalize_value(m.time),
        bugs: normalize_value(m.bugs),
    }
}

pub fn convert_loc(m: LocMetrics) -> (r: LocMetrics)
    ensures
        r == spec_convert_loc(m),
{
    LocMetrics {
        sloc: normalize_value(m.sloc),
        ploc: normalize_value(m.ploc),
        lloc: normalize_value(m.lloc),
        cloc: normalize_value(m.cloc),
        blank: normalize_value(m.blank),
        sloc_average: normalize_value(m.sloc_average),
        ploc_average: normalize_value(m.ploc_average),
        lloc_average: normalize_value(m.lloc_average),
        cloc_average: normalize_value(m.cloc_average),
        blank_average: normalize_value(m.blank_average),
        sloc_min: normalize_value(m.sloc_min),
        sloc_max: normalize_value(m.sloc_max),
        ploc_min: normalize_value(m.ploc_min),
        ploc_max: normalize_value(m.ploc_max),
        lloc_min: normalize_value(m.lloc_min),
        lloc_max: normalize_value(m.lloc_max),
        cloc_min: normalize_value(m.cloc_min),
        cloc_max: normalize_value(m.cloc_max),
        blank_min: normalize_value(m.blank_min),
        blank_max: normalize_value(m.blank_max),
    }
}

pub fn convert_mi(m: MaintainabilityIndex) -> (r: MaintainabilityIndex)
    ensures
        r == spec_convert_mi(m),
{
    MaintainabilityIndex {
        mi_original: normalize_value(m.mi_original),
        mi_sei: normalize_value(m.mi_sei),
        mi_visual_studio: normalize_value(m.mi_visual_studio),
    }
}

pub fn convert_abc(m: AbcMetrics) -> (r: AbcMetrics)
    ensures
        r == spec_convert_abc(m),
{
    AbcMetrics {
        assignments: normalize_value(m.assignments),
        branches: normalize_value(m.branches),
        conditions: normalize_value(m.conditions),
        magnitude: normalize_value(m.magnitude),
        assignments_average: normalize_value(m.assignments_average),
        branches_average: normalize_value(m.branches_average),
        conditions_average: normalize_value(m.conditions_average),
        assignments_min: normalize_value(m.assignments_min),
        assignments_max: normalize_value(m.assignments_max),
        branches_min: normalize_value(m.branches_min),
        branches_max: normalize_value(m.branches_max),
        conditions_min: normalize_value(m.conditions_min),
        conditions_max: normalize_value(m.conditions_max),
    }
}

pub fn convert_nom(m: NomMetrics) -> (r: NomMetrics)
    ensures
        r == spec_convert_nom(m),
{
    NomMetrics {
        functions: normalize_value(m.functions),
        closures: normalize_value(m.closures),
        total: normalize_value(m.total),
        functions_average: normalize_value(m.functions_average),
        closures_average: normalize_value(m.closures_average),
        average: normalize_value(m.average),
        functions_min: normalize_value(m.functions_min),
        functions_max: normalize_value(m.functions_max),
        closures_min: normalize_value(m.closures_min),
        closures_max: normalize_value(m.closures_max),
    }
}

pub fn convert_nargs(m: NargsMetrics) -> (r: NargsMetrics)
    ensures
        r == spec_convert_nargs(m),
{
    NargsMetrics {
        total_functions: normalize_value(m.total_functions),
        total_closures: normalize_value(m.total_closures),
        average_functions: normalize_value(m.average_functions),
        average_closures: normalize_value(m.average_closures),
        total: normalize_value(m.total),
        average: normalize_value(m.average),
        functions_min: normalize_value(m.functions_min),
        functions_max: normalize_value(m.functions_max),
        closures_min: normalize_value(m.closures_min),
        closures_max: normalize_value(m.closures_max),
    }
}

pub fn convert_nexits(m: NexitsMetrics) -> (r: NexitsMetrics)
    ensures
        r == spec_convert_nexits(m),
{
    NexitsMetrics {
        sum: normalize_value(m.sum),
        average: normalize_value(m.average),
        min: normalize_value(m.min),
        max: normalize_value(m.max),
    }
}

pub fn convert_wmc(m: WmcMetrics) -> (r: WmcMetrics)
    ensures
        r == spec_convert_wmc(m),
{
    WmcMetrics {
        classes: normalize_value(m.classes),
        interfaces: normalize_value(m.interfaces),
        total: normalize_value(m.total),
    }
}

pub fn convert_npm(m: NpmMetrics) -> (r: NpmMetrics)
    ensures
        r == spec_convert_npm(m),
{
    NpmMetrics {
        classes: normalize_value(m.classes),
        interfaces: normalize_value(m.interfaces),
        total: normalize_value(m.total),
    }
}

pub fn convert_npa(m: NpaMetrics) -> (r: NpaMetrics)
    ensures
        r == spec_convert_npa(m),
{
    NpaMetrics {
        classes: normalize_value(m.classes),
        interfaces: normalize_value(m.interfaces),
        total: normalize_value(m.total),
    }
}

/// Invokes every one of the twelve converters, so that the aggregate record's
/// shape never varies by region kind or language.
pub fn aggregate_metrics(m: CodeMetrics) -> (r: CodeMetrics)
    ensures
        r == normalize_metrics(m),
{
    CodeMetrics {
        cyclomatic: convert_cyclomatic(m.cyclomatic),
        cognitive: convert_cognitive(m.cognitive),
        halstead: convert_halstead(m.halstead),
        loc: convert_loc(m.loc),
        mi: convert_mi(m.mi),
        abc: convert_abc(m.abc),
        nom: convert_nom(m.nom),
        nargs: convert_nargs(m.nargs),
        nexits: convert_nexits(m.nexits),
        wmc: convert_wmc(m.wmc),
        npm: convert_npm(m.npm),
        npa: convert_npa(m.npa),
    }
}

/// Whether every field of every one of the twelve groups is finite.
pub open spec fn metrics_finite(m: CodeMetrics) -> bool {
    &&& finite_bits(m.cyclomatic.sum) && finite_bits(m.cyclomatic.average) && finite_bits(
        m.cyclomatic.min,
    ) && finite_bits(m.cyclomatic.max)
    &&& finite_bits(m.cognitive.sum) && finite_bits(m.cognitive.average) && finite_bits(
        m.cognitive.min,
    ) && finite_bits(m.cognitive.max)
    &&& finite_bits(m.halstead.n1) && finite_bits(m.halstead.big_n1) && finite_bits(
        m.halstead.n2,
    ) && finite_bits(m.halstead.big_n2) && finite_bits(m.halstead.length) && finite_bits(
        m.halstead.estimated_program_length,
    ) && finite_bits(m.halstead.purity_ratio) && finite_bits(m.halstead.vocabulary) && finite_bits(
        m.halstead.volume,
    ) && finite_bits(m.halstead.difficulty) && finite_bits(m.halstead.level) && finite_bits(
        m.halstead.effort,
    ) && finite_bits(m.halstead.time) && finite_bits(m.halstead.bugs)
    &&& finite_bits(m.loc.sloc) && finite_bits(m.loc.ploc) && finite_bits(m.loc.lloc)
        && finite_bits(m.loc.cloc) && finite_bits(m.loc.blank) && finite_bits(m.loc.sloc_average)
        && finite_bits(m.loc.ploc_average) && finite_bits(m.loc.lloc_average) && finite_bits(
        m.loc.cloc_average,
    ) && finite_bits(m.loc.blank_average) && finite_bits(m.loc.sloc_min) && finite_bits(
        m.loc.sloc_max,
    ) && finite_bits(m.loc.ploc_min) && finite_bits(m.loc.ploc_max) && finite_bits(m.loc.lloc_min)
        && finite_bits(m.loc.lloc_max) && finite_bits(m.loc.cloc_min) && finite_bits(
        m.loc.cloc_max,
    ) && finite_bits(m.loc.blank_min) && finite_bits(m.loc.blank_max)
    &&& finite_bits(m.mi.mi_original) && finite_bits(m.mi.mi_sei) && finite_bits(
        m.mi.mi_visual_studio,
    )
    &&& finite_bits(m.abc.assignments) && finite_bits(m.abc.branches) && finite_bits(
        m.abc.conditions,
    ) && finite_bits(m.abc.magnitude) && finite_bits(m.abc.assignments_average) && finite_bits(
        m.abc.branches_average,
    ) && finite_bits(m.abc.conditions_average) && finite_bits(m.abc.assignments_min)
        && finite_bits(m.abc.assignments_max) && finite_bits(m.abc.branches_min) && finite_bits(
        m.abc.branches_max,
    ) && finite_bits(m.abc.conditions_min) && finite_bits(m.abc.conditions_max)
    &&& finite_bits(m.nom.functions) && finite_bits(m.nom.closures) && finite_bits(m.nom.total)
        && finite_bits(m.nom.functions_average) && finite_bits(m.nom.closures_average)
        && finite_bits(m.nom.average) && finite_bits(m.nom.functions_min) && finite_bits(
        m.nom.functions_max,
    ) && finite_bits(m.nom.closures_min) && finite_bits(m.nom.closures_max)
    &&& finite_bits(m.nargs.total_functions) && finite_bits(m.nargs.total_closures)
        && finite_bits(m.nargs.average_functions) && finite_bits(m.nargs.average_closures)
        && finite_bits(m.nargs.total) && finite_bits(m.nargs.average) && finite_bits(
        m.nargs.functions_min,
    ) && finite_bits(m.nargs.functions_max) && finite_bits(m.nargs.closures_min) && finite_bits(
        m.nargs.closures_max,
    )
    &&& finite_bits(m.nexits.sum) && finite_bits(m.nexits.average) && finite_bits(m.nexits.min)
        && finite_bits(m.nexits.max)
    &&& finite_bits(m.wmc.classes) && finite_bits(m.wmc.interfaces) && finite_bits(m.wmc.total)
    &&& finite_bits(m.npm.classes) && finite_bits(m.npm.interfaces) && finite_bits(m.npm.total)
    &&& finite_bits(m.npa.classes) && finite_bits(m.npa.interfaces) && finite_bits(m.npa.total)
}

/// Normalization is total: whatever the engine reported, every field of the
/// aggregate record is finite.
pub proof fn lemma_normalize_metrics_finite(m: CodeMetrics)
    ensures
        metrics_finite(normalize_metrics(m)),
{
    assert forall|b: u64| finite_bits(#[trigger] normal_bits(b)) by {
        lemma_normal_bits_finite(b);
    }
}

} // verus!
