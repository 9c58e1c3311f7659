//! The analysis orchestrator: resolves the language of a source unit,
//! invokes the external parsing/metrics engine, and materializes the space
//! tree. One call produces one complete, immutable tree, or one of the
//! failures of `crate::error`; there is no partial result and no retry.

use vstd::prelude::*;
use vstd::string::StringSliceAdditionalSpecFns;
use crate::engine;
use crate::engine::{guess_of, parses};
use crate::error::AnalysisError;
use crate::lang::{resolve_language, token_language};
use crate::space::{
    SpaceNode, build_space_tree, converted_from, extract_space, tree_finite,
    lemma_build_model_finite, lemma_extracted_builds_converted,
};

verus! {

/// Converts one native region tree of the engine into the published space
/// tree: every region copied verbatim, every metrics record normalized,
/// children in the engine's order.
pub fn convert_func_space(space: &rust_code_analysis::FuncSpace) -> (r: SpaceNode)
    ensures
        converted_from(r@, *space),
        tree_finite(r@),
{
    let raw = extract_space(space);
    let node = build_space_tree(&raw);
    proof {
        lemma_build_model_finite(raw@);
        lemma_extracted_builds_converted(raw, *space);
    }
    node
}

/// Analyzes source text and returns the root of its space tree.
///
/// An explicit language token is looked up in the closed table of supported
/// names and rejected with `UnsupportedLanguage` exactly when absent from
/// it; without a token the language is inferred from the path and the
/// bytes, failing with `LanguageUndetermined` naming the path exactly when
/// inference concludes nothing. Once a language is resolved the call
/// succeeds exactly when the engine can produce a region tree, and fails
/// with `ParseFailure` otherwise; every returned tree carries finite
/// metrics on every node.
pub fn analyze(source: &str, path: &str, language: Option<&str>) -> (r: Result<
    SpaceNode,
    AnalysisError,
>)
    ensures
        match language {
            Some(tok) => match token_language(tok@) {
                Some(l) => {
                    &&& r is Ok <==> parses(l, source.spec_bytes(), path@)
                    &&& r matches Err(e) ==> e == AnalysisError::ParseFailure
                    &&& r matches Ok(t) ==> tree_finite(t@)
                },
                None => r matches Err(e) && e matches AnalysisError::UnsupportedLanguage { token }
                    && token@ == tok@,
            },
            None => {
                &&& (guess_of(source.spec_bytes(), path@) is None <==> (r matches Err(e)
                    && e matches AnalysisError::LanguageUndetermined { path: p } && p@ == path@))
                &&& match guess_of(source.spec_bytes(), path@) {
                    Some(l) => {
                        &&& r is Ok <==> parses(l, source.spec_bytes(), path@)
                        &&& r matches Err(e) ==> e == AnalysisError::ParseFailure
                    },
                    None => r is Err,
                }
                &&& r matches Ok(t) ==> tree_finite(t@)
            },
        },
{
    let lang = match resolve_language(language, path, source.as_bytes()) {
        Ok(l) => l,
        Err(e) => {
            return Err(e);
        },
    };
    match engine::run_engine(lang, source.as_bytes(), path) {
        None => Err(AnalysisError::ParseFailure),
        Some(space) => Ok(convert_func_space(&space)),
    }
}

} // verus!
