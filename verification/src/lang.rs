//! Language resolution: maps an explicit language token or a file extension
//! to the canonical language identifier understood by the metrics engine.
//!
//! The token table and the extension table are closed and fixed, and both
//! hold exactly what the engine in use can analyze: this engine version has
//! no Kotlin grammar, so no `kotlin` token and no `kt`/`kts` extension is
//! accepted, and the extension table carries precisely the extensions the
//! engine's own inference recognizes.

use vstd::prelude::*;
use crate::engine::guess_of;
use crate::error::AnalysisError;

verus! {

/// A source grammar / metrics profile that the engine can analyze.
///
/// `Javascript` covers the engine's JavaScript flavour that file-extension
/// inference produces; `C` and `Cpp` are distinct tokens that share one
/// grammar.
#[derive(Clone, Copy, Debug, PartialEq, Eq, Structural)]
pub enum Language {
    Python,
    Rust,
    Java,
    Javascript,
    Typescript,
    Tsx,
    Cpp,
    C,
}

/// The canonical name of a language, as listed by `supported_languages`.
pub open spec fn language_name(l: Language) -> Seq<char> {
    match l {
        Language::Python => "python"@,
        Language::Rust => "rust"@,
        Language::Java => "java"@,
        Language::Javascript => "javascript"@,
        Language::Typescript => "typescript"@,
        Language::Tsx => "tsx"@,
        Language::Cpp => "cpp"@,
        Language::C => "c"@,
    }
}

/// The closed, case-sensitive table behind explicit language overrides.
pub open spec fn token_language(s: Seq<char>) -> Option<Language> {
    if s == "python"@ {
        Some(Language::Python)
    } else if s == "rust"@ {
        Some(Language::Rust)
    } else if s == "java"@ {
        Some(Language::Java)
    } else if s == "javascript"@ {
        Some(Language::Javascript)
    } else if s == "typescript"@ {
        Some(Language::Typescript)
    } else if s == "tsx"@ {
        Some(Language::Tsx)
    } else if s == "cpp"@ {
        Some(Language::Cpp)
    } else if s == "c"@ {
        Some(Language::C)
    } else {
        None
    }
}

/// The stateless extension table: a bare extension (no dot) to the language
/// it names, absent - never an error - for unknown extensions. It lists
/// exactly the extensions that the engine's own inference recognizes, one
/// entry per extension of each supported grammar.
pub open spec fn extension_language(e: Seq<char>) -> Option<Language> {
    if e == "py"@ {
        Some(Language::Python)
    } else if e == "rs"@ {
        Some(Language::Rust)
    } else if e == "java"@ {
        Some(Language::Java)
    } else if e == "js"@ || e == "jsm"@ {
        Some(Language::Javascript)
    } else if e == "ts"@ || e == "jsw"@ || e == "jsmw"@ {
        Some(Language::Typescript)
    } else if e == "tsx"@ {
        Some(Language::Tsx)
    } else if e == "cpp"@ || e == "cxx"@ || e == "cc"@ || e == "hxx"@ || e == "hpp"@ || e == "c"@
        || e == "h"@ || e == "hh"@ || e == "inc"@ || e == "mm"@ || e == "m"@ {
        Some(Language::Cpp)
    } else {
        None
    }
}

/// String equality with its meaning visible to the verifier.
fn str_eq(a: &str, b: &str) -> (r: bool)
    ensures
        r == (a@ == b@),
{
    let sa: String = a.to_owned();
    let sb: String = b.to_owned();
    sa == sb
}

/// The ordered, closed list of language names accepted as explicit tokens.
pub fn supported_languages() -> (r: Vec<&'static str>)
    ensures
        r@.len() == 8,
        r@[0]@ == language_name(Language::Python),
        r@[1]@ == language_name(Language::Rust),
        r@[2]@ == language_name(Language::Java),
        r@[3]@ == language_name(Language::Javascript),
        r@[4]@ == language_name(Language::Typescript),
        r@[5]@ == language_name(Language::Tsx),
        r@[6]@ == language_name(Language::Cpp),
        r@[7]@ == language_name(Language::C),
{
    let mut v: Vec<&'static str> = Vec::new();
    v.push("python");
    v.push("rust");
    v.push("java");
    v.push("javascript");
    v.push("typescript");
    v.push("tsx");
    v.push("cpp");
    v.push("c");
    v
}

/// Maps a bare file extension to the canonical name of the language it
/// belongs to, or `None` for an unknown extension.
pub fn language_from_extension(extension: &str) -> (r: Option<&'static str>)
    ensures
        match extension_language(extension@) {
            Some(l) => r matches Some(s) && s@ == language_name(l),
            None => r is None,
        },
{
    if str_eq(extension, "py") {
        Some("python")
    } else if str_eq(extension, "rs") {
        Some("rust")
    } else if str_eq(extension, "java") {
        Some("java")
    } else if str_eq(extension, "js") || str_eq(extension, "jsm") {
        Some("javascript")
    } else if str_eq(extension, "ts") || str_eq(extension, "jsw") || str_eq(extension, "jsmw") {
        Some("typescript")
    } else if str_eq(extension, "tsx") {
        Some("tsx")
    } else if str_eq(extension, "cpp") || str_eq(extension, "cxx") || str_eq(extension, "cc")
        || str_eq(extension, "hxx") || str_eq(extension, "hpp") || str_eq(extension, "c")
        || str_eq(extension, "h") || str_eq(extension, "hh") || str_eq(extension, "inc")
        || str_eq(extension, "mm") || str_eq(extension, "m") {
        Some("cpp")
    } else {
        None
    }
}

/// Looks an explicit language token up in the closed table.
pub fn lookup_token(token: &str) -> (r: Option<Language>)
    ensures
        r == token_language(token@),
{
    if str_eq(token, "python") {
        Some(Language::Python)
    } else if str_eq(token, "rust") {
        Some(Language::Rust)
    } else if str_eq(token, "java") {
        Some(Language::Java)
    } else if str_eq(token, "javascript") {
        Some(Language::Javascript)
    } else if str_eq(token, "typescript") {
        Some(Language::Typescript)
    } else if str_eq(token, "tsx") {
        Some(Language::Tsx)
    } else if str_eq(token, "cpp") {
        Some(Language::Cpp)
    } else if str_eq(token, "c") {
        Some(Language::C)
    } else {
        None
    }
}

/// Resolves the language of a source unit.
///
/// An explicit token is looked up in the closed table and rejected with
/// `UnsupportedLanguage` exactly when absent; otherwise the language is the
/// engine's inference from the path's extension and, as a fallback, from
/// the byte content, failing with `LanguageUndetermined` naming the path
/// exactly when inference concludes nothing.
pub fn resolve_language(language: Option<&str>, path: &str, source: &[u8]) -> (r: Result<
    Language,
    AnalysisError,
>)
    ensures
        match language {
            Some(tok) => match token_language(tok@) {
                Some(l) => r == Ok::<Language, AnalysisError>(l),
                None => r matches Err(e) && e matches AnalysisError::UnsupportedLanguage { token }
                    && token@ == tok@,
            },
            None => {
                &&& r matches Ok(l) ==> guess_of(source@, path@) == Some(l)
                &&& (r is Ok <==> guess_of(source@, path@) is Some)
                &&& r matches Err(e) ==> e matches AnalysisError::LanguageUndetermined { path: p }
                    && p@ == path@
            },
        },
{
    match language {
        Some(tok) => match lookup_token(tok) {
            Some(l) => Ok(l),
            None => Err(AnalysisError::UnsupportedLanguage { token: tok.to_owned() }),
        },
        None => match crate::engine::guess_language_of(source, path) {
            Some(l) => Ok(l),
            None => Err(AnalysisError::LanguageUndetermined { path: path.to_owned() }),
        },
    }
}

} // verus!
