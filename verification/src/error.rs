//! The failure taxonomy of an analysis call.
//!
//! All four failures are terminal for the call that raised them; each carries
//! enough context (the offending token, or the file path) for the caller to
//! report an actionable message.

use vstd::prelude::*;

verus! {

/// Why an analysis call could not produce a space tree.
#[derive(Clone, Debug, PartialEq, Eq)]
pub enum AnalysisError {
    /// An explicit language token was not in the closed table of supported
    /// language names.
    UnsupportedLanguage { token: String },
    /// No explicit token was given and no language could be inferred from the
    /// file's extension or its byte content.
    LanguageUndetermined { path: String },
    /// The parsing engine could not produce a region tree for the input.
    ParseFailure,
    /// The source file could not be read (only raised by file-based callers).
    IoFailure { path: String, cause: String },
}

/// The exact text that `AnalysisError::message` renders for each failure.
pub open spec fn message_spec(e: AnalysisError) -> Seq<char> {
    match e {
        AnalysisError::UnsupportedLanguage { token } => "Unsupported language: '"@ + token@
            + "'. Use supported_languages() to see available options."@,
        AnalysisError::LanguageUndetermined { path } =>
            "Could not determine language from file extension: '"@ + path@ + "'"@,
        AnalysisError::ParseFailure => "Failed to parse source code"@,
        AnalysisError::IoFailure { path, cause } => "Failed to read file '"@ + path@ + "': "@
            + cause@,
    }
}

impl AnalysisError {
    /// A human-readable description of the failure, naming the offending
    /// token or path.
    pub fn message(&self) -> (r: String)
        ensures
            r@ == message_spec(*self),
    {
        match self {
            AnalysisError::UnsupportedLanguage { token } => {
                let mut s = String::from_str("Unsupported language: '");
                s.append(token.as_str());
                s.append("'. Use supported_languages() to see available options.");
                s
            },
            AnalysisError::LanguageUndetermined { path } => {
                let mut s = String::from_str("Could not determine language from file extension: '");
                s.append(path.as_str());
                s.append("'");
                s
            },
            AnalysisError::ParseFailure => String::from_str("Failed to parse source code"),
            AnalysisError::IoFailure { path, cause } => {
                let mut s = String::from_str("Failed to read file '");
                s.append(path.as_str());
                s.append("': ");
                s.append(cause.as_str());
                s
            },
        }
    }
}

} // verus!
