//! The outcome of a source transform as the user interface receives it.

use vstd::prelude::*;

verus! {

/// Result of a compilation.
#[derive(Debug, Clone)]
pub struct CompileResult {
    /// Whether the compilation succeeded.
    pub success: bool,
    /// The compiled code, for a success.
    pub code: Option<String>,
    /// The error message, for a failure.
    pub error: Option<String>,
}

impl CompileResult {
    /// The result of a compilation that succeeded.
    pub fn success(code: String) -> (r: Self)
        ensures
            r.success,
            r.code == Some(code),
            r.error is None,
    {
        CompileResult { success: true, code: Some(code), error: None }
    }

    /// The result of a compilation that failed.
    pub fn error(message: String) -> (r: Self)
        ensures
            !r.success,
            r.code is None,
            r.error == Some(message),
    {
        CompileResult { success: false, code: None, error: Some(message) }
    }

    /// The result for the outcome of a compilation.
    pub fn from_outcome(outcome: Result<String, String>) -> (r: Self)
        ensures
            match outcome {
                Ok(code) => r.success && r.code == Some(code) && r.error is None,
                Err(message) => !r.success && r.code is None && r.error == Some(message),
            },
    {
        match outcome {
            Ok(code) => Self::success(code),
            Err(message) => Self::error(message),
        }
    }
}

} // verus!
