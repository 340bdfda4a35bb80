//! The errors of this layer.

use vstd::prelude::*;

verus! {

/// Everything that can go wrong between this layer and the host.
#[derive(Clone, Copy, Debug, PartialEq, Eq, Structural, Hash)]
pub enum ReaperError {
    /// The process-wide instance was asked for before it had been installed.
    NotInitialized,
    /// A pointer without a stable identity was not live any more when it was used.
    UseAfterInvalidation,
    /// No object with the wanted identity exists in the container that was scanned.
    Unavailable,
    /// The host did not hand out an entry point that the operation goes through.
    MissingHostFunction,
    /// The host refused to duplicate a resource.
    DuplicationUnsupported,
}

impl ReaperError {
    /// Errors that a caller can wait out: the object or capability may show up later.
    pub open spec fn spec_is_recoverable(self) -> bool {
        self is Unavailable || self is MissingHostFunction || self is DuplicationUnsupported
    }

    #[verifier::when_used_as_spec(spec_is_recoverable)]
    pub fn is_recoverable(self) -> (r: bool)
        ensures
            r == self.spec_is_recoverable(),
    {
        match self {
            ReaperError::Unavailable => true,
            ReaperError::MissingHostFunction => true,
            ReaperError::DuplicationUnsupported => true,
            ReaperError::NotInitialized => false,
            ReaperError::UseAfterInvalidation => false,
        }
    }

    /// A short text for diagnostics.
    pub fn message(self) -> (text: &'static str)
        ensures
            text@ == (match self {
                ReaperError::NotInitialized => "runtime accessed before it was installed"@,
                ReaperError::UseAfterInvalidation => "pointer is not valid any more in the host"@,
                ReaperError::Unavailable => "no object with this identity is available"@,
                ReaperError::MissingHostFunction => "host function has not been loaded"@,
                ReaperError::DuplicationUnsupported => "resource does not support duplication"@,
            }),
    {
        match self {
            ReaperError::NotInitialized => "runtime accessed before it was installed",
            ReaperError::UseAfterInvalidation => "pointer is not valid any more in the host",
            ReaperError::Unavailable => "no object with this identity is available",
            ReaperError::MissingHostFunction => "host function has not been loaded",
            ReaperError::DuplicationUnsupported => "resource does not support duplication",
        }
    }
}

} // verus!
