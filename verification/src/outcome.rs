//! The result values of a resolution: a canonical identifier on success, a
//! typed failure otherwise.

use vstd::prelude::*;

verus! {

/// A resolved hardware identity: an opaque, non-empty string of characters.
///
/// An `Identifier` is deterministic for a given machine state and resolution
/// path, but different strategies on the same machine may legitimately produce
/// different identifiers; callers must not assume cross-strategy equivalence.
#[derive(Debug, PartialEq, Eq)]
pub struct Identifier {
    text: String,
}

impl View for Identifier {
    type V = Seq<char>;

    closed spec fn view(&self) -> Seq<char> {
        self.text@
    }
}

impl Identifier {
    /// An identifier is never empty.
    #[verifier::type_invariant]
    spec fn wf(self) -> bool {
        self.text@.len() > 0
    }

    /// Wraps a non-empty string as an identifier.
    pub fn new(text: String) -> (r: Identifier)
        requires
            text@.len() > 0,
        ensures
            r@ == text@,
    {
        Identifier { text }
    }

    /// The identifier's characters, as a string slice; never empty.
    pub fn as_str(&self) -> (r: &str)
        ensures
            r@ == self@,
            r@.len() > 0,
    {
        proof {
            use_type_invariant(self);
        }
        self.text.as_str()
    }

    /// Gives up the identifier, yielding its text; never empty.
    pub fn into_string(self) -> (r: String)
        ensures
            r@ == self@,
            r@.len() > 0,
    {
        proof {
            use_type_invariant(&self);
        }
        self.text
    }
}

/// Why a resolution produced no identifier.
#[derive(Clone, Copy, Debug, PartialEq, Eq, Structural)]
pub enum ResolutionFailure {
    /// The platform-specific system-information process could not be started.
    QueryUnavailable,
    /// The query ran but its output did not have the expected structure.
    MalformedOutput,
    /// No strategy in the chain produced a usable identifier, and the sentinel
    /// fallback was not configured for that path.
    NoIdentifierFound,
}

impl ResolutionFailure {
    /// A human-readable description of the failure, for the caller to present.
    pub fn message(&self) -> (r: String)
        ensures
            self is QueryUnavailable ==> r@ == "the system information query process could not be started"@,
            self is MalformedOutput ==> r@ == "the system information query produced unexpected output"@,
            self is NoIdentifierFound ==> r@ == "no strategy produced a usable hardware identifier"@,
    {
        match self {
            ResolutionFailure::QueryUnavailable => {
                "the system information query process could not be started".to_owned()
            },
            ResolutionFailure::MalformedOutput => {
                "the system information query produced unexpected output".to_owned()
            },
            ResolutionFailure::NoIdentifierFound => {
                "no strategy produced a usable hardware identifier".to_owned()
            },
        }
    }
}

/// What one invocation of the resolver yields: an identifier or a typed
/// failure. Constructed fresh on each invocation, never cached by the
/// resolver itself.
pub type ResolutionOutcome = Result<Identifier, ResolutionFailure>;

} // verus!
