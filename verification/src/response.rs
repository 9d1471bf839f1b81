//! The answer to an authorization request.

use vstd::prelude::*;

verus! {

/// The two outcomes of an evaluation.
#[derive(Debug, Clone, Copy, PartialEq, Eq, Structural)]
pub enum Decision {
    /// The request is permitted.
    Allow,
    /// The request is not permitted.
    Deny,
}

/// The answer of the engine to one request, in plain values.
#[derive(Debug)]
pub struct Response {
    /// The outcome.
    pub decision: Decision,
    /// The identifiers of the policies that determined the outcome, in the
    /// order in which the engine hands them out.
    pub reasons: Vec<String>,
    /// One message for each policy that could not be evaluated.
    pub errors: Vec<String>,
}

/// No text occurs twice in `texts`.
pub open spec fn distinct(texts: Seq<String>) -> bool {
    forall|i: int, j: int|
        0 <= i < texts.len() && 0 <= j < texts.len() && i != j ==> texts[i]@ != texts[j]@
}

/// Every text of `texts` is one of `ids`.
pub open spec fn drawn_from(texts: Seq<String>, ids: Seq<Seq<char>>) -> bool {
    forall|k: int| 0 <= k < texts.len() ==> ids.contains(#[trigger] texts[k]@)
}

impl Response {
    /// Whether the request is permitted: only `Allow` counts.
    pub open spec fn permitted(self) -> bool {
        self.decision is Allow
    }

    /// Collapses the outcome to a boolean: `true` for `Allow` and for
    /// nothing else.
    pub fn allowed(&self) -> (r: bool)
        ensures
            r == self.permitted(),
    {
        match self.decision {
            Decision::Allow => true,
            Decision::Deny => false,
        }
    }

    /// The answer as a triple: whether the request is permitted, the
    /// reasons and the errors, each list as the engine handed it out.
    pub fn into_parts(self) -> (r: (bool, Vec<String>, Vec<String>))
        ensures
            r.0 == self.permitted(),
            r.1 == self.reasons,
            r.2 == self.errors,
    {
        let allowed = self.allowed();
        (allowed, self.reasons, self.errors)
    }
}

} // verus!
