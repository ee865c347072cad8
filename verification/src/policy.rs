//! The global safety policy: a per-method safety classification plus one
//! node-wide flag that can blanket-deny every method classified `Unsafe`.

use vstd::prelude::*;

verus! {

/// Safety classification of one exposed method, fixed when the adapter that
/// declares the method is built and immutable thereafter.
#[derive(Clone, Copy, PartialEq, Eq, Structural, Debug)]
pub enum Classification {
    /// The method may be served to any caller.
    Safe,
    /// The method may be blanket-denied by the node-wide policy flag.
    Unsafe,
}

/// The node-wide policy flag: whether methods classified `Unsafe` are
/// rejected at call time, regardless of which adapter declared them.
#[derive(Clone, Copy, PartialEq, Eq, Structural, Debug)]
pub enum DenyUnsafe {
    /// Reject every method classified `Unsafe`.
    Yes,
    /// Serve every registered method.
    No,
}

/// Whether a call to a method with classification `c` is admitted under the
/// policy flag `deny`.
pub open spec fn spec_admits(deny: DenyUnsafe, c: Classification) -> bool {
    !(deny is Yes && c is Unsafe)
}

impl DenyUnsafe {
    /// Evaluate the policy for one method: the call is admitted unless the
    /// flag is `Yes` and the method is classified `Unsafe`.
    pub fn admits(&self, c: Classification) -> (r: bool)
        ensures
            r == spec_admits(*self, c),
    {
        match *self {
            DenyUnsafe::Yes => match c {
                Classification::Safe => true,
                Classification::Unsafe => false,
            },
            DenyUnsafe::No => true,
        }
    }
}

} // verus!
