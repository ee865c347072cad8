//! Method sets: the uniform contract every subsystem adapter exposes.
//!
//! An adapter declares a set of methods, each with a name (unique within the
//! adapter), an opaque handler token, and a safety classification.  The
//! composite registry later merges such sets into one namespace.

use vstd::prelude::*;
use crate::policy::Classification;

verus! {

/// Opaque token standing for one handler wired to a subsystem.  The
/// transport layer maps the token back to the callable the adapter owns;
/// this layer only routes to it.
pub type HandlerId = u64;

/// One method an adapter wants to expose.
pub struct MethodDecl {
    /// Externally visible method name.
    pub name: String,
    /// Handler token the transport resolves after routing.
    pub handler: HandlerId,
    /// Safety classification, fixed at adapter-build time.
    pub classification: Classification,
}

/// Mathematical model of one method declaration.
pub struct DeclModel {
    pub name: Seq<char>,
    pub handler: HandlerId,
    pub classification: Classification,
}

impl View for MethodDecl {
    type V = DeclModel;

    open spec fn view(&self) -> DeclModel {
        DeclModel { name: self.name@, handler: self.handler, classification: self.classification }
    }
}

/// The method set one adapter contributes to the composition.
pub struct MethodSet {
    /// Name of the contributing adapter, used when a collision is reported.
    pub adapter: String,
    /// The methods the adapter declares.
    pub methods: Vec<MethodDecl>,
}

/// Mathematical model of an adapter's method set.
pub struct SetModel {
    pub adapter: Seq<char>,
    pub methods: Seq<DeclModel>,
}

impl View for MethodSet {
    type V = SetModel;

    open spec fn view(&self) -> SetModel {
        SetModel { adapter: self.adapter@, methods: self.methods@.map(|i: int, d: MethodDecl| d@) }
    }
}

/// Whether the set declares a method named `n`.
pub open spec fn set_declares(s: SetModel, n: Seq<char>) -> bool {
    exists|i: int| 0 <= i < s.methods.len() && s.methods[i].name == n
}

} // verus!
