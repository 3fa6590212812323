//! The entries that the phases of binding generation hand to each other.

use vstd::prelude::*;
use crate::analysis::{FnAnalysis, RustSubclassFnDetails};
use crate::function::FuncToConvert;
use crate::names::{ApiName, NameView, QualifiedName, SubclassName};

verus! {

/// Marks a phase of analysis and says what the phase knows about a function.
pub trait AnalysisPhase {
    type FunAnalysis;
}

/// The phase before functions are analyzed: nothing is known about them yet.
pub struct PodPhase;

/// The phase in which functions carry their analyzed signature.
pub struct FnPhase;

impl AnalysisPhase for PodPhase {
    type FunAnalysis = ();
}

impl AnalysisPhase for FnPhase {
    type FunAnalysis = FnAnalysis;
}

/// One entry: something that was found or made, filed under a name.
#[allow(inconsistent_fields)]
pub enum Api<P: AnalysisPhase> {
    /// A type that is known by its name only.
    ForwardDeclaration { name: ApiName },
    /// A function or method of the foreign side.
    Function { name: ApiName, fun: Box<FuncToConvert>, analysis: P::FunAnalysis },
    /// A synthesized subclass function.
    RustSubclassFn { name: ApiName, subclass: SubclassName, details: Box<RustSubclassFnDetails> },
    /// A subclass that host code asked for, with the class it extends.
    Subclass { name: SubclassName, superclass: QualifiedName },
}

impl<P: AnalysisPhase> Api<P> {
    /// The name under which the entry is filed.
    pub open spec fn spec_name(&self) -> NameView {
        match self {
            Api::ForwardDeclaration { name } => name@.name,
            Api::Function { name, .. } => name@.name,
            Api::RustSubclassFn { name, .. } => name@.name,
            Api::Subclass { name, .. } => name@.name,
        }
    }

    /// The identity of the entry.
    pub fn name_info(&self) -> (r: &ApiName)
        ensures
            r@.name == self.spec_name(),
            self matches Api::Subclass { name, .. } ==> r@ == name@,
            self matches Api::ForwardDeclaration { name } ==> r@ == name@,
            self matches Api::Function { name, .. } ==> r@ == name@,
            self matches Api::RustSubclassFn { name, .. } ==> r@ == name@,
    {
        match self {
            Api::ForwardDeclaration { name } => name,
            Api::Function { name, .. } => name,
            Api::RustSubclassFn { name, .. } => name,
            Api::Subclass { name, .. } => &name.0,
        }
    }

    /// The name under which the entry is filed.
    pub fn name(&self) -> (r: &QualifiedName)
        ensures
            r@ == self.spec_name(),
    {
        &self.name_info().name
    }
}

} // verus!
