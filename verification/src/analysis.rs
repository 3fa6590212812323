//! What per-function analysis reports about a callable, and the descriptor of a
//! synthesized subclass function that is built from it.

use vstd::prelude::*;
use crate::function::{
    option_view, seq_view, CppFunctionBody, CppFunctionBodyView, CppFunctionKind,
};
use crate::names::{NameView, QualifiedName};
use crate::params::{ParamList, ParamType, ParamTypeView, ParamView};

verus! {

/// Whether a method may change the object it is called on.
#[derive(Clone, Copy, Debug, PartialEq, Eq)]
pub enum ReceiverMutability {
    Const,
    Mutable,
}

/// The kinds of method that analysis tells apart.
#[derive(Clone, Copy, Debug, PartialEq, Eq)]
pub enum MethodKind {
    Normal(ReceiverMutability),
    Constructor,
    MakeUnique,
    Static,
    Virtual(ReceiverMutability),
    PureVirtual(ReceiverMutability),
}

/// What an `FnKind` denotes.
pub enum FnKindView {
    Function,
    Method(NameView, MethodKind),
    TraitMethod { impl_for: NameView, method_name: Seq<char> },
}

/// What sort of callable analysis found.
#[derive(Debug, PartialEq, Eq)]
pub enum FnKind {
    Function,
    /// A method of the named type.
    Method(QualifiedName, MethodKind),
    TraitMethod { impl_for: QualifiedName, method_name: String },
}

impl View for FnKind {
    type V = FnKindView;

    open spec fn view(&self) -> FnKindView {
        match self {
            FnKind::Function => FnKindView::Function,
            FnKind::Method(ty, kind) => FnKindView::Method(ty@, *kind),
            FnKind::TraitMethod { impl_for, method_name } => FnKindView::TraitMethod {
                impl_for: impl_for@,
                method_name: method_name@,
            },
        }
    }
}

impl FnKindView {
    /// Whether analysis classified the callable as a pure virtual method.
    pub open spec fn is_pure_virtual(self) -> bool {
        self matches FnKindView::Method(_, MethodKind::PureVirtual(_))
    }
}

impl FnKind {
    /// Whether this is a pure virtual method.
    pub fn is_pure_virtual(&self) -> (r: bool)
        ensures
            r == self@.is_pure_virtual(),
    {
        match self {
            FnKind::Method(_, MethodKind::PureVirtual(_)) => true,
            _ => false,
        }
    }
}

/// How a value is converted on the foreign side of the boundary.
#[derive(Clone, Copy, Debug, PartialEq, Eq)]
pub enum CppConversionType {
    Unconverted,
    Move,
    FromUniquePtrToValue,
    FromPtrToValue,
    FromValueToUniquePtr,
    FromPtrToMove,
}

/// How a value is converted on the host side of the boundary.
#[derive(Clone, Copy, Debug, PartialEq, Eq)]
pub enum RustConversionType {
    Unconverted,
    FromStr,
    FromPinMaybeUninitToPtr,
    FromPinMoveRefToPtr,
    FromTypeToPtr,
    FromValueParamToPtr,
}

/// What a `TypeConversionPolicy` denotes.
pub struct TypeConversionPolicyView {
    pub unwrapped_type: ParamTypeView,
    pub cpp_conversion: CppConversionType,
    pub rust_conversion: RustConversionType,
}

/// How one parameter or return value crosses the boundary.
#[derive(Debug, PartialEq, Eq)]
pub struct TypeConversionPolicy {
    pub unwrapped_type: ParamType,
    pub cpp_conversion: CppConversionType,
    pub rust_conversion: RustConversionType,
}

impl View for TypeConversionPolicy {
    type V = TypeConversionPolicyView;

    open spec fn view(&self) -> TypeConversionPolicyView {
        TypeConversionPolicyView {
            unwrapped_type: self.unwrapped_type@,
            cpp_conversion: self.cpp_conversion,
            rust_conversion: self.rust_conversion,
        }
    }
}

impl Clone for TypeConversionPolicy {
    fn clone(&self) -> (r: TypeConversionPolicy)
        ensures
            r@ == self@,
    {
        TypeConversionPolicy {
            unwrapped_type: self.unwrapped_type.clone(),
            cpp_conversion: self.cpp_conversion,
            rust_conversion: self.rust_conversion,
        }
    }
}

/// A copy of an optional conversion.
pub fn clone_conversion(conversion: &Option<TypeConversionPolicy>) -> (r: Option<
    TypeConversionPolicy,
>)
    ensures
        option_view(r) == option_view(*conversion),
{
    match conversion {
        Some(c) => Some(c.clone()),
        None => None,
    }
}

/// What an `ArgumentAnalysis` denotes.
pub struct ArgumentAnalysisView {
    pub conversion: TypeConversionPolicyView,
    pub name: Seq<char>,
    pub requires_unsafe: bool,
}

/// What analysis found out about one parameter.
#[derive(Debug, PartialEq, Eq)]
pub struct ArgumentAnalysis {
    pub conversion: TypeConversionPolicy,
    pub name: String,
    /// Whether converting this parameter needs unsafe handling.
    pub requires_unsafe: bool,
}

impl View for ArgumentAnalysis {
    type V = ArgumentAnalysisView;

    open spec fn view(&self) -> ArgumentAnalysisView {
        ArgumentAnalysisView {
            conversion: self.conversion@,
            name: self.name@,
            requires_unsafe: self.requires_unsafe,
        }
    }
}

/// What an `FnAnalysis` denotes.
pub struct FnAnalysisView {
    pub cxxbridge_name: Seq<char>,
    pub rust_name: Seq<char>,
    pub params: Seq<ParamView>,
    pub kind: FnKindView,
    pub ret_type: Option<ParamTypeView>,
    pub param_details: Seq<ArgumentAnalysisView>,
    pub ret_conversion: Option<TypeConversionPolicyView>,
}

/// The analyzed signature of a callable. `param_details` has one entry for each
/// parameter of the callable, the receiver first.
#[derive(Debug, PartialEq, Eq)]
pub struct FnAnalysis {
    pub cxxbridge_name: String,
    pub rust_name: String,
    pub params: ParamList,
    pub kind: FnKind,
    pub ret_type: Option<ParamType>,
    pub param_details: Vec<ArgumentAnalysis>,
    pub ret_conversion: Option<TypeConversionPolicy>,
}

impl View for FnAnalysis {
    type V = FnAnalysisView;

    open spec fn view(&self) -> FnAnalysisView {
        FnAnalysisView {
            cxxbridge_name: self.cxxbridge_name@,
            rust_name: self.rust_name@,
            params: self.params@,
            kind: self.kind@,
            ret_type: option_view(self.ret_type),
            param_details: seq_view(self.param_details@),
            ret_conversion: option_view(self.ret_conversion),
        }
    }
}

/// What a `CppFunction` denotes.
pub struct CppFunctionView {
    pub payload: CppFunctionBodyView,
    pub wrapper_function_name: Seq<char>,
    pub original_cpp_name: Seq<char>,
    pub return_conversion: Option<TypeConversionPolicyView>,
    pub argument_conversion: Seq<TypeConversionPolicyView>,
    pub kind: CppFunctionKind,
    pub pass_obs_field: bool,
    pub qualification: Option<NameView>,
}

/// A function that is to be generated on the foreign side.
#[derive(Debug, PartialEq, Eq)]
pub struct CppFunction {
    pub payload: CppFunctionBody,
    pub wrapper_function_name: String,
    pub original_cpp_name: String,
    pub return_conversion: Option<TypeConversionPolicy>,
    pub argument_conversion: Vec<TypeConversionPolicy>,
    pub kind: CppFunctionKind,
    /// Whether the generated function hands on the object that holds the
    /// host-side state.
    pub pass_obs_field: bool,
    /// The class that the generated function is a member of.
    pub qualification: Option<QualifiedName>,
}

impl View for CppFunction {
    type V = CppFunctionView;

    open spec fn view(&self) -> CppFunctionView {
        CppFunctionView {
            payload: self.payload@,
            wrapper_function_name: self.wrapper_function_name@,
            original_cpp_name: self.original_cpp_name@,
            return_conversion: option_view(self.return_conversion),
            argument_conversion: seq_view(self.argument_conversion@),
            kind: self.kind,
            pass_obs_field: self.pass_obs_field,
            qualification: option_view(self.qualification),
        }
    }
}

/// What a `RustSubclassFnDetails` denotes.
pub struct RustSubclassFnDetailsView {
    pub params: Seq<ParamView>,
    pub ret: Option<ParamTypeView>,
    pub cpp_impl: CppFunctionView,
    pub method_name: Seq<char>,
    pub superclass: NameView,
    pub receiver_mutability: ReceiverMutability,
    pub dependency: Option<NameView>,
    pub requires_unsafe: bool,
    pub is_pure_virtual: bool,
}

/// A synthesized subclass function: the host-side callable that an overridden
/// virtual method forwards to, and the foreign-side method that forwards to it.
#[derive(Debug, PartialEq, Eq)]
pub struct RustSubclassFnDetails {
    pub params: ParamList,
    pub ret: Option<ParamType>,
    pub cpp_impl: CppFunction,
    pub method_name: String,
    pub superclass: QualifiedName,
    pub receiver_mutability: ReceiverMutability,
    pub dependency: Option<QualifiedName>,
    pub requires_unsafe: bool,
    pub is_pure_virtual: bool,
}

impl View for RustSubclassFnDetails {
    type V = RustSubclassFnDetailsView;

    open spec fn view(&self) -> RustSubclassFnDetailsView {
        RustSubclassFnDetailsView {
            params: self.params@,
            ret: option_view(self.ret),
            cpp_impl: self.cpp_impl@,
            method_name: self.method_name@,
            superclass: self.superclass@,
            receiver_mutability: self.receiver_mutability,
            dependency: option_view(self.dependency),
            requires_unsafe: self.requires_unsafe,
            is_pure_virtual: self.is_pure_virtual,
        }
    }
}

} // verus!
