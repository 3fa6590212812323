//! The description of a callable before analysis, and the pieces it is made of.

use vstd::prelude::*;
use crate::names::{NameView, Namespace, QualifiedName};
use crate::params::{ParamList, ParamType, ParamTypeView, ParamView};

verus! {

/// The view of an optional value: the view of what it holds.
pub open spec fn option_view<T: View>(o: Option<T>) -> Option<T::V> {
    match o {
        Some(t) => Some(t@),
        None => None,
    }
}

/// The views of the elements of a sequence, in order.
pub open spec fn seq_view<T: View>(s: Seq<T>) -> Seq<T::V> {
    s.map_values(|t: T| t@)
}

/// How a method takes part in virtual dispatch.
#[derive(Clone, Copy, Debug, PartialEq, Eq)]
pub enum Virtualness {
    NotVirtual,
    Virtual,
    PureVirtual,
}

/// Access level of a member on the foreign side.
#[derive(Clone, Copy, Debug, PartialEq, Eq)]
pub enum CppVisibility {
    Public,
    Protected,
    Private,
}

/// The special members of a foreign class.
#[derive(Clone, Copy, Debug, PartialEq, Eq)]
pub enum SpecialMemberKind {
    DefaultConstructor,
    CopyConstructor,
    MoveConstructor,
    Destructor,
    AssignmentOperator,
}

/// The forms a generated foreign-side function can take.
#[derive(Clone, Copy, Debug, PartialEq, Eq)]
pub enum CppFunctionKind {
    Function,
    Method,
    Constructor,
    ConstMethod,
    SynthesizedConstructor,
}

/// What a `Visibility` denotes.
pub enum VisibilityView {
    Public,
    Restricted(Seq<char>),
    Inherited,
}

/// Host-side visibility of a callable.
#[derive(Debug, PartialEq, Eq)]
pub enum Visibility {
    Public,
    /// Visible within the given path.
    Restricted(String),
    Inherited,
}

impl View for Visibility {
    type V = VisibilityView;

    open spec fn view(&self) -> VisibilityView {
        match self {
            Visibility::Public => VisibilityView::Public,
            Visibility::Restricted(path) => VisibilityView::Restricted(path@),
            Visibility::Inherited => VisibilityView::Inherited,
        }
    }
}

impl Clone for Visibility {
    fn clone(&self) -> (r: Visibility)
        ensures
            r@ == self@,
    {
        match self {
            Visibility::Public => Visibility::Public,
            Visibility::Restricted(path) => Visibility::Restricted(path.clone()),
            Visibility::Inherited => Visibility::Inherited,
        }
    }
}

/// What a `References` denotes.
pub struct ReferencesView {
    pub rvalue_ref_params: Seq<Seq<char>>,
    pub ref_params: Seq<Seq<char>>,
    pub ref_return: bool,
    pub rvalue_ref_return: bool,
}

/// Which parameters, and whether the return value, are references on the
/// foreign side.
#[derive(Debug, PartialEq, Eq)]
pub struct References {
    pub rvalue_ref_params: Vec<String>,
    pub ref_params: Vec<String>,
    pub ref_return: bool,
    pub rvalue_ref_return: bool,
}

impl View for References {
    type V = ReferencesView;

    open spec fn view(&self) -> ReferencesView {
        ReferencesView {
            rvalue_ref_params: self.rvalue_ref_params.deep_view(),
            ref_params: self.ref_params.deep_view(),
            ref_return: self.ref_return,
            rvalue_ref_return: self.rvalue_ref_return,
        }
    }
}

/// A copy of a list of identifiers.
pub fn clone_idents(idents: &Vec<String>) -> (r: Vec<String>)
    ensures
        r.deep_view() == idents.deep_view(),
{
    let mut r: Vec<String> = Vec::new();
    let mut i: usize = 0;
    while i < idents.len()
        invariant
            i <= idents.len(),
            r.len() == i,
            forall|j: int| 0 <= j < i ==> r[j]@ == idents[j]@,
        decreases idents.len() - i,
    {
        r.push(idents[i].clone());
        i += 1;
    }
    assert(r.deep_view() =~= idents.deep_view());
    r
}

impl References {
    /// No parameter is a reference, nor the return value.
    pub fn new() -> (r: References)
        ensures
            r@ == (ReferencesView {
                rvalue_ref_params: Seq::empty(),
                ref_params: Seq::empty(),
                ref_return: false,
                rvalue_ref_return: false,
            }),
    {
        let r = References {
            rvalue_ref_params: Vec::new(),
            ref_params: Vec::new(),
            ref_return: false,
            rvalue_ref_return: false,
        };
        assert(r.rvalue_ref_params.deep_view() =~= Seq::<Seq<char>>::empty());
        assert(r.ref_params.deep_view() =~= Seq::<Seq<char>>::empty());
        r
    }
}

impl Clone for References {
    fn clone(&self) -> (r: References)
        ensures
            r@ == self@,
    {
        References {
            rvalue_ref_params: clone_idents(&self.rvalue_ref_params),
            ref_params: clone_idents(&self.ref_params),
            ref_return: self.ref_return,
            rvalue_ref_return: self.rvalue_ref_return,
        }
    }
}

/// What a `TraitSynthesis` denotes.
pub enum TraitSynthesisView {
    Cast { to_type: NameView, mutable: bool },
    AllocUninitialized(NameView),
    FreeUninitialized(NameView),
}

/// The trait that a callable is to become a member of, where it is not a plain
/// function or method.
#[derive(Debug, PartialEq, Eq)]
pub enum TraitSynthesis {
    Cast { to_type: QualifiedName, mutable: bool },
    AllocUninitialized(QualifiedName),
    FreeUninitialized(QualifiedName),
}

impl View for TraitSynthesis {
    type V = TraitSynthesisView;

    open spec fn view(&self) -> TraitSynthesisView {
        match self {
            TraitSynthesis::Cast { to_type, mutable } => TraitSynthesisView::Cast {
                to_type: to_type@,
                mutable: *mutable,
            },
            TraitSynthesis::AllocUninitialized(n) => TraitSynthesisView::AllocUninitialized(n@),
            TraitSynthesis::FreeUninitialized(n) => TraitSynthesisView::FreeUninitialized(n@),
        }
    }
}

impl Clone for TraitSynthesis {
    fn clone(&self) -> (r: TraitSynthesis)
        ensures
            r@ == self@,
    {
        match self {
            TraitSynthesis::Cast { to_type, mutable } => TraitSynthesis::Cast {
                to_type: to_type.clone(),
                mutable: *mutable,
            },
            TraitSynthesis::AllocUninitialized(n) => TraitSynthesis::AllocUninitialized(n.clone()),
            TraitSynthesis::FreeUninitialized(n) => TraitSynthesis::FreeUninitialized(n.clone()),
        }
    }
}

/// What a `CppFunctionBody` denotes.
pub enum CppFunctionBodyView {
    FunctionCall(Seq<Seq<char>>, Seq<char>),
    StaticMethodCall(Seq<Seq<char>>, Seq<char>, Seq<char>),
    PlacementNew(Seq<Seq<char>>, Seq<char>),
    ConstructSuperclass(Seq<char>),
    Cast,
    Destructor(Seq<Seq<char>>, Seq<char>),
    AllocUninitialized(NameView),
    FreeUninitialized(NameView),
}

/// What the body of a generated foreign-side function does.
#[derive(Debug, PartialEq, Eq)]
pub enum CppFunctionBody {
    /// Calls the function of that name in that namespace.
    FunctionCall(Namespace, String),
    StaticMethodCall(Namespace, String, String),
    PlacementNew(Namespace, String),
    /// Runs the constructor of the base class of that name, then keeps the holder.
    ConstructSuperclass(String),
    Cast,
    Destructor(Namespace, String),
    AllocUninitialized(QualifiedName),
    FreeUninitialized(QualifiedName),
}

impl View for CppFunctionBody {
    type V = CppFunctionBodyView;

    open spec fn view(&self) -> CppFunctionBodyView {
        match self {
            CppFunctionBody::FunctionCall(ns, id) => CppFunctionBodyView::FunctionCall(ns@, id@),
            CppFunctionBody::StaticMethodCall(ns, ty, id) => CppFunctionBodyView::StaticMethodCall(
                ns@,
                ty@,
                id@,
            ),
            CppFunctionBody::PlacementNew(ns, id) => CppFunctionBodyView::PlacementNew(ns@, id@),
            CppFunctionBody::ConstructSuperclass(base) => CppFunctionBodyView::ConstructSuperclass(
                base@,
            ),
            CppFunctionBody::Cast => CppFunctionBodyView::Cast,
            CppFunctionBody::Destructor(ns, id) => CppFunctionBodyView::Destructor(ns@, id@),
            CppFunctionBody::AllocUninitialized(n) => CppFunctionBodyView::AllocUninitialized(n@),
            CppFunctionBody::FreeUninitialized(n) => CppFunctionBodyView::FreeUninitialized(n@),
        }
    }
}

impl Clone for CppFunctionBody {
    fn clone(&self) -> (r: CppFunctionBody)
        ensures
            r@ == self@,
    {
        match self {
            CppFunctionBody::FunctionCall(ns, id) => CppFunctionBody::FunctionCall(
                ns.clone(),
                id.clone(),
            ),
            CppFunctionBody::StaticMethodCall(ns, ty, id) => CppFunctionBody::StaticMethodCall(
                ns.clone(),
                ty.clone(),
                id.clone(),
            ),
            CppFunctionBody::PlacementNew(ns, id) => CppFunctionBody::PlacementNew(
                ns.clone(),
                id.clone(),
            ),
            CppFunctionBody::ConstructSuperclass(base) => CppFunctionBody::ConstructSuperclass(
                base.clone(),
            ),
            CppFunctionBody::Cast => CppFunctionBody::Cast,
            CppFunctionBody::Destructor(ns, id) => CppFunctionBody::Destructor(
                ns.clone(),
                id.clone(),
            ),
            CppFunctionBody::AllocUninitialized(n) => CppFunctionBody::AllocUninitialized(n.clone()),
            CppFunctionBody::FreeUninitialized(n) => CppFunctionBody::FreeUninitialized(n.clone()),
        }
    }
}

/// What a `FuncToConvert` denotes.
pub struct FuncToConvertView {
    pub ident: Seq<char>,
    pub doc_attr: Option<Seq<char>>,
    pub inputs: Seq<ParamView>,
    pub output: Option<ParamTypeView>,
    pub vis: VisibilityView,
    pub virtualness: Virtualness,
    pub cpp_vis: CppVisibility,
    pub special_member: Option<SpecialMemberKind>,
    pub unused_template_param: bool,
    pub references: ReferencesView,
    pub original_name: Option<Seq<char>>,
    pub self_ty: Option<NameView>,
    pub synthesized_this_type: Option<NameView>,
    pub add_to_trait: Option<TraitSynthesisView>,
    pub synthetic_cpp: Option<(CppFunctionBodyView, CppFunctionKind)>,
    pub is_deleted: bool,
    pub cpp_only: bool,
}

/// A callable that is to cross the boundary, as it stands before analysis.
#[derive(Debug, PartialEq, Eq)]
pub struct FuncToConvert {
    pub ident: String,
    /// Documentation carried over from the foreign declaration.
    pub doc_attr: Option<String>,
    pub inputs: ParamList,
    /// The return type; `None` where nothing is returned.
    pub output: Option<ParamType>,
    pub vis: Visibility,
    pub virtualness: Virtualness,
    pub cpp_vis: CppVisibility,
    pub special_member: Option<SpecialMemberKind>,
    pub unused_template_param: bool,
    pub references: References,
    /// The name this callable had where it was first declared, for diagnostics.
    pub original_name: Option<String>,
    /// The receiver type. For a method it can also be read off the inputs.
    pub self_ty: Option<QualifiedName>,
    /// The `this` type to use in place of the receiver's own.
    pub synthesized_this_type: Option<QualifiedName>,
    pub add_to_trait: Option<TraitSynthesis>,
    /// Set where the foreign declaration has no such function and its body is
    /// generated.
    pub synthetic_cpp: Option<(CppFunctionBody, CppFunctionKind)>,
    pub is_deleted: bool,
    /// Set where the callable exists on the foreign side only.
    pub cpp_only: bool,
}

impl View for FuncToConvert {
    type V = FuncToConvertView;

    open spec fn view(&self) -> FuncToConvertView {
        FuncToConvertView {
            ident: self.ident@,
            doc_attr: option_view(self.doc_attr),
            inputs: self.inputs@,
            output: option_view(self.output),
            vis: self.vis@,
            virtualness: self.virtualness,
            cpp_vis: self.cpp_vis,
            special_member: self.special_member,
            unused_template_param: self.unused_template_param,
            references: self.references@,
            original_name: option_view(self.original_name),
            self_ty: option_view(self.self_ty),
            synthesized_this_type: option_view(self.synthesized_this_type),
            add_to_trait: option_view(self.add_to_trait),
            synthetic_cpp: match self.synthetic_cpp {
                Some((body, kind)) => Some((body@, kind)),
                None => None,
            },
            is_deleted: self.is_deleted,
            cpp_only: self.cpp_only,
        }
    }
}

/// A copy of an optional text.
pub fn clone_text(text: &Option<String>) -> (r: Option<String>)
    ensures
        option_view(r) == option_view(*text),
{
    match text {
        Some(t) => Some(t.clone()),
        None => None,
    }
}

/// A copy of an optional name.
pub fn clone_name(name: &Option<QualifiedName>) -> (r: Option<QualifiedName>)
    ensures
        option_view(r) == option_view(*name),
{
    match name {
        Some(n) => Some(n.clone()),
        None => None,
    }
}

/// A copy of an optional type.
pub fn clone_type(ty: &Option<ParamType>) -> (r: Option<ParamType>)
    ensures
        option_view(r) == option_view(*ty),
{
    match ty {
        Some(t) => Some(t.clone()),
        None => None,
    }
}

impl Clone for FuncToConvert {
    fn clone(&self) -> (r: FuncToConvert)
        ensures
            r@ == self@,
    {
        FuncToConvert {
            ident: self.ident.clone(),
            doc_attr: clone_text(&self.doc_attr),
            inputs: self.inputs.clone(),
            output: clone_type(&self.output),
            vis: self.vis.clone(),
            virtualness: self.virtualness,
            cpp_vis: self.cpp_vis,
            special_member: self.special_member,
            unused_template_param: self.unused_template_param,
            references: self.references.clone(),
            original_name: clone_text(&self.original_name),
            self_ty: clone_name(&self.self_ty),
            synthesized_this_type: clone_name(&self.synthesized_this_type),
            add_to_trait: match &self.add_to_trait {
                Some(t) => Some(t.clone()),
                None => None,
            },
            synthetic_cpp: match &self.synthetic_cpp {
                Some((body, kind)) => Some((body.clone(), *kind)),
                None => None,
            },
            is_deleted: self.is_deleted,
            cpp_only: self.cpp_only,
        }
    }
}

} // verus!
