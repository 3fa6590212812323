//! Synthesis of what a subclass needs: the rewritten method that analysis is
//! run on, the entry for each overridden method, and the pair of constructors.

use vstd::prelude::*;
use vstd::string::StringExecFns;
use crate::analysis::{
    clone_conversion, ArgumentAnalysisView, CppFunction, CppFunctionView, FnAnalysis,
    FnAnalysisView, ReceiverMutability, RustSubclassFnDetails, RustSubclassFnDetailsView,
    TypeConversionPolicy, TypeConversionPolicyView,
};
use crate::api::{Api, FnPhase};
use crate::function::{
    clone_name, clone_text, clone_type, option_view, seq_view, CppFunctionBody,
    CppFunctionBodyView, CppFunctionKind, CppVisibility, FuncToConvert, FuncToConvertView,
    Virtualness,
};
use crate::names::{
    constructor_name, cpp_class_name, holder_name, name_joiner, ApiName, ApiNameView, NameView,
    Namespace, QualifiedName, SubclassName,
};
use crate::params::{Param, ParamList, ParamType, ParamTypeView, ParamView};

verus! {

/// The sequence without its first element; empty where there is none.
pub open spec fn after_first<T>(s: Seq<T>) -> Seq<T> {
    if s.len() == 0 {
        s
    } else {
        s.skip(1)
    }
}

/// A name in the root namespace.
pub open spec fn root_name(item: Seq<char>) -> NameView {
    NameView { namespace: Seq::empty(), item }
}

/// Name of the parameter through which a synthesized subclass function gets
/// the holder.
pub open spec fn holder_reference_name() -> Seq<char> {
    seq!['m', 'e']
}

/// Name of the parameter through which a constructor gets the holder it is to
/// own.
pub open spec fn owned_holder_name() -> Seq<char> {
    seq!['p', 'e', 'e', 'r']
}

/// The method that analysis is run on for a subclass: `fun` with the subclass's
/// foreign-side class as its receiver, under the final segment of the method's
/// name, no longer virtual, and not confined to the foreign side. Everything
/// else is as in `fun`.
pub open spec fn subclass_fn_wrapper(
    sub: ApiNameView,
    super_fn_name: NameView,
    fun: FuncToConvertView,
) -> FuncToConvertView {
    FuncToConvertView {
        synthesized_this_type: Some(cpp_class_name(sub.name)),
        self_ty: Some(cpp_class_name(sub.name)),
        ident: super_fn_name.item,
        virtualness: Virtualness::NotVirtual,
        cpp_only: false,
        ..fun
    }
}

/// Rewrites a virtual method of a superclass into the method of the subclass
/// `sub` that overrides it. The result is what analysis is then run on.
pub fn create_subclass_fn_wrapper(
    sub: SubclassName,
    super_fn_name: &QualifiedName,
    fun: &FuncToConvert,
) -> (r: Box<FuncToConvert>)
    ensures
        r@ == subclass_fn_wrapper(sub@, super_fn_name@, fun@),
{
    let self_ty = Some(sub.cpp());
    Box::new(
        FuncToConvert {
            synthesized_this_type: clone_name(&self_ty),
            self_ty,
            ident: super_fn_name.get_final_ident(),
            doc_attr: clone_text(&fun.doc_attr),
            inputs: fun.inputs.clone(),
            output: clone_type(&fun.output),
            vis: fun.vis.clone(),
            virtualness: Virtualness::NotVirtual,
            cpp_vis: fun.cpp_vis,
            special_member: fun.special_member,
            unused_template_param: fun.unused_template_param,
            original_name: clone_text(&fun.original_name),
            references: fun.references.clone(),
            add_to_trait: match &fun.add_to_trait {
                Some(t) => Some(t.clone()),
                None => None,
            },
            is_deleted: fun.is_deleted,
            synthetic_cpp: match &fun.synthetic_cpp {
                Some((body, kind)) => Some((body.clone(), *kind)),
                None => None,
            },
            cpp_only: false,
        },
    )
}

/// The name under which host code is called for method `method` of subclass
/// `subclass`: the two joined by an underscore.
pub open spec fn subclass_call_name(subclass: Seq<char>, method: Seq<char>) -> Seq<char> {
    subclass + name_joiner() + method
}

/// The parameter that hands a synthesized subclass function the holder: a
/// shared reference to the holder type of the subclass.
pub open spec fn holder_reference_param(sub: NameView) -> ParamView {
    ParamView::Typed {
        name: holder_reference_name(),
        ty: ParamTypeView::Reference { referent: root_name(holder_name(sub)), mutable: false },
    }
}

/// Whether some parameter after the receiver needs unsafe handling.
pub open spec fn any_requires_unsafe(details: Seq<ArgumentAnalysisView>) -> bool {
    exists|i: int| 1 <= i < details.len() && (#[trigger] details[i]).requires_unsafe
}

/// The conversions of the parameters after the receiver, in their order.
pub open spec fn argument_conversions(details: Seq<ArgumentAnalysisView>) -> Seq<
    TypeConversionPolicyView,
> {
    after_first(details).map_values(|d: ArgumentAnalysisView| d.conversion)
}

/// The foreign-side method is a mutating one exactly if the overridden method is.
pub open spec fn trampoline_kind(receiver_mutability: ReceiverMutability) -> CppFunctionKind {
    match receiver_mutability {
        ReceiverMutability::Mutable => CppFunctionKind::Method,
        ReceiverMutability::Const => CppFunctionKind::ConstMethod,
    }
}

/// The descriptor of the synthesized subclass function for one overridden
/// method.
pub open spec fn subclass_function_details(
    sub: ApiNameView,
    analysis: FnAnalysisView,
    name: ApiNameView,
    receiver_mutability: ReceiverMutability,
    superclass: NameView,
    dependency: Option<NameView>,
) -> RustSubclassFnDetailsView {
    RustSubclassFnDetailsView {
        params: seq![holder_reference_param(sub.name)] + after_first(analysis.params),
        ret: analysis.ret_type,
        cpp_impl: CppFunctionView {
            payload: CppFunctionBodyView::FunctionCall(
                Seq::empty(),
                subclass_call_name(sub.name.item, name.name.item),
            ),
            wrapper_function_name: name.name.item,
            original_cpp_name: name.display_name(),
            return_conversion: analysis.ret_conversion,
            argument_conversion: argument_conversions(analysis.param_details),
            kind: trampoline_kind(receiver_mutability),
            pass_obs_field: true,
            qualification: Some(cpp_class_name(sub.name)),
        },
        method_name: analysis.rust_name,
        superclass,
        receiver_mutability,
        dependency,
        requires_unsafe: any_requires_unsafe(analysis.param_details),
        is_pure_virtual: analysis.kind.is_pure_virtual(),
    }
}

/// Joins a subclass name and a method name by an underscore.
fn join_names(subclass: &str, method: &str) -> (r: String)
    ensures
        r@ == subclass_call_name(subclass@, method@),
{
    proof {
        reveal_strlit("_");
        assert("_"@ =~= name_joiner());
    }
    let mut r = String::from_str(subclass);
    r.append("_");
    r.append(method);
    r
}

/// The parameters of a synthesized subclass function: the holder by
/// reference, then the analyzed parameters without the receiver.
fn trampoline_params(sub: &SubclassName, analyzed: &ParamList) -> (r: ParamList)
    ensures
        r@ == seq![holder_reference_param(sub@.name)] + after_first(analyzed@),
{
    proof {
        reveal_strlit("me");
        assert("me"@ =~= holder_reference_name());
    }
    let holder = QualifiedName::new(&Namespace::new(), sub.holder().as_str());
    let mut r = ParamList::new();
    r.push(
        Param::Typed {
            name: String::from_str("me"),
            ty: ParamType::Reference { referent: holder, mutable: false },
        },
    );
    r.extend_from(analyzed, 1);
    assert(r@ =~= seq![holder_reference_param(sub@.name)] + after_first(analyzed@));
    r
}

/// The conversions of the parameters after the receiver.
fn conversions_after_receiver(analysis: &FnAnalysis) -> (r: Vec<TypeConversionPolicy>)
    ensures
        seq_view(r@) == argument_conversions(analysis@.param_details),
{
    let mut r: Vec<TypeConversionPolicy> = Vec::new();
    let n = analysis.param_details.len();
    let mut i: usize = 1;
    while i < n
        invariant
            1 <= i,
            i <= n || (n == 0 && i == 1),
            n == analysis.param_details@.len(),
            r@.len() == i - 1,
            forall|j: int| 0 <= j < r@.len() ==> r@[j]@ == analysis.param_details@[j + 1]@.conversion,
        decreases n - i,
    {
        r.push(analysis.param_details[i].conversion.clone());
        i += 1;
    }
    proof {
        let details = analysis@.param_details;
        let wanted = argument_conversions(details);
        assert(wanted.len() == r@.len());
        assert forall|j: int| 0 <= j < r@.len() implies seq_view(r@)[j] == wanted[j] by {
            assert(r@[j]@ == analysis.param_details@[j + 1]@.conversion);
            assert(after_first(details)[j] == details[j + 1]);
        }
        assert(seq_view(r@) =~= wanted);
    }
    r
}

/// Whether some parameter after the receiver needs unsafe handling.
fn unsafe_after_receiver(analysis: &FnAnalysis) -> (r: bool)
    ensures
        r == any_requires_unsafe(analysis@.param_details),
{
    let n = analysis.param_details.len();
    let mut i: usize = 1;
    while i < n
        invariant
            1 <= i,
            n == analysis.param_details@.len(),
            forall|j: int| 1 <= j < i && j < n ==> !analysis.param_details@[j].requires_unsafe,
        decreases n - i,
    {
        if analysis.param_details[i].requires_unsafe {
            assert(analysis@.param_details[i as int].requires_unsafe);
            return true;
        }
        i += 1;
    }
    assert forall|j: int| 1 <= j < analysis@.param_details.len() implies !(
    #[trigger] analysis@.param_details[j]).requires_unsafe by {
        assert(!analysis.param_details@[j].requires_unsafe);
    }
    false
}

/// Builds the entry for one virtual method that the subclass `sub` overrides,
/// from the analysis of the rewritten method. The entry is filed in the root
/// namespace under the call name of the pair.
pub fn create_subclass_function(
    sub: &SubclassName,
    analysis: &FnAnalysis,
    name: &ApiName,
    receiver_mutability: &ReceiverMutability,
    superclass: &QualifiedName,
    dependency: Option<&QualifiedName>,
) -> (r: Api<FnPhase>)
    ensures
        r matches Api::RustSubclassFn { name: filed, subclass, details } && {
            &&& filed@ == (ApiNameView {
                name: root_name(subclass_call_name(sub@.name.item, name@.name.item)),
                cpp_name: None,
            })
            &&& subclass@ == sub@
            &&& details@ == subclass_function_details(
                sub@,
                analysis@,
                name@,
                *receiver_mutability,
                superclass@,
                option_view(dependency),
            )
            &&& details@.receiver_mutability == *receiver_mutability
            &&& details@.cpp_impl.kind == trampoline_kind(*receiver_mutability)
            &&& details@.requires_unsafe == any_requires_unsafe(analysis@.param_details)
            &&& details@.is_pure_virtual == analysis@.kind.is_pure_virtual()
        },
{
    let cpp = sub.cpp();
    let rust_call_name = join_names(sub.0.name.get_final_item(), name.name.get_final_item());
    let params = trampoline_params(sub, &analysis.params);
    let kind = match receiver_mutability {
        ReceiverMutability::Mutable => CppFunctionKind::Method,
        ReceiverMutability::Const => CppFunctionKind::ConstMethod,
    };
    let filed = ApiName::new_in_root_namespace(rust_call_name.as_str());
    Api::RustSubclassFn {
        name: filed,
        subclass: sub.clone(),
        details: Box::new(
            RustSubclassFnDetails {
                params,
                ret: clone_type(&analysis.ret_type),
                method_name: analysis.rust_name.clone(),
                cpp_impl: CppFunction {
                    payload: CppFunctionBody::FunctionCall(Namespace::new(), rust_call_name),
                    wrapper_function_name: name.name.get_final_ident(),
                    original_cpp_name: name.cpp_name(),
                    return_conversion: clone_conversion(&analysis.ret_conversion),
                    argument_conversion: conversions_after_receiver(analysis),
                    kind,
                    pass_obs_field: true,
                    qualification: Some(cpp),
                },
                superclass: superclass.clone(),
                receiver_mutability: *receiver_mutability,
                dependency: match dependency {
                    Some(d) => Some(d.clone()),
                    None => None,
                },
                requires_unsafe: unsafe_after_receiver(analysis),
                is_pure_virtual: analysis.kind.is_pure_virtual(),
            },
        ),
    }
}

/// The subclass name of the second pair is that of the first, an underscore
/// and some text `x`, while the method name of the first pair is `x`, an
/// underscore and the method name of the second: the two pairs read the same
/// once joined.
pub open spec fn straddles(
    subclass: Seq<char>,
    method: Seq<char>,
    other_subclass: Seq<char>,
    other_method: Seq<char>,
) -> bool {
    exists|x: Seq<char>|
        other_subclass == #[trigger] (subclass + name_joiner() + x) && method == x + name_joiner()
            + other_method
}

/// Two pairs of a subclass and a method have the same call name exactly if
/// they are the same pair or one straddles the other.
pub proof fn lemma_call_name_collisions(
    subclass: Seq<char>,
    method: Seq<char>,
    other_subclass: Seq<char>,
    other_method: Seq<char>,
)
    ensures
        subclass_call_name(subclass, method) == subclass_call_name(other_subclass, other_method)
            <==> (subclass == other_subclass && method == other_method) || straddles(
            subclass,
            method,
            other_subclass,
            other_method,
        ) || straddles(other_subclass, other_method, subclass, method),
{
    let one = subclass_call_name(subclass, method);
    let two = subclass_call_name(other_subclass, other_method);
    if one == two {
        if subclass.len() == other_subclass.len() {
            assert(subclass =~= one.take(subclass.len() as int));
            assert(other_subclass =~= two.take(subclass.len() as int));
            assert(method =~= one.skip(subclass.len() as int + 1));
            assert(other_method =~= two.skip(subclass.len() as int + 1));
        } else if subclass.len() < other_subclass.len() {
            lemma_shorter_straddles(subclass, method, other_subclass, other_method);
        } else {
            lemma_shorter_straddles(other_subclass, other_method, subclass, method);
        }
    }
    if straddles(subclass, method, other_subclass, other_method) {
        let x = choose|x: Seq<char>|
            other_subclass == #[trigger] (subclass + name_joiner() + x) && method == x
                + name_joiner() + other_method;
        assert(one =~= two);
    }
    if straddles(other_subclass, other_method, subclass, method) {
        let x = choose|x: Seq<char>|
            subclass == #[trigger] (other_subclass + name_joiner() + x) && other_method == x
                + name_joiner() + method;
        assert(one =~= two);
    }
}

/// Of two pairs with the same call name, the one with the shorter subclass
/// name straddles the other.
proof fn lemma_shorter_straddles(
    subclass: Seq<char>,
    method: Seq<char>,
    other_subclass: Seq<char>,
    other_method: Seq<char>,
)
    requires
        subclass_call_name(subclass, method) == subclass_call_name(other_subclass, other_method),
        subclass.len() < other_subclass.len(),
    ensures
        straddles(subclass, method, other_subclass, other_method),
{
    let one = subclass_call_name(subclass, method);
    let two = subclass_call_name(other_subclass, other_method);
    let cut = subclass.len() as int;
    let x = other_subclass.skip(cut + 1);
    assert(other_subclass =~= two.take(other_subclass.len() as int));
    assert forall|i: int| 0 <= i < other_subclass.len() implies other_subclass[i] == (subclass
        + name_joiner() + x)[i] by {
        assert(other_subclass[i] == two[i]);
        assert(two[i] == one[i]);
    }
    assert(other_subclass =~= subclass + name_joiner() + x);
    let rest = x + name_joiner() + other_method;
    let end = other_subclass.len() as int;
    assert(name_joiner().len() == 1);
    assert(one.len() == subclass.len() + 1 + method.len());
    assert(two.len() == other_subclass.len() + 1 + other_method.len());
    assert(x.len() == end - cut - 1);
    assert(rest.len() == x.len() + 1 + other_method.len());
    assert(method.len() == rest.len());
    assert forall|i: int| 0 <= i < method.len() implies method[i] == rest[i] by {
        assert(method[i] == one[cut + 1 + i]);
        assert(one[cut + 1 + i] == two[cut + 1 + i]);
        if cut + 1 + i < end {
            assert(two[cut + 1 + i] == other_subclass[cut + 1 + i]);
            assert(rest[i] == x[i]);
        } else if cut + 1 + i == end {
            assert(two[end] == name_joiner()[0]);
            assert(rest[i] == name_joiner()[0]);
        } else {
            assert(two[cut + 1 + i] == other_method[cut + i - end]);
            assert(rest[i] == other_method[i - x.len() - 1]);
        }
    }
    assert(method =~= rest);
}

/// One subclass never gets the same call name for two of its methods.
pub proof fn lemma_call_name_unique_per_subclass(
    subclass: Seq<char>,
    method: Seq<char>,
    other_method: Seq<char>,
)
    ensures
        subclass_call_name(subclass, method) == subclass_call_name(subclass, other_method)
            <==> method == other_method,
{
    let one = subclass_call_name(subclass, method);
    let two = subclass_call_name(subclass, other_method);
    if one == two {
        assert(method =~= one.skip(subclass.len() as int + 1));
        assert(other_method =~= two.skip(subclass.len() as int + 1));
    }
}

/// Among subclasses whose names hold no underscore, every pair of a subclass
/// and a method has a call name of its own.
pub proof fn lemma_call_name_unique(
    subclass: Seq<char>,
    method: Seq<char>,
    other_subclass: Seq<char>,
    other_method: Seq<char>,
)
    requires
        !subclass.contains('_'),
        !other_subclass.contains('_'),
    ensures
        subclass_call_name(subclass, method) == subclass_call_name(other_subclass, other_method)
            <==> subclass == other_subclass && method == other_method,
{
    lemma_call_name_collisions(subclass, method, other_subclass, other_method);
    if straddles(subclass, method, other_subclass, other_method) {
        let x = choose|x: Seq<char>|
            other_subclass == #[trigger] (subclass + name_joiner() + x) && method == x
                + name_joiner() + other_method;
        assert(other_subclass[subclass.len() as int] == '_');
    }
    if straddles(other_subclass, other_method, subclass, method) {
        let x = choose|x: Seq<char>|
            subclass == #[trigger] (other_subclass + name_joiner() + x) && other_method == x
                + name_joiner() + method;
        assert(subclass[other_subclass.len() as int] == '_');
    }
}

/// An internal-consistency failure: an earlier phase handed over a constructor
/// whose shape it had promised would not occur. Nothing is synthesized for such
/// a constructor.
#[derive(Clone, Copy, Debug, PartialEq, Eq)]
pub enum InternalInvariantViolation {
    /// The constructor has no parameters, or its first parameter is a receiver
    /// and not a named parameter.
    MissingSelfParameter,
    /// The first parameter is not a pointer to the superclass.
    SelfNotPointerToSuperclass,
}

impl InternalInvariantViolation {
    /// What to tell the user.
    pub fn message(&self) -> (r: String)
        ensures
            r@ == "Unexpected self type parameter when creating subclass constructor"@,
    {
        String::from_str("Unexpected self type parameter when creating subclass constructor")
    }
}

/// What is wrong with the first parameter of a constructor of `sup`, if
/// anything: it must be a named parameter whose type is a pointer to `sup`.
pub open spec fn self_parameter_defect(fun: FuncToConvertView, sup: NameView) -> Option<
    InternalInvariantViolation,
> {
    if fun.inputs.len() == 0 {
        Some(InternalInvariantViolation::MissingSelfParameter)
    } else {
        match fun.inputs[0] {
            ParamView::Receiver { .. } => Some(InternalInvariantViolation::MissingSelfParameter),
            ParamView::Typed { ty: ParamTypeView::Pointer { pointee, .. }, .. } => if pointee
                == sup {
                None
            } else {
                Some(InternalInvariantViolation::SelfNotPointerToSuperclass)
            },
            ParamView::Typed { .. } => Some(
                InternalInvariantViolation::SelfNotPointerToSuperclass,
            ),
        }
    }
}

/// The constructor begins with a named parameter whose type is a pointer to
/// `sup`.
pub open spec fn has_self_pointer(fun: FuncToConvertView, sup: NameView) -> bool {
    &&& fun.inputs.len() > 0
    &&& fun.inputs[0] matches ParamView::Typed { ty: ParamTypeView::Pointer { pointee, .. }, .. }
    &&& pointee == sup
}

/// A constructor has a defect exactly if it does not begin with a pointer to
/// its class. The self parameter is missing where there is no parameter or the
/// first one is a receiver; any other first parameter that is no pointer to
/// the class has the wrong type.
pub proof fn lemma_defect_without_self_pointer(fun: FuncToConvertView, sup: NameView)
    ensures
        self_parameter_defect(fun, sup) is None <==> has_self_pointer(fun, sup),
        self_parameter_defect(fun, sup) == Some(InternalInvariantViolation::MissingSelfParameter)
            <==> fun.inputs.len() == 0 || fun.inputs[0] is Receiver,
        self_parameter_defect(fun, sup) == Some(
            InternalInvariantViolation::SelfNotPointerToSuperclass,
        ) <==> fun.inputs.len() > 0 && fun.inputs[0] is Typed && !has_self_pointer(fun, sup),
{
}

/// The self parameter of a constructor, pointing to the foreign-side class of
/// the subclass in place of the superclass.
pub open spec fn retargeted_self(param: ParamView, sub: NameView) -> ParamView {
    match param {
        ParamView::Typed { name, ty: ParamTypeView::Pointer { pointee, mutable } } => {
            ParamView::Typed {
                name,
                ty: ParamTypeView::Pointer { pointee: cpp_class_name(sub), mutable },
            }
        },
        _ => param,
    }
}

/// The parameter that hands a constructor the holder it is to own.
pub open spec fn owned_holder_param(sub: NameView) -> ParamView {
    ParamView::Typed {
        name: owned_holder_name(),
        ty: ParamTypeView::OwnedBox(root_name(holder_name(sub))),
    }
}

/// The parameters of the foreign-only constructor: the holder, then those of
/// the superclass constructor without its self parameter.
pub open spec fn constructor_inputs(sub: NameView, fun: FuncToConvertView) -> Seq<ParamView> {
    seq![owned_holder_param(sub)] + after_first(fun.inputs)
}

/// The parameters of the exposed constructor: the retargeted self parameter,
/// then those of the foreign-only constructor.
pub open spec fn wrapper_inputs(sub: NameView, fun: FuncToConvertView) -> Seq<ParamView> {
    seq![retargeted_self(fun.inputs[0], sub)] + constructor_inputs(sub, fun)
}

/// The identifier of the exposed constructor: the class name twice, joined by
/// an underscore.
pub open spec fn wrapper_constructor_ident(sub: NameView) -> Seq<char> {
    subclass_call_name(cpp_class_name(sub).item, cpp_class_name(sub).item)
}

/// The foreign-only constructor of the subclass: the superclass constructor
/// `fun`, made a constructor of the subclass's class that first constructs the
/// superclass `sup` and then keeps the holder.
pub open spec fn actual_constructor(
    sub: ApiNameView,
    sup: NameView,
    fun: FuncToConvertView,
) -> FuncToConvertView {
    FuncToConvertView {
        inputs: constructor_inputs(sub.name, fun),
        ident: cpp_class_name(sub.name).item,
        synthesized_this_type: Some(cpp_class_name(sub.name)),
        self_ty: Some(cpp_class_name(sub.name)),
        synthetic_cpp: Some(
            (
                CppFunctionBodyView::ConstructSuperclass(sup.cpp_spelling()),
                CppFunctionKind::SynthesizedConstructor,
            ),
        ),
        original_name: Some(cpp_class_name(sub.name).item),
        cpp_only: true,
        ..fun
    }
}

/// The identity of the foreign-only constructor.
pub open spec fn actual_constructor_name(sub: ApiNameView) -> ApiNameView {
    ApiNameView {
        name: constructor_name(sub.name),
        cpp_name: Some(cpp_class_name(sub.name).item),
    }
}

/// The exposed constructor: what host code calls to make an instance of the
/// subclass.
pub open spec fn wrapper_constructor(sub: ApiNameView, fun: FuncToConvertView) -> FuncToConvertView {
    FuncToConvertView {
        ident: wrapper_constructor_ident(sub.name),
        inputs: wrapper_inputs(sub.name, fun),
        virtualness: Virtualness::NotVirtual,
        cpp_vis: CppVisibility::Public,
        original_name: None,
        synthesized_this_type: Some(cpp_class_name(sub.name)),
        self_ty: Some(cpp_class_name(sub.name)),
        add_to_trait: None,
        synthetic_cpp: None,
        cpp_only: false,
        ..fun
    }
}

/// The identity of the exposed constructor, in the root namespace.
pub open spec fn wrapper_constructor_name(sub: ApiNameView) -> ApiNameView {
    ApiNameView {
        name: root_name(wrapper_constructor_ident(sub.name)),
        cpp_name: Some(cpp_class_name(sub.name).item),
    }
}

/// The two constructors of a subclass are never filed under the same name.
pub proof fn lemma_constructor_identities_differ(sub: ApiNameView)
    ensures
        actual_constructor_name(sub).name != wrapper_constructor_name(sub).name,
{
    let item = sub.name.item;
    let cut = item.len() as int;
    let actual = constructor_name(sub.name).item;
    let wrapper = wrapper_constructor_ident(sub.name);
    assert(actual.len() == cut + 8);
    assert(cpp_class_name(sub.name).item.len() == cut + 3);
    assert(wrapper.len() == 2 * cut + 7);
    if actual == wrapper {
        assert(cut == 1);
        assert(actual[cut + 5] == 't');
        assert(wrapper[cut + 5] == cpp_class_name(sub.name).item[1]);
        assert(cpp_class_name(sub.name).item[1] == 'C');
    }
}

/// The self parameter of a constructor of `sup`, retargeted to the subclass,
/// or what is wrong with it.
fn retarget_self_parameter(sub: &SubclassName, sup: &QualifiedName, fun: &FuncToConvert) -> (r:
    Result<Param, InternalInvariantViolation>)
    ensures
        match r {
            Ok(param) => self_parameter_defect(fun@, sup@) is None && param@ == retargeted_self(
                fun@.inputs[0],
                sub@.name,
            ),
            Err(e) => self_parameter_defect(fun@, sup@) == Some(e),
        },
{
    match fun.inputs.first() {
        Some(Param::Typed { name, ty: ParamType::Pointer { pointee, mutable } }) => {
            if pointee.same_as(sup) {
                Ok(
                    Param::Typed {
                        name: name.clone(),
                        ty: ParamType::Pointer { pointee: sub.cpp(), mutable: *mutable },
                    },
                )
            } else {
                Err(InternalInvariantViolation::SelfNotPointerToSuperclass)
            }
        },
        Some(Param::Typed { .. }) => Err(InternalInvariantViolation::SelfNotPointerToSuperclass),
        Some(Param::Receiver { .. }) => Err(InternalInvariantViolation::MissingSelfParameter),
        None => Err(InternalInvariantViolation::MissingSelfParameter),
    }
}

/// Builds the two constructors of the subclass `sub` for one constructor `fun`
/// of its superclass `sup`, each with the identity to file it under: first the
/// foreign-only constructor, then the exposed one. Fails, and builds nothing,
/// exactly if `fun` does not begin with a named parameter whose type is a
/// pointer to `sup`.
pub fn create_subclass_constructor(sub: SubclassName, sup: &QualifiedName, fun: &FuncToConvert) -> (r:
    Result<Vec<(Box<FuncToConvert>, ApiName)>, InternalInvariantViolation>)
    ensures
        match r {
            Ok(pair) => {
                &&& self_parameter_defect(fun@, sup@) is None
                &&& pair@.len() == 2
                &&& pair@[0].0@ == actual_constructor(sub@, sup@, fun@)
                &&& pair@[0].1@ == actual_constructor_name(sub@)
                &&& pair@[1].0@ == wrapper_constructor(sub@, fun@)
                &&& pair@[1].1@ == wrapper_constructor_name(sub@)
                &&& pair@[0].0@.cpp_only
                &&& !pair@[1].0@.cpp_only
            },
            Err(e) => self_parameter_defect(fun@, sup@) == Some(e),
        },
        r is Ok <==> has_self_pointer(fun@, sup@),
{
    proof {
        lemma_defect_without_self_pointer(fun@, sup@);
    }
    let self_param = match retarget_self_parameter(&sub, sup, fun) {
        Ok(param) => param,
        Err(e) => {
            return Err(e);
        },
    };
    proof {
        reveal_strlit("peer");
        assert("peer"@ =~= owned_holder_name());
    }
    let holder = QualifiedName::new(&Namespace::new(), sub.holder().as_str());
    let cpp = sub.cpp();

    let mut constructor_inputs = ParamList::new();
    constructor_inputs.push(
        Param::Typed { name: String::from_str("peer"), ty: ParamType::OwnedBox(holder) },
    );
    constructor_inputs.extend_from(&fun.inputs, 1);
    assert(constructor_inputs@ =~= self::constructor_inputs(sub@.name, fun@));

    let mut wrapper_inputs = ParamList::new();
    wrapper_inputs.push(self_param);
    wrapper_inputs.extend_from(&constructor_inputs, 0);
    assert(constructor_inputs@.skip(0) =~= constructor_inputs@);
    assert(wrapper_inputs@ =~= self::wrapper_inputs(sub@.name, fun@));

    // First the constructor that is added to the foreign-side class. It never
    // crosses the boundary.
    let subclass_constructor_name = sub.synthesized_constructor();
    let actual_constructor_api_name = ApiName::new_with_cpp_name(
        subclass_constructor_name.get_namespace(),
        subclass_constructor_name.get_final_item(),
        Some(cpp.get_final_ident()),
    );
    let mut actual_constructor = fun.clone();
    actual_constructor.inputs = constructor_inputs;
    actual_constructor.ident = cpp.get_final_ident();
    actual_constructor.synthesized_this_type = Some(cpp.clone());
    actual_constructor.self_ty = Some(cpp.clone());
    actual_constructor.synthetic_cpp = Some(
        (
            CppFunctionBody::ConstructSuperclass(sup.to_cpp_name()),
            CppFunctionKind::SynthesizedConstructor,
        ),
    );
    actual_constructor.original_name = Some(cpp.get_final_ident());
    actual_constructor.cpp_only = true;

    // Then the function through which host code reaches that constructor.
    let wrapper_ident = join_names(cpp.get_final_item(), cpp.get_final_item());
    let wrapper_name = ApiName::new_with_cpp_name(
        &Namespace::new(),
        wrapper_ident.as_str(),
        Some(cpp.get_final_ident()),
    );
    let wrapper = FuncToConvert {
        ident: wrapper_ident,
        doc_attr: clone_text(&fun.doc_attr),
        inputs: wrapper_inputs,
        output: clone_type(&fun.output),
        vis: fun.vis.clone(),
        virtualness: Virtualness::NotVirtual,
        cpp_vis: CppVisibility::Public,
        special_member: fun.special_member,
        original_name: None,
        unused_template_param: fun.unused_template_param,
        references: fun.references.clone(),
        synthesized_this_type: Some(cpp.clone()),
        self_ty: Some(cpp),
        add_to_trait: None,
        is_deleted: fun.is_deleted,
        synthetic_cpp: None,
        cpp_only: false,
    };
    let mut pair: Vec<(Box<FuncToConvert>, ApiName)> = Vec::new();
    pair.push((Box::new(actual_constructor), actual_constructor_api_name));
    pair.push((Box::new(wrapper), wrapper_name));
    Ok(pair)
}

} // verus!
