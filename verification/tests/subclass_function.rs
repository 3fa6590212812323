use subclass_synthesis::analysis::{
    ArgumentAnalysis, CppConversionType, FnAnalysis, FnKind, MethodKind, ReceiverMutability,
    RustConversionType, RustSubclassFnDetails, TypeConversionPolicy,
};
use subclass_synthesis::api::{Api, FnPhase};
use subclass_synthesis::function::{CppFunctionBody, CppFunctionKind};
use subclass_synthesis::names::{ApiName, Namespace, QualifiedName, SubclassName};
use subclass_synthesis::params::{Param, ParamList, ParamType};
use subclass_synthesis::subclass::create_subclass_function;

fn named(name: &str) -> QualifiedName {
    QualifiedName::new(&Namespace::new(), name)
}

fn value_param(name: &str, ty: &str) -> Param {
    Param::Typed { name: name.to_string(), ty: ParamType::Named(named(ty)) }
}

fn policy(ty: &str, cpp: CppConversionType, rust: RustConversionType) -> TypeConversionPolicy {
    TypeConversionPolicy {
        unwrapped_type: ParamType::Named(named(ty)),
        cpp_conversion: cpp,
        rust_conversion: rust,
    }
}

fn detail(name: &str, ty: &str, requires_unsafe: bool) -> ArgumentAnalysis {
    ArgumentAnalysis {
        conversion: policy(ty, CppConversionType::Unconverted, RustConversionType::Unconverted),
        name: name.to_string(),
        requires_unsafe,
    }
}

fn analysis_of(kind: MethodKind, unsafe_flags: &[bool]) -> FnAnalysis {
    let mut params = vec![Param::Receiver { reference: true, mutable: false }];
    let mut details = vec![detail("self", "Observer", unsafe_flags[0])];
    for (i, flag) in unsafe_flags.iter().enumerate().skip(1) {
        let name = format!("arg{}", i);
        let ty = format!("T{}", i);
        params.push(value_param(&name, &ty));
        details.push(detail(&name, &ty, *flag));
    }
    FnAnalysis {
        cxxbridge_name: "on_event_bridge".to_string(),
        rust_name: "on_event".to_string(),
        params: ParamList::from_vec(params),
        kind: FnKind::Method(named("MyObserverCpp"), kind),
        ret_type: Some(ParamType::Named(named("bool"))),
        param_details: details,
        ret_conversion: Some(policy(
            "bool",
            CppConversionType::Move,
            RustConversionType::FromStr,
        )),
    }
}

fn details_of(api: Api<FnPhase>) -> (ApiName, SubclassName, RustSubclassFnDetails) {
    match api {
        Api::RustSubclassFn { name, subclass, details } => (name, subclass, *details),
        _ => panic!("not a synthesized subclass function"),
    }
}

fn synthesize(
    sub: &str,
    method: &str,
    analysis: &FnAnalysis,
    mutability: ReceiverMutability,
) -> (ApiName, SubclassName, RustSubclassFnDetails) {
    details_of(create_subclass_function(
        &SubclassName::new(sub),
        analysis,
        &ApiName::new_in_root_namespace(method),
        &mutability,
        &named("Observer"),
        None,
    ))
}

#[test]
fn call_name_joins_subclass_and_method() {
    let analysis = analysis_of(MethodKind::Virtual(ReceiverMutability::Const), &[false, false]);
    let (name, subclass, details) =
        synthesize("MyObserver", "on_event", &analysis, ReceiverMutability::Const);
    assert_eq!(name, ApiName::new_in_root_namespace("MyObserver_on_event"));
    assert_eq!(subclass, SubclassName::new("MyObserver"));
    assert_eq!(
        details.cpp_impl.payload,
        CppFunctionBody::FunctionCall(Namespace::new(), "MyObserver_on_event".to_string())
    );
}

#[test]
fn call_name_uses_final_segments_only() {
    let analysis = analysis_of(MethodKind::Virtual(ReceiverMutability::Const), &[false]);
    let ns = Namespace::new().push("ui".to_string());
    let api = create_subclass_function(
        &SubclassName(ApiName::new(&ns, "Button")),
        &analysis,
        &ApiName::new(&ns, "click"),
        &ReceiverMutability::Const,
        &QualifiedName::new(&ns, "Widget"),
        None,
    );
    let (name, _, details) = details_of(api);
    assert_eq!(name, ApiName::new_in_root_namespace("Button_click"));
    assert_eq!(details.cpp_impl.qualification, Some(QualifiedName::new(&ns, "ButtonCpp")));
    assert_eq!(details.superclass, QualifiedName::new(&ns, "Widget"));
}

#[test]
fn call_names_differ_between_methods_and_between_subclasses() {
    let analysis = analysis_of(MethodKind::Virtual(ReceiverMutability::Const), &[false]);
    let pairs = [("A", "f"), ("A", "g"), ("B", "f"), ("B", "g")];
    let mut seen: Vec<ApiName> = Vec::new();
    for (sub, method) in pairs {
        let (name, _, _) = synthesize(sub, method, &analysis, ReceiverMutability::Const);
        assert!(!seen.contains(&name));
        seen.push(name);
    }
    assert_eq!(seen.len(), 4);
}

#[test]
fn call_names_can_coincide_where_a_subclass_name_holds_an_underscore() {
    let analysis = analysis_of(MethodKind::Virtual(ReceiverMutability::Const), &[false]);
    let (one, _, _) = synthesize("A_B", "c", &analysis, ReceiverMutability::Const);
    let (two, _, _) = synthesize("A", "B_c", &analysis, ReceiverMutability::Const);
    assert_eq!(one, ApiName::new_in_root_namespace("A_B_c"));
    assert_eq!(one, two);
}

#[test]
fn const_method_stays_const() {
    let analysis = analysis_of(MethodKind::Virtual(ReceiverMutability::Const), &[false, false]);
    let (_, _, details) = synthesize("S", "m", &analysis, ReceiverMutability::Const);
    assert_eq!(details.receiver_mutability, ReceiverMutability::Const);
    assert_eq!(details.cpp_impl.kind, CppFunctionKind::ConstMethod);
}

#[test]
fn mutable_method_stays_mutable() {
    let analysis = analysis_of(MethodKind::Virtual(ReceiverMutability::Mutable), &[false, false]);
    let (_, _, details) = synthesize("S", "m", &analysis, ReceiverMutability::Mutable);
    assert_eq!(details.receiver_mutability, ReceiverMutability::Mutable);
    assert_eq!(details.cpp_impl.kind, CppFunctionKind::Method);
}

#[test]
fn first_parameter_becomes_the_holder_reference() {
    let analysis =
        analysis_of(MethodKind::Virtual(ReceiverMutability::Const), &[false, false, false]);
    let (_, _, details) = synthesize("MyObserver", "m", &analysis, ReceiverMutability::Const);
    assert_eq!(
        details.params.to_vec(),
        vec![
            Param::Typed {
                name: "me".to_string(),
                ty: ParamType::Reference { referent: named("MyObserverHolder"), mutable: false },
            },
            value_param("arg1", "T1"),
            value_param("arg2", "T2"),
        ]
    );
}

#[test]
fn holder_reference_is_there_even_without_parameters() {
    let mut analysis = analysis_of(MethodKind::Virtual(ReceiverMutability::Const), &[false]);
    analysis.params = ParamList::new();
    analysis.param_details = Vec::new();
    let (_, _, details) = synthesize("S", "m", &analysis, ReceiverMutability::Const);
    assert_eq!(
        details.params.to_vec(),
        vec![Param::Typed {
            name: "me".to_string(),
            ty: ParamType::Reference { referent: named("SHolder"), mutable: false },
        }]
    );
    assert!(details.cpp_impl.argument_conversion.is_empty());
    assert!(!details.requires_unsafe);
}

#[test]
fn unsafe_flag_is_set_by_any_parameter_after_the_receiver() {
    for flags in [
        vec![false, true],
        vec![false, false, true],
        vec![false, true, false, false],
        vec![true, false, true],
        vec![false, true, true],
    ] {
        let analysis = analysis_of(MethodKind::Virtual(ReceiverMutability::Const), &flags);
        let (_, _, details) = synthesize("S", "m", &analysis, ReceiverMutability::Const);
        assert!(details.requires_unsafe);
    }
}

#[test]
fn unsafe_flag_is_clear_where_no_parameter_after_the_receiver_sets_it() {
    for flags in [vec![false], vec![false, false], vec![false, false, false, false]] {
        let analysis = analysis_of(MethodKind::Virtual(ReceiverMutability::Const), &flags);
        let (_, _, details) = synthesize("S", "m", &analysis, ReceiverMutability::Const);
        assert!(!details.requires_unsafe);
    }
}

#[test]
fn unsafe_flag_does_not_count_the_receiver() {
    for flags in [vec![true], vec![true, false], vec![true, false, false]] {
        let analysis = analysis_of(MethodKind::Virtual(ReceiverMutability::Const), &flags);
        let (_, _, details) = synthesize("S", "m", &analysis, ReceiverMutability::Const);
        assert!(!details.requires_unsafe);
    }
}

#[test]
fn pure_virtual_flag_follows_the_classification() {
    let pure = analysis_of(MethodKind::PureVirtual(ReceiverMutability::Const), &[false]);
    assert!(synthesize("S", "m", &pure, ReceiverMutability::Const).2.is_pure_virtual);
    let pure_mut = analysis_of(MethodKind::PureVirtual(ReceiverMutability::Mutable), &[false]);
    assert!(synthesize("S", "m", &pure_mut, ReceiverMutability::Mutable).2.is_pure_virtual);
}

#[test]
fn pure_virtual_flag_is_clear_for_every_other_kind() {
    for kind in [
        MethodKind::Virtual(ReceiverMutability::Const),
        MethodKind::Virtual(ReceiverMutability::Mutable),
        MethodKind::Normal(ReceiverMutability::Const),
        MethodKind::Constructor,
        MethodKind::MakeUnique,
        MethodKind::Static,
    ] {
        let analysis = analysis_of(kind, &[false]);
        assert!(!synthesize("S", "m", &analysis, ReceiverMutability::Const).2.is_pure_virtual);
    }
    let mut free = analysis_of(MethodKind::Static, &[false]);
    free.kind = FnKind::Function;
    assert!(!synthesize("S", "m", &free, ReceiverMutability::Const).2.is_pure_virtual);
    free.kind =
        FnKind::TraitMethod { impl_for: named("S"), method_name: "m".to_string() };
    assert!(!synthesize("S", "m", &free, ReceiverMutability::Const).2.is_pure_virtual);
}

#[test]
fn fn_kind_tells_pure_virtual_methods_apart() {
    assert!(FnKind::Method(named("C"), MethodKind::PureVirtual(ReceiverMutability::Const))
        .is_pure_virtual());
    assert!(!FnKind::Method(named("C"), MethodKind::Virtual(ReceiverMutability::Const))
        .is_pure_virtual());
    assert!(!FnKind::Function.is_pure_virtual());
}

#[test]
fn conversions_skip_the_receiver_and_keep_the_order() {
    let mut analysis =
        analysis_of(MethodKind::Virtual(ReceiverMutability::Const), &[false, false, false]);
    analysis.param_details[1].conversion =
        policy("T1", CppConversionType::FromPtrToValue, RustConversionType::FromTypeToPtr);
    analysis.param_details[2].conversion =
        policy("T2", CppConversionType::FromValueToUniquePtr, RustConversionType::FromStr);
    let (_, _, details) = synthesize("S", "m", &analysis, ReceiverMutability::Const);
    assert_eq!(
        details.cpp_impl.argument_conversion,
        vec![
            policy("T1", CppConversionType::FromPtrToValue, RustConversionType::FromTypeToPtr),
            policy("T2", CppConversionType::FromValueToUniquePtr, RustConversionType::FromStr),
        ]
    );
}

#[test]
fn return_and_names_are_taken_over() {
    let analysis = analysis_of(MethodKind::Virtual(ReceiverMutability::Const), &[false, false]);
    let api = create_subclass_function(
        &SubclassName::new("MyObserver"),
        &analysis,
        &ApiName::new_with_cpp_name(
            &Namespace::new(),
            "on_event",
            Some("onEvent".to_string()),
        ),
        &ReceiverMutability::Const,
        &named("Observer"),
        Some(&named("Event")),
    );
    let (_, _, details) = details_of(api);
    assert_eq!(details.ret, Some(ParamType::Named(named("bool"))));
    assert_eq!(details.method_name, "on_event");
    assert_eq!(details.superclass, named("Observer"));
    assert_eq!(details.dependency, Some(named("Event")));
    assert_eq!(details.cpp_impl.wrapper_function_name, "on_event");
    assert_eq!(details.cpp_impl.original_cpp_name, "onEvent");
    assert_eq!(
        details.cpp_impl.return_conversion,
        Some(policy("bool", CppConversionType::Move, RustConversionType::FromStr))
    );
    assert!(details.cpp_impl.pass_obs_field);
    assert_eq!(details.cpp_impl.qualification, Some(named("MyObserverCpp")));
}

#[test]
fn original_cpp_name_falls_back_to_the_method_name() {
    let analysis = analysis_of(MethodKind::Virtual(ReceiverMutability::Const), &[false]);
    let (_, _, details) = synthesize("S", "draw", &analysis, ReceiverMutability::Const);
    assert_eq!(details.cpp_impl.original_cpp_name, "draw");
    assert_eq!(details.dependency, None);
}

#[test]
fn synthesis_is_deterministic_and_leaves_its_inputs_alone() {
    let analysis = analysis_of(MethodKind::Virtual(ReceiverMutability::Const), &[false, true]);
    let (name1, sub1, details1) = synthesize("S", "m", &analysis, ReceiverMutability::Const);
    let (name2, sub2, details2) = synthesize("S", "m", &analysis, ReceiverMutability::Const);
    assert_eq!(name1, name2);
    assert_eq!(sub1, sub2);
    assert_eq!(details1, details2);
    assert_eq!(
        analysis,
        analysis_of(MethodKind::Virtual(ReceiverMutability::Const), &[false, true])
    );
}
