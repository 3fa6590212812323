use subclass_synthesis::names::{Namespace, QualifiedName};
use subclass_synthesis::params::{Param, ParamList, ParamType};

fn named(name: &str) -> QualifiedName {
    QualifiedName::new(&Namespace::new(), name)
}

fn value_param(name: &str, ty: &str) -> Param {
    Param::Typed { name: name.to_string(), ty: ParamType::Named(named(ty)) }
}

#[test]
fn new_list_is_empty() {
    let list = ParamList::new();
    assert!(list.is_empty());
    assert_eq!(list.len(), 0);
    assert_eq!(list.first(), None);
    assert_eq!(list.get(0), None);
    assert_eq!(list.to_vec(), Vec::<Param>::new());
}

#[test]
fn push_appends_at_the_end() {
    let mut list = ParamList::new();
    list.push(value_param("a", "int"));
    assert_eq!(list.len(), 1);
    assert!(!list.is_empty());
    list.push(value_param("b", "long"));
    list.push(Param::Receiver { reference: true, mutable: false });
    assert_eq!(list.len(), 3);
    assert_eq!(list.get(0), Some(&value_param("a", "int")));
    assert_eq!(list.get(1), Some(&value_param("b", "long")));
    assert_eq!(list.get(2), Some(&Param::Receiver { reference: true, mutable: false }));
    assert_eq!(list.get(3), None);
    assert_eq!(list.first(), Some(&value_param("a", "int")));
}

#[test]
fn from_vec_and_to_vec_keep_the_order() {
    let params = vec![
        value_param("x", "X"),
        Param::Typed {
            name: "p".to_string(),
            ty: ParamType::Pointer { pointee: named("P"), mutable: true },
        },
        Param::Typed { name: "t".to_string(), ty: ParamType::Verbatim("& [u8]".to_string()) },
    ];
    let list = ParamList::from_vec(params.clone());
    assert_eq!(list.len(), 3);
    assert_eq!(list.to_vec(), params);
    assert_eq!(list.get(1), Some(&params[1]));
}

#[test]
fn extend_from_copies_a_tail() {
    let source = ParamList::from_vec(vec![
        value_param("a", "A"),
        value_param("b", "B"),
        value_param("c", "C"),
    ]);
    let mut target = ParamList::from_vec(vec![value_param("z", "Z")]);
    target.extend_from(&source, 1);
    assert_eq!(
        target.to_vec(),
        vec![value_param("z", "Z"), value_param("b", "B"), value_param("c", "C")]
    );
    assert_eq!(source.len(), 3);
}

#[test]
fn extend_from_at_or_past_the_end_adds_nothing() {
    let source = ParamList::from_vec(vec![value_param("a", "A")]);
    let mut target = ParamList::from_vec(vec![value_param("z", "Z")]);
    target.extend_from(&source, 1);
    assert_eq!(target.to_vec(), vec![value_param("z", "Z")]);
    target.extend_from(&source, 5);
    assert_eq!(target.to_vec(), vec![value_param("z", "Z")]);
    target.extend_from(&ParamList::new(), 0);
    assert_eq!(target.to_vec(), vec![value_param("z", "Z")]);
}

#[test]
fn clone_of_a_list_is_equal_and_independent() {
    let list = ParamList::from_vec(vec![value_param("a", "A"), value_param("b", "B")]);
    let mut copy = list.clone();
    assert_eq!(copy, list);
    copy.push(value_param("c", "C"));
    assert_eq!(list.len(), 2);
    assert_eq!(copy.len(), 3);
    assert_ne!(copy, list);
}

#[test]
fn clone_of_each_param_shape_is_equal() {
    let shapes = vec![
        Param::Receiver { reference: false, mutable: true },
        value_param("a", "A"),
        Param::Typed {
            name: "p".to_string(),
            ty: ParamType::Pointer { pointee: named("P"), mutable: false },
        },
        Param::Typed {
            name: "r".to_string(),
            ty: ParamType::Reference { referent: named("R"), mutable: true },
        },
        Param::Typed { name: "b".to_string(), ty: ParamType::OwnedBox(named("B")) },
        Param::Typed { name: "v".to_string(), ty: ParamType::Verbatim("[u8; 4]".to_string()) },
    ];
    for shape in &shapes {
        assert_eq!(&shape.clone(), shape);
    }
}
