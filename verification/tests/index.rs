use subclass_synthesis::api::{Api, PodPhase};
use subclass_synthesis::index::subclasses_by_superclass;
use subclass_synthesis::names::{ApiName, Namespace, QualifiedName, SubclassName};

fn class(name: &str) -> QualifiedName {
    QualifiedName::new(&Namespace::new(), name)
}

fn subclass(name: &str, superclass: &QualifiedName) -> Api<PodPhase> {
    Api::Subclass { name: SubclassName::new(name), superclass: superclass.clone() }
}

fn ids(found: Option<&Vec<SubclassName>>) -> Option<Vec<String>> {
    found.map(|subs| subs.iter().map(|s| s.id()).collect())
}

#[test]
fn two_subclasses_of_one_superclass() {
    let s = class("S");
    let apis = vec![subclass("A", &s), subclass("B", &s)];
    let index = subclasses_by_superclass(&apis);
    assert_eq!(ids(index.get(&s)), Some(vec!["A".to_string(), "B".to_string()]));
    assert_eq!(index.len(), 1);
}

#[test]
fn superclass_without_subclasses_is_absent() {
    let s = class("S");
    let apis = vec![subclass("A", &s)];
    let index = subclasses_by_superclass(&apis);
    assert_eq!(index.get(&class("T")), None);
    assert_eq!(index.get(&class("A")), None);
    assert!(index.get(&s).is_some());
}

#[test]
fn order_follows_the_declarations() {
    let s = class("S");
    let apis = vec![subclass("B", &s), subclass("A", &s), subclass("C", &s)];
    let index = subclasses_by_superclass(&apis);
    assert_eq!(
        ids(index.get(&s)),
        Some(vec!["B".to_string(), "A".to_string(), "C".to_string()])
    );
}

#[test]
fn several_superclasses_interleaved() {
    let s = class("S");
    let t = class("T");
    let apis = vec![
        subclass("A", &s),
        subclass("X", &t),
        subclass("B", &s),
        subclass("Y", &t),
        subclass("C", &s),
    ];
    let index = subclasses_by_superclass(&apis);
    assert_eq!(
        ids(index.get(&s)),
        Some(vec!["A".to_string(), "B".to_string(), "C".to_string()])
    );
    assert_eq!(ids(index.get(&t)), Some(vec!["X".to_string(), "Y".to_string()]));
    assert_eq!(index.len(), 2);
}

#[test]
fn other_entries_are_passed_over() {
    let s = class("S");
    let apis = vec![
        Api::ForwardDeclaration { name: ApiName::new_in_root_namespace("S") },
        subclass("A", &s),
        Api::ForwardDeclaration { name: ApiName::new_in_root_namespace("Unrelated") },
        subclass("B", &s),
    ];
    let index = subclasses_by_superclass(&apis);
    assert_eq!(ids(index.get(&s)), Some(vec!["A".to_string(), "B".to_string()]));
    assert_eq!(index.get(&class("Unrelated")), None);
    assert_eq!(index.len(), 1);
}

#[test]
fn no_entries_give_an_empty_index() {
    let index = subclasses_by_superclass(&[]);
    assert_eq!(index.len(), 0);
    assert_eq!(index.get(&class("S")), None);
    assert!(index.into_entries().is_empty());
}

#[test]
fn superclasses_are_told_apart_by_namespace() {
    let root = Namespace::new();
    let one = QualifiedName::new(&root.push("one".to_string()), "Base");
    let two = QualifiedName::new(&root.push("two".to_string()), "Base");
    let apis = vec![subclass("A", &one), subclass("B", &two), subclass("C", &one)];
    let index = subclasses_by_superclass(&apis);
    assert_eq!(ids(index.get(&one)), Some(vec!["A".to_string(), "C".to_string()]));
    assert_eq!(ids(index.get(&two)), Some(vec!["B".to_string()]));
    assert_eq!(index.get(&class("Base")), None);
}

#[test]
fn the_same_subclass_declared_twice_stands_twice() {
    let s = class("S");
    let apis = vec![subclass("A", &s), subclass("A", &s)];
    let index = subclasses_by_superclass(&apis);
    assert_eq!(ids(index.get(&s)), Some(vec!["A".to_string(), "A".to_string()]));
}

#[test]
fn entries_list_each_superclass_once() {
    let s = class("S");
    let t = class("T");
    let apis = vec![subclass("A", &s), subclass("X", &t), subclass("B", &s)];
    let entries = subclasses_by_superclass(&apis).into_entries();
    assert_eq!(entries.len(), 2);
    let of_s: Vec<_> = entries.iter().filter(|e| e.superclass == s).collect();
    assert_eq!(of_s.len(), 1);
    assert_eq!(of_s[0].subclasses, vec![SubclassName::new("A"), SubclassName::new("B")]);
    let of_t: Vec<_> = entries.iter().filter(|e| e.superclass == t).collect();
    assert_eq!(of_t.len(), 1);
    assert_eq!(of_t[0].subclasses, vec![SubclassName::new("X")]);
}
