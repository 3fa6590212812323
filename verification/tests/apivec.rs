use subclass_synthesis::api::{Api, PodPhase};
use subclass_synthesis::apivec::ApiVec;
use subclass_synthesis::names::{ApiName, Namespace, QualifiedName, SubclassName};

fn entry(name: &str) -> Api<PodPhase> {
    Api::ForwardDeclaration { name: ApiName::new_in_root_namespace(name) }
}

fn names(v: &ApiVec<PodPhase>) -> Vec<String> {
    v.iter().map(|api| api.name().get_final_item().to_string()).collect()
}

fn filled(names: &[&str]) -> ApiVec<PodPhase> {
    let mut v = ApiVec::new();
    for n in names {
        v.push(entry(n));
    }
    v
}

fn all_distinct(names: &[String]) -> bool {
    for i in 0..names.len() {
        for j in (i + 1)..names.len() {
            if names[i] == names[j] {
                return false;
            }
        }
    }
    true
}

#[test]
fn new_collection_is_empty() {
    let v: ApiVec<PodPhase> = ApiVec::new();
    assert!(v.is_empty());
    assert_eq!(v.iter().count(), 0);
    let d: ApiVec<PodPhase> = ApiVec::default();
    assert!(d.is_empty());
}

#[test]
fn push_keeps_insertion_order() {
    let mut v = ApiVec::new();
    v.push(entry("first"));
    assert!(!v.is_empty());
    v.push(entry("second"));
    v.push(entry("third"));
    assert_eq!(names(&v), vec!["first", "second", "third"]);
}

#[test]
fn push_does_not_look_for_duplicates() {
    let mut v = ApiVec::new();
    v.push(entry("same"));
    v.push(entry("same"));
    assert_eq!(names(&v), vec!["same", "same"]);
    assert!(!all_distinct(&names(&v)));
}

#[test]
fn entry_name_is_that_of_its_kind() {
    let root = Namespace::new();
    let in_ns = root.push("ns".to_string());
    let declared: Api<PodPhase> = Api::ForwardDeclaration { name: ApiName::new(&in_ns, "T") };
    assert_eq!(declared.name(), &QualifiedName::new(&in_ns, "T"));
    assert_eq!(declared.name_info(), &ApiName::new(&in_ns, "T"));
    let subclass: Api<PodPhase> = Api::Subclass {
        name: SubclassName::new("Sub"),
        superclass: QualifiedName::new(&in_ns, "Base"),
    };
    assert_eq!(subclass.name(), &QualifiedName::new(&root, "Sub"));
}

#[test]
fn extend_appends_in_order() {
    let mut v = filled(&["a"]);
    v.extend(vec![entry("b"), entry("c")].into_iter());
    assert_eq!(names(&v), vec!["a", "b", "c"]);
    v.extend(Vec::<Api<PodPhase>>::new().into_iter());
    assert_eq!(names(&v), vec!["a", "b", "c"]);
}

#[test]
fn append_moves_everything_and_empties_the_source() {
    let mut v = filled(&["a", "b"]);
    let mut more = filled(&["c", "d"]);
    v.append(&mut more);
    assert_eq!(names(&v), vec!["a", "b", "c", "d"]);
    assert!(more.is_empty());
    v.append(&mut more);
    assert_eq!(names(&v), vec!["a", "b", "c", "d"]);
}

#[test]
fn from_iter_collects_in_order() {
    let v = ApiVec::from_iter(vec![entry("x"), entry("y"), entry("z")].into_iter());
    assert_eq!(names(&v), vec!["x", "y", "z"]);
    let none: ApiVec<PodPhase> = ApiVec::from_iter(Vec::new().into_iter());
    assert!(none.is_empty());
}

#[test]
fn into_iter_yields_the_entries_in_order() {
    let v = filled(&["one", "two"]);
    let got: Vec<String> =
        v.into_iter().map(|api| api.name().get_final_item().to_string()).collect();
    assert_eq!(got, vec!["one", "two"]);
}

#[test]
fn retain_always_true_changes_nothing() {
    let mut v = filled(&["a", "b", "c", "d", "e"]);
    v.retain(|_| true);
    assert_eq!(names(&v), vec!["a", "b", "c", "d", "e"]);
    assert!(all_distinct(&names(&v)));
}

#[test]
fn retain_always_false_leaves_an_empty_collection() {
    let mut v = filled(&["a", "b", "c"]);
    v.retain(|_| false);
    assert!(v.is_empty());
    assert_eq!(names(&v), Vec::<String>::new());
    assert!(all_distinct(&names(&v)));
    v.push(entry("a"));
    assert_eq!(names(&v), vec!["a"]);
}

#[test]
fn retain_keeps_survivors_in_order() {
    let mut v = filled(&["a1", "b", "a2", "c", "a3"]);
    v.retain(|api| api.name().get_final_item().starts_with('a'));
    assert_eq!(names(&v), vec!["a1", "a2", "a3"]);
    v.retain(|api| api.name().get_final_item() != "a2");
    assert_eq!(names(&v), vec!["a1", "a3"]);
}

#[test]
fn retain_asks_once_for_each_entry_in_order() {
    let mut v = filled(&["a", "b", "c"]);
    let mut asked: Vec<String> = Vec::new();
    v.retain(|api| {
        asked.push(api.name().get_final_item().to_string());
        true
    });
    assert_eq!(asked, vec!["a", "b", "c"]);
}

#[test]
fn retain_on_an_empty_collection() {
    let mut v: ApiVec<PodPhase> = ApiVec::new();
    v.retain(|_| true);
    assert!(v.is_empty());
}

#[test]
fn retain_keeps_names_distinct() {
    let mut v = filled(&["a", "b", "c", "d"]);
    assert!(all_distinct(&names(&v)));
    v.retain(|api| api.name().get_final_item() != "b");
    assert!(all_distinct(&names(&v)));
    assert_eq!(names(&v), vec!["a", "c", "d"]);
}
