//! Names of foreign-side entities: namespaces, qualified names, the names under
//! which entries are filed, and the names derived from a requested subclass.

use vstd::prelude::*;
use vstd::string::StringExecFns;

verus! {

/// The text that separates the segments of a foreign-side path.
pub open spec fn path_separator() -> Seq<char> {
    seq![':', ':']
}

/// The text that joins a subclass name to a method name.
pub open spec fn name_joiner() -> Seq<char> {
    seq!['_']
}

/// Suffix of the foreign-side class generated for a subclass.
pub open spec fn cpp_suffix() -> Seq<char> {
    seq!['C', 'p', 'p']
}

/// Suffix of the holder type generated for a subclass.
pub open spec fn holder_suffix() -> Seq<char> {
    seq!['H', 'o', 'l', 'd', 'e', 'r']
}

/// Suffix of the name under which the foreign-only constructor of a subclass is filed.
pub open spec fn constructor_suffix() -> Seq<char> {
    seq!['C', 'p', 'p', '_', 'c', 't', 'o', 'r']
}

/// Every segment followed by a separator, in order.
pub open spec fn joined_segments(segments: Seq<Seq<char>>) -> Seq<char>
    decreases segments.len(),
{
    if segments.len() == 0 {
        Seq::<char>::empty()
    } else {
        joined_segments(segments.drop_last()) + segments.last() + path_separator()
    }
}

/// A sequence of namespace segments, outermost first. The root namespace is empty.
#[derive(Debug, PartialEq, Eq, Hash)]
pub struct Namespace {
    segments: Vec<String>,
}

impl View for Namespace {
    type V = Seq<Seq<char>>;

    closed spec fn view(&self) -> Seq<Seq<char>> {
        self.segments.deep_view()
    }
}

impl Namespace {
    /// The root namespace.
    pub fn new() -> (r: Namespace)
        ensures
            r@ == Seq::<Seq<char>>::empty(),
    {
        let r = Namespace { segments: Vec::new() };
        assert(r.segments.deep_view() =~= Seq::<Seq<char>>::empty());
        r
    }

    /// This namespace with one more segment inside it.
    pub fn push(&self, segment: String) -> (r: Namespace)
        ensures
            r@ == self@.push(segment@),
    {
        let mut r = self.clone();
        r.segments.push(segment);
        assert(r.segments.deep_view() =~= self.segments.deep_view().push(segment@));
        r
    }

    pub fn is_empty(&self) -> (r: bool)
        ensures
            r == (self@.len() == 0),
    {
        self.segments.len() == 0
    }

    /// Number of segments.
    pub fn depth(&self) -> (r: usize)
        ensures
            r == self@.len(),
    {
        self.segments.len()
    }

    /// The segment at `index`, counted from the outermost.
    pub fn segment(&self, index: usize) -> (r: &str)
        requires
            index < self@.len(),
        ensures
            r@ == self@[index as int],
    {
        self.segments[index].as_str()
    }

    /// Whether the two namespaces have the same segments.
    pub fn same_as(&self, other: &Namespace) -> (r: bool)
        ensures
            r == (self@ == other@),
    {
        if self.segments.len() != other.segments.len() {
            assert(self@.len() != other@.len());
            return false;
        }
        let mut i: usize = 0;
        while i < self.segments.len()
            invariant
                i <= self.segments.len(),
                self.segments.len() == other.segments.len(),
                forall|j: int| 0 <= j < i ==> self@[j] == other@[j],
            decreases self.segments.len() - i,
        {
            if self.segments[i] != other.segments[i] {
                assert(self@[i as int] != other@[i as int]);
                return false;
            }
            i += 1;
        }
        assert(self@ =~= other@);
        true
    }
}

impl Clone for Namespace {
    fn clone(&self) -> (r: Namespace)
        ensures
            r@ == self@,
    {
        let mut segments: Vec<String> = Vec::new();
        let mut i: usize = 0;
        while i < self.segments.len()
            invariant
                i <= self.segments.len(),
                segments.len() == i,
                forall|j: int| 0 <= j < i ==> segments[j]@ == self.segments[j]@,
            decreases self.segments.len() - i,
        {
            segments.push(self.segments[i].clone());
            i += 1;
        }
        assert(segments.deep_view() =~= self.segments.deep_view());
        Namespace { segments }
    }
}

/// What a `QualifiedName` denotes: the namespace it lives in and its final segment.
pub struct NameView {
    pub namespace: Seq<Seq<char>>,
    pub item: Seq<char>,
}

impl NameView {
    /// The foreign-side spelling: every namespace segment followed by `::`, then the item.
    pub open spec fn cpp_spelling(self) -> Seq<char> {
        joined_segments(self.namespace) + self.item
    }
}

/// A namespaced identifier of a foreign-side entity.
#[derive(Debug, PartialEq, Eq, Hash)]
pub struct QualifiedName {
    namespace: Namespace,
    item: String,
}

impl View for QualifiedName {
    type V = NameView;

    closed spec fn view(&self) -> NameView {
        NameView { namespace: self.namespace@, item: self.item@ }
    }
}

impl QualifiedName {
    pub fn new(ns: &Namespace, id: &str) -> (r: QualifiedName)
        ensures
            r@ == (NameView { namespace: ns@, item: id@ }),
    {
        QualifiedName { namespace: ns.clone(), item: String::from_str(id) }
    }

    /// The final segment.
    pub fn get_final_item(&self) -> (r: &str)
        ensures
            r@ == self@.item,
    {
        self.item.as_str()
    }

    /// The final segment, as an identifier of its own.
    pub fn get_final_ident(&self) -> (r: String)
        ensures
            r@ == self@.item,
    {
        self.item.clone()
    }

    pub fn get_namespace(&self) -> (r: &Namespace)
        ensures
            r@ == self@.namespace,
    {
        &self.namespace
    }

    /// The name as the foreign language spells it.
    pub fn to_cpp_name(&self) -> (r: String)
        ensures
            r@ == self@.cpp_spelling(),
    {
        let mut s = String::new();
        let mut i: usize = 0;
        let n = self.namespace.depth();
        while i < n
            invariant
                i <= n,
                n == self.namespace@.len(),
                s@ == joined_segments(self.namespace@.take(i as int)),
            decreases n - i,
        {
            proof {
                reveal_strlit("::");
                let upto = self.namespace@.take(i as int + 1);
                assert(upto.drop_last() =~= self.namespace@.take(i as int));
                assert(upto.last() == self.namespace@[i as int]);
            }
            s.append(self.namespace.segment(i));
            s.append("::");
            assert(s@ =~= joined_segments(self.namespace@.take(i as int + 1)));
            i += 1;
        }
        assert(self.namespace@.take(n as int) =~= self.namespace@);
        s.append(self.item.as_str());
        s
    }

    /// Whether the two names denote the same entity.
    pub fn same_as(&self, other: &QualifiedName) -> (r: bool)
        ensures
            r == (self@ == other@),
    {
        self.item == other.item && self.namespace.same_as(&other.namespace)
    }
}

impl Clone for QualifiedName {
    fn clone(&self) -> (r: QualifiedName)
        ensures
            r@ == self@,
    {
        QualifiedName { namespace: self.namespace.clone(), item: self.item.clone() }
    }
}

/// What an `ApiName` denotes.
pub struct ApiNameView {
    pub name: NameView,
    pub cpp_name: Option<Seq<char>>,
}

impl ApiNameView {
    /// The foreign-side display name: the recorded one, else the final segment.
    pub open spec fn display_name(self) -> Seq<char> {
        match self.cpp_name {
            Some(n) => n,
            None => self.name.item,
        }
    }
}

/// The identity under which an entry is filed, with the foreign-side spelling of
/// its final segment where that differs.
#[derive(Debug, PartialEq, Eq, Hash)]
pub struct ApiName {
    pub name: QualifiedName,
    pub cpp_name: Option<String>,
}

impl View for ApiName {
    type V = ApiNameView;

    open spec fn view(&self) -> ApiNameView {
        ApiNameView { name: self.name@, cpp_name: self.cpp_name.deep_view() }
    }
}

impl ApiName {
    pub fn new(ns: &Namespace, id: &str) -> (r: ApiName)
        ensures
            r@ == (ApiNameView { name: NameView { namespace: ns@, item: id@ }, cpp_name: None }),
    {
        ApiName::new_from_qualified_name(QualifiedName::new(ns, id))
    }

    pub fn new_with_cpp_name(ns: &Namespace, id: &str, cpp_name: Option<String>) -> (r: ApiName)
        ensures
            r@ == (ApiNameView {
                name: NameView { namespace: ns@, item: id@ },
                cpp_name: cpp_name.deep_view(),
            }),
    {
        ApiName { name: QualifiedName::new(ns, id), cpp_name }
    }

    pub fn new_from_qualified_name(name: QualifiedName) -> (r: ApiName)
        ensures
            r@ == (ApiNameView { name: name@, cpp_name: None }),
    {
        ApiName { name, cpp_name: None }
    }

    pub fn new_in_root_namespace(id: &str) -> (r: ApiName)
        ensures
            r@ == (ApiNameView {
                name: NameView { namespace: Seq::empty(), item: id@ },
                cpp_name: None,
            }),
    {
        ApiName::new(&Namespace::new(), id)
    }

    /// The foreign-side display name.
    pub fn cpp_name(&self) -> (r: String)
        ensures
            r@ == self@.display_name(),
    {
        match &self.cpp_name {
            Some(n) => n.clone(),
            None => self.name.get_final_ident(),
        }
    }

    /// The recorded foreign-side spelling, if there is one.
    pub fn cpp_name_if_present(&self) -> (r: Option<&String>)
        ensures
            r.deep_view() == self@.cpp_name,
    {
        self.cpp_name.as_ref()
    }
}

impl Clone for ApiName {
    fn clone(&self) -> (r: ApiName)
        ensures
            r@ == self@,
    {
        let cpp_name = match &self.cpp_name {
            Some(n) => Some(n.clone()),
            None => None,
        };
        ApiName { name: self.name.clone(), cpp_name }
    }
}

/// Identifies a requested host-side subclass. Every generated name is a function
/// of this name alone.
#[derive(Debug, PartialEq, Eq, Hash)]
pub struct SubclassName(pub ApiName);

impl View for SubclassName {
    type V = ApiNameView;

    open spec fn view(&self) -> ApiNameView {
        self.0@
    }
}

/// Name of the holder type of the subclass called `subclass`.
pub open spec fn holder_name(subclass: NameView) -> Seq<char> {
    subclass.item + holder_suffix()
}

/// Foreign-side class generated for the subclass called `subclass`.
pub open spec fn cpp_class_name(subclass: NameView) -> NameView {
    NameView { namespace: subclass.namespace, item: subclass.item + cpp_suffix() }
}

/// Name under which the foreign-only constructor of `subclass` is filed.
pub open spec fn constructor_name(subclass: NameView) -> NameView {
    NameView { namespace: subclass.namespace, item: subclass.item + constructor_suffix() }
}

impl SubclassName {
    pub fn new(id: &str) -> (r: SubclassName)
        ensures
            r@ == (ApiNameView {
                name: NameView { namespace: Seq::empty(), item: id@ },
                cpp_name: None,
            }),
    {
        SubclassName(ApiName::new_in_root_namespace(id))
    }

    /// The subclass's own identifier.
    pub fn id(&self) -> (r: String)
        ensures
            r@ == self@.name.item,
    {
        self.0.name.get_final_ident()
    }

    /// Name of the holder type: the handle that carries the host-side state.
    pub fn holder(&self) -> (r: String)
        ensures
            r@ == holder_name(self@.name),
    {
        proof {
            reveal_strlit("Holder");
            assert("Holder"@ =~= holder_suffix());
        }
        self.with_suffix("Holder")
    }

    /// Name of the foreign-side class.
    pub fn cpp(&self) -> (r: QualifiedName)
        ensures
            r@ == cpp_class_name(self@.name),
    {
        proof {
            reveal_strlit("Cpp");
            assert("Cpp"@ =~= cpp_suffix());
        }
        let id = self.with_suffix("Cpp");
        QualifiedName::new(self.0.name.get_namespace(), id.as_str())
    }

    /// Name under which the foreign-only constructor is filed.
    pub fn synthesized_constructor(&self) -> (r: QualifiedName)
        ensures
            r@ == constructor_name(self@.name),
    {
        proof {
            reveal_strlit("Cpp_ctor");
            assert("Cpp_ctor"@ =~= constructor_suffix());
        }
        let id = self.with_suffix("Cpp_ctor");
        QualifiedName::new(self.0.name.get_namespace(), id.as_str())
    }

    fn with_suffix(&self, suffix: &str) -> (r: String)
        ensures
            r@ == self@.name.item + suffix@,
    {
        let mut s = self.0.name.get_final_ident();
        s.append(suffix);
        s
    }
}

impl Clone for SubclassName {
    fn clone(&self) -> (r: SubclassName)
        ensures
            r@ == self@,
    {
        SubclassName(self.0.clone())
    }
}

} // verus!
