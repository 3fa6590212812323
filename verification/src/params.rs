//! Parameters of a callable that crosses the boundary, and the punctuated list
//! that holds them.

use vstd::prelude::*;
use syn::punctuated::Punctuated;
use syn::token::Comma;
use crate::names::{NameView, QualifiedName};

verus! {

#[verifier::external_type_specification]
#[verifier::external_body]
#[verifier::reject_recursive_types(T)]
#[verifier::reject_recursive_types(P)]
pub struct ExPunctuated<T, P>(Punctuated<T, P>);

#[verifier::external_type_specification]
#[verifier::external_body]
pub struct ExComma(Comma);

/// What a `ParamType` denotes.
pub enum ParamTypeView {
    Named(NameView),
    Pointer { pointee: NameView, mutable: bool },
    Reference { referent: NameView, mutable: bool },
    OwnedBox(NameView),
    Verbatim(Seq<char>),
}

/// The type of a parameter or of a return value, as far as synthesis looks into it.
#[derive(Debug, PartialEq, Eq)]
pub enum ParamType {
    /// A type named by its path.
    Named(QualifiedName),
    /// A raw pointer to a named type.
    Pointer { pointee: QualifiedName, mutable: bool },
    /// A reference to a named type.
    Reference { referent: QualifiedName, mutable: bool },
    /// An owned, heap-allocated handle to a named type.
    OwnedBox(QualifiedName),
    /// Any other type, kept as its source text.
    Verbatim(String),
}

impl View for ParamType {
    type V = ParamTypeView;

    open spec fn view(&self) -> ParamTypeView {
        match self {
            ParamType::Named(n) => ParamTypeView::Named(n@),
            ParamType::Pointer { pointee, mutable } => ParamTypeView::Pointer {
                pointee: pointee@,
                mutable: *mutable,
            },
            ParamType::Reference { referent, mutable } => ParamTypeView::Reference {
                referent: referent@,
                mutable: *mutable,
            },
            ParamType::OwnedBox(n) => ParamTypeView::OwnedBox(n@),
            ParamType::Verbatim(text) => ParamTypeView::Verbatim(text@),
        }
    }
}

impl Clone for ParamType {
    fn clone(&self) -> (r: ParamType)
        ensures
            r@ == self@,
    {
        match self {
            ParamType::Named(n) => ParamType::Named(n.clone()),
            ParamType::Pointer { pointee, mutable } => ParamType::Pointer {
                pointee: pointee.clone(),
                mutable: *mutable,
            },
            ParamType::Reference { referent, mutable } => ParamType::Reference {
                referent: referent.clone(),
                mutable: *mutable,
            },
            ParamType::OwnedBox(n) => ParamType::OwnedBox(n.clone()),
            ParamType::Verbatim(text) => ParamType::Verbatim(text.clone()),
        }
    }
}

/// What a `Param` denotes.
pub enum ParamView {
    Receiver { reference: bool, mutable: bool },
    Typed { name: Seq<char>, ty: ParamTypeView },
}

/// One parameter of a callable.
#[derive(Debug, PartialEq, Eq)]
pub enum Param {
    /// `self`, `&self` or `&mut self`.
    Receiver { reference: bool, mutable: bool },
    /// A named parameter with its type.
    Typed { name: String, ty: ParamType },
}

impl View for Param {
    type V = ParamView;

    open spec fn view(&self) -> ParamView {
        match self {
            Param::Receiver { reference, mutable } => ParamView::Receiver {
                reference: *reference,
                mutable: *mutable,
            },
            Param::Typed { name, ty } => ParamView::Typed { name: name@, ty: ty@ },
        }
    }
}

impl Clone for Param {
    fn clone(&self) -> (r: Param)
        ensures
            r@ == self@,
    {
        match self {
            Param::Receiver { reference, mutable } => Param::Receiver {
                reference: *reference,
                mutable: *mutable,
            },
            Param::Typed { name, ty } => Param::Typed { name: name.clone(), ty: ty.clone() },
        }
    }
}

/// The parameters that a punctuated sequence holds, in order.
pub uninterp spec fn punctuated_params(p: Punctuated<Param, Comma>) -> Seq<Param>;

/// `Punctuated::new`: the new sequence holds nothing.
#[verifier::external_body]
fn punctuated_new() -> (r: Punctuated<Param, Comma>)
    ensures
        punctuated_params(r) == Seq::<Param>::empty(),
{
    Punctuated::new()
}

/// `Punctuated::push`: the value becomes the last element and the others stay
/// as they were.
#[verifier::external_body]
fn punctuated_push(p: &mut Punctuated<Param, Comma>, value: Param)
    ensures
        punctuated_params(*final(p)) == punctuated_params(*old(p)).push(value),
{
    p.push(value)
}

/// `Punctuated::len`: the number of elements, not counting punctuation.
#[verifier::external_body]
fn punctuated_len(p: &Punctuated<Param, Comma>) -> (n: usize)
    ensures
        n == punctuated_params(*p).len(),
{
    p.len()
}

/// `Punctuated::get`: the element at `index`, or nothing where the sequence is
/// no longer than that.
#[verifier::external_body]
fn punctuated_get(p: &Punctuated<Param, Comma>, index: usize) -> (r: Option<&Param>)
    ensures
        index < punctuated_params(*p).len() ==> r == Some(&punctuated_params(*p)[index as int]),
        index >= punctuated_params(*p).len() ==> r is None,
{
    p.get(index)
}

/// An ordered list of parameters, kept as a comma-punctuated sequence.
#[derive(Debug, PartialEq, Eq)]
pub struct ParamList {
    items: Punctuated<Param, Comma>,
}

impl View for ParamList {
    type V = Seq<ParamView>;

    closed spec fn view(&self) -> Seq<ParamView> {
        punctuated_params(self.items).map_values(|p: Param| p@)
    }
}

impl ParamList {
    /// The empty list.
    pub fn new() -> (r: ParamList)
        ensures
            r@ == Seq::<ParamView>::empty(),
    {
        let r = ParamList { items: punctuated_new() };
        assert(r@ =~= Seq::<ParamView>::empty());
        r
    }

    /// Appends one parameter.
    pub fn push(&mut self, value: Param)
        ensures
            final(self)@ == old(self)@.push(value@),
    {
        punctuated_push(&mut self.items, value);
        assert(self@ =~= old(self)@.push(value@));
    }

    pub fn len(&self) -> (n: usize)
        ensures
            n == self@.len(),
    {
        punctuated_len(&self.items)
    }

    pub fn is_empty(&self) -> (r: bool)
        ensures
            r == (self@.len() == 0),
    {
        punctuated_len(&self.items) == 0
    }

    /// The parameter at `index`, if the list is that long.
    pub fn get(&self, index: usize) -> (r: Option<&Param>)
        ensures
            index < self@.len() ==> r is Some && r->0@ == self@[index as int],
            index >= self@.len() ==> r is None,
    {
        punctuated_get(&self.items, index)
    }

    /// The first parameter, if there is one.
    pub fn first(&self) -> (r: Option<&Param>)
        ensures
            self@.len() > 0 ==> r is Some && r->0@ == self@[0],
            self@.len() == 0 ==> r is None,
    {
        punctuated_get(&self.items, 0)
    }

    /// A list of the given parameters, in their order.
    pub fn from_vec(params: Vec<Param>) -> (r: ParamList)
        ensures
            r@ == params@.map_values(|p: Param| p@),
    {
        let mut r = ParamList::new();
        let ghost all = params@;
        for param in it: params
            invariant
                it.seq() == all,
                r@ == all.take(it.index()).map_values(|p: Param| p@),
        {
            proof {
                assert(all.take(it.index() + 1).map_values(|p: Param| p@) =~= all.take(
                    it.index(),
                ).map_values(|p: Param| p@).push(param@));
            }
            r.push(param);
        }
        assert(all.take(all.len() as int) =~= all);
        r
    }

    /// Copies of the parameters, in their order.
    pub fn to_vec(&self) -> (r: Vec<Param>)
        ensures
            r@.map_values(|p: Param| p@) == self@,
    {
        let mut r: Vec<Param> = Vec::new();
        let n = self.len();
        let mut i: usize = 0;
        while i < n
            invariant
                i <= n,
                n == self@.len(),
                r@.len() == i,
                forall|j: int| 0 <= j < i ==> r@[j]@ == self@[j],
            decreases n - i,
        {
            match self.get(i) {
                Some(p) => r.push(p.clone()),
                None => {},
            }
            i += 1;
        }
        assert(r@.map_values(|p: Param| p@) =~= self@);
        r
    }

    /// Appends copies of the parameters of `other` from position `from` on.
    pub fn extend_from(&mut self, other: &ParamList, from: usize)
        ensures
            from <= other@.len() ==> final(self)@ == old(self)@ + other@.skip(from as int),
            from > other@.len() ==> final(self)@ == old(self)@,
    {
        let n = other.len();
        let mut i: usize = from;
        if from > n {
            return ;
        }
        assert(other@.skip(from as int).take(0) =~= Seq::<ParamView>::empty());
        assert(old(self)@ + Seq::<ParamView>::empty() =~= old(self)@);
        while i < n
            invariant
                from <= i <= n,
                n == other@.len(),
                self@ == old(self)@ + other@.skip(from as int).take(i - from),
            decreases n - i,
        {
            match other.get(i) {
                Some(p) => {
                    proof {
                        let tail = other@.skip(from as int);
                        assert(tail.take(i - from + 1) =~= tail.take(i - from).push(p@));
                        assert((old(self)@ + tail.take(i - from)).push(p@) =~= old(self)@
                            + tail.take(i - from + 1));
                    }
                    self.push(p.clone());
                },
                None => {},
            }
            i += 1;
        }
        assert(other@.skip(from as int).take(n - from) =~= other@.skip(from as int));
    }
}

impl Clone for ParamList {
    fn clone(&self) -> (r: ParamList)
        ensures
            r@ == self@,
    {
        let mut r = ParamList::new();
        r.extend_from(self, 0);
        assert(self@.skip(0) =~= self@);
        assert(Seq::<ParamView>::empty() + self@ =~= self@);
        r
    }
}

} // verus!
