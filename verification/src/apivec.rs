//! The ordered collection of entries that a phase works on.

use vstd::prelude::*;
use vstd::std_specs::iter::IteratorSpec;
use crate::api::{AnalysisPhase, Api};

verus! {

/// No two entries of the sequence are filed under the same name.
pub open spec fn names_unique<P: AnalysisPhase>(entries: Seq<Api<P>>) -> bool {
    forall|i: int, j: int|
        0 <= i < j < entries.len() ==> (#[trigger] entries[i]).spec_name() != (
        #[trigger] entries[j]).spec_name()
}

/// Some entry of the sequence is filed under `name`.
pub open spec fn has_name<P: AnalysisPhase>(
    entries: Seq<Api<P>>,
    name: crate::names::NameView,
) -> bool {
    exists|i: int| 0 <= i < entries.len() && (#[trigger] entries[i]).spec_name() == name
}

/// The entries whose decision in `keep` is true, in their order. `keep` holds
/// one decision for each entry.
pub open spec fn retained<T>(entries: Seq<T>, keep: Seq<bool>) -> Seq<T>
    decreases entries.len(),
{
    if entries.len() == 0 || keep.len() != entries.len() {
        Seq::empty()
    } else {
        let before = retained(entries.drop_last(), keep.drop_last());
        if keep.last() {
            before.push(entries.last())
        } else {
            before
        }
    }
}

/// `keep` holds, for each entry in turn, an answer that `f` can give for it.
pub open spec fn decides<P: AnalysisPhase, F: FnMut(&Api<P>) -> bool>(
    f: F,
    entries: Seq<Api<P>>,
    keep: Seq<bool>,
) -> bool {
    &&& keep.len() == entries.len()
    &&& forall|i: int| 0 <= i < entries.len() ==> call_ensures(f, (&entries[i],), #[trigger] keep[i])
}

/// `f` can give no answer but `answer` for any of the entries.
pub open spec fn always_answers<P: AnalysisPhase, F: FnMut(&Api<P>) -> bool>(
    f: F,
    entries: Seq<Api<P>>,
    answer: bool,
) -> bool {
    forall|i: int, given: bool|
        0 <= i < entries.len() && #[trigger] call_ensures(f, (&entries[i],), given) ==> given
            == answer
}

/// An ordered collection of entries. It is meant to hold no two entries under
/// one name; it does not look for duplicates itself, so whoever adds an entry
/// answers for that.
pub struct ApiVec<P: AnalysisPhase> {
    apis: Vec<Api<P>>,
}

impl<P: AnalysisPhase> View for ApiVec<P> {
    type V = Seq<Api<P>>;

    closed spec fn view(&self) -> Seq<Api<P>> {
        self.apis@
    }
}

impl<P: AnalysisPhase> ApiVec<P> {
    /// Appends one entry. The names stay unique exactly if they were and the
    /// new entry's name was not yet there.
    pub fn push(&mut self, api: Api<P>)
        ensures
            final(self)@ == old(self)@.push(api),
            names_unique(final(self)@) <==> names_unique(old(self)@) && !has_name(
                old(self)@,
                api.spec_name(),
            ),
    {
        self.apis.push(api);
        proof {
            lemma_push_names(old(self)@, api);
        }
    }

    /// The empty collection.
    pub fn new() -> (r: Self)
        ensures
            r@ == Seq::<Api<P>>::empty(),
            names_unique(r@),
    {
        ApiVec { apis: Vec::new() }
    }

    /// Moves every entry of `more` to the end of this collection, one after the
    /// other, and leaves `more` empty.
    pub fn append(&mut self, more: &mut ApiVec<P>)
        ensures
            final(self)@ == old(self)@ + old(more)@,
            final(more)@ == Seq::<Api<P>>::empty(),
    {
        let mut taken: Vec<Api<P>> = Vec::new();
        std::mem::swap(&mut taken, &mut more.apis);
        self.extend(taken.into_iter());
    }

    /// Appends what `it` yields, in that order, entry by entry.
    pub fn extend<I: Iterator<Item = Api<P>>>(&mut self, it: I)
        requires
            it.obeys_prophetic_iter_laws(),
            it.decrease() is Some,
        ensures
            final(self)@ == old(self)@ + it.remaining(),
    {
        let mut it = it;
        let ghost all = it.remaining();
        assert(old(self)@ + all.take(0) =~= old(self)@);
        loop
            invariant
                it.obeys_prophetic_iter_laws(),
                it.decrease() is Some,
                it.remaining().len() <= all.len(),
                it.remaining() == all.skip(all.len() - it.remaining().len()),
                self@ == old(self)@ + all.take(all.len() - it.remaining().len()),
            ensures
                self@ == old(self)@ + all,
            decreases it.decrease()->0,
        {
            let ghost before = it.remaining();
            let ghost done = all.len() - before.len();
            match it.next() {
                Some(api) => {
                    proof {
                        assert(api == all[done]);
                        assert(all.take(done + 1) =~= all.take(done).push(api));
                        assert(before.drop_first() =~= all.skip(done + 1));
                        assert((old(self)@ + all.take(done)).push(api) =~= old(self)@ + all.take(
                            done + 1,
                        ));
                    }
                    self.push(api);
                },
                None => {
                    assert(all.take(all.len() as int) =~= all);
                    break ;
                },
            }
        }
    }

    /// The entries in order, by reference.
    pub fn iter(&self) -> (it: std::slice::Iter<'_, Api<P>>)
        ensures
            it.remaining() == self@.as_ref(),
            it.obeys_prophetic_iter_laws(),
            it.decrease() is Some,
    {
        broadcast use vstd::std_specs::slice::axiom_spec_slice_iter;
        self.apis.iter()
    }

    /// The entries in order, by value.
    pub fn into_iter(self) -> (it: std::vec::IntoIter<Api<P>>)
        ensures
            it.remaining() == self@,
            it.obeys_prophetic_iter_laws(),
            it.decrease() is Some,
    {
        broadcast use vstd::std_specs::vec::axiom_spec_into_iter;
        self.apis.into_iter()
    }

    pub fn is_empty(&self) -> (r: bool)
        ensures
            r == (self@.len() == 0),
    {
        self.apis.is_empty()
    }

    /// Keeps the entries for which `f` answers true, in their order, and drops
    /// the others. `f` is asked once for each entry, in order.
    pub fn retain<F>(&mut self, f: F) where F: FnMut(&Api<P>) -> bool
        requires
            forall|i: int| 0 <= i < old(self)@.len() ==> call_requires(f, (&old(self)@[i],)),
        ensures
            exists|keep: Seq<bool>| #[trigger]
                decides(f, old(self)@, keep) && final(self)@ == retained(old(self)@, keep),
            names_unique(old(self)@) ==> names_unique(final(self)@),
            always_answers(f, old(self)@, true) ==> final(self)@ == old(self)@,
            always_answers(f, old(self)@, false) ==> final(self)@ == Seq::<Api<P>>::empty(),
    {
        let ghost asked = f;
        let mut f = f;
        let mut taken: Vec<Api<P>> = Vec::new();
        std::mem::swap(&mut taken, &mut self.apis);
        let ghost all = taken@;
        let ghost mut keep: Seq<bool> = Seq::empty();
        for api in it: taken
            invariant
                it.seq() == all,
                all == old(self)@,
                f == asked,
                forall|i: int| 0 <= i < all.len() ==> call_requires(asked, (&all[i],)),
                decides(asked, all.take(it.index()), keep),
                self.apis@ == retained(all.take(it.index()), keep),
        {
            let ghost done = it.index();
            let answer = f(&api);
            proof {
                assert(all.take(done + 1).drop_last() =~= all.take(done));
                assert(keep.push(answer).drop_last() =~= keep);
                keep = keep.push(answer);
            }
            if answer {
                self.apis.push(api);
            }
        }
        proof {
            assert(all.take(all.len() as int) =~= all);
            assert(decides(asked, old(self)@, keep));
            if names_unique(all) {
                lemma_retained_names(all, keep);
            }
            lemma_retain_all_or_none(all, keep);
            if always_answers(asked, all, true) {
                assert forall|i: int| 0 <= i < keep.len() implies keep[i] by {
                    assert(call_ensures(asked, (&all[i],), keep[i]));
                }
            }
            if always_answers(asked, all, false) {
                assert forall|i: int| 0 <= i < keep.len() implies !keep[i] by {
                    assert(call_ensures(asked, (&all[i],), keep[i]));
                }
            }
        }
    }
}

impl<P: AnalysisPhase> ApiVec<P> {
    /// A collection of what `it` yields, in that order.
    pub fn from_iter<I: Iterator<Item = Api<P>>>(it: I) -> (r: Self)
        requires
            it.obeys_prophetic_iter_laws(),
            it.decrease() is Some,
        ensures
            r@ == it.remaining(),
    {
        let mut this = ApiVec::new();
        this.extend(it);
        assert(Seq::<Api<P>>::empty() + it.remaining() =~= it.remaining());
        this
    }
}

impl<P: AnalysisPhase> Default for ApiVec<P> {
    fn default() -> (r: Self)
        ensures
            r@ == Seq::<Api<P>>::empty(),
    {
        ApiVec { apis: Vec::new() }
    }
}

/// Appending an entry keeps the names unique exactly if they were unique and
/// the entry's name is new.
pub proof fn lemma_push_names<P: AnalysisPhase>(entries: Seq<Api<P>>, api: Api<P>)
    ensures
        names_unique(entries.push(api)) <==> names_unique(entries) && !has_name(
            entries,
            api.spec_name(),
        ),
{
    let longer = entries.push(api);
    if names_unique(longer) {
        assert forall|i: int, j: int| 0 <= i < j < entries.len() implies (
        #[trigger] entries[i]).spec_name() != (#[trigger] entries[j]).spec_name() by {
            assert(longer[i] == entries[i]);
            assert(longer[j] == entries[j]);
        }
        if has_name(entries, api.spec_name()) {
            let i = choose|i: int|
                0 <= i < entries.len() && (#[trigger] entries[i]).spec_name() == api.spec_name();
            assert(longer[i] == entries[i]);
            assert(longer[entries.len() as int] == api);
            assert(false);
        }
    }
    if names_unique(entries) && !has_name(entries, api.spec_name()) {
        assert forall|i: int, j: int| 0 <= i < j < longer.len() implies (
        #[trigger] longer[i]).spec_name() != (#[trigger] longer[j]).spec_name() by {
            assert(longer[i] == entries[i]);
            if j < entries.len() {
                assert(longer[j] == entries[j]);
            }
        }
    }
}

/// Every retained entry is one of the entries, and retained entries keep their
/// order.
pub proof fn lemma_retained_positions<T>(entries: Seq<T>, keep: Seq<bool>) -> (at: Seq<int>)
    requires
        keep.len() == entries.len(),
    ensures
        at.len() == retained(entries, keep).len(),
        forall|k: int|
            0 <= k < at.len() ==> 0 <= #[trigger] at[k] < entries.len() && keep[at[k]]
                && retained(entries, keep)[k] == entries[at[k]],
        forall|k: int, l: int| 0 <= k < l < at.len() ==> at[k] < at[l],
    decreases entries.len(),
{
    if entries.len() == 0 {
        Seq::empty()
    } else {
        let before = lemma_retained_positions(entries.drop_last(), keep.drop_last());
        if keep.last() {
            before.push(entries.len() - 1)
        } else {
            before
        }
    }
}

/// Dropping entries cannot make two names collide.
pub proof fn lemma_retained_names<P: AnalysisPhase>(entries: Seq<Api<P>>, keep: Seq<bool>)
    requires
        keep.len() == entries.len(),
        names_unique(entries),
    ensures
        names_unique(retained(entries, keep)),
{
    let at = lemma_retained_positions(entries, keep);
    let kept = retained(entries, keep);
    assert forall|k: int, l: int| 0 <= k < l < kept.len() implies (#[trigger] kept[k]).spec_name()
        != (#[trigger] kept[l]).spec_name() by {
        assert(kept[k] == entries[at[k]]);
        assert(kept[l] == entries[at[l]]);
        assert(at[k] < at[l]);
    }
}

/// Keeping every entry changes nothing, and keeping none leaves the empty
/// sequence, whose names are unique.
pub proof fn lemma_retain_all_or_none<P: AnalysisPhase>(entries: Seq<Api<P>>, keep: Seq<bool>)
    requires
        keep.len() == entries.len(),
    ensures
        (forall|i: int| 0 <= i < keep.len() ==> keep[i]) ==> retained(entries, keep) == entries,
        (forall|i: int| 0 <= i < keep.len() ==> !keep[i]) ==> retained(entries, keep)
            == Seq::<Api<P>>::empty() && names_unique(retained(entries, keep)),
    decreases entries.len(),
{
    if entries.len() > 0 {
        lemma_retain_all_or_none(entries.drop_last(), keep.drop_last());
        if forall|i: int| 0 <= i < keep.len() ==> keep[i] {
            assert(keep.last());
            assert forall|i: int| 0 <= i < keep.drop_last().len() implies keep.drop_last()[i] by {
                assert(keep[i]);
            }
            assert(entries.drop_last().push(entries.last()) =~= entries);
        }
        if forall|i: int| 0 <= i < keep.len() ==> !keep[i] {
            assert(!keep.last());
            assert forall|i: int| 0 <= i < keep.drop_last().len() implies !keep.drop_last()[i] by {
                assert(!keep[i]);
            }
        }
    }
}

} // verus!
