//! The index from each superclass to the subclasses that extend it.

use vstd::prelude::*;
use crate::api::{AnalysisPhase, Api, PodPhase};
use crate::function::seq_view;
use crate::names::{ApiNameView, NameView, QualifiedName, SubclassName};

verus! {

/// The subclasses declared among `entries` that extend `superclass`, in the
/// order of their declarations.
pub open spec fn subclasses_of<P: AnalysisPhase>(
    entries: Seq<Api<P>>,
    superclass: NameView,
) -> Seq<ApiNameView>
    decreases entries.len(),
{
    if entries.len() == 0 {
        Seq::empty()
    } else {
        let before = subclasses_of(entries.drop_last(), superclass);
        match entries.last() {
            Api::Subclass { name, superclass: extended } => if extended@ == superclass {
                before.push(name@)
            } else {
                before
            },
            _ => before,
        }
    }
}

/// The index of `entries`: each superclass that some declared subclass extends,
/// with the subclasses that extend it.
pub open spec fn subclass_map<P: AnalysisPhase>(entries: Seq<Api<P>>) -> Map<
    NameView,
    Seq<ApiNameView>,
> {
    Map::new(
        |superclass: NameView| subclasses_of(entries, superclass).len() > 0,
        |superclass: NameView| subclasses_of(entries, superclass),
    )
}

/// One superclass with the subclasses that extend it.
pub struct IndexEntry {
    pub superclass: QualifiedName,
    pub subclasses: Vec<SubclassName>,
}

/// No superclass stands twice in `entries`, and each has a subclass.
pub open spec fn distinct_superclasses(entries: Seq<IndexEntry>) -> bool {
    &&& forall|i: int, j: int|
        0 <= i < j < entries.len() ==> (#[trigger] entries[i]).superclass@ != (
        #[trigger] entries[j]).superclass@
    &&& forall|i: int| 0 <= i < entries.len() ==> (#[trigger] entries[i]).subclasses@.len() > 0
}

/// `entries` lists a superclass named `superclass`.
pub open spec fn lists_superclass(entries: Seq<IndexEntry>, superclass: NameView) -> bool {
    exists|i: int| 0 <= i < entries.len() && (#[trigger] entries[i]).superclass@ == superclass
}

/// The subclasses that `entries` lists for `superclass`.
pub open spec fn listed_subclasses(entries: Seq<IndexEntry>, superclass: NameView) -> Seq<
    ApiNameView,
> {
    let i = choose|i: int|
        0 <= i < entries.len() && (#[trigger] entries[i]).superclass@ == superclass;
    seq_view(entries[i].subclasses@)
}

/// `entries` is the index of `declared`.
pub open spec fn indexes<P: AnalysisPhase>(
    entries: Seq<IndexEntry>,
    declared: Seq<Api<P>>,
) -> bool {
    &&& distinct_superclasses(entries)
    &&& forall|i: int|
        0 <= i < entries.len() ==> seq_view((#[trigger] entries[i]).subclasses@) == subclasses_of(
            declared,
            entries[i].superclass@,
        )
    &&& forall|superclass: NameView|
        subclasses_of(declared, superclass).len() > 0 ==> lists_superclass(entries, superclass)
}

/// For each superclass that has subclasses, those subclasses in the order in
/// which they were declared. A superclass without subclasses is absent.
pub struct SubclassIndex {
    entries: Vec<IndexEntry>,
}

impl View for SubclassIndex {
    type V = Map<NameView, Seq<ApiNameView>>;

    closed spec fn view(&self) -> Map<NameView, Seq<ApiNameView>> {
        Map::new(
            |superclass: NameView| lists_superclass(self.entries@, superclass),
            |superclass: NameView| listed_subclasses(self.entries@, superclass),
        )
    }
}

impl SubclassIndex {
    #[verifier::type_invariant]
    spec fn well_formed(&self) -> bool {
        distinct_superclasses(self.entries@)
    }

    /// Where `superclass` stands among `entries`, if it does.
    fn position(entries: &Vec<IndexEntry>, superclass: &QualifiedName) -> (r: Option<usize>)
        ensures
            match r {
                Some(i) => i < entries@.len() && entries@[i as int].superclass@ == superclass@,
                None => !lists_superclass(entries@, superclass@),
            },
    {
        let mut i: usize = 0;
        while i < entries.len()
            invariant
                i <= entries.len(),
                forall|j: int| 0 <= j < i ==> (#[trigger] entries@[j]).superclass@ != superclass@,
            decreases entries.len() - i,
        {
            if entries[i].superclass.same_as(superclass) {
                return Some(i);
            }
            i += 1;
        }
        None
    }

    /// The subclasses that extend `superclass`, or `None` where there is none.
    pub fn get(&self, superclass: &QualifiedName) -> (r: Option<&Vec<SubclassName>>)
        ensures
            r is Some <==> self@.dom().contains(superclass@),
            r matches Some(found) ==> seq_view(found@) == self@[superclass@] && found@.len() > 0,
    {
        proof {
            use_type_invariant(self);
        }
        match SubclassIndex::position(&self.entries, superclass) {
            Some(i) => {
                assert(lists_superclass(self.entries@, superclass@));
                Some(&self.entries[i].subclasses)
            },
            None => None,
        }
    }

    /// The number of superclasses that have subclasses.
    pub fn len(&self) -> (r: usize)
        ensures
            r == self@.dom().len(),
            self@.dom().finite(),
    {
        proof {
            use_type_invariant(self);
            lemma_listed_count(self.entries@);
            assert(self@.dom() =~= Set::new(
                |superclass: NameView| lists_superclass(self.entries@, superclass),
            ));
        }
        self.entries.len()
    }

    /// The superclasses with their subclasses, each superclass once.
    pub fn into_entries(self) -> (r: Vec<IndexEntry>)
        ensures
            distinct_superclasses(r@),
            forall|superclass: NameView|
                lists_superclass(r@, superclass) <==> self@.dom().contains(superclass),
            forall|i: int|
                0 <= i < r@.len() ==> seq_view((#[trigger] r@[i]).subclasses@)
                    == self@[r@[i].superclass@],
    {
        proof {
            use_type_invariant(&self);
            assert forall|i: int| 0 <= i < self.entries@.len() implies seq_view(
                (#[trigger] self.entries@[i]).subclasses@,
            ) == self@[self.entries@[i].superclass@] by {
                assert(lists_superclass(self.entries@, self.entries@[i].superclass@));
            }
        }
        self.entries
    }
}

/// The superclasses that `entries` lists are as many as its entries.
pub proof fn lemma_listed_count(entries: Seq<IndexEntry>)
    requires
        distinct_superclasses(entries),
    ensures
        Set::new(|superclass: NameView| lists_superclass(entries, superclass)).finite(),
        Set::new(|superclass: NameView| lists_superclass(entries, superclass)).len()
            == entries.len(),
    decreases entries.len(),
{
    let listed = Set::new(|superclass: NameView| lists_superclass(entries, superclass));
    if entries.len() == 0 {
        assert(listed =~= Set::<NameView>::empty());
    } else {
        let shorter = entries.drop_last();
        let last = entries.last().superclass@;
        let before = Set::new(|superclass: NameView| lists_superclass(shorter, superclass));
        lemma_listed_count(shorter);
        assert forall|superclass: NameView| listed.contains(superclass) <==> before.insert(
            last,
        ).contains(superclass) by {
            if lists_superclass(entries, superclass) {
                let i = choose|i: int|
                    0 <= i < entries.len() && (#[trigger] entries[i]).superclass@ == superclass;
                if i < shorter.len() {
                    assert(shorter[i] == entries[i]);
                }
            }
            if lists_superclass(shorter, superclass) {
                let i = choose|i: int|
                    0 <= i < shorter.len() && (#[trigger] shorter[i]).superclass@ == superclass;
                assert(shorter[i] == entries[i]);
            }
            if superclass == last {
                assert(entries[entries.len() - 1].superclass@ == last);
            }
        }
        assert(listed =~= before.insert(last));
        if before.contains(last) {
            let i = choose|i: int|
                0 <= i < shorter.len() && (#[trigger] shorter[i]).superclass@ == last;
            assert(shorter[i] == entries[i]);
            assert(entries[i].superclass@ != entries[entries.len() - 1].superclass@);
        }
    }
}

/// Declaring one more entry adds its subclass to the superclass it extends and
/// changes nothing for any other superclass.
pub proof fn lemma_subclasses_step<P: AnalysisPhase>(
    declared: Seq<Api<P>>,
    next: Api<P>,
    superclass: NameView,
)
    ensures
        subclasses_of(declared.push(next), superclass) == match next {
            Api::Subclass { name, superclass: extended } => if extended@ == superclass {
                subclasses_of(declared, superclass).push(name@)
            } else {
                subclasses_of(declared, superclass)
            },
            _ => subclasses_of(declared, superclass),
        },
{
    assert(declared.push(next).drop_last() =~= declared);
    assert(declared.push(next).last() == next);
}

/// An index of `seen` stays an index once `next`, which declares a subclass,
/// has been taken in: the subclass is added to the entry of its superclass at
/// `at`, which is a new last entry where the superclass was not yet listed, and
/// the other entries stay as they were.
proof fn lemma_index_step<P: AnalysisPhase>(
    before: Seq<IndexEntry>,
    now: Seq<IndexEntry>,
    seen: Seq<Api<P>>,
    next: Api<P>,
    at: int,
)
    requires
        indexes(before, seen),
        0 <= at <= before.len(),
        now.len() == if at < before.len() {
            before.len()
        } else {
            before.len() + 1
        },
        forall|j: int| 0 <= j < before.len() && j != at ==> now[j] == before[j],
        next matches Api::Subclass { name, superclass } && {
            &&& now[at].superclass@ == superclass@
            &&& at < before.len() ==> before[at].superclass@ == superclass@
            &&& at == before.len() ==> !lists_superclass(before, superclass@)
            &&& seq_view(now[at].subclasses@) == subclasses_of(seen, superclass@).push(name@)
        },
    ensures
        indexes(now, seen.push(next)),
{
    let all = seen.push(next);
    let extended = now[at].superclass@;
    assert forall|j: int| 0 <= j < now.len() implies seq_view((#[trigger] now[j]).subclasses@)
        == subclasses_of(all, now[j].superclass@) by {
        lemma_subclasses_step(seen, next, now[j].superclass@);
        if j != at {
            assert(now[j] == before[j]);
            assert(lists_superclass(before, before[j].superclass@));
            if at < before.len() {
                assert(before[j].superclass@ != before[at].superclass@);
            }
        }
    }
    assert forall|sup: NameView| subclasses_of(all, sup).len() > 0 implies lists_superclass(
        now,
        sup,
    ) by {
        lemma_subclasses_step(seen, next, sup);
        if sup == extended {
            assert(now[at].superclass@ == sup);
        } else {
            assert(lists_superclass(before, sup));
            let j = choose|j: int|
                0 <= j < before.len() && (#[trigger] before[j]).superclass@ == sup;
            assert(now[j] == before[j]);
        }
    }
    assert forall|a: int, b: int| 0 <= a < b < now.len() implies (#[trigger] now[a]).superclass@
        != (#[trigger] now[b]).superclass@ by {
        if a != at && b != at {
            assert(now[a] == before[a]);
            assert(now[b] == before[b]);
        } else if a == at {
            assert(now[b] == before[b]);
            assert(before[a].superclass@ != before[b].superclass@);
        } else {
            assert(now[a] == before[a]);
            if at < before.len() {
                assert(before[a].superclass@ != before[b].superclass@);
            } else {
                assert(lists_superclass(before, before[a].superclass@));
            }
        }
    }
    assert forall|a: int| 0 <= a < now.len() implies (#[trigger] now[a]).subclasses@.len()
        > 0 by {
        if a != at {
            assert(now[a] == before[a]);
        } else {
            assert(seq_view(now[at].subclasses@).len() > 0);
        }
    }
}

/// Groups the declared subclasses by the superclass they extend. Each group
/// holds its subclasses in the order of their declarations; a superclass that
/// no subclass extends gets no group.
pub fn subclasses_by_superclass(apis: &[Api<PodPhase>]) -> (r: SubclassIndex)
    ensures
        r@ == subclass_map(apis@),
{
    let mut entries: Vec<IndexEntry> = Vec::new();
    let mut k: usize = 0;
    while k < apis.len()
        invariant
            k <= apis.len(),
            indexes(entries@, apis@.take(k as int)),
        decreases apis.len() - k,
    {
        let ghost seen = apis@.take(k as int);
        let ghost before = entries@;
        proof {
            assert(apis@.take(k as int + 1) =~= seen.push(apis@[k as int]));
        }
        match &apis[k] {
            Api::Subclass { name, superclass } => {
                match SubclassIndex::position(&entries, superclass) {
                    Some(i) => {
                        entries[i].subclasses.push(name.clone());
                        proof {
                            assert(seq_view(entries@[i as int].subclasses@) =~= seq_view(
                                before[i as int].subclasses@,
                            ).push(name@));
                            lemma_index_step(before, entries@, seen, apis@[k as int], i as int);
                        }
                    },
                    None => {
                        let mut subclasses: Vec<SubclassName> = Vec::new();
                        subclasses.push(name.clone());
                        entries.push(IndexEntry { superclass: superclass.clone(), subclasses });
                        proof {
                            let at = before.len() as int;
                            assert(subclasses_of(seen, superclass@) =~= Seq::<
                                ApiNameView,
                            >::empty());
                            assert(seq_view(entries@[at].subclasses@) =~= Seq::<
                                ApiNameView,
                            >::empty().push(name@));
                            lemma_index_step(before, entries@, seen, apis@[k as int], at);
                        }
                    },
                }
            },
            _ => {
                proof {
                    assert forall|sup: NameView| true implies subclasses_of(
                        seen.push(apis@[k as int]),
                        sup,
                    ) == #[trigger] subclasses_of(seen, sup) by {
                        lemma_subclasses_step(seen, apis@[k as int], sup);
                    }
                }
            },
        }
        k += 1;
    }
    proof {
        assert(apis@.take(apis@.len() as int) =~= apis@);
    }
    let r = SubclassIndex { entries };
    proof {
        assert forall|sup: NameView| r@.dom().contains(sup) <==> subclass_map(
            apis@,
        ).dom().contains(sup) by {
            if lists_superclass(entries@, sup) {
                let i = choose|i: int|
                    0 <= i < entries@.len() && (#[trigger] entries@[i]).superclass@ == sup;
                assert(seq_view(entries@[i].subclasses@).len() > 0);
            }
        }
        assert forall|sup: NameView| r@.dom().contains(sup) implies r@[sup] == subclass_map(
            apis@,
        )[sup] by {
            let i = choose|i: int|
                0 <= i < entries@.len() && (#[trigger] entries@[i]).superclass@ == sup;
        }
        assert(r@ =~= subclass_map(apis@));
    }
    r
}

} // verus!
