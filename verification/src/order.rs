use vstd::prelude::*;

verus! {

/// Values that stand in an order: of any two, one comes no later than the
/// other, and what comes no later than a second that comes no later than a
/// third comes no later than the third.
pub trait Ranked: Sized {
    /// Whether `self` comes no later than `other`.
    spec fn no_later(self, other: Self) -> bool;

    proof fn total(x: Self, y: Self)
        ensures
            Self::no_later(x, y) || Self::no_later(y, x),
    ;

    proof fn transitive(x: Self, y: Self, z: Self)
        requires
            Self::no_later(x, y),
            Self::no_later(y, z),
        ensures
            Self::no_later(x, z),
    ;

    /// Tests whether `self` comes no later than `other`.
    fn comes_no_later(&self, other: &Self) -> (yes: bool)
        ensures
            yes == self.no_later(*other),
    ;
}

/// Whether the values stand in their order: none comes before one that is
/// due before it.
pub open spec fn ordered<T: Ranked>(items: Seq<T>) -> bool {
    forall|i: int, j: int|
        0 <= i < j < items.len() ==> (#[trigger] items[i]).no_later(#[trigger] items[j])
}

proof fn nothing_in_empty<T>()
    ensures
        Seq::<T>::empty().to_multiset() == vstd::multiset::Multiset::<T>::empty(),
{
    let none = Seq::<T>::empty();
    vstd::seq_lib::to_multiset_len(none);
    vstd::multiset::lemma_multiset_empty_len(none.to_multiset());
}

/// Puts the values in their order. Nothing is lost and nothing is added: the
/// result holds the same values, each as often as before.
pub fn sort<T: Ranked>(items: Vec<T>) -> (sorted: Vec<T>)
    ensures
        ordered(sorted@),
        sorted@.to_multiset() == items@.to_multiset(),
{
    let ghost all = items@;
    let mut left = items;
    let mut sorted: Vec<T> = Vec::new();
    proof {
        nothing_in_empty::<T>();
    }
    assert(left@.to_multiset().add(sorted@.to_multiset()) =~= all.to_multiset());
    while left.len() > 0
        invariant
            ordered(sorted@),
            left@.to_multiset().add(sorted@.to_multiset()) == all.to_multiset(),
        decreases left.len(),
    {
        let ghost left_before = left@;
        let ghost sorted_before = sorted@;
        let item = left.pop().unwrap();
        assert(left_before =~= left@.push(item));
        let mut at: usize = 0;
        while at < sorted.len() && sorted[at].comes_no_later(&item)
            invariant
                at <= sorted.len(),
                sorted@ == sorted_before,
                forall|k: int| 0 <= k < at ==> (#[trigger] sorted_before[k]).no_later(item),
            decreases sorted.len() - at,
        {
            at += 1;
        }
        proof {
            assert forall|k: int| at <= k < sorted_before.len() implies item.no_later(
                #[trigger] sorted_before[k],
            ) by {
                T::total(sorted_before[at as int], item);
                if k > at {
                    T::transitive(item, sorted_before[at as int], sorted_before[k]);
                }
            }
            vstd::seq_lib::to_multiset_insert(sorted_before, at as int, item);
            vstd::seq_lib::to_multiset_build(left@, item);
        }
        sorted.insert(at, item);
        assert(left@.to_multiset().add(sorted@.to_multiset()) =~= all.to_multiset());
        assert(ordered(sorted@)) by {
            let now = sorted@;
            assert forall|i: int, j: int| 0 <= i < j < now.len() implies (#[trigger] now[i]).no_later(
                #[trigger] now[j],
            ) by {
                let a = if i < at { i } else { i - 1 };
                let b = if j < at { j } else { j - 1 };
                if i != at && j != at {
                    assert(now[i] == sorted_before[a]);
                    assert(now[j] == sorted_before[b]);
                } else if i == at {
                    assert(now[j] == sorted_before[b]);
                } else {
                    assert(now[i] == sorted_before[a]);
                }
            }
        }
    }
    assert(left@ =~= Seq::<T>::empty());
    assert(sorted@.to_multiset() =~= all.to_multiset());
    sorted
}

} // verus!
