//! Comparing and copying the lists and tables that records hold.

use vstd::prelude::*;
use vstd::laws_eq::obeys_deep_eq;
use vstd::std_specs::vec::lemma_vec_obeys_deep_eq;

verus! {

/// Whether two lists of texts hold the same texts in the same order.
pub fn same_texts(a: &Vec<String>, b: &Vec<String>) -> (same: bool)
    ensures
        same == (a.deep_view() == b.deep_view()),
{
    if a.len() != b.len() {
        assert(a.deep_view().len() != b.deep_view().len());
        return false;
    }
    let mut at: usize = 0;
    while at < a.len()
        invariant
            at <= a.len(),
            a.len() == b.len(),
            forall|i: int| 0 <= i < at ==> a.deep_view()[i] == b.deep_view()[i],
        decreases a.len() - at,
    {
        if a[at] != b[at] {
            assert(a.deep_view()[at as int] != b.deep_view()[at as int]);
            return false;
        }
        at += 1;
    }
    assert(a.deep_view() =~= b.deep_view());
    true
}

/// A copy of a list of texts.
pub fn clone_texts(texts: &Vec<String>) -> (copy: Vec<String>)
    ensures
        copy.deep_view() == texts.deep_view(),
{
    let copy = texts.clone();
    copy
}

/// Whether two lists hold the same values in the same order.
pub fn same_list<T: PartialEq + DeepView>(a: &Vec<T>, b: &Vec<T>) -> (same: bool)
    requires
        obeys_deep_eq::<T>(),
    ensures
        same == (a.deep_view() == b.deep_view()),
{
    broadcast use lemma_vec_obeys_deep_eq;

    proof {
        assert(obeys_deep_eq::<Vec<T>>());
        reveal(obeys_deep_eq);
    }
    *a == *b
}

/// Whether two tables hold the same rows in the same order.
pub fn same_rows<T: PartialEq + DeepView>(a: &Vec<Vec<T>>, b: &Vec<Vec<T>>) -> (same: bool)
    requires
        obeys_deep_eq::<T>(),
    ensures
        same == (a.deep_view() == b.deep_view()),
{
    broadcast use lemma_vec_obeys_deep_eq;

    proof {
        assert(obeys_deep_eq::<Vec<Vec<T>>>());
        reveal(obeys_deep_eq);
    }
    *a == *b
}

/// Whether two optional tables are both absent, or both present with the same rows in
/// the same order.
pub fn same_optional_rows<T: PartialEq + DeepView>(
    a: &Option<Vec<Vec<T>>>,
    b: &Option<Vec<Vec<T>>>,
) -> (same: bool)
    requires
        obeys_deep_eq::<T>(),
    ensures
        same == (a.deep_view() == b.deep_view()),
{
    match (a, b) {
        (Some(x), Some(y)) => same_rows(x, y),
        (None, None) => true,
        _ => false,
    }
}

/// A copy of a list of records.
pub fn clone_records<T: Clone + DeepView>(records: &Vec<T>) -> (copy: Vec<T>)
    requires
        forall|record: T, cloned: T|
            call_ensures(T::clone, (&record,), cloned) ==> cloned.deep_view() == record.deep_view(),
    ensures
        copy.deep_view() == records.deep_view(),
{
    let copy = records.clone();
    copy
}

} // verus!
