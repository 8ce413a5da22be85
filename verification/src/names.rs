//! Layer and extension names, compared as the bytes before their NUL.

use vstd::prelude::*;

verus! {

/// `name` is one of the names in `list`.
pub open spec fn is_listed(name: Seq<u8>, list: Seq<Vec<u8>>) -> bool {
    exists|j: int| 0 <= j < list.len() && (#[trigger] list[j])@ == name
}

/// Every name in `required` is one of the names in `available`.
pub open spec fn all_listed(required: Seq<Vec<u8>>, available: Seq<Vec<u8>>) -> bool {
    forall|i: int| 0 <= i < required.len() ==> is_listed((#[trigger] required[i])@, available)
}

/// A name is listed exactly when some entry of the list, at any position,
/// is that name; the required names are all listed exactly when each of
/// them, at any position, is listed.
pub proof fn lemma_listed_meaning(name: Seq<u8>, list: Seq<Vec<u8>>, required: Seq<Vec<u8>>)
    ensures
        is_listed(name, list) <==> exists|k: int| 0 <= k < list.len() && (#[trigger] list[k])@ == name,
        forall|k: int| 0 <= k < list.len() && (#[trigger] list[k])@ == name ==> is_listed(name, list),
        all_listed(required, list) <==> forall|i: int|
            0 <= i < required.len() ==> is_listed((#[trigger] required[i])@, list),
{
    assert forall|k: int| 0 <= k < list.len() && (#[trigger] list[k])@ == name implies is_listed(
        name,
        list,
    ) by {}
}

/// Whether two names are the same bytes.
pub fn names_equal(a: &[u8], b: &[u8]) -> (r: bool)
    ensures
        r == (a@ == b@),
{
    if a.len() != b.len() {
        return false;
    }
    let mut i: usize = 0;
    while i < a.len()
        invariant
            a@.len() == b@.len(),
            i <= a@.len(),
            forall|j: int| 0 <= j < i ==> a@[j] == b@[j],
        decreases a@.len() - i,
    {
        if a[i] != b[i] {
            return false;
        }
        i = i + 1;
    }
    assert(a@ =~= b@);
    true
}

/// Whether `name` is one of the names in `list`.
pub fn is_name_listed(name: &[u8], list: &[Vec<u8>]) -> (r: bool)
    ensures
        r == is_listed(name@, list@),
        forall|k: int| 0 <= k < list@.len() && (#[trigger] list@[k])@ == name@ ==> r,
        r ==> exists|k: int| 0 <= k < list@.len() && (#[trigger] list@[k])@ == name@,
{
    let mut i: usize = 0;
    while i < list.len()
        invariant
            i <= list@.len(),
            forall|j: int| 0 <= j < i ==> (#[trigger] list@[j])@ != name@,
        decreases list@.len() - i,
    {
        if names_equal(list[i].as_slice(), name) {
            assert(list@[i as int]@ == name@);
            return true;
        }
        i = i + 1;
    }
    false
}

/// Whether every name in `required` is one of the names in `available`.
pub fn all_names_listed(required: &[Vec<u8>], available: &[Vec<u8>]) -> (r: bool)
    ensures
        r == all_listed(required@, available@),
        r <==> forall|i: int|
            0 <= i < required@.len() ==> is_listed((#[trigger] required@[i])@, available@),
{
    proof {
        lemma_listed_meaning(Seq::empty(), available@, required@);
    }
    let mut i: usize = 0;
    while i < required.len()
        invariant
            i <= required@.len(),
            forall|j: int| 0 <= j < i ==> is_listed((#[trigger] required@[j])@, available@),
        decreases required@.len() - i,
    {
        if !is_name_listed(required[i].as_slice(), available) {
            return false;
        }
        i = i + 1;
    }
    true
}

} // verus!
