//! Mathematical views of lists and optional values.

use vstd::prelude::*;

verus! {

/// What the items of a list stand for.
pub open spec fn views<T: View>(items: Seq<T>) -> Seq<T::V> {
    items.map_values(|item: T| item@)
}

/// What an optional value stands for.
pub open spec fn optional<T: View>(value: Option<T>) -> Option<T::V> {
    match value {
        Some(value) => Some(value@),
        None => None,
    }
}

/// What an optional list stands for.
pub open spec fn optional_views<T: View>(items: Option<Vec<T>>) -> Option<Seq<T::V>> {
    match items {
        Some(items) => Some(views(items@)),
        None => None,
    }
}

/// What the outcome of an operation stands for.
pub open spec fn outcome<T: View, E: View>(result: Result<T, E>) -> Result<T::V, E::V> {
    match result {
        Ok(value) => Ok(value@),
        Err(error) => Err(error@),
    }
}

/// The outcome of an operation, where only a failure is looked at closely.
pub open spec fn failure<T, E: View>(result: Result<T, E>) -> Result<T, E::V> {
    match result {
        Ok(value) => Ok(value),
        Err(error) => Err(error@),
    }
}

/// What the outcome of an operation that gives a list stands for.
pub open spec fn list_outcome<T: View, E: View>(result: Result<Vec<T>, E>) -> Result<
    Seq<T::V>,
    E::V,
> {
    match result {
        Ok(items) => Ok(views(items@)),
        Err(error) => Err(error@),
    }
}

/// A list of which each item was copied stands for the same.
pub proof fn lemma_same_views<T: View>(left: Seq<T>, right: Seq<T>)
    requires
        left.len() == right.len(),
        forall|i: int| 0 <= i < left.len() ==> (#[trigger] left[i])@ == right[i]@,
    ensures
        views(left) == views(right),
{
    assert(views(left) =~= views(right));
}

/// Copies a list of texts.
pub fn copy_texts(texts: &Vec<String>) -> (copy: Vec<String>)
    ensures
        views(copy@) == views(texts@),
{
    let copy = texts.clone();
    proof {
        lemma_same_views(copy@, texts@);
    }
    copy
}

/// Whether two lists hold the same texts.
pub fn same_texts(left: &Vec<String>, right: &Vec<String>) -> (same: bool)
    ensures
        same == (views(left@) == views(right@)),
{
    if left.len() != right.len() {
        assert(views(left@).len() != views(right@).len());
        return false;
    }
    let mut at: usize = 0;
    while at < left.len()
        invariant
            at <= left@.len() == right@.len(),
            forall|i: int| 0 <= i < at ==> left@[i]@ == right@[i]@,
        decreases left@.len() - at,
    {
        if left[at] != right[at] {
            assert(views(left@)[at as int] != views(right@)[at as int]);
            return false;
        }
        at = at + 1;
    }
    proof {
        lemma_same_views(left@, right@);
    }
    true
}

/// Copies an optional text.
pub fn copy_text(text: &Option<String>) -> (copy: Option<String>)
    ensures
        optional(copy) == optional(*text),
{
    match text {
        Some(text) => Some(text.clone()),
        None => None,
    }
}

/// Whether two optional texts are the same.
pub fn same_optional(left: &Option<String>, right: &Option<String>) -> (same: bool)
    ensures
        same == (optional(*left) == optional(*right)),
{
    match (left, right) {
        (Some(left), Some(right)) => *left == *right,
        (None, None) => true,
        _ => false,
    }
}

/// What the items of a list stand for, one by one.
pub proof fn lemma_views<T: View>(items: Seq<T>)
    ensures
        views(items).len() == items.len(),
        forall|i: int| 0 <= i < items.len() ==> #[trigger] views(items)[i] == items[i]@,
{
}

/// Whether two lists hold the same texts in the same order.
pub open spec fn are_same_texts(left: Seq<String>, right: Seq<String>) -> bool {
    &&& left.len() == right.len()
    &&& forall|i: int| 0 <= i < left.len() ==> (#[trigger] left[i])@ == right[i]@
}

/// Lists that stand for the same texts hold the same texts.
pub proof fn lemma_same_texts(left: Seq<String>, right: Seq<String>)
    requires
        views(left) == views(right),
    ensures
        are_same_texts(left, right),
{
    lemma_views(left);
    lemma_views(right);
    assert forall|i: int| 0 <= i < left.len() implies (#[trigger] left[i])@ == right[i]@ by {
        assert(views(left)[i] == views(right)[i]);
    }
}

} // verus!
