//! Lists and sets of names.
use indexmap::IndexSet;
use itertools::Itertools;
use vstd::prelude::*;

use crate::text;

verus! {

/// `indexmap::IndexSet`: a set that keeps its items in the order in which they came.
#[verifier::external_type_specification]
#[verifier::external_body]
#[verifier::reject_recursive_types(T)]
#[verifier::reject_recursive_types(S)]
pub struct ExIndexSet<T, S>(indexmap::IndexSet<T, S>);

/// The names that an `IndexSet` holds, in its order.
pub uninterp spec fn set_names(set: IndexSet<String>) -> Seq<Seq<char>>;

/// `IndexSet::contains`: whether the set holds a name.
#[verifier::external_body]
pub(crate) fn set_contains(set: &IndexSet<String>, name: &str) -> (r: bool)
    ensures
        r == set_names(*set).contains(name@),
{
    set.contains(name)
}

/// `IndexSet::iter`: the names of the set, in its order; no name comes twice.
#[verifier::external_body]
pub(crate) fn set_to_list(set: &IndexSet<String>) -> (r: Vec<String>)
    ensures
        text::texts(r@) == set_names(*set),
        text::texts(r@).no_duplicates(),
{
    set.iter().cloned().collect()
}

/// A list of texts with a separator between each two of them.
pub open spec fn joined(list: Seq<Seq<char>>, sep: Seq<char>) -> Seq<char>
    decreases list.len(),
{
    if list.len() == 0 {
        Seq::empty()
    } else if list.len() == 1 {
        list[0]
    } else {
        joined(list.drop_last(), sep) + sep + list.last()
    }
}

/// `Itertools::join`: the names of a list, with a separator between each two of them.
#[verifier::external_body]
pub(crate) fn join(list: &Vec<String>, sep: &str) -> (r: String)
    ensures
        r@ == joined(text::texts(list@), sep@),
{
    list.iter().join(sep)
}

/// One more text comes after a separator; a single text stands alone.
pub proof fn law_joined(list: Seq<Seq<char>>, sep: Seq<char>, more: Seq<char>)
    ensures
        joined(Seq::empty(), sep) == Seq::<char>::empty(),
        joined(seq![more], sep) == more,
        list.len() > 0 ==> joined(list.push(more), sep) == joined(list, sep) + sep + more,
{
    if list.len() > 0 {
        assert(list.push(more).drop_last() == list);
    }
}

} // verus!
