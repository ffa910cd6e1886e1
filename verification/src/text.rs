//! Helpers shared by the analysis, the emitter and the engine: comparing
//! text, finding the first element of a sequence with a property, and
//! joining pieces of text.

use vstd::prelude::*;

verus! {

/// Whether two texts hold the same characters.
pub fn same_text(left: &str, right: &str) -> (same: bool)
    ensures
        same == (left@ == right@),
{
    let a = left.to_owned();
    let b = right.to_owned();
    a == b
}

/// The characters of an optional text.
pub open spec fn optional_text(text: Option<String>) -> Option<Seq<char>> {
    match text {
        Some(t) => Some(t@),
        None => None,
    }
}

/// The characters of each optional text of a list, in order.
pub open spec fn optional_texts(list: Seq<Option<String>>) -> Seq<Option<Seq<char>>> {
    list.map_values(|t: Option<String>| optional_text(t))
}

/// The characters of each text of a list, in order.
pub open spec fn texts(list: Seq<String>) -> Seq<Seq<char>> {
    list.map_values(|t: String| t@)
}

/// The least index at or after `start` whose element satisfies `wanted`.
pub open spec fn first_from<A>(items: Seq<A>, wanted: spec_fn(A) -> bool, start: int) -> Option<int>
    decreases items.len() - start,
{
    if start < 0 || start >= items.len() {
        None
    } else if wanted(items[start]) {
        Some(start)
    } else {
        first_from(items, wanted, start + 1)
    }
}

/// The least index whose element satisfies `wanted`, if any does.
pub open spec fn first_where<A>(items: Seq<A>, wanted: spec_fn(A) -> bool) -> Option<int> {
    first_from(items, wanted, 0)
}

/// `first_from` returns the least matching index at or after `start`, and
/// `None` exactly when nothing from `start` on matches.
pub proof fn first_from_is_least<A>(items: Seq<A>, wanted: spec_fn(A) -> bool, start: int)
    requires
        0 <= start <= items.len(),
    ensures
        match first_from(items, wanted, start) {
            Some(at) => {
                &&& start <= at < items.len()
                &&& wanted(items[at])
                &&& forall|j: int| start <= j < at ==> !wanted(#[trigger] items[j])
            },
            None => forall|j: int| start <= j < items.len() ==> !wanted(#[trigger] items[j]),
        },
    decreases items.len() - start,
{
    if start < items.len() && !wanted(items[start]) {
        first_from_is_least(items, wanted, start + 1);
    }
}

/// `first_where` returns the least matching index, and `None` exactly when
/// nothing matches.
pub proof fn first_where_is_least<A>(items: Seq<A>, wanted: spec_fn(A) -> bool)
    ensures
        match first_where(items, wanted) {
            Some(at) => {
                &&& 0 <= at < items.len()
                &&& wanted(items[at])
                &&& forall|j: int| 0 <= j < at ==> !wanted(#[trigger] items[j])
            },
            None => forall|j: int| 0 <= j < items.len() ==> !wanted(#[trigger] items[j]),
        },
{
    first_from_is_least(items, wanted, 0);
}

/// An index that matches, with nothing matching before it, is the first.
pub proof fn first_where_found<A>(items: Seq<A>, wanted: spec_fn(A) -> bool, at: int)
    requires
        0 <= at < items.len(),
        wanted(items[at]),
        forall|j: int| 0 <= j < at ==> !wanted(#[trigger] items[j]),
    ensures
        first_where(items, wanted) == Some(at),
{
    first_where_is_least(items, wanted);
}

/// Nothing matches, so there is no first.
pub proof fn first_where_absent<A>(items: Seq<A>, wanted: spec_fn(A) -> bool)
    requires
        forall|j: int| 0 <= j < items.len() ==> !wanted(#[trigger] items[j]),
    ensures
        first_where(items, wanted) is None,
{
    first_where_is_least(items, wanted);
}

/// The pieces written one after another.
pub open spec fn joined(pieces: Seq<Seq<char>>) -> Seq<char>
    decreases pieces.len(),
{
    if pieces.len() == 0 {
        Seq::empty()
    } else {
        joined(pieces.drop_last()) + pieces.last()
    }
}

/// Joining the first `count + 1` pieces appends piece `count` to the join of
/// the first `count`.
pub proof fn joined_step(pieces: Seq<Seq<char>>, count: int)
    requires
        0 <= count < pieces.len(),
    ensures
        joined(pieces.take(count + 1)) == joined(pieces.take(count)) + pieces[count],
{
    assert(pieces.take(count + 1).drop_last() =~= pieces.take(count));
}

} // verus!
