//! Finding the first row of a table that answers a description.

use vstd::prelude::*;

verus! {

/// Row `i` of `rows` answers `wanted`, and no earlier row does.
pub open spec fn is_first<T>(rows: Seq<T>, wanted: spec_fn(T) -> bool, i: int) -> bool {
    &&& 0 <= i < rows.len()
    &&& wanted(rows[i])
    &&& forall|k: int| 0 <= k < i ==> !wanted(#[trigger] rows[k])
}

/// The position of the first row of `rows` that answers `wanted`.
pub open spec fn first<T>(rows: Seq<T>, wanted: spec_fn(T) -> bool) -> Option<int> {
    if exists|i: int| is_first(rows, wanted, i) {
        Some(choose|i: int| is_first(rows, wanted, i))
    } else {
        None
    }
}

/// The first row that answers `wanted` stands at one position only.
pub proof fn lemma_first_found<T>(rows: Seq<T>, wanted: spec_fn(T) -> bool, i: int)
    requires
        is_first(rows, wanted, i),
    ensures
        first(rows, wanted) == Some(i),
{
}

/// What `pick` makes of a row is among what it makes of the table.
pub proof fn lemma_filter_map_keeps<A, B>(rows: Seq<A>, pick: spec_fn(A) -> Option<B>, i: int)
    requires
        0 <= i < rows.len(),
        pick(rows[i]) is Some,
    ensures
        rows.filter_map(pick).contains(pick(rows[i]).unwrap()),
    decreases rows.len(),
{
    let rest = rows.drop_last();
    let kept = rest.filter_map(pick);
    let wanted = pick(rows[i]).unwrap();
    if i == rows.len() - 1 {
        assert((kept + seq![wanted])[kept.len() as int] == wanted);
    } else {
        lemma_filter_map_keeps(rest, pick, i);
        let k = choose|k: int| 0 <= k < kept.len() && kept[k] == wanted;
        match pick(rows.last()) {
            Some(other) => {
                assert((kept + seq![other])[k] == wanted);
            },
            None => {},
        }
    }
}

} // verus!
