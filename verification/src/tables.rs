//! Searching and pruning a table of keyed rows.

use crate::database::{
    distinct_keys, has_key, keys_below, row_with_key, without_key, without_key_keep, without_keys,
    without_keys_keep,
};
use crate::entities::Keyed;
use vstd::prelude::*;

verus! {

/// Whether `id` occurs in `ids`.
pub fn contains_id(ids: &Vec<i32>, id: i32) -> (found: bool)
    ensures
        found == ids@.contains(id),
{
    let mut i: usize = 0;
    while i < ids.len()
        invariant
            i <= ids.len(),
            forall|k: int| 0 <= k < i ==> ids@[k] != id,
        decreases ids.len() - i,
    {
        if ids[i] == id {
            return true;
        }
        i += 1;
    }
    false
}

/// The place of the first row with the identifier `id`.
pub fn position_of<T: Keyed>(rows: &Vec<T>, id: i32) -> (found: Option<usize>)
    ensures
        found is Some == has_key(rows@, id),
        found matches Some(i) ==> i < rows.len() && rows@[i as int].key() == id,
{
    let mut i: usize = 0;
    while i < rows.len()
        invariant
            i <= rows.len(),
            forall|k: int| 0 <= k < i ==> (#[trigger] rows@[k]).key() != id,
        decreases rows.len() - i,
    {
        if rows[i].key_of() == id {
            return Some(i);
        }
        i += 1;
    }
    None
}

/// In a table without repeated identifiers, the row at a place is the row
/// with that place's identifier.
pub proof fn lemma_row_with_key<T: Keyed>(rows: Seq<T>, i: int)
    requires
        distinct_keys(rows),
        0 <= i < rows.len(),
    ensures
        row_with_key(rows, rows[i].key()) == rows[i],
{
    let id = rows[i].key();
    let j = choose|j: int| 0 <= j < rows.len() && (#[trigger] rows[j]).key() == id;
    assert(rows[j].key() == id);
    if j < i {
        assert(rows[j].key() != rows[i].key());
    }
    if i < j {
        assert(rows[i].key() != rows[j].key());
    }
}

/// Rows that pass a filter keep their order, so what held of every pair of
/// rows before holds after: identifiers stay distinct and below their bound.
pub proof fn lemma_filter_keeps_table<T: Keyed>(rows: Seq<T>, keep: spec_fn(T) -> bool, next: i32)
    requires
        distinct_keys(rows),
        keys_below(rows, next),
    ensures
        distinct_keys(rows.filter(keep)),
        keys_below(rows.filter(keep), next),
        forall|id: i32| has_key(rows.filter(keep), id) ==> has_key(rows, id),
    decreases rows.len(),
{
    broadcast use Seq::lemma_filter_push;

    if rows.len() == 0 {
        assert(rows.filter(keep) =~= Seq::<T>::empty()) by {
            rows.lemma_filter_len(keep);
        }
    } else {
        let front = rows.drop_last();
        let last = rows.last();
        assert(rows =~= front.push(last));
        assert(distinct_keys(front)) by {
            assert forall|i: int, j: int| 0 <= i < j < front.len() implies (#[trigger] front[i]).key()
                != (#[trigger] front[j]).key() by {
                assert(front[i] == rows[i] && front[j] == rows[j]);
            }
        }
        assert(keys_below(front, next)) by {
            assert forall|i: int| 0 <= i < front.len() implies (#[trigger] front[i]).key()
                < next by {
                assert(front[i] == rows[i]);
            }
        }
        lemma_filter_keeps_table(front, keep, next);
        let kept = front.filter(keep);
        assert(rows.filter(keep) == if keep(last) {
            kept.push(last)
        } else {
            kept
        });
        assert forall|id: i32| has_key(rows.filter(keep), id) implies has_key(rows, id) by {
            let k = choose|k: int|
                0 <= k < rows.filter(keep).len() && (#[trigger] rows.filter(keep)[k]).key() == id;
            if k < kept.len() {
                assert(kept[k].key() == id);
                assert(has_key(kept, id));
                assert(has_key(front, id));
                let m = choose|m: int| 0 <= m < front.len() && (#[trigger] front[m]).key() == id;
                assert(rows[m].key() == id);
            } else {
                assert(rows[rows.len() - 1].key() == id);
            }
        }
        if keep(last) {
            let all = kept.push(last);
            assert forall|i: int, j: int| 0 <= i < j < all.len() implies (#[trigger] all[i]).key()
                != (#[trigger] all[j]).key() by {
                if j < kept.len() {
                    assert(all[i] == kept[i] && all[j] == kept[j]);
                } else {
                    assert(all[i] == kept[i]);
                    assert(has_key(kept, kept[i].key()));
                    assert(has_key(front, kept[i].key()));
                    let m = choose|m: int|
                        0 <= m < front.len() && (#[trigger] front[m]).key() == kept[i].key();
                    assert(rows[m].key() != rows[rows.len() - 1].key());
                }
            }
            assert forall|i: int| 0 <= i < all.len() implies (#[trigger] all[i]).key() < next by {
                if i < kept.len() {
                    assert(all[i] == kept[i]);
                } else {
                    assert(all[i] == rows[rows.len() - 1]);
                }
            }
        }
    }
}

/// A filtered table has a row with the identifier `id` exactly if the table
/// has one that passes the filter.
pub proof fn lemma_filter_keys<T: Keyed>(rows: Seq<T>, keep: spec_fn(T) -> bool, id: i32)
    ensures
        has_key(rows.filter(keep), id) == (exists|i: int|
            0 <= i < rows.len() && (#[trigger] rows[i]).key() == id && keep(rows[i])),
{
    broadcast use {Seq::lemma_filter_pred, Seq::lemma_filter_contains};

    let kept = rows.filter(keep);
    if has_key(kept, id) {
        let k = choose|k: int| 0 <= k < kept.len() && (#[trigger] kept[k]).key() == id;
        assert(keep(kept[k]));
        assert(kept.contains(kept[k]));
        rows.lemma_filter_contains_rev(keep, kept[k]);
        let m = choose|m: int| 0 <= m < rows.len() && rows[m] == kept[k];
        assert(rows[m].key() == id && keep(rows[m]));
    }
    if exists|i: int| 0 <= i < rows.len() && (#[trigger] rows[i]).key() == id && keep(rows[i]) {
        let m = choose|m: int| 0 <= m < rows.len() && (#[trigger] rows[m]).key() == id && keep(rows[m]);
        assert(kept.contains(rows[m]));
        let k = choose|k: int| 0 <= k < kept.len() && kept[k] == rows[m];
        assert(kept[k].key() == id);
    }
}

/// Two filters that agree on every row of a table keep the same rows.
pub proof fn lemma_filter_agree<T>(rows: Seq<T>, left: spec_fn(T) -> bool, right: spec_fn(T) -> bool)
    requires
        forall|i: int| 0 <= i < rows.len() ==> left(#[trigger] rows[i]) == right(rows[i]),
    ensures
        rows.filter(left) == rows.filter(right),
    decreases rows.len(),
{
    broadcast use Seq::lemma_filter_push;

    if rows.len() == 0 {
        lemma_filter_of_nothing(left);
        lemma_filter_of_nothing(right);
        assert(rows =~= Seq::<T>::empty());
    } else {
        let front = rows.drop_last();
        assert forall|i: int| 0 <= i < front.len() implies left(#[trigger] front[i]) == right(
            front[i],
        ) by {
            assert(front[i] == rows[i]);
        }
        lemma_filter_agree(front, left, right);
        assert(rows =~= front.push(rows.last()));
        assert(left(rows[rows.len() - 1]) == right(rows[rows.len() - 1]));
    }
}

/// A filter that every row of a table passes keeps the table as it is.
pub proof fn lemma_filter_all<T>(rows: Seq<T>, keep: spec_fn(T) -> bool)
    requires
        forall|i: int| 0 <= i < rows.len() ==> keep(#[trigger] rows[i]),
    ensures
        rows.filter(keep) == rows,
    decreases rows.len(),
{
    broadcast use Seq::lemma_filter_push;

    if rows.len() == 0 {
        lemma_filter_of_nothing(keep);
        assert(rows =~= Seq::<T>::empty());
    } else {
        let front = rows.drop_last();
        assert forall|i: int| 0 <= i < front.len() implies keep(#[trigger] front[i]) by {
            assert(front[i] == rows[i]);
        }
        lemma_filter_all(front, keep);
        assert(rows =~= front.push(rows.last()));
        assert(keep(rows[rows.len() - 1]));
    }
}

/// Filtering a table without rows leaves it without rows.
pub proof fn lemma_filter_of_nothing<T>(keep: spec_fn(T) -> bool)
    ensures
        Seq::<T>::empty().filter(keep) == Seq::<T>::empty(),
{
    Seq::<T>::empty().lemma_filter_len(keep);
    assert(Seq::<T>::empty().filter(keep) =~= Seq::<T>::empty());
}

/// Removes the rows whose identifier is in `ids`; the others keep their
/// order.
pub fn drop_keys<T: Keyed>(rows: &mut Vec<T>, ids: &Vec<i32>)
    ensures
        final(rows)@ == without_keys(old(rows)@, ids@),
{
    let ghost all = rows@;
    let ghost mut seen: int = 0;
    let mut i: usize = 0;
    proof {
        assert(all.take(0) =~= Seq::<T>::empty());
        lemma_filter_of_nothing::<T>(without_keys_keep::<T>(ids@));
        assert(rows@.take(0) =~= without_keys(all.take(0), ids@));
    }
    while i < rows.len()
        invariant
            0 <= seen <= all.len(),
            i <= rows.len(),
            rows@.take(i as int) == without_keys(all.take(seen), ids@),
            rows@.skip(i as int) == all.skip(seen),
        decreases rows.len() - i,
    {
        broadcast use Seq::lemma_filter_push;

        proof {
            assert(rows@[i as int] == rows@.skip(i as int)[0]);
            assert(all.skip(seen).len() == rows@.len() - i);
            assert(rows@[i as int] == all[seen]);
            assert(all.take(seen + 1) =~= all.take(seen).push(all[seen]));
        }
        if contains_id(ids, rows[i].key_of()) {
            let ghost before = rows@;
            rows.remove(i);
            proof {
                assert(rows@.take(i as int) =~= before.take(i as int));
                assert forall|k: int| 0 <= k < rows@.len() - i implies rows@.skip(i as int)[k]
                    == #[trigger] all.skip(seen + 1)[k] by {
                    assert(rows@[i + k] == before[i + k + 1]);
                    assert(before.skip(i as int)[k + 1] == all.skip(seen)[k + 1]);
                }
                assert(rows@.skip(i as int) =~= all.skip(seen + 1));
                seen = seen + 1;
            }
        } else {
            proof {
                assert(rows@.take(i + 1) =~= rows@.take(i as int).push(rows@[i as int]));
                assert forall|k: int| 0 <= k < rows@.len() - i - 1 implies rows@.skip(i + 1)[k]
                    == #[trigger] all.skip(seen + 1)[k] by {
                    assert(rows@.skip(i as int)[k + 1] == all.skip(seen)[k + 1]);
                }
                assert(rows@.skip(i + 1) =~= all.skip(seen + 1));
                seen = seen + 1;
            }
            i += 1;
        }
    }
    proof {
        assert(all.skip(seen).len() == 0);
        assert(all.take(seen) =~= all);
        assert(rows@.take(i as int) =~= rows@);
    }
}

/// Removes the rows with the identifier `id`; the others keep their
/// order.
pub fn drop_key<T: Keyed>(rows: &mut Vec<T>, id: i32)
    ensures
        final(rows)@ == without_key(old(rows)@, id),
{
    let ghost all = rows@;
    let ghost mut seen: int = 0;
    let mut i: usize = 0;
    proof {
        assert(all.take(0) =~= Seq::<T>::empty());
        lemma_filter_of_nothing::<T>(without_key_keep::<T>(id));
        assert(rows@.take(0) =~= without_key(all.take(0), id));
    }
    while i < rows.len()
        invariant
            0 <= seen <= all.len(),
            i <= rows.len(),
            rows@.take(i as int) == without_key(all.take(seen), id),
            rows@.skip(i as int) == all.skip(seen),
        decreases rows.len() - i,
    {
        broadcast use Seq::lemma_filter_push;

        proof {
            assert(rows@[i as int] == rows@.skip(i as int)[0]);
            assert(all.skip(seen).len() == rows@.len() - i);
            assert(rows@[i as int] == all[seen]);
            assert(all.take(seen + 1) =~= all.take(seen).push(all[seen]));
        }
        if rows[i].key_of() == id {
            let ghost before = rows@;
            rows.remove(i);
            proof {
                assert(rows@.take(i as int) =~= before.take(i as int));
                assert forall|k: int| 0 <= k < rows@.len() - i implies rows@.skip(i as int)[k]
                    == #[trigger] all.skip(seen + 1)[k] by {
                    assert(rows@[i + k] == before[i + k + 1]);
                    assert(before.skip(i as int)[k + 1] == all.skip(seen)[k + 1]);
                }
                assert(rows@.skip(i as int) =~= all.skip(seen + 1));
                seen = seen + 1;
            }
        } else {
            proof {
                assert(rows@.take(i + 1) =~= rows@.take(i as int).push(rows@[i as int]));
                assert forall|k: int| 0 <= k < rows@.len() - i - 1 implies rows@.skip(i + 1)[k]
                    == #[trigger] all.skip(seen + 1)[k] by {
                    assert(rows@.skip(i as int)[k + 1] == all.skip(seen)[k + 1]);
                }
                assert(rows@.skip(i + 1) =~= all.skip(seen + 1));
                seen = seen + 1;
            }
            i += 1;
        }
    }
    proof {
        assert(all.skip(seen).len() == 0);
        assert(all.take(seen) =~= all);
        assert(rows@.take(i as int) =~= rows@);
    }
}

} // verus!
