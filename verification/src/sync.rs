//! Merging a retrieved batch into the store, and telling which identities
//! are new.

use crate::alert::{ids_of, AlertRecord, AlertView, RecordView};
use crate::store::AlertStore;
use vstd::prelude::*;

verus! {

/// The store's contents after the records of `batch` have been inserted one
/// after the other, each replacing what its identity stood for before.
pub open spec fn merged(known: Map<Seq<char>, AlertView>, batch: Seq<RecordView>) -> Map<
    Seq<char>,
    AlertView,
>
    decreases batch.len(),
{
    if batch.len() == 0 {
        known
    } else {
        merged(known, batch.drop_last()).insert(batch.last().id, batch.last().alert)
    }
}

/// The identities of `batch` that are not among `known`, each once, in the
/// order in which the batch first names them.
pub open spec fn new_ids(known: Set<Seq<char>>, batch: Seq<RecordView>) -> Seq<Seq<char>>
    decreases batch.len(),
{
    if batch.len() == 0 {
        Seq::empty()
    } else {
        let earlier = batch.drop_last();
        let id = batch.last().id;
        if known.contains(id) || ids_of(earlier).contains(id) {
            new_ids(known, earlier)
        } else {
            new_ids(known, earlier).push(id)
        }
    }
}

/// `batch[i]` is the last record of the batch under its identity.
pub open spec fn is_last_of_its_id(batch: Seq<RecordView>, i: int) -> bool {
    &&& 0 <= i < batch.len()
    &&& forall|j: int| i < j < batch.len() ==> (#[trigger] batch[j]).id != batch[i].id
}

proof fn lemma_names(batch: Seq<RecordView>, id: Seq<char>)
    ensures
        ids_of(batch).contains(id) <==> exists|i: int|
            0 <= i < batch.len() && (#[trigger] batch[i]).id == id,
{
    if ids_of(batch).contains(id) {
        let i = choose|i: int| 0 <= i < ids_of(batch).len() && ids_of(batch)[i] == id;
        assert(batch[i].id == id);
    }
    if exists|i: int| 0 <= i < batch.len() && (#[trigger] batch[i]).id == id {
        let i = choose|i: int| 0 <= i < batch.len() && (#[trigger] batch[i]).id == id;
        assert(ids_of(batch)[i] == id);
    }
}

proof fn lemma_names_step(batch: Seq<RecordView>, id: Seq<char>)
    requires
        batch.len() > 0,
    ensures
        ids_of(batch).contains(id) <==> (ids_of(batch.drop_last()).contains(id) || id
            == batch.last().id),
{
    let earlier = batch.drop_last();
    lemma_names(batch, id);
    lemma_names(earlier, id);
    if ids_of(batch).contains(id) {
        let i = choose|i: int| 0 <= i < batch.len() && (#[trigger] batch[i]).id == id;
        if i < earlier.len() {
            assert(earlier[i].id == id);
        }
    }
    if ids_of(earlier).contains(id) {
        let i = choose|i: int| 0 <= i < earlier.len() && (#[trigger] earlier[i]).id == id;
        assert(batch[i].id == id);
    }
    if id == batch.last().id {
        assert(batch[batch.len() - 1].id == id);
    }
}

proof fn lemma_pushed_contains(s: Seq<Seq<char>>, last: Seq<char>, id: Seq<char>)
    ensures
        s.push(last).contains(id) <==> (s.contains(id) || id == last),
{
    let t = s.push(last);
    if t.contains(id) {
        let i = choose|i: int| 0 <= i < t.len() && t[i] == id;
        if i < s.len() {
            assert(s[i] == id);
        }
    }
    if s.contains(id) {
        let i = choose|i: int| 0 <= i < s.len() && s[i] == id;
        assert(t[i] == id);
    }
    if id == last {
        assert(t[s.len() as int] == id);
    }
}

proof fn lemma_merged_names(known: Map<Seq<char>, AlertView>, batch: Seq<RecordView>, id: Seq<char>)
    ensures
        merged(known, batch).contains_key(id) <==> (known.contains_key(id) || ids_of(
            batch,
        ).contains(id)),
    decreases batch.len(),
{
    if batch.len() == 0 {
        lemma_names(batch, id);
    } else {
        lemma_merged_names(known, batch.drop_last(), id);
        lemma_names_step(batch, id);
    }
}

proof fn lemma_new_ids_names(known: Set<Seq<char>>, batch: Seq<RecordView>, id: Seq<char>)
    ensures
        new_ids(known, batch).contains(id) <==> (ids_of(batch).contains(id) && !known.contains(id)),
    decreases batch.len(),
{
    if batch.len() == 0 {
        lemma_names(batch, id);
    } else {
        let earlier = batch.drop_last();
        let last = batch.last().id;
        lemma_new_ids_names(known, earlier, id);
        lemma_new_ids_names(known, earlier, last);
        lemma_names_step(batch, id);
        if !(known.contains(last) || ids_of(earlier).contains(last)) {
            lemma_pushed_contains(new_ids(known, earlier), last, id);
        }
    }
}

/// After a merge the store knows what it knew before and what the batch
/// names, and nothing else.
pub proof fn lemma_merged_domain(known: Map<Seq<char>, AlertView>, batch: Seq<RecordView>)
    ensures
        merged(known, batch).dom() == known.dom().union(ids_of(batch).to_set()),
{
    assert forall|id: Seq<char>|
        merged(known, batch).dom().contains(id) <==> known.dom().union(
            ids_of(batch).to_set(),
        ).contains(id) by {
        lemma_merged_names(known, batch, id);
    }
    assert(merged(known, batch).dom() =~= known.dom().union(ids_of(batch).to_set()));
}

/// After a merge an identity that the batch names stands for the alert of
/// the batch's last record under that identity, whatever the store held for
/// it before.
pub proof fn lemma_merged_takes_last_version(
    known: Map<Seq<char>, AlertView>,
    batch: Seq<RecordView>,
    i: int,
)
    requires
        is_last_of_its_id(batch, i),
    ensures
        merged(known, batch).contains_key(batch[i].id),
        merged(known, batch)[batch[i].id] == batch[i].alert,
    decreases batch.len(),
{
    if i < batch.len() - 1 {
        let earlier = batch.drop_last();
        assert(is_last_of_its_id(earlier, i)) by {
            assert forall|j: int| i < j < earlier.len() implies (#[trigger] earlier[j]).id
                != earlier[i].id by {
                assert(batch[j].id != batch[i].id);
            }
        }
        lemma_merged_takes_last_version(known, earlier, i);
        assert(batch[batch.len() - 1].id != batch[i].id);
    }
}

/// A merge leaves alone every identity that the batch does not name.
pub proof fn lemma_merged_keeps_the_rest(
    known: Map<Seq<char>, AlertView>,
    batch: Seq<RecordView>,
    id: Seq<char>,
)
    requires
        !ids_of(batch).contains(id),
    ensures
        merged(known, batch).contains_key(id) == known.contains_key(id),
        known.contains_key(id) ==> merged(known, batch)[id] == known[id],
    decreases batch.len(),
{
    if batch.len() > 0 {
        lemma_names_step(batch, id);
        lemma_merged_keeps_the_rest(known, batch.drop_last(), id);
    }
}

/// The identities reported as new are exactly those that the batch names and
/// the store did not know, and none is reported twice.
pub proof fn lemma_new_ids_exact(known: Set<Seq<char>>, batch: Seq<RecordView>)
    ensures
        new_ids(known, batch).no_duplicates(),
        forall|id: Seq<char>| #[trigger]
            new_ids(known, batch).contains(id) <==> (ids_of(batch).contains(id) && !known.contains(
                id,
            )),
    decreases batch.len(),
{
    assert forall|id: Seq<char>| #[trigger]
        new_ids(known, batch).contains(id) <==> (ids_of(batch).contains(id) && !known.contains(
            id,
        )) by {
        lemma_new_ids_names(known, batch, id);
    }
    if batch.len() > 0 {
        let earlier = batch.drop_last();
        let last = batch.last().id;
        lemma_new_ids_exact(known, earlier);
        let before = new_ids(known, earlier);
        let after = new_ids(known, batch);
        if !(known.contains(last) || ids_of(earlier).contains(last)) {
            lemma_new_ids_names(known, earlier, last);
            assert forall|i: int, j: int|
                0 <= i < after.len() && 0 <= j < after.len() && i != j implies after[i]
                != after[j] by {
                if i < before.len() && j < before.len() {
                    assert(before[i] != before[j]);
                } else if i < before.len() {
                    assert(before.contains(before[i]));
                } else {
                    assert(before.contains(before[j]));
                }
            }
        }
    }
}

/// Merging the same batch a second time finds nothing new and changes
/// nothing: the first merge has made every identity of the batch known, with
/// the very alerts that the second merge would record.
pub proof fn lemma_second_merge_is_idle(known: Map<Seq<char>, AlertView>, batch: Seq<RecordView>)
    ensures
        new_ids(merged(known, batch).dom(), batch) == Seq::<Seq<char>>::empty(),
        merged(merged(known, batch), batch) == merged(known, batch),
{
    let once = merged(known, batch);
    let twice = merged(once, batch);
    let again = new_ids(once.dom(), batch);
    if again.len() > 0 {
        assert(again.contains(again[0]));
        lemma_new_ids_names(once.dom(), batch, again[0]);
        lemma_merged_names(known, batch, again[0]);
    }
    assert(again =~= Seq::<Seq<char>>::empty());
    assert forall|id: Seq<char>| twice.contains_key(id) == once.contains_key(id) by {
        lemma_merged_names(once, batch, id);
        lemma_merged_names(known, batch, id);
    }
    assert forall|id: Seq<char>| once.contains_key(id) implies #[trigger] twice[id] == once[id] by {
        if ids_of(batch).contains(id) {
            lemma_last_position(batch, id);
            let i = last_position(batch, id);
            lemma_merged_takes_last_version(known, batch, i);
            lemma_merged_takes_last_version(once, batch, i);
        } else {
            lemma_merged_keeps_the_rest(once, batch, id);
        }
    }
    assert(twice =~= once);
}

/// A first merge reports something new exactly if the batch names an identity
/// that the store does not know.
pub proof fn lemma_first_merge_reports_unknown(known: Set<Seq<char>>, batch: Seq<RecordView>)
    ensures
        new_ids(known, batch).len() > 0 <==> exists|i: int|
            0 <= i < batch.len() && !known.contains((#[trigger] batch[i]).id),
{
    let fresh = new_ids(known, batch);
    if fresh.len() > 0 {
        assert(fresh.contains(fresh[0]));
        lemma_new_ids_names(known, batch, fresh[0]);
        lemma_names(batch, fresh[0]);
    }
    if exists|i: int| 0 <= i < batch.len() && !known.contains((#[trigger] batch[i]).id) {
        let i = choose|i: int| 0 <= i < batch.len() && !known.contains((#[trigger] batch[i]).id);
        lemma_names(batch, batch[i].id);
        lemma_new_ids_names(known, batch, batch[i].id);
        let j = choose|j: int| 0 <= j < fresh.len() && fresh[j] == batch[i].id;
    }
}

/// An alert that the store knew already is brought up to date by a merge, but
/// its identity is not reported as new, whatever has changed in it.
pub proof fn lemma_update_is_not_new(
    known: Map<Seq<char>, AlertView>,
    batch: Seq<RecordView>,
    i: int,
)
    requires
        is_last_of_its_id(batch, i),
        known.contains_key(batch[i].id),
    ensures
        merged(known, batch)[batch[i].id] == batch[i].alert,
        !new_ids(known.dom(), batch).contains(batch[i].id),
{
    lemma_merged_takes_last_version(known, batch, i);
    lemma_new_ids_names(known.dom(), batch, batch[i].id);
}

spec fn last_position(batch: Seq<RecordView>, id: Seq<char>) -> int
    decreases batch.len(),
{
    if batch.len() == 0 {
        -1
    } else if batch.last().id == id {
        batch.len() - 1
    } else {
        last_position(batch.drop_last(), id)
    }
}

proof fn lemma_last_position(batch: Seq<RecordView>, id: Seq<char>)
    requires
        ids_of(batch).contains(id),
    ensures
        is_last_of_its_id(batch, last_position(batch, id)),
        batch[last_position(batch, id)].id == id,
    decreases batch.len(),
{
    lemma_names(batch, id);
    if batch.last().id != id {
        let earlier = batch.drop_last();
        lemma_names_step(batch, id);
        lemma_last_position(earlier, id);
        let i = last_position(earlier, id);
        assert forall|j: int| i < j < batch.len() implies (#[trigger] batch[j]).id
            != batch[i].id by {
            if j < earlier.len() {
                assert(earlier[j].id != earlier[i].id);
            }
        }
    }
}

/// Inserts the records of `batch` into `store` in their order and returns the
/// identities that the store did not know before, each once, in the order in
/// which the batch first names them.
pub fn merge(store: &mut AlertStore, batch: Vec<AlertRecord>) -> (fresh: Vec<String>)
    ensures
        final(store)@ == merged(old(store)@, batch.deep_view()),
        fresh.deep_view() == new_ids(old(store)@.dom(), batch.deep_view()),
{
    let ghost known = store@;
    let ghost items = batch@;
    let ghost records = batch.deep_view();
    let mut fresh: Vec<String> = Vec::new();
    assert(fresh.deep_view() =~= Seq::<Seq<char>>::empty());
    assert(records.take(0) =~= Seq::<RecordView>::empty());
    for record in iter: batch
        invariant
            iter.seq() == items,
            records.len() == items.len(),
            forall|i: int| 0 <= i < items.len() ==> records[i] == (#[trigger] items[i])@,
            store@ == merged(known, records.take(iter.index())),
            fresh.deep_view() == new_ids(known.dom(), records.take(iter.index())),
    {
        let ghost done = iter.index();
        let ghost earlier = records.take(done);
        let ghost listed = fresh.deep_view();
        assert(record == items[done]);
        assert(records.take(done + 1).drop_last() =~= earlier);
        assert(records.take(done + 1).last() == record@);
        proof {
            lemma_merged_names(known, earlier, record.id@);
        }
        let AlertRecord { id, alert } = record;
        let is_new = store.insert(id.clone(), alert);
        if is_new {
            fresh.push(id);
            assert(fresh.deep_view() =~= listed.push(id@));
        }
    }
    assert(records.take(records.len() as int) =~= records);
    fresh
}

} // verus!
