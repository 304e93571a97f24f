//! What holds of the store's operations whatever the store and the
//! arguments are. Each statement is proved from the models that the
//! contracts of the operations are written in.

use vstd::prelude::*;
use crate::store::{has_id, loaded, with_added, with_flag, without};
use crate::task::TaskView;
use crate::text::{all_digits, decimal, digits_value, is_digit, parsed_id};

verus! {

/// The store after one task was added for each text, in order.
pub open spec fn with_all_added(store: Seq<TaskView>, texts: Seq<Seq<char>>) -> Seq<TaskView>
    decreases texts.len(),
{
    if texts.len() == 0 {
        store
    } else {
        with_added(with_all_added(store, texts.drop_last()), texts.last())
    }
}

/// Whether no number comes twice in the store.
pub open spec fn ids_distinct(store: Seq<TaskView>) -> bool {
    forall|i: int, j: int|
        0 <= i < j < store.len() ==> (#[trigger] store[i]).id != (#[trigger] store[j]).id
}

/// Adding tasks to a store keeps what was there and appends one task for
/// each text: the task added in place `k` comes at place `store.len() + k`,
/// bears the number `store.len() + k + 1`, holds its text and is not done.
pub proof fn lemma_added_tasks(store: Seq<TaskView>, texts: Seq<Seq<char>>)
    ensures
        with_all_added(store, texts).len() == store.len() + texts.len(),
        forall|i: int| 0 <= i < store.len() ==> with_all_added(store, texts)[i] == store[i],
        forall|k: int|
            0 <= k < texts.len() ==> #[trigger] with_all_added(store, texts)[store.len() + k] == (
            TaskView { id: (store.len() + k + 1) as nat, text: texts[k], done: false }),
    decreases texts.len(),
{
    if texts.len() > 0 {
        lemma_added_tasks(store, texts.drop_last());
    }
}

/// After `n` tasks were added to an empty store and none was deleted, the
/// task added as the `k`-th bears the number `k`, for every `k` from 1 to
/// `n`, and no number comes twice.
pub proof fn lemma_nth_added_has_id_n(texts: Seq<Seq<char>>)
    ensures
        with_all_added(Seq::empty(), texts).len() == texts.len(),
        forall|k: int|
            1 <= k <= texts.len() ==> #[trigger] with_all_added(Seq::empty(), texts)[k - 1] == (
            TaskView { id: k as nat, text: texts[k - 1], done: false }),
        ids_distinct(with_all_added(Seq::empty(), texts)),
{
    let store = with_all_added(Seq::empty(), texts);
    lemma_added_tasks(Seq::empty(), texts);
    assert forall|k: int| 1 <= k <= texts.len() implies #[trigger] store[k - 1] == (TaskView {
        id: k as nat,
        text: texts[k - 1],
        done: false,
    }) by {
        assert(store[0 + (k - 1)].id == k);
    }
    assert forall|i: int, j: int| 0 <= i < j < store.len() implies (#[trigger] store[i]).id != (
    #[trigger] store[j]).id by {
        assert(store[(i + 1) - 1].id == i + 1);
        assert(store[(j + 1) - 1].id == j + 1);
    }
}

/// Setting a flag changes nothing but flags: the store keeps its length, and
/// every task keeps its number and its text.
pub proof fn lemma_flag_keeps_id_and_text(store: Seq<TaskView>, id: nat, done: bool)
    ensures
        with_flag(store, id, done).len() == store.len(),
        forall|i: int|
            0 <= i < store.len() ==> (#[trigger] with_flag(store, id, done)[i]).id == store[i].id
                && with_flag(store, id, done)[i].text == store[i].text,
        forall|i: int|
            0 <= i < store.len() && store[i].id != id ==> #[trigger] with_flag(store, id, done)[i]
                == store[i],
{
}

/// Marking a number as done and then as not done leaves every task with its
/// number and text, and gives the store back as it was, provided that no
/// task with that number was done before.
pub proof fn lemma_done_then_undone_restores(store: Seq<TaskView>, id: nat)
    requires
        forall|i: int| 0 <= i < store.len() && (#[trigger] store[i]).id == id ==> !store[i].done,
    ensures
        with_flag(with_flag(store, id, true), id, false) == store,
{
    assert(with_flag(with_flag(store, id, true), id, false) =~= store);
}

/// Marking a number as done and then as not done is the same as marking it
/// as not done at once, whatever the flags were.
pub proof fn lemma_done_then_undone(store: Seq<TaskView>, id: nat)
    ensures
        with_flag(with_flag(store, id, true), id, false) == with_flag(store, id, false),
{
    assert(with_flag(with_flag(store, id, true), id, false) =~= with_flag(store, id, false));
}

/// Deleting a number that no task bears leaves the store as it was.
pub proof fn lemma_delete_absent(store: Seq<TaskView>, id: nat)
    requires
        !has_id(store, id),
    ensures
        without(store, id) == store,
    decreases store.len(),
{
    reveal(Seq::filter);
    if store.len() > 0 {
        let earlier = store.drop_last();
        assert(!has_id(earlier, id)) by {
            assert forall|i: int| 0 <= i < earlier.len() implies earlier[i].id != id by {
                assert(store[i].id != id);
            }
        }
        lemma_delete_absent(earlier, id);
        assert(store.last().id != id) by {
            assert(store[store.len() - 1].id != id);
        }
        assert(earlier.push(store.last()) =~= store);
    }
}

/// After a number was deleted no task bears it, and no other task is lost:
/// the store is never longer than before, and shorter exactly if a task bore
/// the number.
pub proof fn lemma_delete_removes(store: Seq<TaskView>, id: nat)
    ensures
        !has_id(without(store, id), id),
        without(store, id).len() <= store.len(),
        without(store, id).len() < store.len() <==> has_id(store, id),
    decreases store.len(),
{
    reveal(Seq::filter);
    if store.len() > 0 {
        let earlier = store.drop_last();
        lemma_delete_removes(earlier, id);
        let kept = without(earlier, id);
        if has_id(earlier, id) {
            let i = choose|i: int| 0 <= i < earlier.len() && (#[trigger] earlier[i]).id == id;
            assert(store[i].id == id);
        }
        if has_id(store, id) && !has_id(earlier, id) {
            let i = choose|i: int| 0 <= i < store.len() && (#[trigger] store[i]).id == id;
            if i < store.len() - 1 {
                assert(earlier[i].id == id);
            }
        }
        if store.last().id == id {
            assert(store[store.len() - 1].id == id);
        } else if has_id(kept.push(store.last()), id) {
            let after = kept.push(store.last());
            let i = choose|i: int| 0 <= i < after.len() && (#[trigger] after[i]).id == id;
            assert(kept[i].id == id);
        }
    }
}

/// The numeral of a number is made of digits, at least one, and denotes the
/// number.
pub proof fn lemma_decimal_denotes(n: nat)
    ensures
        decimal(n).len() > 0,
        all_digits(decimal(n)),
        digits_value(decimal(n)) == n,
    decreases n,
{
    if n < 10 {
        assert(digits_value(decimal(n).drop_last()) == 0);
    } else {
        lemma_decimal_denotes(n / 10);
        assert(decimal(n).drop_last() =~= decimal(n / 10));
    }
}

/// A task number that was shown can be typed back: its numeral reads as
/// the same number.
pub proof fn lemma_shown_id_reads_back(id: u32)
    ensures
        parsed_id(decimal(id as nat)) == Some(id),
{
    lemma_decimal_denotes(id as nat);
    assert(is_digit(decimal(id as nat)[0]));
}

/// Reading a document that holds the tasks of a store gives that store;
/// where there is no document to read, the store is empty.
pub proof fn lemma_reload(store: Seq<TaskView>)
    ensures
        loaded(Some(store)) == store,
        loaded(None) == Seq::<TaskView>::empty(),
{
}

} // verus!
