//! The live progress entries of one node.

use vstd::prelude::*;

use crate::models::TaskProgressState;

verus! {

/// The index of the first entry for `dispatch_id`, the number of entries where there is none.
pub open spec fn position(tasks: Seq<TaskProgressState>, dispatch_id: u128) -> int
    decreases tasks.len(),
{
    if tasks.len() == 0 || tasks[0].dispatch_id == dispatch_id {
        0
    } else {
        1 + position(tasks.skip(1), dispatch_id)
    }
}

/// The entries once `progress` is taken in: it replaces the entry for its dispatch, or else it
/// comes last.
pub open spec fn with_progress(
    tasks: Seq<TaskProgressState>,
    progress: TaskProgressState,
) -> Seq<TaskProgressState> {
    let at = position(tasks, progress.dispatch_id);
    if at < tasks.len() {
        tasks.update(at, progress)
    } else {
        tasks.push(progress)
    }
}

/// Whether an entry is for another dispatch.
pub open spec fn is_other(dispatch_id: u128) -> spec_fn(TaskProgressState) -> bool {
    |t: TaskProgressState| t.dispatch_id != dispatch_id
}

/// The entries without those for `dispatch_id`.
pub open spec fn without_dispatch(
    tasks: Seq<TaskProgressState>,
    dispatch_id: u128,
) -> Seq<TaskProgressState> {
    tasks.filter(is_other(dispatch_id))
}

/// Whether no two entries are for the same dispatch.
pub open spec fn distinct_dispatches(tasks: Seq<TaskProgressState>) -> bool {
    forall|i: int, j: int|
        0 <= i < j < tasks.len() ==> (#[trigger] tasks[i]).dispatch_id != (
        #[trigger] tasks[j]).dispatch_id
}

/// Whether some entry is for `dispatch_id`.
pub open spec fn has_dispatch(tasks: Seq<TaskProgressState>, dispatch_id: u128) -> bool {
    exists|i: int| 0 <= i < tasks.len() && (#[trigger] tasks[i]).dispatch_id == dispatch_id
}

/// What `position` points at.
pub proof fn lemma_position(tasks: Seq<TaskProgressState>, dispatch_id: u128)
    ensures
        0 <= position(tasks, dispatch_id) <= tasks.len(),
        position(tasks, dispatch_id) < tasks.len() <==> has_dispatch(tasks, dispatch_id),
        position(tasks, dispatch_id) < tasks.len() ==> tasks[position(
            tasks,
            dispatch_id,
        )].dispatch_id == dispatch_id,
        forall|j: int|
            0 <= j < position(tasks, dispatch_id) ==> (#[trigger] tasks[j]).dispatch_id
                != dispatch_id,
    decreases tasks.len(),
{
    if tasks.len() > 0 && tasks[0].dispatch_id != dispatch_id {
        let rest = tasks.skip(1);
        lemma_position(rest, dispatch_id);
        assert(forall|j: int| 0 <= j < rest.len() ==> rest[j] == #[trigger] tasks[j + 1]);
        assert forall|j: int| 0 <= j < position(tasks, dispatch_id) implies (
        #[trigger] tasks[j]).dispatch_id != dispatch_id by {
            if j > 0 {
                assert(rest[j - 1] == tasks[j]);
            }
        }
        if has_dispatch(tasks, dispatch_id) {
            let i = choose|i: int|
                0 <= i < tasks.len() && (#[trigger] tasks[i]).dispatch_id == dispatch_id;
            assert(rest[i - 1] == tasks[i]);
            assert(has_dispatch(rest, dispatch_id));
        }
    }
}

/// Takes `progress` in.
pub fn put_progress(tasks: &mut Vec<TaskProgressState>, progress: TaskProgressState)
    ensures
        final(tasks)@ == with_progress(old(tasks)@, progress),
{
    let ghost entries = tasks@;
    let mut i: usize = 0;
    assert(entries.skip(0) == entries);
    while i < tasks.len()
        invariant
            i <= tasks@.len(),
            tasks@ == entries,
            entries == old(tasks)@,
            position(entries, progress.dispatch_id) == i + position(
                entries.skip(i as int),
                progress.dispatch_id,
            ),
        decreases tasks@.len() - i,
    {
        assert(entries.skip(i as int)[0] == entries[i as int]);
        if tasks[i].dispatch_id == progress.dispatch_id {
            tasks.set(i, progress);
            return;
        }
        assert(entries.skip(i as int).skip(1) == entries.skip(i + 1));
        i = i + 1;
    }
    tasks.push(progress);
}

/// Drops the entries for `dispatch_id`.
pub fn drop_dispatch(tasks: &mut Vec<TaskProgressState>, dispatch_id: u128)
    ensures
        final(tasks)@ == without_dispatch(old(tasks)@, dispatch_id),
{
    let ghost entries = tasks@;
    let ghost keep = is_other(dispatch_id);
    let mut i: usize = tasks.len();
    proof {
        assert(entries.skip(i as int) == Seq::<TaskProgressState>::empty());
        reveal(Seq::filter);
        assert(tasks@ == entries.take(i as int) + entries.skip(i as int).filter(keep));
    }
    while i > 0
        invariant
            i <= entries.len(),
            keep == is_other(dispatch_id),
            tasks@ == entries.take(i as int) + entries.skip(i as int).filter(keep),
        decreases i,
    {
        i = i - 1;
        let ghost one = seq![entries[i as int]];
        let ghost tail = entries.skip(i + 1);
        proof {
            assert(entries.skip(i as int) == one + tail);
            Seq::filter_distributes_over_add(one, tail, keep);
            assert(one.drop_last() == Seq::<TaskProgressState>::empty());
            reveal_with_fuel(Seq::filter, 2);
            assert(tasks@[i as int] == entries[i as int]);
        }
        if tasks[i].dispatch_id == dispatch_id {
            assert(one.filter(keep) == Seq::<TaskProgressState>::empty());
            tasks.remove(i);
            assert(tasks@ == entries.take(i as int) + tail.filter(keep));
        } else {
            assert(one.filter(keep) == one);
            assert(entries.take(i + 1) == entries.take(i as int) + one);
        }
        assert(tasks@ == entries.take(i as int) + entries.skip(i as int).filter(keep));
    }
    assert(entries.skip(0) == entries);
    assert(entries.take(0) + entries.filter(keep) == entries.filter(keep));
}

} // verus!
