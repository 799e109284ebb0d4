//! What holds of the store across calls: namespaces do not see each other,
//! and a bulk delete removes at most what it was asked for.

use vstd::prelude::*;
use crate::repository::{
    doomed, has_key, holds, lemma_filter_keeps_wf, lemma_lookup_at, lemma_purge_nothing, listed,
    lookup, overwritten, purge, removed, rewrite, rows_wf, select, selected,
};
use crate::domain::moved;
use crate::error::TodoError;
use crate::status::TodoStatus;
use crate::todo::{patched, TodoView};
use crate::transition::{step, Transition};

verus! {

/// A listing of a namespace shows rows of that namespace only, and of the
/// status asked for, whatever their ids.
pub proof fn lemma_listing_stays_in_namespace(
    rows: Seq<TodoView>,
    namespace: Seq<char>,
    status: Option<TodoStatus>,
    k: int,
)
    requires
        0 <= k < select(rows, namespace, status).len(),
    ensures
        selected(select(rows, namespace, status)[k], namespace, status),
        select(rows, namespace, status)[k].namespace == namespace,
        rows.contains(select(rows, namespace, status)[k]),
{
    let shown = |row: TodoView| selected(row, namespace, status);
    rows.lemma_filter_pred(shown, k);
    assert(rows.filter(shown).contains(rows.filter(shown)[k]));
    rows.lemma_filter_contains_rev(shown, rows.filter(shown)[k]);
}

/// A lookup under a namespace finds a row of that namespace only, with the
/// id asked for.
pub proof fn lemma_lookup_stays_in_namespace(rows: Seq<TodoView>, namespace: Seq<char>, id: int)
    ensures
        lookup(rows, namespace, id) matches Some(row) ==> has_key(row, namespace, id)
            && rows.contains(row),
        lookup(rows, namespace, id) is Some <==> holds(rows, namespace, id),
{
}

/// A row that enters one namespace changes no listing and no lookup of any
/// other namespace, even where its id is in use there too.
pub proof fn lemma_namespaces_are_isolated(
    rows: Seq<TodoView>,
    created: TodoView,
    other: Seq<char>,
    status: Option<TodoStatus>,
    id: int,
)
    requires
        rows_wf(rows.push(created)),
        created.namespace != other,
    ensures
        select(rows.push(created), other, status) == select(rows, other, status),
        lookup(rows.push(created), other, id) == lookup(rows, other, id),
{
    let after = rows.push(created);
    let shown = |row: TodoView| selected(row, other, status);
    assert(after.drop_last() =~= rows);
    assert(after.filter(shown) == rows.filter(shown)) by {
        reveal(Seq::filter);
    }
    if holds(rows, other, id) {
        let i = choose|i: int| 0 <= i < rows.len() && has_key(#[trigger] rows[i], other, id);
        assert(after[i] == rows[i]);
        lemma_lookup_at(after, i, other, id);
    } else {
        assert forall|i: int| 0 <= i < after.len() implies !has_key(
            #[trigger] after[i],
            other,
            id,
        ) by {
            if i < rows.len() {
                assert(after[i] == rows[i]);
            }
        }
    }
}

/// A listing comes in insertion order: its ids ascend strictly.
pub proof fn lemma_listing_ascends(
    rows: Seq<TodoView>,
    namespace: Seq<char>,
    status: Option<TodoStatus>,
    a: int,
    b: int,
)
    requires
        rows_wf(rows),
        0 <= a < b < select(rows, namespace, status).len(),
    ensures
        select(rows, namespace, status)[a].id < select(rows, namespace, status)[b].id,
{
    let shown = |row: TodoView| selected(row, namespace, status);
    lemma_filter_keeps_wf(rows, shown);
    rows.lemma_filter_pred(shown, a);
    rows.lemma_filter_pred(shown, b);
}

/// An update moves no row and changes no identity and no creation time: the
/// store stays well formed, and each row keeps its place, namespace and id.
pub proof fn lemma_update_keeps_identity(rows: Seq<TodoView>, todo: TodoView, now: int)
    requires
        rows_wf(rows),
    ensures
        rows_wf(rewrite(rows, todo, now)),
        rewrite(rows, todo, now).len() == rows.len(),
        forall|i: int|
            0 <= i < rows.len() ==> {
                &&& (#[trigger] rewrite(rows, todo, now)[i]).namespace == rows[i].namespace
                &&& rewrite(rows, todo, now)[i].id == rows[i].id
                &&& rewrite(rows, todo, now)[i].created_at == rows[i].created_at
            },
{
    let after = rewrite(rows, todo, now);
    assert forall|i: int, j: int|
        0 <= i < j < after.len() && (#[trigger] after[i]).namespace == (
        #[trigger] after[j]).namespace implies after[i].id < after[j].id by {
        assert(rows[i].namespace == rows[j].namespace);
    }
    assert forall|i: int| 0 <= i < after.len() implies 0 < (#[trigger] after[i]).id by {
        assert(0 < rows[i].id);
    }
}

/// A write at a later clock reading raises the time of the last update, and
/// never touches the time of creation.
pub proof fn lemma_later_write_raises_stamp(row: TodoView, todo: TodoView, now: int)
    requires
        row.updated_at < now,
    ensures
        row.updated_at < overwritten(row, todo, now).updated_at,
        overwritten(row, todo, now).created_at == row.created_at,
{
}

/// A patch that names no field leaves the entity as it was, so the update
/// that writes it changes nothing but the time of the write.
pub proof fn lemma_empty_patch_changes_only_the_stamp(row: TodoView, now: int)
    ensures
        patched(row, None, None) == row,
        overwritten(row, patched(row, None, None), now) == (TodoView { updated_at: now, ..row }),
{
}

/// After a bulk delete the rows that were asked for are gone and all others
/// are still there.
pub proof fn lemma_purge_membership(
    rows: Seq<TodoView>,
    namespace: Seq<char>,
    ids: Seq<i32>,
    row: TodoView,
)
    ensures
        purge(rows, namespace, ids).contains(row) <==> rows.contains(row) && !doomed(
            row,
            namespace,
            ids,
        ),
{
    let stays = |row: TodoView| !doomed(row, namespace, ids);
    if purge(rows, namespace, ids).contains(row) {
        rows.lemma_filter_contains_rev(stays, row);
        let k = choose|k: int| 0 <= k < rows.filter(stays).len() && rows.filter(stays)[k] == row;
        rows.lemma_filter_pred(stays, k);
    }
    if rows.contains(row) && !doomed(row, namespace, ids) {
        let i = choose|i: int| 0 <= i < rows.len() && rows[i] == row;
        rows.lemma_filter_contains(stays, i);
    }
}

/// One more id in the request removes at most one more row, and none where
/// the namespace holds no row with that id.
proof fn lemma_removed_step(rows: Seq<TodoView>, namespace: Seq<char>, ids: Seq<i32>, extra: i32)
    requires
        rows_wf(rows),
    ensures
        removed(rows, namespace, ids.push(extra)) <= removed(rows, namespace, ids) + (if holds(
            rows,
            namespace,
            extra as int,
        ) {
            1int
        } else {
            0int
        }),
    decreases rows.len(),
{
    reveal(Seq::filter);
    let more = ids.push(extra);
    if rows.len() > 0 {
        let front = rows.drop_last();
        let last = rows.last();
        assert forall|i: int| 0 <= i < front.len() implies front[i] == rows[i] by {}
        assert(rows_wf(front));
        lemma_removed_step(front, namespace, ids, extra);
        assert(more[ids.len() as int] == extra);
        assert forall|k: int| 0 <= k < ids.len() implies more[k] == ids[k] by {}
        if has_key(last, namespace, extra as int) {
            assert(rows[rows.len() - 1] == last);
            assert(holds(rows, namespace, extra as int));
            if holds(front, namespace, extra as int) {
                let i = choose|i: int|
                    0 <= i < front.len() && has_key(#[trigger] front[i], namespace, extra as int);
                assert(rows[i] == front[i]);
                assert(rows[i].id < rows[rows.len() - 1].id);
            }
        } else {
            if listed(more, last.id) {
                let k = choose|k: int| 0 <= k < more.len() && #[trigger] more[k] as int == last.id;
                if k < ids.len() {
                    assert(ids[k] as int == last.id);
                }
            }
            if listed(ids, last.id) {
                let k = choose|k: int| 0 <= k < ids.len() && #[trigger] ids[k] as int == last.id;
                assert(more[k] as int == last.id);
            }
            assert(doomed(last, namespace, more) == doomed(last, namespace, ids));
            if holds(front, namespace, extra as int) {
                let i = choose|i: int|
                    0 <= i < front.len() && has_key(#[trigger] front[i], namespace, extra as int);
                assert(rows[i] == front[i]);
                assert(holds(rows, namespace, extra as int));
            }
        }
    }
}

/// A bulk delete never removes more rows than ids were asked for.
pub proof fn lemma_removed_at_most_requested(
    rows: Seq<TodoView>,
    namespace: Seq<char>,
    ids: Seq<i32>,
)
    requires
        rows_wf(rows),
    ensures
        0 <= removed(rows, namespace, ids) <= ids.len(),
    decreases ids.len(),
{
    let stays = |row: TodoView| !doomed(row, namespace, ids);
    rows.lemma_filter_len(stays);
    if ids.len() == 0 {
        assert(ids =~= Seq::<i32>::empty());
        lemma_purge_nothing(rows, namespace);
    } else {
        let rest = ids.drop_last();
        assert(rest.push(ids.last()) =~= ids);
        lemma_removed_at_most_requested(rows, namespace, rest);
        lemma_removed_step(rows, namespace, rest, ids.last());
    }
}

/// Where one of the requested ids matches no row of the namespace, a bulk
/// delete removes fewer rows than ids were asked for: the store reports the
/// mismatch, and the rows that do match are removed all the same.
pub proof fn lemma_missing_id_shows(
    rows: Seq<TodoView>,
    namespace: Seq<char>,
    ids: Seq<i32>,
    k: int,
)
    requires
        rows_wf(rows),
        0 <= k < ids.len(),
        !holds(rows, namespace, ids[k] as int),
    ensures
        removed(rows, namespace, ids) < ids.len(),
    decreases ids.len(),
{
    let rest = ids.drop_last();
    assert(rest.push(ids.last()) =~= ids);
    lemma_removed_step(rows, namespace, rest, ids.last());
    if k == ids.len() - 1 {
        lemma_removed_at_most_requested(rows, namespace, rest);
    } else {
        assert(rest[k] == ids[k]);
        lemma_missing_id_shows(rows, namespace, rest, k);
    }
}

/// A row that was just inserted is the one that a lookup of its identity
/// finds.
pub proof fn lemma_insert_then_lookup(rows: Seq<TodoView>, created: TodoView)
    requires
        rows_wf(rows.push(created)),
    ensures
        lookup(rows.push(created), created.namespace, created.id) == Some(created),
{
    let after = rows.push(created);
    assert(after[rows.len() as int] == created);
    lemma_lookup_at(after, rows.len() as int, created.namespace, created.id);
}

/// After an update a lookup of the updated identity finds the overwritten
/// row, and a lookup of any other identity finds what it found before.
pub proof fn lemma_update_then_lookup(
    rows: Seq<TodoView>,
    todo: TodoView,
    now: int,
    namespace: Seq<char>,
    id: int,
)
    requires
        rows_wf(rows),
    ensures
        lookup(rewrite(rows, todo, now), namespace, id) == match lookup(rows, namespace, id) {
            Some(row) => Some(
                if todo.namespace == namespace && todo.id == id {
                    overwritten(row, todo, now)
                } else {
                    row
                },
            ),
            None => None,
        },
{
    let after = rewrite(rows, todo, now);
    lemma_update_keeps_identity(rows, todo, now);
    if holds(rows, namespace, id) {
        let i = choose|i: int| 0 <= i < rows.len() && has_key(#[trigger] rows[i], namespace, id);
        assert(has_key(after[i], namespace, id));
        lemma_lookup_at(after, i, namespace, id);
        lemma_lookup_at(rows, i, namespace, id);
    } else {
        assert forall|k: int| 0 <= k < after.len() implies !has_key(
            #[trigger] after[k],
            namespace,
            id,
        ) by {
            assert(!has_key(rows[k], namespace, id));
        }
    }
}

/// After a bulk delete a lookup of a removed identity finds nothing, and a
/// lookup of any other identity finds what it found before.
pub proof fn lemma_purge_then_lookup(
    rows: Seq<TodoView>,
    cleared: Seq<char>,
    ids: Seq<i32>,
    namespace: Seq<char>,
    id: int,
)
    requires
        rows_wf(rows),
    ensures
        lookup(purge(rows, cleared, ids), namespace, id) == if namespace == cleared && listed(
            ids,
            id,
        ) {
            None
        } else {
            lookup(rows, namespace, id)
        },
{
    let stays = |row: TodoView| !doomed(row, cleared, ids);
    let after = purge(rows, cleared, ids);
    lemma_filter_keeps_wf(rows, stays);
    if namespace == cleared && listed(ids, id) {
        assert forall|k: int| 0 <= k < after.len() implies !has_key(
            #[trigger] after[k],
            namespace,
            id,
        ) by {
            rows.lemma_filter_pred(stays, k);
        }
    } else if holds(rows, namespace, id) {
        let i = choose|i: int| 0 <= i < rows.len() && has_key(#[trigger] rows[i], namespace, id);
        lemma_lookup_at(rows, i, namespace, id);
        rows.lemma_filter_contains(stays, i);
        let k = choose|k: int| 0 <= k < after.len() && after[k] == rows[i];
        lemma_lookup_at(after, k, namespace, id);
    } else {
        assert forall|k: int| 0 <= k < after.len() implies !has_key(
            #[trigger] after[k],
            namespace,
            id,
        ) by {
            let j = choose|j: int| 0 <= j < rows.len() && rows[j] == after[k];
            assert(!has_key(rows[j], namespace, id));
        }
    }
}

/// Two toggles in a row, through the store, lead back: where the stored
/// status is `Todo` or `Done`, the first toggle is accepted, the second finds
/// the status that the first wrote and is accepted too, and the row then has
/// its first status, content and time of creation again.
pub proof fn lemma_toggle_round_trip(
    rows: Seq<TodoView>,
    namespace: Seq<char>,
    id: int,
    first: int,
    second: int,
)
    requires
        rows_wf(rows),
        lookup(rows, namespace, id) matches Some(row) && (row.status == TodoStatus::Todo
            || row.status == TodoStatus::Done),
    ensures
        ({
            let row = lookup(rows, namespace, id)->0;
            let there = step(Transition::Toggle, row.status)->Ok_0;
            let once = rewrite(rows, moved(row, there), first);
            let middle = lookup(once, namespace, id)->0;
            let back = step(Transition::Toggle, middle.status)->Ok_0;
            let twice = rewrite(once, moved(middle, back), second);
            &&& step(Transition::Toggle, row.status) is Ok
            &&& lookup(once, namespace, id) == Some(overwritten(row, moved(row, there), first))
            &&& step(Transition::Toggle, middle.status) == Ok::<TodoStatus, TodoError>(row.status)
            &&& lookup(twice, namespace, id) == Some(TodoView { updated_at: second, ..row })
        }),
{
    let row = lookup(rows, namespace, id)->0;
    let there = step(Transition::Toggle, row.status)->Ok_0;
    let once = rewrite(rows, moved(row, there), first);
    lemma_update_then_lookup(rows, moved(row, there), first, namespace, id);
    lemma_update_keeps_identity(rows, moved(row, there), first);
    let middle = lookup(once, namespace, id)->0;
    let back = step(Transition::Toggle, middle.status)->Ok_0;
    lemma_update_then_lookup(once, moved(middle, back), second, namespace, id);
}

} // verus!
