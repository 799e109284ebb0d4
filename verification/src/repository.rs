//! The store: rows scoped by namespace, kept in memory in insertion order.

use vstd::prelude::*;
use crate::clock::now_micros;
use crate::error::{RecordNotFound, TodoError};
use crate::status::TodoStatus;
use crate::todo::{Todo, TodoID, TodoView};

verus! {

/// The rows of a vector of todos, each as plain values.
pub open spec fn views(rows: Seq<Todo>) -> Seq<TodoView> {
    rows.map_values(|todo: Todo| todo@)
}

/// Whether `row` is the one that `namespace` and `id` together identify.
pub open spec fn has_key(row: TodoView, namespace: Seq<char>, id: int) -> bool {
    row.namespace == namespace && row.id == id
}

/// Whether some row carries the identity.
pub open spec fn holds(rows: Seq<TodoView>, namespace: Seq<char>, id: int) -> bool {
    exists|i: int| 0 <= i < rows.len() && has_key(#[trigger] rows[i], namespace, id)
}

/// The row with the identity, if there is one.
pub open spec fn lookup(rows: Seq<TodoView>, namespace: Seq<char>, id: int) -> Option<TodoView> {
    if holds(rows, namespace, id) {
        Some(rows[choose|i: int| 0 <= i < rows.len() && has_key(#[trigger] rows[i], namespace, id)])
    } else {
        None
    }
}

/// Whether a listing of `namespace`, narrowed to `status` if one is given,
/// shows `row`.
pub open spec fn selected(row: TodoView, namespace: Seq<char>, status: Option<TodoStatus>) -> bool {
    row.namespace == namespace && match status {
        Some(wanted) => row.status == wanted,
        None => true,
    }
}

/// The rows that a listing shows, in insertion order.
pub open spec fn select(
    rows: Seq<TodoView>,
    namespace: Seq<char>,
    status: Option<TodoStatus>,
) -> Seq<TodoView> {
    rows.filter(|row: TodoView| selected(row, namespace, status))
}

/// The largest id in use in `namespace`; 0 where it holds no row.
pub open spec fn max_id(rows: Seq<TodoView>, namespace: Seq<char>) -> int
    decreases rows.len(),
{
    if rows.len() == 0 {
        0
    } else {
        let before = max_id(rows.drop_last(), namespace);
        if rows.last().namespace == namespace && rows.last().id > before {
            rows.last().id
        } else {
            before
        }
    }
}

/// The id that the next row of `namespace` gets.
pub open spec fn next_id(rows: Seq<TodoView>, namespace: Seq<char>) -> int {
    max_id(rows, namespace) + 1
}

/// The row that an insert of `todo` writes: the store picks the id and stamps
/// both times.
pub open spec fn stored(todo: TodoView, id: int, now: int) -> TodoView {
    TodoView { id, created_at: now, updated_at: now, ..todo }
}

/// What an update with `todo` makes of the row it matches: content and status
/// are overwritten, the time of the write is stamped, the rest stays.
pub open spec fn overwritten(row: TodoView, todo: TodoView, now: int) -> TodoView {
    TodoView { content: todo.content, status: todo.status, updated_at: now, ..row }
}

/// The rows after an update with `todo`: the row with its identity is
/// overwritten, every other row stays.
pub open spec fn rewrite(rows: Seq<TodoView>, todo: TodoView, now: int) -> Seq<TodoView> {
    rows.map_values(
        |row: TodoView|
            if has_key(row, todo.namespace, todo.id) {
                overwritten(row, todo, now)
            } else {
                row
            },
    )
}

/// Whether `id` is among `ids`.
pub open spec fn listed(ids: Seq<i32>, id: int) -> bool {
    exists|k: int| 0 <= k < ids.len() && #[trigger] ids[k] as int == id
}

/// Whether a bulk delete of `ids` in `namespace` removes `row`.
pub open spec fn doomed(row: TodoView, namespace: Seq<char>, ids: Seq<i32>) -> bool {
    row.namespace == namespace && listed(ids, row.id)
}

/// The rows that a bulk delete leaves, in their old order.
pub open spec fn purge(rows: Seq<TodoView>, namespace: Seq<char>, ids: Seq<i32>) -> Seq<TodoView> {
    rows.filter(|row: TodoView| !doomed(row, namespace, ids))
}

/// What the store keeps true of its rows: ids are positive, and within one
/// namespace they ascend in insertion order, so no identity occurs twice.
/// Rows of different namespaces may share an id.
pub open spec fn rows_wf(rows: Seq<TodoView>) -> bool {
    &&& forall|i: int| 0 <= i < rows.len() ==> 0 < (#[trigger] rows[i]).id
    &&& forall|i: int, j: int|
        0 <= i < j < rows.len() && (#[trigger] rows[i]).namespace == (#[trigger] rows[j]).namespace
            ==> rows[i].id < rows[j].id
}

/// In a well-formed store a row that carries an identity is the one that a
/// lookup of that identity finds.
pub proof fn lemma_lookup_at(rows: Seq<TodoView>, i: int, namespace: Seq<char>, id: int)
    requires
        rows_wf(rows),
        0 <= i < rows.len(),
        has_key(rows[i], namespace, id),
    ensures
        lookup(rows, namespace, id) == Some(rows[i]),
{
    let j = choose|j: int| 0 <= j < rows.len() && has_key(#[trigger] rows[j], namespace, id);
    if j < i {
        assert(rows[j].id < rows[i].id);
    } else if i < j {
        assert(rows[i].id < rows[j].id);
    }
}

/// No row of a namespace has an id above `max_id`, which is never negative.
pub proof fn lemma_max_id_bounds(rows: Seq<TodoView>, namespace: Seq<char>)
    ensures
        0 <= max_id(rows, namespace),
        forall|i: int|
            0 <= i < rows.len() && (#[trigger] rows[i]).namespace == namespace ==> rows[i].id
                <= max_id(rows, namespace),
    decreases rows.len(),
{
    if rows.len() > 0 {
        lemma_max_id_bounds(rows.drop_last(), namespace);
        assert forall|i: int|
            0 <= i < rows.len() && (#[trigger] rows[i]).namespace == namespace implies rows[i].id
            <= max_id(rows, namespace) by {
            if i < rows.len() - 1 {
                assert(rows.drop_last()[i] == rows[i]);
            }
        }
    }
}

/// Removing rows keeps a store well formed, and every row that stays was
/// there before.
pub proof fn lemma_filter_keeps_wf(rows: Seq<TodoView>, keep: spec_fn(TodoView) -> bool)
    requires
        rows_wf(rows),
    ensures
        rows_wf(rows.filter(keep)),
        forall|a: int|
            0 <= a < rows.filter(keep).len() ==> exists|j: int|
                0 <= j < rows.len() && rows[j] == #[trigger] rows.filter(keep)[a],
    decreases rows.len(),
{
    reveal(Seq::filter);
    if rows.len() > 0 {
        let front = rows.drop_last();
        assert forall|i: int| 0 <= i < front.len() implies front[i] == rows[i] by {}
        assert(rows_wf(front));
        lemma_filter_keeps_wf(front, keep);
        let kept = front.filter(keep);
        let all = rows.filter(keep);
        assert forall|a: int| 0 <= a < all.len() implies exists|j: int|
            0 <= j < rows.len() && rows[j] == #[trigger] all[a] by {
            if a < kept.len() {
                assert(all[a] == kept[a]);
                let j = choose|j: int| 0 <= j < front.len() && front[j] == kept[a];
                assert(rows[j] == all[a]);
            } else {
                assert(rows[rows.len() - 1] == all[a]);
            }
        }
        if keep(rows.last()) {
            assert forall|a: int, b: int|
                0 <= a < b < all.len() && (#[trigger] all[a]).namespace == (
                #[trigger] all[b]).namespace implies all[a].id < all[b].id by {
                if b < kept.len() {
                    assert(all[a] == kept[a] && all[b] == kept[b]);
                } else {
                    assert(all[a] == kept[a]);
                    let j = choose|j: int| 0 <= j < front.len() && front[j] == kept[a];
                    assert(rows[j] == all[a]);
                    assert(rows[rows.len() - 1] == all[b]);
                }
            }
            assert forall|a: int| 0 <= a < all.len() implies 0 < (#[trigger] all[a]).id by {
                if a < kept.len() {
                    assert(all[a] == kept[a]);
                } else {
                    assert(rows[rows.len() - 1] == all[a]);
                }
            }
        }
    }
}

/// How many rows a bulk delete of `ids` in `namespace` removes.
pub open spec fn removed(rows: Seq<TodoView>, namespace: Seq<char>, ids: Seq<i32>) -> int {
    rows.len() - purge(rows, namespace, ids).len()
}

/// A filter that every row passes changes nothing.
pub proof fn lemma_filter_keeps_all(rows: Seq<TodoView>, keep: spec_fn(TodoView) -> bool)
    requires
        forall|i: int| 0 <= i < rows.len() ==> keep(#[trigger] rows[i]),
    ensures
        rows.filter(keep) == rows,
    decreases rows.len(),
{
    reveal(Seq::filter);
    if rows.len() > 0 {
        let front = rows.drop_last();
        assert forall|i: int| 0 <= i < front.len() implies keep(#[trigger] front[i]) by {
            assert(front[i] == rows[i]);
        }
        lemma_filter_keeps_all(front, keep);
        assert(keep(rows[rows.len() - 1]));
        assert(front.push(rows.last()) =~= rows);
    }
}

/// A bulk delete of no ids removes nothing.
pub proof fn lemma_purge_nothing(rows: Seq<TodoView>, namespace: Seq<char>)
    ensures
        purge(rows, namespace, Seq::<i32>::empty()) == rows,
        removed(rows, namespace, Seq::<i32>::empty()) == 0,
{
    let stays = |row: TodoView| !doomed(row, namespace, Seq::<i32>::empty());
    lemma_filter_keeps_all(rows, stays);
}

/// A bulk delete of a single id removes one row where the namespace holds
/// the id, and none where it does not.
pub proof fn lemma_removed_single(rows: Seq<TodoView>, namespace: Seq<char>, id: i32)
    requires
        rows_wf(rows),
    ensures
        removed(rows, namespace, seq![id]) == if holds(rows, namespace, id as int) {
            1int
        } else {
            0int
        },
    decreases rows.len(),
{
    reveal(Seq::filter);
    let ids = seq![id];
    let stays = |row: TodoView| !doomed(row, namespace, ids);
    assert(ids[0] == id);
    if rows.len() > 0 {
        let front = rows.drop_last();
        let last = rows.last();
        assert forall|i: int| 0 <= i < front.len() implies front[i] == rows[i] by {}
        assert(rows_wf(front));
        lemma_removed_single(front, namespace, id);
        if has_key(last, namespace, id as int) {
            assert(rows[rows.len() - 1] == last);
            assert(doomed(last, namespace, ids));
            if holds(front, namespace, id as int) {
                let i = choose|i: int|
                    0 <= i < front.len() && has_key(#[trigger] front[i], namespace, id as int);
                assert(rows[i] == front[i]);
                assert(rows[i].id < rows[rows.len() - 1].id);
            }
        } else {
            assert(!doomed(last, namespace, ids));
            if holds(front, namespace, id as int) {
                let i = choose|i: int|
                    0 <= i < front.len() && has_key(#[trigger] front[i], namespace, id as int);
                assert(rows[i] == front[i]);
            }
            if holds(rows, namespace, id as int) {
                let i = choose|i: int|
                    0 <= i < rows.len() && has_key(#[trigger] rows[i], namespace, id as int);
                assert(front[i] == rows[i]);
            }
        }
    }
}

/// The in-memory store of todos.
pub struct TodoRepository {
    rows: Vec<Todo>,
}

impl View for TodoRepository {
    type V = Seq<TodoView>;

    closed spec fn view(&self) -> Seq<TodoView> {
        views(self.rows@)
    }
}

impl TodoRepository {
    /// Whether the rows are as the store keeps them.
    pub open spec fn wf(&self) -> bool {
        rows_wf(self@)
    }

    /// An empty store.
    pub fn new() -> (repo: TodoRepository)
        ensures
            repo@ == Seq::<TodoView>::empty(),
            repo.wf(),
    {
        let repo = TodoRepository { rows: Vec::new() };
        assert(repo@ =~= Seq::<TodoView>::empty());
        repo
    }

    /// A store over rows that were saved before. They are taken only where
    /// they are as a store keeps them: positive ids, ascending within each
    /// namespace.
    pub fn from_rows(rows: Vec<Todo>) -> (repo: Option<TodoRepository>)
        ensures
            match repo {
                Some(store) => store@ == views(rows@) && store.wf(),
                None => !rows_wf(views(rows@)),
            },
    {
        let ghost all = views(rows@);
        let mut j: usize = 0;
        while j < rows.len()
            invariant
                j <= rows.len(),
                all == views(rows@),
                forall|b: int| 0 <= b < j ==> 0 < (#[trigger] all[b]).id,
                forall|a: int, b: int|
                    0 <= a < b < j && (#[trigger] all[a]).namespace == (#[trigger] all[b]).namespace
                        ==> all[a].id < all[b].id,
            decreases rows.len() - j,
        {
            if rows[j].id.1 <= 0 {
                assert(!(0 < all[j as int].id));
                return None;
            }
            let mut i: usize = 0;
            while i < j
                invariant
                    i <= j < rows.len(),
                    all == views(rows@),
                    forall|a: int|
                        0 <= a < i && (#[trigger] all[a]).namespace == all[j as int].namespace
                            ==> all[a].id < all[j as int].id,
                decreases j - i,
            {
                if rows[i].id.0 == rows[j].id.0 && rows[i].id.1 >= rows[j].id.1 {
                    assert(all[i as int].namespace == all[j as int].namespace && !(all[i as int].id
                        < all[j as int].id));
                    return None;
                }
                i += 1;
            }
            j += 1;
        }
        Some(TodoRepository { rows })
    }

    /// The number of rows, over all namespaces.
    pub fn len(&self) -> (count: usize)
        ensures
            count == self@.len(),
    {
        self.rows.len()
    }

    /// The place of the row with the identity, if the store holds it.
    fn index_of(&self, namespace: &String, id: i32) -> (found: Option<usize>)
        ensures
            match found {
                Some(i) => i < self@.len() && has_key(self@[i as int], namespace@, id as int),
                None => !holds(self@, namespace@, id as int),
            },
    {
        let mut i: usize = 0;
        while i < self.rows.len()
            invariant
                i <= self.rows.len(),
                forall|k: int| 0 <= k < i ==> !has_key(#[trigger] self@[k], namespace@, id as int),
            decreases self.rows.len() - i,
        {
            let row = &self.rows[i];
            if row.id.1 == id && row.id.0 == *namespace {
                return Some(i);
            }
            i += 1;
        }
        None
    }

    /// The row that matches both the namespace and the id, or
    /// `RecordNotFound` where none does.
    pub fn query_by_id(&self, id: TodoID) -> (found: Result<Todo, RecordNotFound>)
        requires
            self.wf(),
        ensures
            match lookup(self@, id.0@, id.1 as int) {
                Some(row) => found matches Ok(todo) && todo@ == row,
                None => found is Err,
            },
    {
        match self.index_of(&id.0, id.1) {
            Some(i) => {
                proof {
                    lemma_lookup_at(self@, i as int, id.0@, id.1 as int);
                }
                Ok(self.rows[i].clone())
            },
            None => Err(RecordNotFound),
        }
    }

    /// Every row of the namespace, or only those in `status` where one is
    /// given, in insertion order: ascending by id.
    pub fn query_todos(&self, namespace: String, status: Option<TodoStatus>) -> (found: Vec<Todo>)
        ensures
            views(found@) == select(self@, namespace@, status),
    {
        let mut found: Vec<Todo> = Vec::new();
        let mut i: usize = 0;
        let ghost shown = |row: TodoView| selected(row, namespace@, status);
        proof {
            reveal(Seq::filter);
            assert(self@.take(0) =~= Seq::<TodoView>::empty());
            assert(views(found@) =~= self@.take(0).filter(shown));
        }
        while i < self.rows.len()
            invariant
                i <= self.rows.len(),
                shown == |row: TodoView| selected(row, namespace@, status),
                views(found@) == self@.take(i as int).filter(shown),
            decreases self.rows.len() - i,
        {
            let row = &self.rows[i];
            let wanted = match status {
                Some(value) => row.status == value,
                None => true,
            };
            let ghost before = views(found@);
            if row.id.0 == namespace && wanted {
                found.push(row.clone());
                assert(views(found@) =~= before.push(row@));
            }
            proof {
                reveal(Seq::filter);
                assert(self@.take(i + 1).drop_last() =~= self@.take(i as int));
                assert(self@.take(i + 1).last() == row@);
            }
            i += 1;
        }
        assert(self@.take(i as int) =~= self@);
        found
    }

    /// Whether `id` is among `ids`.
    fn mentions(ids: &Vec<i32>, id: i32) -> (found: bool)
        ensures
            found == listed(ids@, id as int),
    {
        let mut k: usize = 0;
        while k < ids.len()
            invariant
                k <= ids.len(),
                forall|m: int| 0 <= m < k ==> #[trigger] ids@[m] as int != id as int,
            decreases ids.len() - k,
        {
            if ids[k] == id {
                return true;
            }
            k += 1;
        }
        false
    }

    /// Stores `todo` as a new row of its namespace at clock reading `now`.
    /// The store assigns the id, one above the largest in the namespace, and
    /// sets both timestamps to `now`; namespace, content and status are kept
    /// as given. Fails, and stores nothing, only where the namespace has used
    /// up the ids.
    pub fn insert_todo_at(&mut self, todo: Todo, now: i64) -> (saved: Result<Todo, TodoError>)
        requires
            old(self).wf(),
        ensures
            final(self).wf(),
            match saved {
                Ok(row) => {
                    &&& next_id(old(self)@, todo@.namespace) <= i32::MAX
                    &&& row@ == stored(todo@, next_id(old(self)@, todo@.namespace), now as int)
                    &&& final(self)@ == old(self)@.push(row@)
                },
                Err(error) => {
                    &&& next_id(old(self)@, todo@.namespace) > i32::MAX
                    &&& error == TodoError::IdsExhausted
                    &&& final(self)@ == old(self)@
                },
            },
    {
        let mut top: i32 = 0;
        let mut i: usize = 0;
        while i < self.rows.len()
            invariant
                i <= self.rows.len(),
                top as int == max_id(self@.take(i as int), todo@.namespace),
            decreases self.rows.len() - i,
        {
            let row = &self.rows[i];
            proof {
                assert(self@.take(i + 1).drop_last() =~= self@.take(i as int));
                assert(self@.take(i + 1).last() == row@);
            }
            if row.id.0 == todo.id.0 && row.id.1 > top {
                top = row.id.1;
            }
            i += 1;
        }
        proof {
            assert(self@.take(i as int) =~= self@);
            lemma_max_id_bounds(self@, todo@.namespace);
        }
        if top == i32::MAX {
            return Err(TodoError::IdsExhausted);
        }
        let Todo { id, content, status, created_at: _, updated_at: _ } = todo;
        let row = Todo { id: (id.0, top + 1), content, status, created_at: now, updated_at: now };
        let saved = row.clone();
        let ghost before = self@;
        self.rows.push(row);
        proof {
            assert(self@ =~= before.push(saved@));
        }
        Ok(saved)
    }

    /// Stores `todo` as a new row, stamped with the current time. As
    /// `insert_todo_at`, at whatever the clock reads.
    pub fn insert_todo(&mut self, todo: Todo) -> (saved: Result<Todo, TodoError>)
        requires
            old(self).wf(),
        ensures
            final(self).wf(),
            match saved {
                Ok(row) => {
                    &&& next_id(old(self)@, todo@.namespace) <= i32::MAX
                    &&& row@ == stored(
                        todo@,
                        next_id(old(self)@, todo@.namespace),
                        row@.created_at,
                    )
                    &&& final(self)@ == old(self)@.push(row@)
                },
                Err(error) => {
                    &&& next_id(old(self)@, todo@.namespace) > i32::MAX
                    &&& error == TodoError::IdsExhausted
                    &&& final(self)@ == old(self)@
                },
            },
    {
        let now: i64 = now_micros();
        self.insert_todo_at(todo, now)
    }

    /// Overwrites content and status of the row that `todo` identifies and
    /// stamps `now` as the time of the write, whatever time `todo` carries.
    /// Namespace, id and creation time of the row stay. Where no row matches,
    /// nothing is written and `RecordNotFound` comes back.
    pub fn update_todo_at(&mut self, todo: Todo, now: i64) -> (saved: Result<Todo, RecordNotFound>)
        requires
            old(self).wf(),
        ensures
            final(self).wf(),
            final(self)@ == rewrite(old(self)@, todo@, now as int),
            match lookup(old(self)@, todo@.namespace, todo@.id) {
                Some(row) => saved matches Ok(written) && written@ == overwritten(
                    row,
                    todo@,
                    now as int,
                ),
                None => saved is Err && final(self)@ == old(self)@,
            },
    {
        let ghost before = self@;
        match self.index_of(&todo.id.0, todo.id.1) {
            Some(i) => {
                proof {
                    lemma_lookup_at(before, i as int, todo@.namespace, todo@.id);
                }
                let current = &self.rows[i];
                let written = Todo {
                    id: (todo.id.0, todo.id.1),
                    content: todo.content,
                    status: todo.status,
                    created_at: current.created_at,
                    updated_at: now,
                };
                let saved = written.clone();
                self.rows.set(i, written);
                proof {
                    let after = rewrite(before, todo@, now as int);
                    assert forall|j: int| 0 <= j < before.len() implies self@[j] == after[j] by {
                        if j != i && has_key(before[j], todo@.namespace, todo@.id) {
                            lemma_lookup_at(before, j, todo@.namespace, todo@.id);
                            if j < i {
                                assert(before[j].id < before[i as int].id);
                            } else {
                                assert(before[i as int].id < before[j].id);
                            }
                        }
                    }
                    assert(self@ =~= after);
                }
                Ok(saved)
            },
            None => {
                proof {
                    assert(self@ =~= rewrite(before, todo@, now as int));
                }
                Err(RecordNotFound)
            },
        }
    }

    /// Overwrites the row that `todo` identifies, stamped with the current
    /// time. As `update_todo_at`, at whatever the clock reads.
    pub fn update_todo(&mut self, todo: Todo) -> (saved: Result<Todo, RecordNotFound>)
        requires
            old(self).wf(),
        ensures
            final(self).wf(),
            match lookup(old(self)@, todo@.namespace, todo@.id) {
                Some(row) => {
                    &&& saved matches Ok(written)
                    &&& written@ == overwritten(row, todo@, written@.updated_at)
                    &&& final(self)@ == rewrite(old(self)@, todo@, written@.updated_at)
                },
                None => saved is Err && final(self)@ == old(self)@,
            },
    {
        let now: i64 = now_micros();
        self.update_todo_at(todo, now)
    }

    /// Removes for good every row of `namespace` whose id is among `ids`; all
    /// other rows stay, in their order. Tells whether as many rows went as
    /// ids were asked for: `false` is no error, it shows that some id matched
    /// no row, or was asked for twice.
    pub fn clear_todos(&mut self, namespace: String, ids: Vec<i32>) -> (complete: bool)
        requires
            old(self).wf(),
        ensures
            final(self).wf(),
            final(self)@ == purge(old(self)@, namespace@, ids@),
            complete == (removed(old(self)@, namespace@, ids@) == ids@.len()),
            ids@.len() == 0 ==> complete && final(self)@ == old(self)@,
    {
        let mut kept: Vec<Todo> = Vec::new();
        let mut i: usize = 0;
        let ghost stays = |row: TodoView| !doomed(row, namespace@, ids@);
        proof {
            reveal(Seq::filter);
            assert(self@.take(0) =~= Seq::<TodoView>::empty());
            assert(views(kept@) =~= self@.take(0).filter(stays));
        }
        while i < self.rows.len()
            invariant
                i <= self.rows.len(),
                stays == |row: TodoView| !doomed(row, namespace@, ids@),
                views(kept@) == self@.take(i as int).filter(stays),
                kept@.len() <= i,
            decreases self.rows.len() - i,
        {
            let row = &self.rows[i];
            let ghost before = views(kept@);
            if !(row.id.0 == namespace && Self::mentions(&ids, row.id.1)) {
                kept.push(row.clone());
                assert(views(kept@) =~= before.push(row@));
            }
            proof {
                reveal(Seq::filter);
                assert(self@.take(i + 1).drop_last() =~= self@.take(i as int));
                assert(self@.take(i + 1).last() == row@);
            }
            i += 1;
        }
        proof {
            assert(self@.take(i as int) =~= self@);
            lemma_filter_keeps_wf(self@, stays);
            if ids@.len() == 0 {
                assert(ids@ =~= Seq::<i32>::empty());
                lemma_purge_nothing(self@, namespace@);
            }
        }
        let gone: usize = self.rows.len() - kept.len();
        self.rows = kept;
        gone == ids.len()
    }

    /// Removes for good the row that `todo` identifies, and tells whether
    /// there was one. Only the identity of `todo` is used.
    pub fn delete_todo(&mut self, todo: Todo) -> (deleted: bool)
        requires
            old(self).wf(),
        ensures
            final(self).wf(),
            final(self)@ == purge(old(self)@, todo@.namespace, seq![todo.id.1]),
            deleted == holds(old(self)@, todo@.namespace, todo@.id),
    {
        let mut ids: Vec<i32> = Vec::new();
        ids.push(todo.id.1);
        proof {
            assert(ids@ =~= seq![todo.id.1]);
            lemma_removed_single(self@, todo@.namespace, todo.id.1);
        }
        self.clear_todos(todo.id.0, ids)
    }
}

} // verus!
