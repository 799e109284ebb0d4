//! The business surface: every operation reads the stored entity afresh,
//! decides, and writes last.

use vstd::prelude::*;
use crate::clock::now_micros;
use crate::error::TodoError;
use crate::repository::{
    lookup, next_id, overwritten, purge, rewrite, rows_wf, select, stored, views, TodoRepository,
};
use crate::status::TodoStatus;
use crate::todo::{fresh, Todo, TodoID, TodoView, UpdateTodo};
use crate::transition::{step, Transition};

verus! {

/// The todo domain over the in-memory store.
pub struct TodoDomain {
    repo: TodoRepository,
}

impl View for TodoDomain {
    type V = Seq<TodoView>;

    closed spec fn view(&self) -> Seq<TodoView> {
        self.repo@
    }
}

/// The entity that a checked move to `next` writes over `row`.
pub open spec fn moved(row: TodoView, next: TodoStatus) -> TodoView {
    TodoView { status: next, ..row }
}

impl TodoDomain {
    /// Whether the rows are as the store keeps them.
    pub open spec fn wf(&self) -> bool {
        rows_wf(self@)
    }

    /// A domain over an empty store.
    pub fn new() -> (domain: TodoDomain)
        ensures
            domain@ == Seq::<TodoView>::empty(),
            domain.wf(),
    {
        TodoDomain { repo: TodoRepository::new() }
    }

    /// The entity with the identity, or `RecordNotFound` where the namespace
    /// holds no row with the id.
    pub fn get_todo_by_id(&self, id: TodoID) -> (found: Result<Todo, TodoError>)
        requires
            self.wf(),
        ensures
            match lookup(self@, id.0@, id.1 as int) {
                Some(row) => found matches Ok(todo) && todo@ == row,
                None => found == Err::<Todo, TodoError>(TodoError::RecordNotFound),
            },
    {
        match self.repo.query_by_id(id) {
            Ok(todo) => Ok(todo),
            Err(cause) => Err(TodoError::not_found(cause)),
        }
    }

    /// All entities of the namespace, or those in `status` where one is
    /// given, in insertion order. An empty list is no error.
    pub fn list_todo(&self, namespace: String, status: Option<TodoStatus>) -> (found: Result<
        Vec<Todo>,
        TodoError,
    >)
        ensures
            found matches Ok(list) && views(list@) == select(self@, namespace@, status),
    {
        Ok(self.repo.query_todos(namespace, status))
    }

    /// Creates an entity in `namespace` with the given content. Its status is
    /// `Todo` whatever the content says, its id is assigned by the store and
    /// positive, and both timestamps hold the time of the call.
    pub fn create_todo(&mut self, namespace: &str, content: &str) -> (created: Result<
        Todo,
        TodoError,
    >)
        requires
            old(self).wf(),
        ensures
            final(self).wf(),
            match created {
                Ok(row) => {
                    &&& next_id(old(self)@, namespace@) <= i32::MAX
                    &&& row@ == stored(
                        fresh(namespace@, content@, row@.created_at),
                        next_id(old(self)@, namespace@),
                        row@.created_at,
                    )
                    &&& row@.status == TodoStatus::Todo
                    &&& row@.id > 0
                    &&& final(self)@ == old(self)@.push(row@)
                },
                Err(error) => {
                    &&& next_id(old(self)@, namespace@) > i32::MAX
                    &&& error == TodoError::IdsExhausted
                    &&& final(self)@ == old(self)@
                },
            },
    {
        let now: i64 = now_micros();
        let created = self.repo.insert_todo_at(Todo::create_at(namespace, content, now), now);
        proof {
            crate::repository::lemma_max_id_bounds(old(self)@, namespace@);
        }
        created
    }

    /// Lays a patch over the stored entity and writes it: the fields that the
    /// patch names are overwritten, the others stay, and the time of the
    /// write is stamped. The status is overwritten unchecked: no transition
    /// rule is consulted here.
    pub fn update_todo(&mut self, id: TodoID, to_update: UpdateTodo) -> (updated: Result<
        Todo,
        TodoError,
    >)
        requires
            old(self).wf(),
        ensures
            final(self).wf(),
            match lookup(old(self)@, id.0@, id.1 as int) {
                Some(row) => {
                    &&& updated matches Ok(written)
                    &&& written@ == overwritten(row, to_update.patch(row), written@.updated_at)
                    &&& final(self)@ == rewrite(
                        old(self)@,
                        to_update.patch(row),
                        written@.updated_at,
                    )
                },
                None => {
                    &&& updated == Err::<Todo, TodoError>(TodoError::RecordNotFound)
                    &&& final(self)@ == old(self)@
                },
            },
    {
        let found = match self.repo.query_by_id(id) {
            Ok(todo) => todo,
            Err(cause) => {
                return Err(TodoError::not_found(cause));
            },
        };
        let next = to_update.apply(found);
        let now: i64 = now_micros();
        match self.repo.update_todo_at(next, now) {
            Ok(written) => Ok(written),
            Err(cause) => Err(TodoError::not_found(cause)),
        }
    }

    /// Makes one checked move. The entity is read afresh from the store by
    /// its identity, the move is validated against the status found there,
    /// and the write comes last: a refused move writes nothing.
    pub fn apply_transition(&mut self, id: TodoID, operation: Transition) -> (outcome: Result<
        Todo,
        TodoError,
    >)
        requires
            old(self).wf(),
        ensures
            final(self).wf(),
            match lookup(old(self)@, id.0@, id.1 as int) {
                Some(row) => match step(operation, row.status) {
                    Ok(next) => {
                        &&& outcome matches Ok(written)
                        &&& written@ == overwritten(row, moved(row, next), written@.updated_at)
                        &&& final(self)@ == rewrite(
                            old(self)@,
                            moved(row, next),
                            written@.updated_at,
                        )
                    },
                    Err(error) => {
                        &&& outcome == Err::<Todo, TodoError>(error)
                        &&& final(self)@ == old(self)@
                    },
                },
                None => {
                    &&& outcome == Err::<Todo, TodoError>(TodoError::RecordNotFound)
                    &&& final(self)@ == old(self)@
                },
            },
    {
        let found = match self.repo.query_by_id(id) {
            Ok(todo) => todo,
            Err(cause) => {
                return Err(TodoError::not_found(cause));
            },
        };
        let next = match operation.apply(found) {
            Ok(todo) => todo,
            Err(error) => {
                return Err(error);
            },
        };
        let now: i64 = now_micros();
        match self.repo.update_todo_at(next, now) {
            Ok(written) => Ok(written),
            Err(cause) => Err(TodoError::not_found(cause)),
        }
    }

    /// Moves the stored entity from `Todo` to `Done` or from `Done` to
    /// `Todo`. Only the identity of `todo` is used: the status is the one
    /// the store holds.
    pub fn toggle_todo(&mut self, todo: Todo) -> (outcome: Result<Todo, TodoError>)
        requires
            old(self).wf(),
        ensures
            final(self).wf(),
            match lookup(old(self)@, todo@.namespace, todo@.id) {
                Some(row) => match step(Transition::Toggle, row.status) {
                    Ok(next) => {
                        &&& outcome matches Ok(written)
                        &&& written@ == overwritten(row, moved(row, next), written@.updated_at)
                        &&& final(self)@ == rewrite(
                            old(self)@,
                            moved(row, next),
                            written@.updated_at,
                        )
                    },
                    Err(error) => {
                        &&& outcome == Err::<Todo, TodoError>(error)
                        &&& final(self)@ == old(self)@
                    },
                },
                None => {
                    &&& outcome == Err::<Todo, TodoError>(TodoError::RecordNotFound)
                    &&& final(self)@ == old(self)@
                },
            },
    {
        self.apply_transition(todo.id, Transition::Toggle)
    }

    /// Moves the stored entity from `Done` to `Archived`. Only the identity
    /// of `todo` is used.
    pub fn archive_todo(&mut self, todo: Todo) -> (outcome: Result<Todo, TodoError>)
        requires
            old(self).wf(),
        ensures
            final(self).wf(),
            match lookup(old(self)@, todo@.namespace, todo@.id) {
                Some(row) => match step(Transition::Archive, row.status) {
                    Ok(next) => {
                        &&& outcome matches Ok(written)
                        &&& written@ == overwritten(row, moved(row, next), written@.updated_at)
                        &&& final(self)@ == rewrite(
                            old(self)@,
                            moved(row, next),
                            written@.updated_at,
                        )
                    },
                    Err(error) => {
                        &&& outcome == Err::<Todo, TodoError>(error)
                        &&& final(self)@ == old(self)@
                    },
                },
                None => {
                    &&& outcome == Err::<Todo, TodoError>(TodoError::RecordNotFound)
                    &&& final(self)@ == old(self)@
                },
            },
    {
        self.apply_transition(todo.id, Transition::Archive)
    }

    /// Moves the stored entity from `Archived` to `Deleted`. The row stays in
    /// the store. Only the identity of `todo` is used.
    pub fn delete_todo(&mut self, todo: Todo) -> (outcome: Result<Todo, TodoError>)
        requires
            old(self).wf(),
        ensures
            final(self).wf(),
            match lookup(old(self)@, todo@.namespace, todo@.id) {
                Some(row) => match step(Transition::Delete, row.status) {
                    Ok(next) => {
                        &&& outcome matches Ok(written)
                        &&& written@ == overwritten(row, moved(row, next), written@.updated_at)
                        &&& final(self)@ == rewrite(
                            old(self)@,
                            moved(row, next),
                            written@.updated_at,
                        )
                    },
                    Err(error) => {
                        &&& outcome == Err::<Todo, TodoError>(error)
                        &&& final(self)@ == old(self)@
                    },
                },
                None => {
                    &&& outcome == Err::<Todo, TodoError>(TodoError::RecordNotFound)
                    &&& final(self)@ == old(self)@
                },
            },
    {
        self.apply_transition(todo.id, Transition::Delete)
    }

    /// Removes for good the rows of `namespace` whose id is among `ids`.
    /// An id that matches no row is passed over, and an empty list changes
    /// nothing: neither is an error.
    pub fn clear_todos(&mut self, namespace: String, ids: Vec<i32>) -> (cleared: Result<
        (),
        TodoError,
    >)
        requires
            old(self).wf(),
        ensures
            final(self).wf(),
            cleared is Ok,
            final(self)@ == purge(old(self)@, namespace@, ids@),
            ids@.len() == 0 ==> final(self)@ == old(self)@,
    {
        let _ = self.repo.clear_todos(namespace, ids);
        Ok(())
    }
}

/// What the transport layer may ask of a todo domain. The interface promises
/// no more than that a usable domain stays usable: what each call returns is
/// stated by the implementation, here by `TodoDomain`.
pub trait TodoDomainTrait {
    /// Whether the domain is fit for use.
    spec fn valid(&self) -> bool;

    /// The entity with the identity.
    fn get_todo_by_id(&self, id: TodoID) -> (found: Result<Todo, TodoError>)
        requires
            self.valid(),
    ;

    /// The entities of a namespace, narrowed to `status` where one is given.
    fn list_todo(&self, namespace: String, status: Option<TodoStatus>) -> (found: Result<
        Vec<Todo>,
        TodoError,
    >)
        requires
            self.valid(),
    ;

    /// Creates an entity in `namespace`.
    fn create_todo(&mut self, namespace: &str, content: &str) -> (created: Result<
        Todo,
        TodoError,
    >)
        requires
            old(self).valid(),
        ensures
            final(self).valid(),
    ;

    /// Lays a patch over the entity with the identity.
    fn update_todo(&mut self, id: TodoID, to_update: UpdateTodo) -> (updated: Result<
        Todo,
        TodoError,
    >)
        requires
            old(self).valid(),
        ensures
            final(self).valid(),
    ;

    /// Removes the entities with the given ids from `namespace` for good.
    fn clear_todos(&mut self, namespace: String, ids: Vec<i32>) -> (cleared: Result<
        (),
        TodoError,
    >)
        requires
            old(self).valid(),
        ensures
            final(self).valid(),
    ;
}

impl TodoDomainTrait for TodoDomain {
    open spec fn valid(&self) -> bool {
        self.wf()
    }

    fn get_todo_by_id(&self, id: TodoID) -> (found: Result<Todo, TodoError>)
        ensures
            match lookup(self@, id.0@, id.1 as int) {
                Some(row) => found matches Ok(todo) && todo@ == row,
                None => found == Err::<Todo, TodoError>(TodoError::RecordNotFound),
            },
    {
        TodoDomain::get_todo_by_id(self, id)
    }

    fn list_todo(&self, namespace: String, status: Option<TodoStatus>) -> (found: Result<
        Vec<Todo>,
        TodoError,
    >)
        ensures
            found matches Ok(list) && views(list@) == select(self@, namespace@, status),
    {
        TodoDomain::list_todo(self, namespace, status)
    }

    fn create_todo(&mut self, namespace: &str, content: &str) -> (created: Result<
        Todo,
        TodoError,
    >)
        ensures
            match created {
                Ok(row) => {
                    &&& next_id(old(self)@, namespace@) <= i32::MAX
                    &&& row@ == stored(
                        fresh(namespace@, content@, row@.created_at),
                        next_id(old(self)@, namespace@),
                        row@.created_at,
                    )
                    &&& final(self)@ == old(self)@.push(row@)
                },
                Err(error) => {
                    &&& next_id(old(self)@, namespace@) > i32::MAX
                    &&& error == TodoError::IdsExhausted
                    &&& final(self)@ == old(self)@
                },
            },
    {
        TodoDomain::create_todo(self, namespace, content)
    }

    fn update_todo(&mut self, id: TodoID, to_update: UpdateTodo) -> (updated: Result<
        Todo,
        TodoError,
    >)
        ensures
            match lookup(old(self)@, id.0@, id.1 as int) {
                Some(row) => {
                    &&& updated matches Ok(written)
                    &&& written@ == overwritten(row, to_update.patch(row), written@.updated_at)
                    &&& final(self)@ == rewrite(
                        old(self)@,
                        to_update.patch(row),
                        written@.updated_at,
                    )
                },
                None => {
                    &&& updated == Err::<Todo, TodoError>(TodoError::RecordNotFound)
                    &&& final(self)@ == old(self)@
                },
            },
    {
        TodoDomain::update_todo(self, id, to_update)
    }

    fn clear_todos(&mut self, namespace: String, ids: Vec<i32>) -> (cleared: Result<
        (),
        TodoError,
    >)
        ensures
            cleared is Ok,
            final(self)@ == purge(old(self)@, namespace@, ids@),
            ids@.len() == 0 ==> final(self)@ == old(self)@,
    {
        TodoDomain::clear_todos(self, namespace, ids)
    }
}

} // verus!
