//! The client's own list of todos and the actions that change it.

use vstd::prelude::*;
use crate::local::{create_todo, created, LocalView, Todo};
use crate::model::UpdateTodoRequest;
use crate::status::TodoStatus;

verus! {

/// What a client may do to its list.
#[derive(Debug, PartialEq, Eq)]
pub enum TodoAction {
    /// Puts a new todo with this content in front.
    Add(String),
    /// Lays a patch over the first todo with this id.
    Update(i32, UpdateTodoRequest),
    /// Drops every todo whose status is `Deleted`.
    ClearDeleted,
    /// Changes nothing but the refresh mark.
    Refresh,
}

/// The client's list, and a mark that flips with every action.
#[derive(Debug, PartialEq, Eq)]
pub struct TodoState {
    pub locals: Vec<Todo>,
    pub refresh: bool,
}

/// Whether the client works against the remote store.
#[derive(Clone, Copy, Debug, PartialEq, Eq)]
pub struct TodoContext {
    pub enable_remote: bool,
}

/// The todos of a list, each as plain values.
pub open spec fn local_views(locals: Seq<Todo>) -> Seq<LocalView> {
    locals.map_values(|todo: Todo| todo@)
}

/// Whether `i` is the first place in `locals` with the id.
pub open spec fn is_first_with_id(locals: Seq<LocalView>, id: i32, i: int) -> bool {
    &&& 0 <= i < locals.len()
    &&& locals[i].id == id
    &&& forall|j: int| 0 <= j < i ==> (#[trigger] locals[j]).id != id
}

/// The list after a patch was laid over the first todo with `id`; the list
/// itself where no todo has the id.
pub open spec fn updated(
    locals: Seq<LocalView>,
    id: i32,
    content: Option<Seq<char>>,
    status: Option<TodoStatus>,
) -> Seq<LocalView> {
    if exists|i: int| is_first_with_id(locals, id, i) {
        let i = choose|i: int| is_first_with_id(locals, id, i);
        locals.update(
            i,
            LocalView {
                id: locals[i].id,
                content: match content {
                    Some(text) => text,
                    None => locals[i].content,
                },
                status: match status {
                    Some(value) => value,
                    None => locals[i].status,
                },
            },
        )
    } else {
        locals
    }
}

/// The list without the todos whose status is `Deleted`.
pub open spec fn without_deleted(locals: Seq<LocalView>) -> Seq<LocalView> {
    locals.filter(|todo: LocalView| todo.status != TodoStatus::Deleted)
}

/// The list that an action makes of `locals`.
pub open spec fn reduced(locals: Seq<LocalView>, action: TodoAction) -> Seq<LocalView> {
    match action {
        TodoAction::Add(content) => seq![created(locals.len() as usize, content@)] + locals,
        TodoAction::Update(id, patch) => updated(
            locals,
            id,
            match patch.content {
                Some(text) => Some(text@),
                None => None,
            },
            patch.status,
        ),
        TodoAction::ClearDeleted => without_deleted(locals),
        TodoAction::Refresh => locals,
    }
}

impl TodoState {
    /// A state over the given list, marked for a first refresh.
    pub fn new(locals: Vec<Todo>) -> (state: TodoState)
        ensures
            state.locals == locals,
            state.refresh,
    {
        TodoState { locals, refresh: true }
    }

    /// The first place in `locals` with the id.
    fn first_with_id(locals: &Vec<Todo>, id: i32) -> (found: Option<usize>)
        ensures
            match found {
                Some(index) => is_first_with_id(local_views(locals@), id, index as int),
                None => forall|k: int| !is_first_with_id(local_views(locals@), id, k),
            },
    {
        let mut i: usize = 0;
        while i < locals.len()
            invariant
                i <= locals.len(),
                forall|j: int| 0 <= j < i ==> (#[trigger] local_views(locals@)[j]).id != id,
            decreases locals.len() - i,
        {
            if locals[i].id == id {
                return Some(i);
            }
            i += 1;
        }
        assert forall|k: int| !is_first_with_id(local_views(locals@), id, k) by {
            if 0 <= k < locals.len() {
                assert(local_views(locals@)[k].id != id);
            }
        }
        None
    }

    fn copy_locals(&self) -> (copy: Vec<Todo>)
        ensures
            local_views(copy@) == local_views(self.locals@),
    {
        let mut copy: Vec<Todo> = Vec::new();
        let mut i: usize = 0;
        while i < self.locals.len()
            invariant
                i <= self.locals.len(),
                local_views(copy@) == local_views(self.locals@).take(i as int),
            decreases self.locals.len() - i,
        {
            let ghost before = local_views(copy@);
            copy.push(self.locals[i].clone());
            assert(local_views(copy@) =~= before.push(self.locals@[i as int]@));
            assert(local_views(self.locals@).take(i + 1) =~= local_views(self.locals@).take(
                i as int,
            ).push(self.locals@[i as int]@));
            i += 1;
        }
        assert(local_views(self.locals@).take(i as int) =~= local_views(self.locals@));
        copy
    }

    /// The state after `action`: the list as the action leaves it, and the
    /// refresh mark flipped. The state itself is left as it is.
    pub fn reduce(&self, action: TodoAction) -> (next: TodoState)
        ensures
            next.refresh == !self.refresh,
            local_views(next.locals@) == reduced(local_views(self.locals@), action),
    {
        let ghost old_views = local_views(self.locals@);
        let next: Vec<Todo> = match action {
            TodoAction::Add(content) => {
                let count: usize = self.locals.len();
                let todo = create_todo(&count, content.as_str());
                let mut locals: Vec<Todo> = Vec::new();
                let ghost first = todo@;
                locals.push(todo);
                let mut i: usize = 0;
                assert(local_views(locals@) =~= seq![first] + old_views.take(0));
                while i < self.locals.len()
                    invariant
                        i <= self.locals.len(),
                        old_views == local_views(self.locals@),
                        local_views(locals@) == seq![first] + old_views.take(i as int),
                    decreases self.locals.len() - i,
                {
                    let ghost before = local_views(locals@);
                    locals.push(self.locals[i].clone());
                    assert(local_views(locals@) =~= before.push(self.locals@[i as int]@));
                    assert(local_views(locals@) =~= seq![first] + old_views.take(i + 1));
                    i += 1;
                }
                assert(old_views.take(i as int) =~= old_views);
                locals
            },
            TodoAction::Update(id, update) => {
                let mut locals = self.copy_locals();
                let found = Self::first_with_id(&locals, id);
                assert(local_views(locals@) == old_views);
                match found {
                    Some(index) => {
                        let ghost chosen = choose|k: int| is_first_with_id(old_views, id, k);
                        assert(chosen == index as int) by {
                            if chosen < index as int {
                                assert(old_views[chosen].id != id);
                            } else if (index as int) < chosen {
                                assert(old_views[index as int].id != id);
                            }
                        }
                        let current = &locals[index];
                        let content = match update.content {
                            Some(text) => text,
                            None => current.content.clone(),
                        };
                        let status = match update.status {
                            Some(value) => value,
                            None => current.status,
                        };
                        let patched = Todo { id: current.id, content, status };
                        let ghost written = patched@;
                        locals.set(index, patched);
                        assert(local_views(locals@) =~= old_views.update(index as int, written));
                    },
                    None => {},
                }
                locals
            },
            TodoAction::ClearDeleted => {
                let mut locals: Vec<Todo> = Vec::new();
                let mut i: usize = 0;
                let ghost stays = |todo: LocalView| todo.status != TodoStatus::Deleted;
                proof {
                    reveal(Seq::filter);
                    assert(old_views.take(0) =~= Seq::<LocalView>::empty());
                    assert(local_views(locals@) =~= old_views.take(0).filter(stays));
                }
                while i < self.locals.len()
                    invariant
                        i <= self.locals.len(),
                        old_views == local_views(self.locals@),
                        stays == |todo: LocalView| todo.status != TodoStatus::Deleted,
                        local_views(locals@) == old_views.take(i as int).filter(stays),
                    decreases self.locals.len() - i,
                {
                    let todo = &self.locals[i];
                    let ghost before = local_views(locals@);
                    match todo.status {
                        TodoStatus::Deleted => {},
                        _ => {
                            locals.push(todo.clone());
                            assert(local_views(locals@) =~= before.push(todo@));
                        },
                    }
                    proof {
                        reveal(Seq::filter);
                        assert(old_views.take(i + 1).drop_last() =~= old_views.take(i as int));
                        assert(old_views.take(i + 1).last() == todo@);
                    }
                    i += 1;
                }
                assert(old_views.take(i as int) =~= old_views);
                locals
            },
            TodoAction::Refresh => self.copy_locals(),
        };
        TodoState { locals: next, refresh: !self.refresh }
    }
}

} // verus!
