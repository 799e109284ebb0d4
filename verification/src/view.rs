//! What a client shows of its todos: the tabs, the list under the selected
//! tab, and the controls that each todo offers.

use vstd::prelude::*;
use crate::local::{LocalView, Todo};
use crate::state::{local_views, TodoState};
use crate::status::{canonical_name, TodoStatus};
use crate::transition::{target, Transition};

verus! {

/// The controls that one todo offers.
#[derive(Clone, Copy, Debug, PartialEq, Eq, Structural)]
pub struct Controls {
    pub save: bool,
    pub cancel: bool,
    pub done: bool,
    pub undo: bool,
    pub edit: bool,
    pub archive: bool,
    pub delete: bool,
}

/// The controls of a todo in `status`. While its text is edited it offers
/// save and cancel alone. Else an open todo offers done, edit and archive, a
/// done one undo and archive, an archived one delete, and a deleted one
/// nothing.
pub open spec fn controls_for(status: TodoStatus, editing: bool) -> Controls {
    let checked = status == TodoStatus::Done;
    let open = status == TodoStatus::Todo || checked;
    Controls {
        save: editing,
        cancel: editing,
        done: !editing && open && !checked,
        undo: !editing && open && checked,
        edit: !editing && open && !checked,
        archive: !editing && open,
        delete: !editing && status == TodoStatus::Archived,
    }
}

/// Whether the tab `tab` shows `todo`: the tab of all todos shows each, the
/// tab of a status those in it.
pub open spec fn on_tab(todo: LocalView, tab: Option<TodoStatus>) -> bool {
    match tab {
        Some(status) => todo.status == status,
        None => true,
    }
}

/// The label of a tab.
pub open spec fn tab_label(tab: Option<TodoStatus>) -> Seq<char> {
    match tab {
        Some(status) => canonical_name(status),
        None => "All"@,
    }
}

/// The tabs from left to right: open, done, all, archived, deleted.
pub open spec fn tab_order() -> Seq<Option<TodoStatus>> {
    seq![
        Some(TodoStatus::Todo),
        Some(TodoStatus::Done),
        None,
        Some(TodoStatus::Archived),
        Some(TodoStatus::Deleted),
    ]
}

/// The controls that a todo in `status` offers.
pub fn todo_control(status: TodoStatus, editing: bool) -> (controls: Controls)
    ensures
        controls == controls_for(status, editing),
{
    let checked = match status {
        TodoStatus::Done => true,
        _ => false,
    };
    let open = match status {
        TodoStatus::Todo => true,
        _ => checked,
    };
    let archived = match status {
        TodoStatus::Archived => true,
        _ => false,
    };
    Controls {
        save: editing,
        cancel: editing,
        done: !editing && open && !checked,
        undo: !editing && open && checked,
        edit: !editing && open && !checked,
        archive: !editing && open,
        delete: !editing && archived,
    }
}

/// The label of a tab: the canonical name of its status, or `All`.
pub fn tab_name(tab: Option<TodoStatus>) -> (label: String)
    ensures
        label@ == tab_label(tab),
{
    match tab {
        Some(status) => status.to_string(),
        None => "All".to_string(),
    }
}

/// The tabs from left to right.
pub fn tabs() -> (order: Vec<Option<TodoStatus>>)
    ensures
        order@ == tab_order(),
{
    let mut order: Vec<Option<TodoStatus>> = Vec::new();
    order.push(Some(TodoStatus::Todo));
    order.push(Some(TodoStatus::Done));
    order.push(None);
    order.push(Some(TodoStatus::Archived));
    order.push(Some(TodoStatus::Deleted));
    assert(order@ =~= tab_order());
    order
}

/// Whether the button that clears deleted todos is shown: on the tab of the
/// deleted ones, and only while it lists any.
pub fn show_clear_deleted_button(tab: Option<TodoStatus>, listed: usize) -> (shown: bool)
    ensures
        shown == (tab == Some(TodoStatus::Deleted) && listed != 0),
{
    match tab {
        Some(TodoStatus::Deleted) => listed != 0,
        _ => false,
    }
}

impl TodoState {
    /// The local todos under the tab `tab`, in the order of the list.
    pub fn shown(&self, tab: Option<TodoStatus>) -> (list: Vec<Todo>)
        ensures
            local_views(list@) == local_views(self.locals@).filter(
                |todo: LocalView| on_tab(todo, tab),
            ),
    {
        let ghost all = local_views(self.locals@);
        let ghost fits = |todo: LocalView| on_tab(todo, tab);
        let mut list: Vec<Todo> = Vec::new();
        let mut i: usize = 0;
        proof {
            reveal(Seq::filter);
            assert(all.take(0) =~= Seq::<LocalView>::empty());
            assert(local_views(list@) =~= all.take(0).filter(fits));
        }
        while i < self.locals.len()
            invariant
                i <= self.locals.len(),
                all == local_views(self.locals@),
                fits == |todo: LocalView| on_tab(todo, tab),
                local_views(list@) == all.take(i as int).filter(fits),
            decreases self.locals.len() - i,
        {
            let todo = &self.locals[i];
            let wanted = match tab {
                Some(status) => todo.status == status,
                None => true,
            };
            let ghost before = local_views(list@);
            if wanted {
                list.push(todo.clone());
                assert(local_views(list@) =~= before.push(todo@));
            }
            proof {
                reveal(Seq::filter);
                assert(all.take(i + 1).drop_last() =~= all.take(i as int));
                assert(all.take(i + 1).last() == todo@);
            }
            i += 1;
        }
        assert(all.take(i as int) =~= all);
        list
    }
}

/// The controls for the checked moves are offered only where the move is
/// allowed: done and undo where a toggle is, delete where a delete is. A
/// deleted todo offers no control at all unless it is being edited.
pub proof fn lemma_controls_follow_the_lifecycle(status: TodoStatus, editing: bool)
    ensures
        controls_for(status, editing).done ==> target(Transition::Toggle, status) == Some(
            TodoStatus::Done,
        ),
        controls_for(status, editing).undo ==> target(Transition::Toggle, status) == Some(
            TodoStatus::Todo,
        ),
        controls_for(status, editing).delete ==> target(Transition::Delete, status) == Some(
            TodoStatus::Deleted,
        ),
        status == TodoStatus::Deleted && !editing ==> controls_for(status, editing) == (Controls {
            save: false,
            cancel: false,
            done: false,
            undo: false,
            edit: false,
            archive: false,
            delete: false,
        }),
{
}

} // verus!
