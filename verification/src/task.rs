//! The task entity and the four store operations that own the task relation.

use vstd::prelude::*;

use crate::store::{inserted, removed, toggled, TaskStore};

verus! {

/// A persisted to-do item. The store assigns `id` on insertion and never
/// reuses it; `description` is immutable after creation; `completed` is the
/// only mutable field, flipped by the toggle operation.
pub struct Task {
    pub id: i32,
    pub description: String,
    pub completed: bool,
}

/// The mathematical value of a task: its identifier, the characters of its
/// description, and its completion flag.
pub ghost struct TaskView {
    pub id: int,
    pub description: Seq<char>,
    pub completed: bool,
}

impl View for Task {
    type V = TaskView;

    open spec fn view(&self) -> TaskView {
        TaskView { id: self.id as int, description: self.description@, completed: self.completed }
    }
}

impl Clone for Task {
    fn clone(&self) -> (r: Task)
        ensures
            r == *self,
    {
        Task { id: self.id, description: self.description.clone(), completed: self.completed }
    }
}

/// The creation payload: a description that has not yet been validated.
/// It is not a stored entity; insertion turns it into a [`Task`].
pub struct Todo {
    pub description: String,
}

/// The values of a sequence of tasks, in the same order.
pub open spec fn task_views(tasks: Seq<Task>) -> Seq<TaskView> {
    tasks.map_values(|t: Task| t@)
}

impl Task {
    /// Lists every task, ordered as the store keeps them: by id descending.
    /// Listing never fails.
    pub fn all(store: &TaskStore) -> (r: Vec<Task>)
        ensures
            task_views(r@) == store@,
    {
        let mut out: Vec<Task> = Vec::new();
        let mut i: usize = 0;
        while i < store.tasks.len()
            invariant
                i <= store.tasks.len(),
                out@.len() == i,
                forall|j: int| 0 <= j < i ==> #[trigger] out@[j] == store.tasks@[j],
            decreases store.tasks.len() - i,
        {
            out.push(store.tasks[i].clone());
            i += 1;
        }
        proof {
            assert(out@ =~= store.tasks@);
        }
        out
    }

    /// Persists a new task built from the payload: the store assigns the next
    /// identifier, the description is taken as given (validation is the
    /// orchestrator's job), and the task starts not completed. Returns whether
    /// the write succeeded; it fails exactly when the identifiers are
    /// exhausted.
    pub fn insert(todo: Todo, store: &mut TaskStore) -> (ok: bool)
        requires
            old(store).wf(),
        ensures
            final(store).wf(),
            ok == old(store).can_insert(),
            ok ==> inserted(
                old(store)@,
                final(store)@,
                todo.description@,
                old(store).next_id as int,
            ),
            ok ==> final(store).next_id == old(store).next_id + 1,
            !ok ==> *final(store) == *old(store),
    {
        if store.next_id == i32::MAX {
            return false;
        }
        let t = Task { id: store.next_id, description: todo.description, completed: false };
        store.tasks.insert(0, t);
        store.next_id = store.next_id + 1;
        proof {
            assert(store@ =~= seq![
                TaskView {
                    id: old(store).next_id as int,
                    description: todo.description@,
                    completed: false,
                },
            ] + old(store)@);
        }
        true
    }

    /// Looks the task up by id; if absent, returns `false` without touching
    /// the store. If present, flips its `completed` flag in place and returns
    /// `true`.
    pub fn toggle_with_id(id: i32, store: &mut TaskStore) -> (ok: bool)
        requires
            old(store).wf(),
        ensures
            final(store).wf(),
            ok == old(store).contains_id(id as int),
            ok ==> toggled(old(store)@, final(store)@, id as int),
            !ok ==> *final(store) == *old(store),
            final(store).next_id == old(store).next_id,
    {
        let mut i: usize = 0;
        let n = store.tasks.len();
        while i < n
            invariant
                old(store).wf(),
                n == store.tasks.len(),
                i <= n,
                *store == *old(store),
                forall|j: int| 0 <= j < i ==> (#[trigger] store@[j]).id != id as int,
            decreases n - i,
        {
            if store.tasks[i].id == id {
                let t = store.tasks.remove(i);
                let flipped = Task {
                    id: t.id,
                    description: t.description,
                    completed: !t.completed,
                };
                store.tasks.insert(i, flipped);
                proof {
                    let pre = old(store)@;
                    assert(pre[i as int].id == id as int);
                    assert(old(store).contains_id(id as int));
                    old(store).tasks@.remove(i as int).insert_ensures(i as int, flipped);
                    old(store).tasks@.remove_ensures(i as int);
                    assert(store.tasks@ =~= old(store).tasks@.update(i as int, flipped));
                    assert forall|j: int| 0 <= j < pre.len() implies #[trigger] store@[j] == (
                    if pre[j].id == id as int {
                        TaskView {
                            id: pre[j].id,
                            description: pre[j].description,
                            completed: !pre[j].completed,
                        }
                    } else {
                        pre[j]
                    }) by {
                        if j == i as int {
                            assert(store@[j] == flipped@);
                        } else {
                            if j < i as int {
                                assert(pre[j].id > pre[i as int].id);
                            } else {
                                assert(pre[i as int].id > pre[j].id);
                            }
                            assert(store.tasks@[j] == old(store).tasks@[j]);
                        }
                    }
                }
                return true;
            }
            i += 1;
        }
        false
    }

    /// Deletes the row matching `id`, if any. Reports success either way:
    /// deleting an absent id affects zero rows, which the underlying
    /// delete-by-id counts as a successful statement.
    pub fn delete_with_id(id: i32, store: &mut TaskStore) -> (ok: bool)
        requires
            old(store).wf(),
        ensures
            final(store).wf(),
            ok,
            removed(old(store)@, final(store)@, id as int),
            final(store).next_id == old(store).next_id,
    {
        let mut i: usize = 0;
        let n = store.tasks.len();
        while i < n
            invariant
                old(store).wf(),
                n == store.tasks.len(),
                i <= n,
                *store == *old(store),
                forall|j: int| 0 <= j < i ==> (#[trigger] store@[j]).id != id as int,
            decreases n - i,
        {
            if store.tasks[i].id == id {
                store.tasks.remove(i);
                proof {
                    let pre = old(store)@;
                    assert(pre[i as int].id == id as int);
                    old(store).tasks@.remove_ensures(i as int);
                    pre.remove_ensures(i as int);
                    assert(store@ =~= pre.remove(i as int));
                    assert(removed(pre, store@, id as int));
                    assert forall|a: int, b: int| 0 <= a < b < store@.len() implies store@[a].id
                        > store@[b].id by {
                        if b < i as int {
                            assert(store@[a] == pre[a] && store@[b] == pre[b]);
                        } else if a < i as int {
                            assert(store@[a] == pre[a] && store@[b] == pre[b + 1]);
                        } else {
                            assert(store@[a] == pre[a + 1] && store@[b] == pre[b + 1]);
                        }
                    }
                }
                return true;
            }
            i += 1;
        }
        true
    }
}

} // verus!
