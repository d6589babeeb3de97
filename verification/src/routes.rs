//! Request orchestration: validate raw input, apply one store operation,
//! and produce the outcome the caller renders.

use vstd::prelude::*;

use crate::store::{inserted, removed, toggled, TaskStore};
use crate::task::{task_views, Task, Todo};

verus! {

/// A one-shot status message carried from a mutating request to the next
/// rendered page: a kind (`"success"` or `"error"`) and a text.
pub struct Flash {
    pub name: String,
    pub msg: String,
}

impl Flash {
    /// A success message.
    pub fn success(msg: &str) -> (f: Flash)
        ensures
            f.name@ == "success"@,
            f.msg@ == msg@,
    {
        Flash { name: "success".to_owned(), msg: msg.to_owned() }
    }

    /// An error message.
    pub fn error(msg: &str) -> (f: Flash)
        ensures
            f.name@ == "error"@,
            f.msg@ == msg@,
    {
        Flash { name: "error".to_owned(), msg: msg.to_owned() }
    }
}

/// What the index page renders: an optional one-shot status message (a
/// name/text pair) and the full task listing.
pub struct Context {
    pub msg: Option<(String, String)>,
    pub tasks: Vec<Task>,
}

impl Context {
    /// A display context carrying an error message and the current listing.
    pub fn err(store: &TaskStore, msg: &str) -> (c: Context)
        ensures
            task_views(c.tasks@) == store@,
            c.msg matches Some(p) && p.0@ == "error"@ && p.1@ == msg@,
    {
        Context { msg: Some(("error".to_owned(), msg.to_owned())), tasks: Task::all(store) }
    }

    /// A display context carrying the message as given (possibly none) and
    /// the current listing.
    pub fn raw(store: &TaskStore, msg: Option<(String, String)>) -> (c: Context)
        ensures
            task_views(c.tasks@) == store@,
            c.msg == msg,
    {
        Context { msg, tasks: Task::all(store) }
    }
}

/// Create: validates the description and delegates to the store.
///
/// An empty description is rejected before the store is touched; otherwise
/// the task is persisted and the outcome reports success, or the write
/// failure when no identifier is left to assign.
pub fn new(todo: Todo, store: &mut TaskStore) -> (r: Flash)
    requires
        old(store).wf(),
    ensures
        final(store).wf(),
        todo.description@.len() == 0 ==> *final(store) == *old(store) && r.name@ == "error"@
            && r.msg@ == "Description cannot be empty."@,
        todo.description@.len() > 0 && old(store).can_insert() ==> inserted(
            old(store)@,
            final(store)@,
            todo.description@,
            old(store).next_id as int,
        ) && final(store).next_id == old(store).next_id + 1 && r.name@ == "success"@
            && r.msg@ == "Todo successfully added."@,
        todo.description@.len() > 0 && !old(store).can_insert() ==> *final(store) == *old(store)
            && r.name@ == "error"@ && r.msg@ == "Whoops! The server failed."@,
{
    if todo.description.as_str().is_empty() {
        Flash::error("Description cannot be empty.")
    } else if Task::insert(todo, store) {
        Flash::success("Todo successfully added.")
    } else {
        Flash::error("Whoops! The server failed.")
    }
}

/// Toggle: flips the completion flag of the task with the given id. On
/// success the caller redirects without a message; when the id is absent the
/// failure context carries the unchanged listing and an error message.
pub fn toggle(id: i32, store: &mut TaskStore) -> (r: Result<(), Context>)
    requires
        old(store).wf(),
    ensures
        final(store).wf(),
        old(store).contains_id(id as int) ==> r is Ok && toggled(
            old(store)@,
            final(store)@,
            id as int,
        ) && final(store).next_id == old(store).next_id,
        !old(store).contains_id(id as int) ==> *final(store) == *old(store),
        !old(store).contains_id(id as int) ==> (r matches Err(c) && task_views(c.tasks@) == old(
            store,
        )@ && (c.msg matches Some(p) && p.0@ == "error"@ && p.1@ == "Couldn't toggle task."@)),
{
    if Task::toggle_with_id(id, store) {
        Ok(())
    } else {
        Err(Context::err(store, "Couldn't toggle task."))
    }
}

/// Delete: removes the task with the given id, if any, and reports success,
/// matching the underlying delete-by-id, which counts a statement that
/// affected zero rows as successful.
pub fn delete(id: i32, store: &mut TaskStore) -> (r: Result<Flash, Context>)
    requires
        old(store).wf(),
    ensures
        final(store).wf(),
        removed(old(store)@, final(store)@, id as int),
        final(store).next_id == old(store).next_id,
        r matches Ok(f) && f.name@ == "success"@ && f.msg@ == "Todo was deleted."@,
{
    if Task::delete_with_id(id, store) {
        Ok(Flash::success("Todo was deleted."))
    } else {
        Err(Context::err(store, "Couldn't delete task."))
    }
}

/// List (the read path): composes the optional incoming one-shot message
/// with the current listing into the context the index page renders. It
/// performs no mutation.
pub fn index(msg: Option<Flash>, store: &TaskStore) -> (c: Context)
    ensures
        task_views(c.tasks@) == store@,
        msg matches Some(f) ==> (c.msg matches Some(p) && p.0@ == f.name@ && p.1@ == f.msg@),
        msg is None ==> c.msg is None,
{
    match msg {
        Some(m) => Context::raw(store, Some((m.name, m.msg))),
        None => Context::raw(store, None),
    }
}

} // verus!
