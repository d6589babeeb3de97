//! The task store: sole owner of the task relation, kept ordered by id
//! descending, with identifiers that are never reused after deletion.

use vstd::prelude::*;

use crate::task::{task_views, Task, TaskView};

verus! {

/// The task relation together with the next identifier to assign.
///
/// `tasks` is kept ordered by `id` descending (most recently created first),
/// which is the required listing order. `next_id` only ever grows, so an
/// identifier freed by a deletion is never handed out again.
pub struct TaskStore {
    pub tasks: Vec<Task>,
    pub next_id: i32,
}

impl View for TaskStore {
    type V = Seq<TaskView>;

    open spec fn view(&self) -> Seq<TaskView> {
        task_views(self.tasks@)
    }
}

impl TaskStore {
    /// Well-formedness: every identifier lies in `[1, next_id)`, and the
    /// listing is strictly descending by identifier (hence ids are unique).
    pub open spec fn wf(&self) -> bool {
        &&& 1 <= self.next_id
        &&& forall|i: int|
            0 <= i < self@.len() ==> 1 <= (#[trigger] self@[i]).id < self.next_id
        &&& forall|i: int, j: int| 0 <= i < j < self@.len() ==> self@[i].id > self@[j].id
    }

    /// Whether some task in the store carries the given identifier.
    pub open spec fn contains_id(&self, id: int) -> bool {
        exists|i: int| 0 <= i < self@.len() && (#[trigger] self@[i]).id == id
    }

    /// Whether an insertion can still be given a fresh identifier.
    pub open spec fn can_insert(&self) -> bool {
        self.next_id < i32::MAX
    }

    /// An empty store whose first assigned identifier will be 1.
    pub fn new() -> (s: TaskStore)
        ensures
            s.wf(),
            s@ =~= Seq::<TaskView>::empty(),
            s.next_id == 1,
    {
        TaskStore { tasks: Vec::new(), next_id: 1 }
    }
}

/// The listing `post` extends `pre` with one fresh, not yet completed task
/// at the front.
pub open spec fn inserted(
    pre: Seq<TaskView>,
    post: Seq<TaskView>,
    description: Seq<char>,
    id: int,
) -> bool {
    post == seq![TaskView { id, description, completed: false }] + pre
}

/// `post` is `pre` with the completion flag of every task carrying `id`
/// flipped and everything else unchanged.
pub open spec fn toggled(pre: Seq<TaskView>, post: Seq<TaskView>, id: int) -> bool {
    &&& post.len() == pre.len()
    &&& forall|i: int|
        0 <= i < pre.len() ==> #[trigger] post[i] == (if pre[i].id == id {
            TaskView {
                id: pre[i].id,
                description: pre[i].description,
                completed: !pre[i].completed,
            }
        } else {
            pre[i]
        })
}

/// `post` is `pre` with the task carrying `id` taken out, or `pre` itself
/// when no task carries it.
pub open spec fn removed(pre: Seq<TaskView>, post: Seq<TaskView>, id: int) -> bool {
    if exists|k: int| 0 <= k < pre.len() && (#[trigger] pre[k]).id == id {
        exists|k: int| 0 <= k < pre.len() && (#[trigger] pre[k]).id == id && post == pre.remove(k)
    } else {
        post == pre
    }
}

} // verus!
