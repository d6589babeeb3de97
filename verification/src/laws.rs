//! Laws relating the store operations, stated over listings and proved once
//! and for all.

use vstd::prelude::*;

use crate::store::{inserted, removed, toggled, TaskStore};
use crate::task::TaskView;

verus! {

/// No two tasks of the listing carry the same identifier.
pub open spec fn ids_distinct(s: Seq<TaskView>) -> bool {
    forall|i: int, j: int|
        0 <= i < s.len() && 0 <= j < s.len() && i != j ==> s[i].id != s[j].id
}

/// A well-formed store lists distinct identifiers.
pub proof fn lemma_wf_ids_distinct(s: &TaskStore)
    requires
        s.wf(),
    ensures
        ids_distinct(s@),
{
    assert forall|i: int, j: int|
        0 <= i < s@.len() && 0 <= j < s@.len() && i != j implies s@[i].id != s@[j].id by {
        if i < j {
            assert(s@[i].id > s@[j].id);
        } else {
            assert(s@[j].id > s@[i].id);
        }
    }
}

/// Creating a task with a non-empty description makes the listing include a
/// task with that description, not yet completed.
pub proof fn lemma_create_then_list_includes(
    pre: Seq<TaskView>,
    post: Seq<TaskView>,
    description: Seq<char>,
    id: int,
)
    requires
        description.len() > 0,
        inserted(pre, post, description, id),
    ensures
        exists|i: int|
            0 <= i < post.len() && (#[trigger] post[i]).description == description
                && !post[i].completed,
{
    assert(post[0].description == description && !post[0].completed);
}

/// A toggle flips the completion flag of exactly the tasks carrying the
/// given id — of which a well-formed listing has at most one — and leaves
/// every other task, and every id and description, unchanged.
pub proof fn lemma_toggle_flips_exactly_one(
    pre: Seq<TaskView>,
    post: Seq<TaskView>,
    id: int,
    k: int,
)
    requires
        toggled(pre, post, id),
        0 <= k < pre.len(),
    ensures
        post[k].id == pre[k].id,
        post[k].description == pre[k].description,
        pre[k].id == id ==> post[k].completed == !pre[k].completed,
        pre[k].id != id ==> post[k] == pre[k],
{
}

/// Toggling the same id twice restores the original listing: a toggle pair
/// is the identity, though a single toggle is not.
pub proof fn lemma_toggle_twice_restores(
    s0: Seq<TaskView>,
    s1: Seq<TaskView>,
    s2: Seq<TaskView>,
    id: int,
)
    requires
        toggled(s0, s1, id),
        toggled(s1, s2, id),
    ensures
        s2 == s0,
{
    assert(s2 =~= s0);
}

/// Deleting an id removes exactly the task carrying it and no other: every
/// other task survives, nothing new appears, and no surviving task carries
/// the deleted id. On an absent id the listing is unchanged.
pub proof fn lemma_delete_removes_exactly(pre: Seq<TaskView>, post: Seq<TaskView>, id: int)
    requires
        ids_distinct(pre),
        removed(pre, post, id),
    ensures
        forall|t: TaskView| pre.contains(t) && t.id != id ==> post.contains(t),
        forall|t: TaskView| post.contains(t) ==> pre.contains(t),
        forall|i: int| 0 <= i < post.len() ==> (#[trigger] post[i]).id != id,
        (exists|k: int| 0 <= k < pre.len() && (#[trigger] pre[k]).id == id) ==> post.len() == pre.len() - 1,
        !(exists|k: int| 0 <= k < pre.len() && (#[trigger] pre[k]).id == id) ==> post == pre,
{
    if exists|k: int| 0 <= k < pre.len() && (#[trigger] pre[k]).id == id {
        let k = choose|k: int| 0 <= k < pre.len() && (#[trigger] pre[k]).id == id && post == pre.remove(k);
        pre.remove_ensures(k);
        assert forall|t: TaskView| pre.contains(t) && t.id != id implies post.contains(t) by {
            let i = choose|i: int| 0 <= i < pre.len() && pre[i] == t;
            if i < k {
                assert(post[i] == t);
            } else {
                assert(post[i - 1] == t);
            }
        }
        assert forall|t: TaskView| post.contains(t) implies pre.contains(t) by {
            let i = choose|i: int| 0 <= i < post.len() && post[i] == t;
            if i < k {
                assert(pre[i] == t);
            } else {
                assert(pre[i + 1] == t);
            }
        }
        assert forall|i: int| 0 <= i < post.len() implies (#[trigger] post[i]).id != id by {
            if i < k {
                assert(post[i] == pre[i]);
            } else {
                assert(post[i] == pre[i + 1]);
            }
        }
    }
}

/// Identifiers are never reused: insertion assigns exactly `next_id`, a
/// well-formed store lists only identifiers below it, and no operation ever
/// decreases it — so the assigned identifier differs from every identifier
/// the store has ever listed, deleted ones included.
pub proof fn lemma_assigned_id_is_fresh(pre: &TaskStore, post: Seq<TaskView>, description: Seq<char>)
    requires
        pre.wf(),
        inserted(pre@, post, description, pre.next_id as int),
    ensures
        forall|i: int| 0 <= i < pre@.len() ==> (#[trigger] pre@[i]).id != pre.next_id as int,
{
}

/// The listing of a well-formed store is ordered by id descending: the most
/// recently created task comes first.
pub proof fn lemma_listing_sorted_desc(s: &TaskStore)
    requires
        s.wf(),
    ensures
        forall|i: int, j: int| 0 <= i < j < s@.len() ==> s@[i].id > s@[j].id,
{
}

/// Inserting three tasks into an empty listing, in order, lists them newest
/// first: the third on top, the first at the bottom.
pub proof fn lemma_three_inserts_newest_first(
    s0: Seq<TaskView>,
    s1: Seq<TaskView>,
    s2: Seq<TaskView>,
    s3: Seq<TaskView>,
    a: Seq<char>,
    b: Seq<char>,
    c: Seq<char>,
    ia: int,
    ib: int,
    ic: int,
)
    requires
        s0.len() == 0,
        inserted(s0, s1, a, ia),
        inserted(s1, s2, b, ib),
        inserted(s2, s3, c, ic),
    ensures
        s3 =~= seq![
            (TaskView { id: ic, description: c, completed: false }),
            (TaskView { id: ib, description: b, completed: false }),
            (TaskView { id: ia, description: a, completed: false }),
        ],
{
}

} // verus!
