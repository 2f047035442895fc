//! What holds of the operations taken together: the invariants that every
//! operation keeps, and how one operation answers after another.

use vstd::prelude::*;

use crate::error::StoreError;
use crate::ident::NIL;
use crate::model::{
    drop_task, drop_user, find_task, is_listing, listed_by, put_task, put_user, set_status,
    task_id_or_missing, Dataset,
};
use crate::schema::{dataset_wf, tasks_unshared, Status, TaskView, UserView};

verus! {

/// `id` names no user of `d` and no task of any user of `d`.
pub open spec fn unused(d: Dataset, id: u128) -> bool {
    &&& !d.contains_key(id)
    &&& forall|u: u128| d.contains_key(u) ==> !(#[trigger] d[u].tasks.contains_key(id))
}

/// Filing a well-formed user keeps the dataset well formed.
pub proof fn lemma_put_user_keeps_wf(d: Dataset, user: UserView)
    requires
        dataset_wf(d),
        user.wf(),
    ensures
        dataset_wf(put_user(d, user)),
{
}

/// Filing a task with a non-nil identifier keeps the dataset well formed.
pub proof fn lemma_put_task_keeps_wf(d: Dataset, user_id: u128, task: TaskView)
    requires
        dataset_wf(d),
        task.id != NIL,
    ensures
        dataset_wf(put_task(d, user_id, task)),
{
}

/// A change of status keeps the dataset well formed.
pub proof fn lemma_set_status_keeps_wf(d: Dataset, user_id: u128, task_id: u128, status: Status)
    requires
        dataset_wf(d),
    ensures
        dataset_wf(set_status(d, user_id, task_id, status)),
{
}

/// Removing a task or a user keeps the dataset well formed.
pub proof fn lemma_drop_keeps_wf(d: Dataset, user_id: u128, task_id: u128)
    requires
        dataset_wf(d),
    ensures
        dataset_wf(drop_task(d, user_id, task_id)),
        dataset_wf(drop_user(d, user_id)),
{
}

/// No operation makes two users share a task, as long as new users come
/// without tasks and new tasks come under identifiers that are not in use.
pub proof fn lemma_tasks_stay_unshared(
    d: Dataset,
    user: UserView,
    user_id: u128,
    task: TaskView,
    task_id: u128,
    status: Status,
)
    requires
        tasks_unshared(d),
    ensures
        user.tasks == Map::<u128, TaskView>::empty() ==> tasks_unshared(put_user(d, user)),
        unused(d, task.id) ==> tasks_unshared(put_task(d, user_id, task)),
        tasks_unshared(set_status(d, user_id, task_id, status)),
        tasks_unshared(drop_task(d, user_id, task_id)),
        tasks_unshared(drop_user(d, user_id)),
{
    let with_user = put_user(d, user);
    if user.tasks == Map::<u128, TaskView>::empty() {
        assert forall|u: u128, v: u128, t: u128|
            with_user.contains_key(u) && with_user.contains_key(v)
                && #[trigger] with_user[u].tasks.contains_key(t)
                && #[trigger] with_user[v].tasks.contains_key(t) implies u == v by {
            assert(u != user.id && v != user.id);
            assert(d[u].tasks.contains_key(t) && d[v].tasks.contains_key(t));
        }
    }
    let with_task = put_task(d, user_id, task);
    if unused(d, task.id) {
        assert forall|u: u128, v: u128, t: u128|
            with_task.contains_key(u) && with_task.contains_key(v)
                && #[trigger] with_task[u].tasks.contains_key(t)
                && #[trigger] with_task[v].tasks.contains_key(t) implies u == v by {
            if u != v {
                assert(d.contains_key(u) && d.contains_key(v));
                if t == task.id {
                    assert(!d[u].tasks.contains_key(t));
                    assert(!d[v].tasks.contains_key(t));
                } else {
                    assert(d[u].tasks.contains_key(t) && d[v].tasks.contains_key(t));
                }
            }
        }
    }
    let restated = set_status(d, user_id, task_id, status);
    assert forall|u: u128, v: u128, t: u128|
        restated.contains_key(u) && restated.contains_key(v)
            && #[trigger] restated[u].tasks.contains_key(t)
            && #[trigger] restated[v].tasks.contains_key(t) implies u == v by {
        assert(d[u].tasks.contains_key(t) && d[v].tasks.contains_key(t));
    }
    let less_task = drop_task(d, user_id, task_id);
    assert forall|u: u128, v: u128, t: u128|
        less_task.contains_key(u) && less_task.contains_key(v)
            && #[trigger] less_task[u].tasks.contains_key(t)
            && #[trigger] less_task[v].tasks.contains_key(t) implies u == v by {
        assert(d[u].tasks.contains_key(t) && d[v].tasks.contains_key(t));
    }
    let less_user = drop_user(d, user_id);
    assert forall|u: u128, v: u128, t: u128|
        less_user.contains_key(u) && less_user.contains_key(v)
            && #[trigger] less_user[u].tasks.contains_key(t)
            && #[trigger] less_user[v].tasks.contains_key(t) implies u == v by {
        assert(d[u].tasks.contains_key(t) && d[v].tasks.contains_key(t));
    }
}

/// A user filed under an identifier that no user has joins the others:
/// nobody is replaced, and the dataset holds one user more.
pub proof fn lemma_put_user_fresh(d: Dataset, user: UserView)
    requires
        d.dom().finite(),
        !d.contains_key(user.id),
    ensures
        put_user(d, user).len() == d.len() + 1,
        put_user(d, user)[user.id] == user,
        forall|u: u128| #[trigger]
            d.contains_key(u) ==> put_user(d, user).contains_key(u) && put_user(d, user)[u] == d[u],
{
}

/// Looking up, changing or removing a task of a user that does not exist
/// answers `UserNotFound`; of an existing user, a task that does not exist
/// answers `TaskNotFound`. Either way the dataset stays as it was.
pub proof fn lemma_not_found(d: Dataset, user_id: u128, task_id: u128, status: Status)
    ensures
        !d.contains_key(user_id) ==> {
            &&& find_task(d, user_id, task_id) == Err::<TaskView, StoreError>(
                StoreError::UserNotFound,
            )
            &&& task_id_or_missing(d, user_id, task_id) == Err::<u128, StoreError>(
                StoreError::UserNotFound,
            )
        },
        d.contains_key(user_id) && !d[user_id].tasks.contains_key(task_id) ==> {
            &&& find_task(d, user_id, task_id) == Err::<TaskView, StoreError>(
                StoreError::TaskNotFound,
            )
            &&& task_id_or_missing(d, user_id, task_id) == Err::<u128, StoreError>(
                StoreError::TaskNotFound,
            )
        },
        find_task(d, user_id, task_id) is Err ==> {
            &&& set_status(d, user_id, task_id, status) == d
            &&& drop_task(d, user_id, task_id) == d
        },
{
}

/// After a task was removed, removing it again answers `TaskNotFound`, and
/// so does looking it up.
pub proof fn lemma_delete_task_twice(d: Dataset, user_id: u128, task_id: u128)
    requires
        task_id_or_missing(d, user_id, task_id) is Ok,
    ensures
        task_id_or_missing(drop_task(d, user_id, task_id), user_id, task_id) == Err::<
            u128,
            StoreError,
        >(StoreError::TaskNotFound),
        find_task(drop_task(d, user_id, task_id), user_id, task_id) == Err::<TaskView, StoreError>(
            StoreError::TaskNotFound,
        ),
{
}

/// After a user was removed, every operation on one of its tasks answers
/// `UserNotFound`, and removing the user again changes nothing.
pub proof fn lemma_delete_user_twice(d: Dataset, user_id: u128, task_id: u128)
    ensures
        !drop_user(d, user_id).contains_key(user_id),
        find_task(drop_user(d, user_id), user_id, task_id) == Err::<TaskView, StoreError>(
            StoreError::UserNotFound,
        ),
        drop_user(drop_user(d, user_id), user_id) == drop_user(d, user_id),
{
    assert(drop_user(drop_user(d, user_id), user_id) =~= drop_user(d, user_id));
}

/// A task that was just filed is found under its identifier, as filed.
pub proof fn lemma_find_after_put(d: Dataset, user_id: u128, task: TaskView)
    requires
        d.contains_key(user_id),
    ensures
        find_task(put_task(d, user_id, task), user_id, task.id) == Ok::<TaskView, StoreError>(task),
{
}

/// A change of status shows in the next lookup, and only in the status.
pub proof fn lemma_find_after_set_status(d: Dataset, user_id: u128, task_id: u128, status: Status)
    requires
        find_task(d, user_id, task_id) is Ok,
    ensures
        find_task(set_status(d, user_id, task_id, status), user_id, task_id) == Ok::<
            TaskView,
            StoreError,
        >(TaskView { status, ..find_task(d, user_id, task_id)->Ok_0 }),
{
}

/// An operation on one task leaves every other task of every user as it was.
pub proof fn lemma_other_tasks_untouched(
    d: Dataset,
    user_id: u128,
    task: TaskView,
    task_id: u128,
    status: Status,
    other_user: u128,
    other_task: u128,
)
    requires
        other_user != user_id || (other_task != task_id && other_task != task.id),
    ensures
        find_task(put_task(d, user_id, task), other_user, other_task) == find_task(
            d,
            other_user,
            other_task,
        ),
        find_task(set_status(d, user_id, task_id, status), other_user, other_task) == find_task(
            d,
            other_user,
            other_task,
        ),
        find_task(drop_task(d, user_id, task_id), other_user, other_task) == find_task(
            d,
            other_user,
            other_task,
        ),
{
}

/// A listing is as long as the collection it lists, and holds every task of it.
pub proof fn lemma_listing_is_complete(tasks: Map<u128, TaskView>, listed: Seq<TaskView>)
    requires
        tasks.dom().finite(),
        is_listing(tasks, listed),
    ensures
        listed.len() == tasks.len(),
        forall|t: u128| #[trigger] tasks.contains_key(t) ==> listed.contains(tasks[t]),
        forall|i: int|
            0 <= i < listed.len() ==> tasks.values().contains(#[trigger] listed[i]),
{
    let keys = choose|keys: Seq<u128>| #[trigger] listed_by(tasks, keys, listed);
    keys.unique_seq_to_set();
    assert forall|t: u128| #[trigger] tasks.contains_key(t) implies listed.contains(tasks[t]) by {
        assert(keys.to_set().contains(t));
        let i = choose|i: int| 0 <= i < keys.len() && keys[i] == t;
        assert(listed[i] == tasks[keys[i]]);
    }
    assert forall|i: int| 0 <= i < listed.len() implies tasks.values().contains(
        #[trigger] listed[i],
    ) by {
        assert(keys.to_set().contains(keys[i]));
        assert(tasks.contains_key(keys[i]) && tasks[keys[i]] == listed[i]);
    }
}

/// Where every task is filed under its own identifier, a listing holds each
/// identifier of the collection exactly once, and under it the task as filed.
pub proof fn lemma_listing_by_id(tasks: Map<u128, TaskView>, listed: Seq<TaskView>)
    requires
        is_listing(tasks, listed),
        forall|t: u128| #[trigger] tasks.contains_key(t) ==> tasks[t].id == t,
    ensures
        forall|i: int|
            0 <= i < listed.len() ==> tasks.contains_key((#[trigger] listed[i]).id)
                && tasks[listed[i].id] == listed[i],
        forall|i: int, j: int|
            0 <= i < j < listed.len() ==> (#[trigger] listed[i]).id != (#[trigger] listed[j]).id,
        forall|t: u128| #[trigger]
            tasks.contains_key(t) ==> exists|i: int|
                0 <= i < listed.len() && (#[trigger] listed[i]).id == t,
{
    let keys = choose|keys: Seq<u128>| #[trigger] listed_by(tasks, keys, listed);
    assert forall|i: int| 0 <= i < listed.len() implies tasks.contains_key(
        (#[trigger] listed[i]).id,
    ) && tasks[listed[i].id] == listed[i] && listed[i].id == keys[i] by {
        assert(keys.to_set().contains(keys[i]));
        assert(listed[i] == tasks[keys[i]]);
    }
    assert forall|t: u128| #[trigger] tasks.contains_key(t) implies exists|i: int|
        0 <= i < listed.len() && (#[trigger] listed[i]).id == t by {
        assert(keys.to_set().contains(t));
        let i = choose|i: int| 0 <= i < keys.len() && keys[i] == t;
        assert(listed[i].id == t);
    }
}

/// The dataset after `tasks` were filed for `user_id`, one after the other.
pub open spec fn put_tasks(d: Dataset, user_id: u128, tasks: Seq<TaskView>) -> Dataset
    decreases tasks.len(),
{
    if tasks.len() == 0 {
        d
    } else {
        put_task(put_tasks(d, user_id, tasks.drop_last()), user_id, tasks.last())
    }
}

/// No update is lost: after any number of tasks were filed for one user,
/// one after the other and each under an identifier of its own that the
/// user did not have, the user owns exactly that many tasks more, each new
/// one as filed, each old one as before, and every other user is untouched.
pub proof fn lemma_put_tasks_all_kept(d: Dataset, user_id: u128, tasks: Seq<TaskView>)
    requires
        d.contains_key(user_id),
        d[user_id].tasks.dom().finite(),
        forall|i: int, j: int|
            0 <= i < j < tasks.len() ==> (#[trigger] tasks[i]).id != (#[trigger] tasks[j]).id,
        forall|i: int| 0 <= i < tasks.len() ==> !d[user_id].tasks.contains_key(#[trigger] tasks[i].id),
    ensures
        put_tasks(d, user_id, tasks).dom() == d.dom(),
        put_tasks(d, user_id, tasks)[user_id].tasks.dom().finite(),
        put_tasks(d, user_id, tasks)[user_id].tasks.len() == d[user_id].tasks.len() + tasks.len(),
        forall|i: int|
            0 <= i < tasks.len() ==> find_task(
                put_tasks(d, user_id, tasks),
                user_id,
                #[trigger] tasks[i].id,
            ) == Ok::<TaskView, StoreError>(tasks[i]),
        forall|t: u128| #[trigger]
            d[user_id].tasks.contains_key(t) ==> find_task(put_tasks(d, user_id, tasks), user_id, t)
                == Ok::<TaskView, StoreError>(d[user_id].tasks[t]),
        forall|t: u128|
            #[trigger] put_tasks(d, user_id, tasks)[user_id].tasks.contains_key(t) ==> (
            d[user_id].tasks.contains_key(t) || exists|i: int|
                0 <= i < tasks.len() && #[trigger] tasks[i].id == t),
        forall|u: u128|
            u != user_id && d.contains_key(u) ==> #[trigger] put_tasks(d, user_id, tasks)[u] == d[u],
    decreases tasks.len(),
{
    if tasks.len() > 0 {
        let before = tasks.drop_last();
        let last = tasks.last();
        lemma_put_tasks_all_kept(d, user_id, before);
        let mid = put_tasks(d, user_id, before);
        let end = put_tasks(d, user_id, tasks);
        assert(end == put_task(mid, user_id, last));
        assert(end.dom() =~= d.dom());
        assert(!mid[user_id].tasks.contains_key(last.id)) by {
            if mid[user_id].tasks.contains_key(last.id) {
                assert(!d[user_id].tasks.contains_key(tasks[tasks.len() - 1].id));
                let i = choose|i: int| 0 <= i < before.len() && #[trigger] before[i].id == last.id;
                assert(tasks[i].id != tasks[tasks.len() - 1].id);
            }
        }
        assert forall|i: int| 0 <= i < tasks.len() implies find_task(
            end,
            user_id,
            #[trigger] tasks[i].id,
        ) == Ok::<TaskView, StoreError>(tasks[i]) by {
            if i < before.len() {
                assert(before[i] == tasks[i]);
                assert(tasks[i].id != tasks[tasks.len() - 1].id);
            }
        }
        assert forall|t: u128| #[trigger] end[user_id].tasks.contains_key(t) implies (
        d[user_id].tasks.contains_key(t) || exists|i: int|
            0 <= i < tasks.len() && #[trigger] tasks[i].id == t) by {
            if t == last.id {
                assert(tasks[tasks.len() - 1].id == t);
            } else if !d[user_id].tasks.contains_key(t) {
                assert(mid[user_id].tasks.contains_key(t));
                let i = choose|i: int| 0 <= i < before.len() && #[trigger] before[i].id == t;
                assert(tasks[i].id == t);
            }
        }
    }
}

} // verus!
