//! The operations as mathematics: what each one returns and what it leaves
//! behind, over the view of a dataset.

use vstd::prelude::*;

use crate::error::StoreError;
use crate::schema::{Status, TaskView, UserView};

verus! {

/// The view of a dataset: its users, by identifier.
pub type Dataset = Map<u128, UserView>;

/// The task that `user_id` owns under `task_id`. A missing user is reported
/// before a missing task.
pub open spec fn find_task(d: Dataset, user_id: u128, task_id: u128) -> Result<
    TaskView,
    StoreError,
> {
    if !d.contains_key(user_id) {
        Err(StoreError::UserNotFound)
    } else if !d[user_id].tasks.contains_key(task_id) {
        Err(StoreError::TaskNotFound)
    } else {
        Ok(d[user_id].tasks[task_id])
    }
}

/// The dataset with `user` filed under its own identifier. A user that was
/// filed there before is replaced.
pub open spec fn put_user(d: Dataset, user: UserView) -> Dataset {
    d.insert(user.id, user)
}

/// The dataset without the user `user_id`, and so without that user's tasks.
pub open spec fn drop_user(d: Dataset, user_id: u128) -> Dataset {
    d.remove(user_id)
}

/// The dataset with `task` filed under its own identifier in the collection
/// of `user_id`; unchanged where there is no such user.
pub open spec fn put_task(d: Dataset, user_id: u128, task: TaskView) -> Dataset {
    if d.contains_key(user_id) {
        d.insert(
            user_id,
            UserView { tasks: d[user_id].tasks.insert(task.id, task), ..d[user_id] },
        )
    } else {
        d
    }
}

/// The dataset in which the task `task_id` of `user_id` has the status
/// `status` and is otherwise as before; unchanged where there is no such task.
pub open spec fn set_status(d: Dataset, user_id: u128, task_id: u128, status: Status) -> Dataset {
    if find_task(d, user_id, task_id) is Ok {
        let task = TaskView { status, ..d[user_id].tasks[task_id] };
        d.insert(user_id, UserView { tasks: d[user_id].tasks.insert(task_id, task), ..d[user_id] })
    } else {
        d
    }
}

/// The dataset without the task `task_id` of `user_id`; unchanged where there
/// is no such task.
pub open spec fn drop_task(d: Dataset, user_id: u128, task_id: u128) -> Dataset {
    if find_task(d, user_id, task_id) is Ok {
        d.insert(user_id, UserView { tasks: d[user_id].tasks.remove(task_id), ..d[user_id] })
    } else {
        d
    }
}

/// What an operation on one task answers: the task's identifier where the
/// task exists, and else which of the two is missing.
pub open spec fn task_id_or_missing(d: Dataset, user_id: u128, task_id: u128) -> Result<
    u128,
    StoreError,
> {
    match find_task(d, user_id, task_id) {
        Ok(_) => Ok(task_id),
        Err(e) => Err(e),
    }
}

/// `listed` holds each task of `tasks` exactly once, in some order.
pub open spec fn is_listing(tasks: Map<u128, TaskView>, listed: Seq<TaskView>) -> bool {
    exists|keys: Seq<u128>| #[trigger] listed_by(tasks, keys, listed)
}

/// `keys` names each key of `tasks` exactly once, and `listed` holds the
/// tasks filed under them, in the same order.
pub open spec fn listed_by(tasks: Map<u128, TaskView>, keys: Seq<u128>, listed: Seq<TaskView>) -> bool {
    &&& keys.no_duplicates()
    &&& keys.to_set() == tasks.dom()
    &&& keys.len() == listed.len()
    &&& forall|i: int| 0 <= i < listed.len() ==> listed[i] == tasks[#[trigger] keys[i]]
}

} // verus!
