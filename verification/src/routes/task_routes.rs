//! Operations on the tasks of one user.

use vstd::prelude::*;
use vstd::std_specs::hash::{group_hash_axioms, spec_keys_iter};
use vstd::std_specs::iter::IteratorSpec;

use crate::error::StoreError;
use crate::ident::{is_v4, NIL};
use crate::model::{
    drop_task, find_task, is_listing, listed_by, put_task, set_status, task_id_or_missing,
};
use crate::schema::{dataset_wf, AppStateData, Status, Task, TaskView, User};

verus! {

/// What a new task is made of. The status is read and ignored: a task always
/// starts as `ToDo`.
#[derive(Debug)]
pub struct NewTask {
    pub title: String,
    pub description: String,
    pub due_date: chrono::NaiveDate,
    pub status: Status,
}

/// Names the task to delete.
#[derive(Clone, Copy, Debug)]
pub struct DeleteTask {
    pub id: u128,
}

/// Names the task to fetch.
#[derive(Clone, Copy, Debug)]
pub struct GetTask {
    pub id: u128,
}

/// The tasks of one user, in no particular order.
#[derive(Debug)]
pub struct TaskList {
    pub tasks: Vec<Task>,
}

impl View for TaskList {
    type V = Seq<TaskView>;

    open spec fn view(&self) -> Seq<TaskView> {
        self.tasks@.map_values(|t: Task| t@)
    }
}

/// Names the task whose status changes, and the new status.
#[derive(Clone, Copy, Debug)]
pub struct UpdateTask {
    pub id: u128,
    pub status: Status,
}

/// Files `user` under `user_id`, in place of whoever was there.
fn restore_user(data: &mut AppStateData, user_id: u128, user: User)
    ensures
        final(data)@ == old(data)@.insert(user_id, user@),
{
    broadcast use group_hash_axioms;

    data.users.insert(user_id, user);
    assert(final(data)@ =~= old(data)@.insert(user_id, user@));
}

/// Sets the status of one task of `user_id` and answers the task's
/// identifier. Nothing else of the task changes, and no other task or user.
/// Where the user or the task does not exist the dataset stays as it was.
pub fn update_task(data: &mut AppStateData, user_id: u128, req: &UpdateTask) -> (res: Result<
    u128,
    StoreError,
>)
    ensures
        res == task_id_or_missing(old(data)@, user_id, req.id),
        final(data)@ == set_status(old(data)@, user_id, req.id, req.status),
        dataset_wf(old(data)@) ==> dataset_wf(final(data)@),
{
    broadcast use group_hash_axioms;

    match data.users.get(&user_id) {
        None => {
            return Err(StoreError::UserNotFound);
        },
        Some(user) => {
            if !user.tasks.contains_key(&req.id) {
                return Err(StoreError::TaskNotFound);
            }
        },
    }
    let mut user = data.users.remove(&user_id).unwrap();
    let mut task = user.tasks.remove(&req.id).unwrap();
    task.status = req.status;
    let ghost changed = task@;
    user.tasks.insert(req.id, task);
    assert(user@.tasks =~= old(data)@[user_id].tasks.insert(req.id, changed));
    restore_user(data, user_id, user);
    assert(data@ =~= set_status(old(data)@, user_id, req.id, req.status));
    Ok(req.id)
}

/// Files `task` under its own identifier in the collection of `user_id` and
/// answers that identifier. A task that the user had under the same
/// identifier is replaced. Without such a user the task is dropped and the
/// dataset stays as it was.
pub fn add_task(data: &mut AppStateData, user_id: u128, task: Task) -> (res: Result<
    u128,
    StoreError,
>)
    ensures
        res == if old(data)@.contains_key(user_id) {
            Ok::<u128, StoreError>(task.id)
        } else {
            Err(StoreError::UserNotFound)
        },
        final(data)@ == put_task(old(data)@, user_id, task@),
        dataset_wf(old(data)@) && task.id != NIL ==> dataset_wf(final(data)@),
{
    broadcast use group_hash_axioms;

    if !data.users.contains_key(&user_id) {
        return Err(StoreError::UserNotFound);
    }
    let mut user = data.users.remove(&user_id).unwrap();
    let task_id: u128 = task.id;
    user.tasks.insert(task_id, task);
    assert(user@.tasks =~= old(data)@[user_id].tasks.insert(task_id, task@));
    restore_user(data, user_id, user);
    assert(data@ =~= put_task(old(data)@, user_id, task@));
    Ok(task_id)
}

/// Creates a task for `user_id` under a freshly drawn identifier, with
/// status `ToDo`, and answers the identifier. An identifier is drawn only
/// where the user exists; else the dataset stays as it was.
pub fn create_task(data: &mut AppStateData, user_id: u128, req: &NewTask) -> (res: Result<
    u128,
    StoreError,
>)
    ensures
        match res {
            Ok(task_id) => {
                &&& old(data)@.contains_key(user_id)
                &&& is_v4(task_id)
                &&& task_id != NIL
                &&& final(data)@ == put_task(
                    old(data)@,
                    user_id,
                    TaskView {
                        id: task_id,
                        title: req.title@,
                        description: req.description@,
                        due_date: req.due_date,
                        status: Status::ToDo,
                    },
                )
            },
            Err(e) => {
                &&& e == StoreError::UserNotFound
                &&& !old(data)@.contains_key(user_id)
                &&& final(data)@ == old(data)@
            },
        },
        dataset_wf(old(data)@) ==> dataset_wf(final(data)@),
{
    broadcast use group_hash_axioms;

    if !data.users.contains_key(&user_id) {
        return Err(StoreError::UserNotFound);
    }
    let task = Task::new(req.title.as_str(), req.description.as_str(), req.due_date);
    add_task(data, user_id, task)
}

/// Removes one task of `user_id` and answers its identifier. No other task
/// or user changes. Where the user or the task does not exist the dataset
/// stays as it was, and the answer says which of the two is missing.
pub fn delete_task(data: &mut AppStateData, user_id: u128, req: &DeleteTask) -> (res: Result<
    u128,
    StoreError,
>)
    ensures
        res == task_id_or_missing(old(data)@, user_id, req.id),
        final(data)@ == drop_task(old(data)@, user_id, req.id),
        dataset_wf(old(data)@) ==> dataset_wf(final(data)@),
{
    broadcast use group_hash_axioms;

    match data.users.get(&user_id) {
        None => {
            return Err(StoreError::UserNotFound);
        },
        Some(user) => {
            if !user.tasks.contains_key(&req.id) {
                return Err(StoreError::TaskNotFound);
            }
        },
    }
    let mut user = data.users.remove(&user_id).unwrap();
    user.tasks.remove(&req.id);
    assert(user@.tasks =~= old(data)@[user_id].tasks.remove(req.id));
    restore_user(data, user_id, user);
    assert(data@ =~= drop_task(old(data)@, user_id, req.id));
    Ok(req.id)
}

/// A snapshot of one task of `user_id`. Where the user or the task does not
/// exist, the answer says which of the two is missing.
pub fn get_task(data: &AppStateData, user_id: u128, req: &GetTask) -> (res: Result<Task, StoreError>)
    ensures
        match find_task(data@, user_id, req.id) {
            Ok(found) => res is Ok && res->Ok_0@ == found,
            Err(e) => res == Err::<Task, StoreError>(e),
        },
{
    broadcast use group_hash_axioms;

    match data.users.get(&user_id) {
        None => Err(StoreError::UserNotFound),
        Some(user) => match user.tasks.get(&req.id) {
            None => Err(StoreError::TaskNotFound),
            Some(task) => Ok(task.clone()),
        },
    }
}

/// Snapshots of all tasks of `user_id`: each task exactly once, in no
/// particular order.
pub fn list_task(data: &AppStateData, user_id: u128) -> (res: Result<TaskList, StoreError>)
    ensures
        match res {
            Ok(list) => {
                &&& data@.contains_key(user_id)
                &&& is_listing(data@[user_id].tasks, list@)
                &&& list@.len() == data@[user_id].tasks.len()
            },
            Err(e) => e == StoreError::UserNotFound && !data@.contains_key(user_id),
        },
{
    broadcast use group_hash_axioms;

    match data.users.get(&user_id) {
        None => Err(StoreError::UserNotFound),
        Some(user) => {
            let mut tasks: Vec<Task> = Vec::new();
            let ghost keys: Seq<u128> = spec_keys_iter(&user.tasks).remaining().unref();
            for key in it: user.tasks.keys()
                invariant
                    it.seq() == spec_keys_iter(&user.tasks).remaining(),
                    keys == it.seq().unref(),
                    keys.to_set() == user.tasks@.dom(),
                    keys.no_duplicates(),
                    tasks.len() == it.index(),
                    forall|i: int|
                        0 <= i < tasks.len() ==> tasks[i]@ == user.tasks@[#[trigger] keys[i]]@,
            {
                let task = user.tasks.get(key).unwrap();
                tasks.push(task.clone());
            }
            let list = TaskList { tasks };
            proof {
                let owned = data@[user_id].tasks;
                assert(owned.dom() =~= user.tasks@.dom());
                assert forall|i: int| 0 <= i < list@.len() implies list@[i] == owned[#[trigger] keys[i]] by {
                    assert(keys.to_set().contains(keys[i]));
                }
                assert(listed_by(owned, keys, list@));
            }
            Ok(list)
        },
    }
}

} // verus!
