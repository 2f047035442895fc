//! The entity model: statuses, tasks, users and the dataset that holds them.

use std::collections::HashMap;
use vstd::prelude::*;

use crate::ident::{fresh_id, is_v4, lemma_v4_not_nil, NIL};

verus! {

/// `chrono::NaiveDate`, a calendar date without a time of day. The library
/// only carries due dates through; it never looks inside one.
#[verifier::external_type_specification]
#[verifier::external_body]
pub struct ExNaiveDate(chrono::NaiveDate);

/// Where a task stands. Any status may follow any other.
#[derive(Clone, Copy, Debug, PartialEq, Eq, Structural)]
pub enum Status {
    ToDo,
    InProgress,
    Done,
}

/// The field values of a task.
pub struct TaskView {
    pub id: u128,
    pub title: Seq<char>,
    pub description: Seq<char>,
    pub due_date: chrono::NaiveDate,
    pub status: Status,
}

/// A unit of work owned by one user.
#[derive(Debug)]
pub struct Task {
    pub id: u128,
    pub title: String,
    pub description: String,
    pub due_date: chrono::NaiveDate,
    pub status: Status,
}

impl View for Task {
    type V = TaskView;

    open spec fn view(&self) -> TaskView {
        TaskView {
            id: self.id,
            title: self.title@,
            description: self.description@,
            due_date: self.due_date,
            status: self.status,
        }
    }
}

impl Clone for Task {
    /// A snapshot: a copy with the same field values, detached from the dataset.
    fn clone(&self) -> (copy: Self)
        ensures
            copy@ == self@,
    {
        Task {
            id: self.id,
            title: self.title.clone(),
            description: self.description.clone(),
            due_date: self.due_date,
            status: self.status,
        }
    }
}

impl Task {
    /// A task under the given id, with status `ToDo`.
    pub fn with_id(id: u128, title: &str, info: &str, due_date: chrono::NaiveDate) -> (task: Task)
        ensures
            task@ == (TaskView {
                id,
                title: title@,
                description: info@,
                due_date,
                status: Status::ToDo,
            }),
    {
        Task {
            id,
            title: title.to_owned(),
            description: info.to_owned(),
            due_date,
            status: Status::ToDo,
        }
    }

    /// A task under a freshly drawn identifier, with status `ToDo`. Neither
    /// the texts nor the date are validated.
    pub fn new(title: &str, info: &str, due_date: chrono::NaiveDate) -> (task: Task)
        ensures
            is_v4(task.id),
            task.id != NIL,
            task@ == (TaskView {
                id: task.id,
                title: title@,
                description: info@,
                due_date,
                status: Status::ToDo,
            }),
    {
        let id: u128 = fresh_id();
        proof {
            lemma_v4_not_nil(id);
        }
        Task::with_id(id, title, info, due_date)
    }
}

/// The field values of a user, tasks included.
pub struct UserView {
    pub id: u128,
    pub name: Seq<char>,
    pub tasks: Map<u128, TaskView>,
}

impl UserView {
    /// The user's identifier is not nil, and every task is filed under its
    /// own, non-nil identifier.
    pub open spec fn wf(self) -> bool {
        &&& self.id != NIL
        &&& forall|t: u128| #[trigger]
            self.tasks.contains_key(t) ==> t != NIL && self.tasks[t].id == t
    }
}

/// The field values of each task of a collection, key by key.
pub open spec fn task_views(tasks: Map<u128, Task>) -> Map<u128, TaskView> {
    tasks.map_values(|t: Task| t@)
}

/// Someone who owns tasks. A task belongs to the user in whose collection it
/// is filed, and to nobody else.
#[derive(Debug)]
pub struct User {
    pub id: u128,
    pub name: String,
    pub tasks: HashMap<u128, Task>,
}

impl View for User {
    type V = UserView;

    open spec fn view(&self) -> UserView {
        UserView { id: self.id, name: self.name@, tasks: task_views(self.tasks@) }
    }
}

impl Clone for User {
    fn clone(&self) -> (copy: Self)
        ensures
            copy@ == self@,
    {
        User { id: self.id, name: self.name.clone(), tasks: self.tasks.clone() }
    }
}

impl User {
    /// A user under the given id, with no tasks.
    pub fn with_id(id: u128, name: &str) -> (user: User)
        ensures
            user@ == (UserView { id, name: name@, tasks: Map::empty() }),
    {
        let user = User { id, name: name.to_owned(), tasks: HashMap::new() };
        assert(user@.tasks =~= Map::empty());
        user
    }

    /// A user under a freshly drawn identifier, with no tasks. The name is
    /// not validated: the empty name is accepted.
    pub fn new(name: &str) -> (user: User)
        ensures
            is_v4(user.id),
            user.id != NIL,
            user@ == (UserView { id: user.id, name: name@, tasks: Map::empty() }),
            user@.wf(),
    {
        let id: u128 = fresh_id();
        proof {
            lemma_v4_not_nil(id);
        }
        User::with_id(id, name)
    }
}

/// The field values of each user of a dataset, key by key.
pub open spec fn user_views(users: Map<u128, User>) -> Map<u128, UserView> {
    users.map_values(|u: User| u@)
}

/// Every user is filed under its own, non-nil identifier and is well formed.
pub open spec fn dataset_wf(users: Map<u128, UserView>) -> bool {
    forall|u: u128| #[trigger]
        users.contains_key(u) ==> u != NIL && users[u].id == u && users[u].wf()
}

/// No task identifier occurs in the collections of two different users.
pub open spec fn tasks_unshared(users: Map<u128, UserView>) -> bool {
    forall|u: u128, v: u128, t: u128|
        #![trigger users[u].tasks.contains_key(t), users[v].tasks.contains_key(t)]
        users.contains_key(u) && users.contains_key(v) && users[u].tasks.contains_key(t)
            && users[v].tasks.contains_key(t) ==> u == v
}

/// The whole dataset: every user, with the tasks that each owns. It is the
/// unit that is saved and loaded; no part of it is stored on its own.
#[derive(Debug)]
pub struct AppStateData {
    pub users: HashMap<u128, User>,
}

impl View for AppStateData {
    type V = Map<u128, UserView>;

    open spec fn view(&self) -> Map<u128, UserView> {
        user_views(self.users@)
    }
}

impl Default for AppStateData {
    /// The empty dataset.
    fn default() -> (data: Self)
        ensures
            data@ == Map::<u128, UserView>::empty(),
            dataset_wf(data@),
    {
        let data = AppStateData { users: HashMap::new() };
        assert(data@ =~= Map::<u128, UserView>::empty());
        data
    }
}

/// A dataset in memory holds finitely many users, and each of them finitely
/// many tasks.
pub proof fn lemma_dataset_is_finite(data: &AppStateData)
    ensures
        data@.dom().finite(),
        forall|u: u128| #[trigger] data@.contains_key(u) ==> data@[u].tasks.dom().finite(),
{
    broadcast use vstd::std_specs::hash::group_hash_axioms;

    assert(data@.dom() =~= data.users@.dom());
    assert forall|u: u128| #[trigger] data@.contains_key(u) implies data@[u].tasks.dom().finite() by {
        let user = data.users@[u];
        assert(data@[u].tasks.dom() =~= user.tasks@.dom());
    }
}

/// The dataset a process starts from: what the data file held, or the empty
/// dataset where the file was missing, unreadable or malformed (`None`).
pub fn load_data(stored: Option<AppStateData>) -> (data: AppStateData)
    ensures
        match stored {
            Some(found) => data == found,
            None => data@ == Map::<u128, UserView>::empty(),
        },
{
    match stored {
        Some(found) => found,
        None => AppStateData::default(),
    }
}

} // verus!
