//! A task tracker: users own tasks, and every task carries a lifecycle status.
//!
//! The crate holds the in-memory dataset and the operations on it. Each
//! operation is stated over a mathematical view of the dataset, a map from
//! user ids to users, and is proved against that statement. Locking, the
//! HTTP surface and the data file belong to the program around the library:
//! it takes the lock, calls one operation, saves the dataset where the
//! operation changed it, and answers with the status that the outcome maps to.

pub mod error;
pub mod ident;
pub mod laws;
pub mod model;
pub mod routes;
pub mod schema;

pub use error::{status_of, StoreError, STATUS_INTERNAL_ERROR, STATUS_NOT_FOUND, STATUS_OK};
pub use routes::task_routes::{
    add_task, create_task, delete_task, get_task, list_task, update_task, DeleteTask, GetTask,
    NewTask, TaskList, UpdateTask,
};
pub use routes::user_routes::{add_user, create_user, delete_user, DeleteUser, NewUser};
pub use schema::{load_data, AppStateData, Status, Task, User};
