//! Operations on users.

use vstd::prelude::*;
use vstd::std_specs::hash::group_hash_axioms;

use crate::error::StoreError;
use crate::ident::{is_v4, NIL};
use crate::model::{drop_user, put_user};
use crate::schema::{dataset_wf, AppStateData, User, UserView};

verus! {

/// What a new user is made of.
#[derive(Debug)]
pub struct NewUser {
    pub name: String,
}

/// Names the user to delete.
#[derive(Clone, Copy, Debug)]
pub struct DeleteUser {
    pub id: u128,
}

/// Files `user` under its own identifier and answers that identifier. A user
/// that was filed there before is replaced, tasks and all.
pub fn add_user(data: &mut AppStateData, user: User) -> (user_id: u128)
    ensures
        user_id == user.id,
        final(data)@ == put_user(old(data)@, user@),
        dataset_wf(old(data)@) && user@.wf() ==> dataset_wf(final(data)@),
{
    broadcast use group_hash_axioms;

    let user_id: u128 = user.id;
    data.users.insert(user_id, user);
    assert(final(data)@ =~= put_user(old(data)@, user@));
    user_id
}

/// Creates a user with the given name and no tasks, under a freshly drawn
/// identifier, and answers the identifier. It always succeeds.
pub fn create_user(data: &mut AppStateData, req: &NewUser) -> (user_id: u128)
    ensures
        is_v4(user_id),
        user_id != NIL,
        final(data)@ == put_user(
            old(data)@,
            UserView { id: user_id, name: req.name@, tasks: Map::empty() },
        ),
        dataset_wf(old(data)@) ==> dataset_wf(final(data)@),
{
    let user = User::new(req.name.as_str());
    add_user(data, user)
}

/// Removes a user together with the tasks that it owns, and answers the
/// user's identifier. No other user changes. Where there is no such user the
/// dataset stays as it was.
pub fn delete_user(data: &mut AppStateData, req: &DeleteUser) -> (res: Result<u128, StoreError>)
    ensures
        res == if old(data)@.contains_key(req.id) {
            Ok::<u128, StoreError>(req.id)
        } else {
            Err(StoreError::UserNotFound)
        },
        final(data)@ == drop_user(old(data)@, req.id),
        dataset_wf(old(data)@) ==> dataset_wf(final(data)@),
{
    broadcast use group_hash_axioms;

    let removed = data.users.remove(&req.id);
    assert(final(data)@ =~= drop_user(old(data)@, req.id));
    match removed {
        Some(_) => Ok(req.id),
        None => Err(StoreError::UserNotFound),
    }
}

} // verus!
