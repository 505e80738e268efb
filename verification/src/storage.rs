//! What the storage holds and what each of its operations makes of it.
//!
//! The contents of the collection are a finite map from username to user:
//! no two stored users share a username. Each operation is a function from
//! the contents before to the contents after and to what the caller gets
//! back.

use vstd::prelude::*;
use crate::patch::{patched, UserPatchView};
use crate::user::UserView;

verus! {

/// The contents of the collection: the stored users by username.
pub type Users = Map<Seq<char>, UserView>;

/// Contents as a collection can hold them: finitely many users, each
/// stored under its own username.
pub open spec fn well_formed(users: Users) -> bool {
    &&& users.dom().finite()
    &&& forall|name: Seq<char>| #[trigger]
        users.contains_key(name) ==> users[name].username == name
}

/// The collection that holds nobody.
pub open spec fn nobody() -> Users {
    Map::empty()
}

/// Whether an insert of `user` is taken: nobody stored has its username.
pub open spec fn accepts(users: Users, user: UserView) -> bool {
    !users.contains_key(user.username)
}

/// The contents after an insert of `user`: with the user where the insert
/// is taken, unchanged where it is refused.
pub open spec fn inserted(users: Users, user: UserView) -> Users {
    if accepts(users, user) {
        users.insert(user.username, user)
    } else {
        users
    }
}

/// The stored user with the username, if there is one.
pub open spec fn found(users: Users, username: Seq<char>) -> Option<UserView> {
    if users.contains_key(username) {
        Some(users[username])
    } else {
        None
    }
}

/// The number of stored users that an update or a delete by username
/// matches: one or none.
pub open spec fn matched(users: Users, username: Seq<char>) -> u64 {
    if users.contains_key(username) {
        1
    } else {
        0
    }
}

/// The contents after an update of the user with the username: that user
/// patched, everybody else as before. Nothing changes where nobody has the
/// username.
pub open spec fn updated(users: Users, username: Seq<char>, patch: UserPatchView) -> Users {
    if users.contains_key(username) {
        users.insert(username, patched(users[username], patch))
    } else {
        users
    }
}

/// The contents after a delete of the user with the username.
pub open spec fn deleted(users: Users, username: Seq<char>) -> Users {
    users.remove(username)
}

/// Whether `all` lists the contents: every stored user once, in any order,
/// and nobody else.
pub open spec fn is_listing(users: Users, all: Seq<UserView>) -> bool {
    &&& all.len() == users.dom().len()
    &&& forall|i: int|
        0 <= i < all.len() ==> users.contains_key(#[trigger] all[i].username)
            && users[all[i].username] == all[i]
    &&& forall|i: int, j: int|
        0 <= i < j < all.len() ==> #[trigger] all[i].username != #[trigger] all[j].username
    &&& forall|name: Seq<char>| #[trigger]
        users.contains_key(name) ==> all.contains(users[name])
}

} // verus!
