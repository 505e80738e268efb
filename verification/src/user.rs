//! The user record.

use vstd::prelude::*;

verus! {

/// A user as the collection stores it. `username` identifies the user and
/// never changes; the other three fields can be overwritten one by one.
#[derive(Debug, PartialEq, Eq)]
pub struct User {
    pub username: String,
    pub first_name: String,
    pub last_name: String,
    pub email: String,
}

/// The mathematical value of a [`User`]: its four texts.
pub struct UserView {
    pub username: Seq<char>,
    pub first_name: Seq<char>,
    pub last_name: Seq<char>,
    pub email: Seq<char>,
}

impl View for User {
    type V = UserView;

    open spec fn view(&self) -> UserView {
        UserView {
            username: self.username@,
            first_name: self.first_name@,
            last_name: self.last_name@,
            email: self.email@,
        }
    }
}

/// The values of the users in a list, in the list's order.
pub open spec fn user_views(users: Seq<User>) -> Seq<UserView> {
    Seq::new(users.len(), |i: int| users[i]@)
}

impl Clone for User {
    fn clone(&self) -> (copy: Self)
        ensures
            copy@ == self@,
    {
        User {
            username: self.username.clone(),
            first_name: self.first_name.clone(),
            last_name: self.last_name.clone(),
            email: self.email.clone(),
        }
    }
}

impl User {
    /// A user with the four texts given.
    pub fn new(username: &str, first_name: &str, last_name: &str, email: &str) -> (user: User)
        ensures
            user@ == (UserView {
                username: username@,
                first_name: first_name@,
                last_name: last_name@,
                email: email@,
            }),
    {
        User {
            username: username.to_owned(),
            first_name: first_name.to_owned(),
            last_name: last_name.to_owned(),
            email: email.to_owned(),
        }
    }
}

} // verus!
