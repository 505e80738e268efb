//! The answer of each route. A route makes one call to the storage and
//! answers by what came back: the stored data or a fixed text on success, a
//! text that names the username where no user matched, and the failure's
//! own description where the storage failed.

use vstd::prelude::*;
use vstd::string::StringExecFns;
use crate::user::{user_views, User, UserView};

verus! {

/// Status of an answer to a request that was served.
pub const STATUS_OK: u16 = 200;

/// Status of an answer to a request that names a username nobody has.
pub const STATUS_NOT_FOUND: u16 = 404;

/// Status of an answer to a request on which the storage failed.
pub const STATUS_FAILURE: u16 = 500;

/// What an answer carries: a plain text, or data that goes out as JSON.
#[derive(Debug, PartialEq, Eq)]
pub enum Body {
    Text(String),
    User(User),
    Users(Vec<User>),
}

/// An answer: the HTTP status and the body.
#[derive(Debug, PartialEq, Eq)]
pub struct Response {
    pub status: u16,
    pub body: Body,
}

/// The mathematical value of a [`Body`].
pub enum BodyView {
    Text(Seq<char>),
    User(UserView),
    Users(Seq<UserView>),
}

/// The mathematical value of a [`Response`].
pub struct ResponseView {
    pub status: u16,
    pub body: BodyView,
}

impl View for Body {
    type V = BodyView;

    open spec fn view(&self) -> BodyView {
        match self {
            Body::Text(text) => BodyView::Text(text@),
            Body::User(user) => BodyView::User(user@),
            Body::Users(users) => BodyView::Users(user_views(users@)),
        }
    }
}

impl View for Response {
    type V = ResponseView;

    open spec fn view(&self) -> ResponseView {
        ResponseView { status: self.status, body: self.body@ }
    }
}

/// An answer with a text as its body.
pub open spec fn text_answer(status: u16, text: Seq<char>) -> ResponseView {
    ResponseView { status, body: BodyView::Text(text) }
}

/// The text that tells that nobody has the username.
pub open spec fn not_found_text(username: Seq<char>) -> Seq<char> {
    "No user found with username "@ + username
}

/// The answer where the storage failed: the failure's description, as it
/// came.
pub open spec fn failure_answer(description: Seq<char>) -> ResponseView {
    text_answer(STATUS_FAILURE, description)
}

/// The answer where no stored user has the username.
pub open spec fn not_found_answer(username: Seq<char>) -> ResponseView {
    text_answer(STATUS_NOT_FOUND, not_found_text(username))
}

/// The answer of a route that changes one user, by the number of users
/// that the storage matched: the route's own text where it matched one,
/// not found where it matched none.
pub open spec fn change_answer(
    username: Seq<char>,
    outcome: Result<u64, String>,
    done: Seq<char>,
) -> ResponseView {
    match outcome {
        Ok(count) => if count > 0 {
            text_answer(STATUS_OK, done)
        } else {
            not_found_answer(username)
        },
        Err(description) => failure_answer(description@),
    }
}

/// The answer of the route that adds a user.
pub open spec fn add_user_answer(outcome: Result<(), String>) -> ResponseView {
    match outcome {
        Ok(_) => text_answer(STATUS_OK, "user added"@),
        Err(description) => failure_answer(description@),
    }
}

/// The answer of the route that gets one user.
pub open spec fn get_user_answer(
    username: Seq<char>,
    outcome: Result<Option<User>, String>,
) -> ResponseView {
    match outcome {
        Ok(Some(user)) => ResponseView { status: STATUS_OK, body: BodyView::User(user@) },
        Ok(None) => not_found_answer(username),
        Err(description) => failure_answer(description@),
    }
}

/// The answer of the route that gets all users.
pub open spec fn get_users_answer(outcome: Result<Vec<User>, String>) -> ResponseView {
    match outcome {
        Ok(users) => ResponseView { status: STATUS_OK, body: BodyView::Users(user_views(users@)) },
        Err(description) => failure_answer(description@),
    }
}

/// The answer of the route that updates a user.
pub open spec fn update_user_answer(username: Seq<char>, outcome: Result<u64, String>) -> ResponseView {
    change_answer(username, outcome, "User updated"@)
}

/// The answer of the route that deletes a user.
pub open spec fn delete_user_answer(username: Seq<char>, outcome: Result<u64, String>) -> ResponseView {
    change_answer(username, outcome, "User deleted"@)
}

/// An answer with the given status and text.
fn text_response(status: u16, text: String) -> (response: Response)
    ensures
        response@ == text_answer(status, text@),
{
    Response { status, body: Body::Text(text) }
}

/// The answer where the storage failed.
fn failure(description: String) -> (response: Response)
    ensures
        response@ == failure_answer(description@),
{
    text_response(STATUS_FAILURE, description)
}

/// The answer where no stored user has the username.
pub fn not_found(username: &str) -> (response: Response)
    ensures
        response@ == not_found_answer(username@),
{
    let mut text = String::from_str("No user found with username ");
    text.append(username);
    text_response(STATUS_NOT_FOUND, text)
}

/// Answers the request to add a user, given whether the storage took it.
/// A refused or failed insert, a duplicate username among them, is a
/// failure with the storage's description.
pub fn add_user(outcome: Result<(), String>) -> (response: Response)
    ensures
        response@ == add_user_answer(outcome),
{
    match outcome {
        Ok(_) => text_response(STATUS_OK, String::from_str("user added")),
        Err(description) => failure(description),
    }
}

/// Answers the request for the user with `username`, given what the
/// storage found.
pub fn get_user(username: &str, outcome: Result<Option<User>, String>) -> (response: Response)
    ensures
        response@ == get_user_answer(username@, outcome),
{
    match outcome {
        Ok(Some(user)) => Response { status: STATUS_OK, body: Body::User(user) },
        Ok(None) => not_found(username),
        Err(description) => failure(description),
    }
}

/// Answers the request for all users, given the list that the storage
/// gave. An empty list is a success like any other.
pub fn get_users(outcome: Result<Vec<User>, String>) -> (response: Response)
    ensures
        response@ == get_users_answer(outcome),
{
    match outcome {
        Ok(users) => Response { status: STATUS_OK, body: Body::Users(users) },
        Err(description) => failure(description),
    }
}

/// Answers the request to update the user with `username`, given the
/// number of users that the storage matched.
pub fn update_user(username: &str, outcome: Result<u64, String>) -> (response: Response)
    ensures
        response@ == update_user_answer(username@, outcome),
{
    match outcome {
        Ok(matched) => {
            if matched > 0 {
                text_response(STATUS_OK, String::from_str("User updated"))
            } else {
                not_found(username)
            }
        },
        Err(description) => failure(description),
    }
}

/// Answers the request to delete the user with `username`, given the
/// number of users that the storage deleted.
pub fn delete_user(username: &str, outcome: Result<u64, String>) -> (response: Response)
    ensures
        response@ == delete_user_answer(username@, outcome),
{
    match outcome {
        Ok(deleted) => {
            if deleted > 0 {
                text_response(STATUS_OK, String::from_str("User deleted"))
            } else {
                not_found(username)
            }
        },
        Err(description) => failure(description),
    }
}

} // verus!
