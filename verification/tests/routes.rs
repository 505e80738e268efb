use user_service::routes::{
    add_user, delete_user, get_user, get_users, not_found, update_user, Body, Response,
    STATUS_FAILURE, STATUS_NOT_FOUND, STATUS_OK,
};
use user_service::user::User;

fn text(status: u16, body: &str) -> Response {
    Response { status, body: Body::Text(body.to_string()) }
}

#[test]
fn statuses_are_the_http_ones() {
    assert_eq!(STATUS_OK, 200);
    assert_eq!(STATUS_NOT_FOUND, 404);
    assert_eq!(STATUS_FAILURE, 500);
}

#[test]
fn not_found_names_the_username() {
    assert_eq!(not_found("bob"), text(404, "No user found with username bob"));
    assert_eq!(not_found(""), text(404, "No user found with username "));
}

#[test]
fn add_user_answers_success() {
    assert_eq!(add_user(Ok(())), text(200, "user added"));
}

#[test]
fn add_user_answers_failure_with_the_description() {
    let description = "E11000 duplicate key error collection: myApp.users".to_string();
    assert_eq!(
        add_user(Err(description)),
        text(500, "E11000 duplicate key error collection: myApp.users")
    );
}

#[test]
fn get_user_answers_with_the_user() {
    let user = User::new("a", "X", "Y", "e@x.com");
    assert_eq!(
        get_user("a", Ok(Some(user))),
        Response { status: 200, body: Body::User(User::new("a", "X", "Y", "e@x.com")) }
    );
}

#[test]
fn get_user_answers_not_found() {
    assert_eq!(get_user("a", Ok(None)), text(404, "No user found with username a"));
}

#[test]
fn get_user_answers_failure() {
    assert_eq!(get_user("a", Err("connection reset".to_string())), text(500, "connection reset"));
}

#[test]
fn get_users_answers_with_the_list() {
    let users = vec![User::new("a", "X", "Y", "e@x.com"), User::new("b", "P", "Q", "r@s.t")];
    assert_eq!(
        get_users(Ok(users)),
        Response {
            status: 200,
            body: Body::Users(vec![
                User::new("a", "X", "Y", "e@x.com"),
                User::new("b", "P", "Q", "r@s.t"),
            ]),
        }
    );
}

#[test]
fn get_users_answers_an_empty_list_with_success() {
    assert_eq!(get_users(Ok(vec![])), Response { status: 200, body: Body::Users(vec![]) });
}

#[test]
fn get_users_answers_failure() {
    assert_eq!(get_users(Err("timed out".to_string())), text(500, "timed out"));
}

#[test]
fn update_user_answers_by_the_matched_count() {
    assert_eq!(update_user("a", Ok(1)), text(200, "User updated"));
    assert_eq!(update_user("a", Ok(2)), text(200, "User updated"));
    assert_eq!(update_user("a", Ok(u64::MAX)), text(200, "User updated"));
    assert_eq!(update_user("a", Ok(0)), text(404, "No user found with username a"));
}

#[test]
fn update_user_answers_failure() {
    assert_eq!(update_user("a", Err("boom".to_string())), text(500, "boom"));
}

#[test]
fn delete_user_answers_by_the_deleted_count() {
    assert_eq!(delete_user("a", Ok(1)), text(200, "User deleted"));
    assert_eq!(delete_user("a", Ok(0)), text(404, "No user found with username a"));
}

#[test]
fn delete_user_answers_failure() {
    assert_eq!(delete_user("a", Err(String::new())), text(500, ""));
}
