use serde_json::Value;
use user_service::collection::{Conflict, UserCollection};
use user_service::patch::UserPatch;
use user_service::routes::{add_user, delete_user, get_user, get_users, update_user, Body};
use user_service::user::User;

fn body(text: &str) -> Value {
    serde_json::from_str(text).unwrap()
}

fn sorted(mut users: Vec<User>) -> Vec<User> {
    users.sort_by(|a, b| a.username.cmp(&b.username));
    users
}

fn three() -> UserCollection {
    let mut users = UserCollection::new();
    assert_eq!(users.insert(User::new("a", "X", "Y", "e@x.com")), Ok(()));
    assert_eq!(users.insert(User::new("b", "P", "Q", "r@s.t")), Ok(()));
    assert_eq!(users.insert(User::new("c", "U", "V", "w@x.y")), Ok(()));
    users
}

#[test]
fn added_user_is_found_equal() {
    let mut users = UserCollection::new();
    let user = User::new("alice", "Alice", "Liddell", "alice@example.com");
    assert_eq!(users.insert(user.clone()), Ok(()));
    assert_eq!(users.find_one("alice"), Some(user));
}

#[test]
fn added_user_with_empty_texts_is_found_equal() {
    let mut users = UserCollection::new();
    assert_eq!(users.insert(User::new("", "", "", "")), Ok(()));
    assert_eq!(users.find_one(""), Some(User::new("", "", "", "")));
}

#[test]
fn add_then_get_through_the_routes() {
    let mut users = UserCollection::new();
    let user = User::new("a", "X", "Y", "e@x.com");
    let added = add_user(users.insert(user.clone()).map_err(|c| c.username));
    assert_eq!(added.status, 200);
    assert_eq!(added.body, Body::Text("user added".to_string()));
    let got = get_user("a", Ok(users.find_one("a")));
    assert_eq!(got.status, 200);
    assert_eq!(got.body, Body::User(user));
}

#[test]
fn second_insert_with_the_username_is_refused() {
    let mut users = UserCollection::new();
    let first = User::new("a", "X", "Y", "e@x.com");
    let second = User::new("a", "P", "Q", "r@s.t");
    assert_eq!(users.insert(first.clone()), Ok(()));
    assert_eq!(users.insert(second), Err(Conflict { username: "a".to_string() }));
    assert_eq!(users.find_one("a"), Some(first));
    assert_eq!(users.len(), 1);
}

#[test]
fn refused_insert_is_answered_as_a_failure() {
    let mut users = UserCollection::new();
    assert_eq!(users.insert(User::new("a", "X", "Y", "e@x.com")), Ok(()));
    let outcome = users
        .insert(User::new("a", "P", "Q", "r@s.t"))
        .map_err(|conflict| format!("duplicate key: {}", conflict.username));
    let answer = add_user(outcome);
    assert_eq!(answer.status, 500);
    assert_eq!(answer.body, Body::Text("duplicate key: a".to_string()));
}

#[test]
fn same_user_twice_is_refused_too() {
    let mut users = UserCollection::new();
    let user = User::new("a", "X", "Y", "e@x.com");
    assert_eq!(users.insert(user.clone()), Ok(()));
    assert!(users.insert(user.clone()).is_err());
    assert_eq!(users.find_all(), vec![user]);
}

#[test]
fn empty_collection_lists_nobody() {
    let users = UserCollection::new();
    assert_eq!(users.find_all(), Vec::<User>::new());
    assert_eq!(users.len(), 0);
    let answer = get_users(Ok(users.find_all()));
    assert_eq!(answer.status, 200);
    assert_eq!(answer.body, Body::Users(vec![]));
}

#[test]
fn listing_holds_every_inserted_user() {
    let users = three();
    let all = users.find_all();
    assert_eq!(all.len(), 3);
    assert_eq!(
        sorted(all),
        vec![
            User::new("a", "X", "Y", "e@x.com"),
            User::new("b", "P", "Q", "r@s.t"),
            User::new("c", "U", "V", "w@x.y"),
        ]
    );
    assert_eq!(users.len(), 3);
}

#[test]
fn listing_of_many_users() {
    let mut users = UserCollection::new();
    for i in 0..50 {
        let name = format!("user{i}");
        assert_eq!(users.insert(User::new(&name, "F", "L", "m@n.o")), Ok(()));
    }
    assert_eq!(users.find_all().len(), 50);
    for i in 0..50 {
        let name = format!("user{i}");
        assert_eq!(users.find_one(&name), Some(User::new(&name, "F", "L", "m@n.o")));
    }
}

#[test]
fn partial_update_sets_only_the_last_name() {
    let mut users = UserCollection::new();
    assert_eq!(users.insert(User::new("a", "X", "Y", "e@x.com")), Ok(()));
    let patch = UserPatch::from_json(&body(r#"{"last_name":"Z"}"#));
    let matched = users.update_partial("a", &patch);
    assert_eq!(matched, 1);
    assert_eq!(update_user("a", Ok(matched)).body, Body::Text("User updated".to_string()));
    let user = users.find_one("a").unwrap();
    assert_eq!(user.first_name, "X");
    assert_eq!(user.email, "e@x.com");
    assert_eq!(user.last_name, "Z");
    assert_eq!(user, User::new("a", "X", "Z", "e@x.com"));
}

#[test]
fn update_leaves_the_other_users_alone() {
    let mut users = three();
    let patch = UserPatch::new(Some("N".to_string()), None, Some("n@n.n".to_string()));
    assert_eq!(users.update_partial("b", &patch), 1);
    assert_eq!(users.find_one("a"), Some(User::new("a", "X", "Y", "e@x.com")));
    assert_eq!(users.find_one("b"), Some(User::new("b", "N", "Q", "n@n.n")));
    assert_eq!(users.find_one("c"), Some(User::new("c", "U", "V", "w@x.y")));
    assert_eq!(users.len(), 3);
}

#[test]
fn update_cannot_change_the_username() {
    let mut users = three();
    let patch = UserPatch::from_json(&body(r#"{"username": "z", "first_name": "N"}"#));
    assert_eq!(users.update_partial("a", &patch), 1);
    assert_eq!(users.find_one("z"), None);
    assert_eq!(users.find_one("a"), Some(User::new("a", "N", "Y", "e@x.com")));
}

#[test]
fn update_with_nothing_recognised_matches_and_changes_nothing() {
    let mut users = three();
    let patch = UserPatch::from_json(&body(r#"{"nickname": "N", "email": 7}"#));
    assert_eq!(users.update_partial("a", &patch), 1);
    assert_eq!(update_user("a", Ok(1)).status, 200);
    assert_eq!(sorted(users.find_all()), sorted(three().find_all()));
}

#[test]
fn update_of_an_unknown_username_changes_nothing() {
    let mut users = three();
    let patch = UserPatch::new(None, Some("Z".to_string()), None);
    let matched = users.update_partial("nobody", &patch);
    assert_eq!(matched, 0);
    let answer = update_user("nobody", Ok(matched));
    assert_eq!(answer.status, 404);
    assert_eq!(answer.body, Body::Text("No user found with username nobody".to_string()));
    assert_eq!(users.find_all().len(), 3);
    assert_eq!(sorted(users.find_all()), sorted(three().find_all()));
}

#[test]
fn delete_of_an_unknown_username_changes_nothing() {
    let mut users = three();
    let deleted = users.delete("nobody");
    assert_eq!(deleted, 0);
    let answer = delete_user("nobody", Ok(deleted));
    assert_eq!(answer.status, 404);
    assert_eq!(answer.body, Body::Text("No user found with username nobody".to_string()));
    assert_eq!(users.find_all().len(), 3);
    assert_eq!(sorted(users.find_all()), sorted(three().find_all()));
}

#[test]
fn update_and_delete_on_an_empty_collection() {
    let mut users = UserCollection::new();
    assert_eq!(users.update_partial("a", &UserPatch::new(None, None, None)), 0);
    assert_eq!(users.delete("a"), 0);
    assert_eq!(users.len(), 0);
}

#[test]
fn delete_removes_the_target_only() {
    let mut users = three();
    let deleted = users.delete("a");
    assert_eq!(deleted, 1);
    assert_eq!(delete_user("a", Ok(deleted)).body, Body::Text("User deleted".to_string()));
    assert_eq!(users.find_one("a"), None);
    assert_eq!(get_user("a", Ok(users.find_one("a"))).status, 404);
    assert_eq!(users.find_one("b"), Some(User::new("b", "P", "Q", "r@s.t")));
    assert_eq!(users.find_one("c"), Some(User::new("c", "U", "V", "w@x.y")));
    assert_eq!(users.len(), 2);
}

#[test]
fn delete_twice_finds_nobody_the_second_time() {
    let mut users = three();
    assert_eq!(users.delete("b"), 1);
    assert_eq!(users.delete("b"), 0);
    assert_eq!(users.len(), 2);
}

#[test]
fn deleted_username_can_be_inserted_again() {
    let mut users = three();
    assert_eq!(users.delete("a"), 1);
    assert_eq!(users.insert(User::new("a", "N", "M", "o@p.q")), Ok(()));
    assert_eq!(users.find_one("a"), Some(User::new("a", "N", "M", "o@p.q")));
    assert_eq!(users.len(), 3);
}

#[test]
fn usernames_are_compared_exactly() {
    let mut users = UserCollection::new();
    assert_eq!(users.insert(User::new("a", "X", "Y", "e@x.com")), Ok(()));
    assert_eq!(users.insert(User::new("A", "P", "Q", "r@s.t")), Ok(()));
    assert_eq!(users.insert(User::new("a ", "U", "V", "w@x.y")), Ok(()));
    assert_eq!(users.len(), 3);
    assert_eq!(users.find_one("A"), Some(User::new("A", "P", "Q", "r@s.t")));
}
