use user_service::bootstrap::{
    connection_uri, username_index, FieldIndex, BIND_HOST, BIND_PORT, COLLECTION, DATABASE,
    DEFAULT_URI,
};

#[test]
fn names_and_addresses() {
    assert_eq!(DATABASE, "myApp");
    assert_eq!(COLLECTION, "users");
    assert_eq!(DEFAULT_URI, "mongodb://localhost:27017");
    assert_eq!(BIND_HOST, "127.0.0.1");
    assert_eq!(BIND_PORT, 8080);
}

#[test]
fn configured_uri_is_taken() {
    assert_eq!(
        connection_uri(Some("mongodb://db.example:27018".to_string())),
        "mongodb://db.example:27018"
    );
    assert_eq!(connection_uri(Some(String::new())), "");
}

#[test]
fn missing_uri_gives_the_default() {
    assert_eq!(connection_uri(None), "mongodb://localhost:27017");
}

#[test]
fn index_is_unique_on_username() {
    assert_eq!(
        username_index(),
        FieldIndex { field: "username".to_string(), direction: 1, unique: true }
    );
}
