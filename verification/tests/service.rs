use user_service::store::UserStore;
use user_service::user::NewUser;

fn seeded_store() -> UserStore {
    let mut store = UserStore::new();
    store.insert_user(String::from("Alice"));
    store.insert_user(String::from("Bob"));
    store
}

#[test]
fn test_health_check() {
    let mut store = UserStore::new();
    let response = user_service::service::handle_request(&mut store, "GET", "/health", None);
    assert_eq!(response.status, 200);
    assert_eq!(response.body, "ok");
}

#[test]
fn test_get_users() {
    let mut store = seeded_store();
    let response = user_service::service::handle_request(&mut store, "GET", "/users", None);
    assert_eq!(response.status, 200);
    let users: serde_json::Value = serde_json::from_str(&response.body).unwrap();
    assert_eq!(users.as_array().unwrap().len(), 2);
    assert_eq!(users[0]["name"], "Alice");
    assert_eq!(users[1]["name"], "Bob");
}

#[test]
fn test_get_user_not_found() {
    let mut store = seeded_store();
    let response = user_service::service::handle_request(&mut store, "GET", "/users/999", None);
    assert_eq!(response.status, 404);
    let error_message: serde_json::Value = serde_json::from_str(&response.body).unwrap();
    assert_eq!(error_message["error"], "Not found");
}

#[test]
fn test_create_user() {
    let mut store = seeded_store();
    let payload = NewUser { name: String::from("Charlie") };
    let response = user_service::service::handle_request(&mut store, "POST", "/users", Some(payload));
    assert_eq!(response.status, 201);
    let created_user: serde_json::Value = serde_json::from_str(&response.body).unwrap();
    assert_eq!(created_user["name"], "Charlie");
}

#[test]
fn seeded_listing_then_create_then_missing_id() {
    let mut store = seeded_store();

    let listing = user_service::service::handle_request(&mut store, "GET", "/users", None);
    assert_eq!(listing.status, 200);
    assert_eq!(
        listing.body,
        "[{\"id\":1,\"name\":\"Alice\"},{\"id\":2,\"name\":\"Bob\"}]"
    );

    let payload = NewUser { name: String::from("Charlie") };
    let created = user_service::service::handle_request(&mut store, "POST", "/users", Some(payload));
    assert_eq!(created.status, 201);
    assert_eq!(created.body, "{\"id\":3,\"name\":\"Charlie\"}");

    let missing = user_service::service::handle_request(&mut store, "GET", "/users/999", None);
    assert_eq!(missing.status, 404);
}

#[test]
fn create_then_get_returns_same_user() {
    let mut store = UserStore::new();
    let payload = NewUser { name: String::from("Dana") };
    let created = user_service::service::handle_request(&mut store, "POST", "/users", Some(payload));
    assert_eq!(created.status, 201);
    let created_user: serde_json::Value = serde_json::from_str(&created.body).unwrap();
    let id = created_user["id"].as_i64().unwrap();
    assert_eq!(id, 1);

    let fetched = user_service::service::handle_request(
        &mut store,
        "GET",
        &format!("/users/{}", id),
        None,
    );
    assert_eq!(fetched.status, 200);
    let fetched_user: serde_json::Value = serde_json::from_str(&fetched.body).unwrap();
    assert_eq!(fetched_user["id"].as_i64().unwrap(), id);
    assert_eq!(fetched_user["name"], "Dana");
}

#[test]
fn whitespace_name_rejected_and_nothing_persisted() {
    let mut store = seeded_store();
    for name in ["", " ", " \t\r\n ", "\u{00A0}\u{2003}\u{3000}"] {
        let payload = NewUser { name: String::from(name) };
        let rejected =
            user_service::service::handle_request(&mut store, "POST", "/users", Some(payload));
        assert_eq!(rejected.status, 400);
        assert_eq!(rejected.body, "{\"error\":\"Name must not be empty\"}");
    }
    let listing = user_service::service::handle_request(&mut store, "GET", "/users", None);
    let users: serde_json::Value = serde_json::from_str(&listing.body).unwrap();
    assert_eq!(users.as_array().unwrap().len(), 2);
}

#[test]
fn listing_keeps_insertion_order_with_increasing_ids() {
    let mut store = UserStore::new();
    let first = NewUser { name: String::from("Alice") };
    let second = NewUser { name: String::from("Bob") };
    user_service::service::handle_request(&mut store, "POST", "/users", Some(first));
    user_service::service::handle_request(&mut store, "POST", "/users", Some(second));

    let listing = user_service::service::handle_request(&mut store, "GET", "/users", None);
    let users: serde_json::Value = serde_json::from_str(&listing.body).unwrap();
    let rows = users.as_array().unwrap();
    assert_eq!(rows.len(), 2);
    assert_eq!(rows[0]["name"], "Alice");
    assert_eq!(rows[1]["name"], "Bob");
    assert!(rows[0]["id"].as_i64().unwrap() < rows[1]["id"].as_i64().unwrap());
}

#[test]
fn repeated_reads_return_identical_content() {
    let mut store = seeded_store();
    let first = user_service::service::handle_request(&mut store, "GET", "/users/2", None);
    let second = user_service::service::handle_request(&mut store, "GET", "/users/2", None);
    assert_eq!(first.status, second.status);
    assert_eq!(first.body, second.body);
    assert_eq!(first.status, 200);
    assert_eq!(first.body, "{\"id\":2,\"name\":\"Bob\"}");
}

#[test]
fn empty_listing_is_empty_array_not_error() {
    let mut store = UserStore::new();
    let listing = user_service::service::handle_request(&mut store, "GET", "/users", None);
    assert_eq!(listing.status, 200);
    assert_eq!(listing.body, "[]");
}

#[test]
fn negative_id_is_a_missing_user_not_a_missing_route() {
    let mut store = seeded_store();
    let response = user_service::service::handle_request(&mut store, "GET", "/users/-1", None);
    assert_eq!(response.status, 404);
    assert_eq!(response.body, "{\"error\":\"Not found\"}");
}
