use user_service::router::{route, Route};
use user_service::store::UserStore;

#[test]
fn recognized_routes_match() {
    assert!(matches!(route("GET", "/users"), Route::ListUsers));
    assert!(matches!(route("POST", "/users"), Route::CreateUser));
    assert!(matches!(route("GET", "/health"), Route::Health));
    assert!(matches!(route("GET", "/users/42"), Route::GetUserById(42)));
    assert!(matches!(route("GET", "/users/+7"), Route::GetUserById(7)));
    assert!(matches!(route("GET", "/users/-1"), Route::GetUserById(-1)));
}

#[test]
fn unknown_method_and_path_pairs_fall_through() {
    assert!(matches!(route("DELETE", "/users"), Route::NoMatch));
    assert!(matches!(route("POST", "/health"), Route::NoMatch));
    assert!(matches!(route("GET", "/nope"), Route::NoMatch));
    assert!(matches!(route("GET", "/users/"), Route::NoMatch));
    assert!(matches!(route("GET", "/users/1/extra"), Route::NoMatch));
    assert!(matches!(route("GET", ""), Route::NoMatch));
}

#[test]
fn malformed_id_falls_through() {
    assert!(matches!(route("GET", "/users/abc"), Route::NoMatch));
    assert!(matches!(route("GET", "/users/12x"), Route::NoMatch));
    assert!(matches!(route("GET", "/users/99999999999"), Route::NoMatch));
    assert!(matches!(route("GET", "/users/2147483648"), Route::NoMatch));
    assert!(matches!(route("GET", "/users/--1"), Route::NoMatch));
}

#[test]
fn id_at_the_range_ends_still_routes() {
    assert!(matches!(
        route("GET", "/users/2147483647"),
        Route::GetUserById(2147483647)
    ));
    assert!(matches!(
        route("GET", "/users/-2147483648"),
        Route::GetUserById(-2147483648)
    ));
}

#[test]
fn unmatched_route_response_is_the_fixed_body() {
    let mut store = UserStore::new();
    let response = user_service::service::handle_request(&mut store, "GET", "/users/abc", None);
    assert_eq!(response.status, 404);
    assert_eq!(response.body, "{\"error\":\"Route not found\"}");

    let response = user_service::service::handle_request(&mut store, "PUT", "/users", None);
    assert_eq!(response.status, 404);
    assert_eq!(response.body, "{\"error\":\"Route not found\"}");
}
