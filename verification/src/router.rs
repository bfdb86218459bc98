use vstd::prelude::*;

use crate::numbers::{int_val, parse_i32, valid_i32_str};
use crate::text::str_eq;

verus! {

/// The recognized routes, and the fallback for every other request. A path
/// id that is not a well-formed `i32` is a routing failure, the same as an
/// unknown route, not a missing user.
pub enum Route {
    /// `GET /users`
    ListUsers,
    /// `POST /users`
    CreateUser,
    /// `GET /users/{id}` with a well-formed integer id
    GetUserById(i32),
    /// `GET /health`
    Health,
    /// No recognized method and path pair
    NoMatch,
}

/// The characters of the method `GET`.
pub open spec fn method_get() -> Seq<char> {
    seq!['G', 'E', 'T']
}

/// The characters of the method `POST`.
pub open spec fn method_post() -> Seq<char> {
    seq!['P', 'O', 'S', 'T']
}

/// The characters of the collection path `/users`.
pub open spec fn users_path() -> Seq<char> {
    seq!['/', 'u', 's', 'e', 'r', 's']
}

/// The characters of the liveness path `/health`.
pub open spec fn health_path() -> Seq<char> {
    seq!['/', 'h', 'e', 'a', 'l', 't', 'h']
}

/// The characters of the single-user path prefix `/users/`.
pub open spec fn users_prefix() -> Seq<char> {
    seq!['/', 'u', 's', 'e', 'r', 's', '/']
}

/// Route selection: exactly one route per method and path, with no wildcard
/// and no trailing-slash normalization; everything unmatched, a malformed id
/// included, selects the fallback.
pub open spec fn spec_route(method: Seq<char>, path: Seq<char>) -> Route {
    if method == method_get() && path == users_path() {
        Route::ListUsers
    } else if method == method_post() && path == users_path() {
        Route::CreateUser
    } else if method == method_get() && path == health_path() {
        Route::Health
    } else if method == method_get() && path.len() > 7 && path.take(7) == users_prefix()
        && valid_i32_str(path.skip(7)) {
        Route::GetUserById(int_val(path.skip(7)) as i32)
    } else {
        Route::NoMatch
    }
}

/// Matches a method and path to a route.
pub fn route(method: &str, path: &str) -> (r: Route)
    ensures
        r == spec_route(method@, path@),
{
    proof {
        reveal_strlit("GET");
        reveal_strlit("POST");
        reveal_strlit("/users");
        reveal_strlit("/health");
        reveal_strlit("/users/");
        assert(("GET")@ =~= method_get());
        assert(("POST")@ =~= method_post());
        assert(("/users")@ =~= users_path());
        assert(("/health")@ =~= health_path());
        assert(("/users/")@ =~= users_prefix());
    }
    let is_get = str_eq(method, "GET");
    if is_get && str_eq(path, "/users") {
        Route::ListUsers
    } else if str_eq(method, "POST") && str_eq(path, "/users") {
        Route::CreateUser
    } else if is_get && str_eq(path, "/health") {
        Route::Health
    } else if is_get && path.unicode_len() > 7 && str_eq(path.substring_char(0, 7), "/users/") {
        let n = path.unicode_len();
        let rest = path.substring_char(7, n);
        proof {
            assert(rest@ =~= path@.skip(7));
        }
        match parse_i32(rest) {
            Some(id) => Route::GetUserById(id),
            None => Route::NoMatch,
        }
    } else {
        Route::NoMatch
    }
}

} // verus!
