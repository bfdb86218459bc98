use vstd::prelude::*;

use crate::errors::{empty_name_msg, not_found_msg, route_not_found_msg, AppError};
use crate::http::Response;
use crate::json::{error_body, error_body_seq, user_json, user_json_seq, users_json, users_json_seq};
use crate::router::{route, spec_route, Route};
use crate::store::{ids_sequential, UserStore};
use crate::user::{NewUser, User};
use crate::validation::{all_whitespace, validate_new_user};

verus! {

/// The liveness body: the fixed plain text `ok`.
pub open spec fn health_body() -> Seq<char> {
    seq!['o', 'k']
}

/// The listing outcome: always 200 with the whole table as a JSON array.
pub open spec fn list_tr(users: Seq<User>) -> (int, Seq<char>) {
    (200int, users_json_seq(users))
}

/// The single-user outcome: the row as JSON under 200 when the id is taken,
/// else the NotFound classification.
pub open spec fn get_tr(users: Seq<User>, id: int) -> (int, Seq<char>) {
    if 1 <= id <= users.len() {
        (200int, user_json_seq(id as nat, users[id - 1].name@))
    } else {
        (404int, error_body_seq(not_found_msg()))
    }
}

/// The creation outcome: the Validation classification when the name trims
/// to nothing, else 201 with the stored row under the next id.
pub open spec fn create_tr(users: Seq<User>, name: Seq<char>) -> (int, Seq<char>) {
    if all_whitespace(name) {
        (400int, error_body_seq(empty_name_msg()))
    } else {
        (201int, user_json_seq((users.len() + 1) as nat, name))
    }
}

/// The table after a creation: unchanged on a rejected name, else grown by
/// one row under the next id.
pub open spec fn create_model(users: Seq<User>, name: String) -> Seq<User> {
    if all_whitespace(name@) {
        users
    } else {
        users.push(User { id: (users.len() + 1) as i32, name })
    }
}

/// The unmatched-route outcome.
pub open spec fn fallback_tr() -> (int, Seq<char>) {
    (404int, error_body_seq(route_not_found_msg()))
}

/// The liveness outcome.
pub open spec fn health_tr() -> (int, Seq<char>) {
    (200int, health_body())
}

/// `GET /health`: constant 200 `ok`. It takes no store at all, so it succeeds
/// whatever the store holds, before any user exists and with the store
/// unreachable alike.
pub fn health() -> (r: Response)
    ensures
        (r.status as int, r.body@) == health_tr(),
{
    proof {
        reveal_strlit("ok");
        assert(("ok")@ =~= health_body());
    }
    Response { status: 200, body: String::from_str("ok") }
}

/// The fixed response for an unmatched route.
pub fn fallback() -> (r: Response)
    ensures
        (r.status as int, r.body@) == fallback_tr(),
{
    proof {
        reveal_strlit("Route not found");
        assert(("Route not found")@ =~= route_not_found_msg());
    }
    let body = error_body("Route not found");
    Response { status: 404, body }
}

/// `GET /users`: the whole listing in insertion order as a JSON array; an
/// empty table lists as the empty array, never as an error.
pub fn get_users(store: &UserStore) -> (r: Response)
    requires
        store.wf(),
    ensures
        (r.status as int, r.body@) == list_tr(store@),
{
    let users = store.list_users();
    proof {
        assert forall|i: int| 0 <= i < users@.len() implies users@[i].id >= 0 by {
            assert(users@[i].id == i + 1);
        }
    }
    let body = users_json(users);
    Response { status: 200, body }
}

/// `GET /users/{id}`: the row when present, else the NotFound classification.
pub fn get_user(store: &UserStore, id: i32) -> (r: Response)
    requires
        store.wf(),
    ensures
        (r.status as int, r.body@) == get_tr(store@, id as int),
{
    match store.get_user(id) {
        Some(u) => {
            let body = user_json(u);
            Response { status: 200, body }
        },
        None => AppError::NotFound.into_response(),
    }
}

/// `POST /users`: validation, then insertion, then 201 with the stored row,
/// id included. A name of nothing but white space is rejected with 400
/// before any storage call, so no partial write ever happens.
pub fn create_user(store: &mut UserStore, new: NewUser) -> (r: Response)
    requires
        old(store).wf(),
        old(store)@.len() + 1 <= i32::MAX,
    ensures
        final(store).wf(),
        final(store)@ == create_model(old(store)@, new.name),
        (r.status as int, r.body@) == create_tr(old(store)@, new.name@),
{
    match validate_new_user(&new) {
        Ok(()) => {
            let u = store.insert_user(new.name);
            let body = user_json(&u);
            Response { status: 201, body }
        },
        Err(e) => e.into_response(),
    }
}

/// One request through the whole pipeline: route dispatch, then the matched
/// handler with its validation, storage call and error classification. The
/// creation payload must be present when the route is `POST /users`; callers
/// decode it from the request body before dispatch.
pub fn handle_request(
    store: &mut UserStore,
    method: &str,
    path: &str,
    body: Option<NewUser>,
) -> (r: Response)
    requires
        old(store).wf(),
        old(store)@.len() + 1 <= i32::MAX,
        spec_route(method@, path@) is CreateUser ==> body is Some,
    ensures
        final(store).wf(),
        final(store)@ == (if spec_route(method@, path@) is CreateUser {
            create_model(old(store)@, body->Some_0.name)
        } else {
            old(store)@
        }),
        (r.status as int, r.body@) == (match spec_route(method@, path@) {
            Route::ListUsers => list_tr(old(store)@),
            Route::CreateUser => create_tr(old(store)@, body->Some_0.name@),
            Route::GetUserById(id) => get_tr(old(store)@, id as int),
            Route::Health => health_tr(),
            Route::NoMatch => fallback_tr(),
        }),
{
    match route(method, path) {
        Route::ListUsers => get_users(store),
        Route::CreateUser => match body {
            Some(new) => create_user(store, new),
            None => unreached(),
        },
        Route::GetUserById(id) => get_user(store, id),
        Route::Health => health(),
        Route::NoMatch => fallback(),
    }
}

/// Law: creating a user with a valid name and then fetching the returned id
/// yields 200 with exactly that name under exactly that id.
pub proof fn lemma_create_then_get(users: Seq<User>, name: String)
    requires
        ids_sequential(users),
        !all_whitespace(name@),
        users.len() + 1 <= i32::MAX,
    ensures
        create_tr(users, name@) == (201int, user_json_seq((users.len() + 1) as nat, name@)),
        ids_sequential(create_model(users, name)),
        get_tr(create_model(users, name), users.len() as int + 1) == (200int, user_json_seq(
            (users.len() + 1) as nat,
            name@,
        )),
{
    let users2 = create_model(users, name);
    assert forall|i: int| 0 <= i < users2.len() implies users2[i].id == i + 1 by {
        if i < users.len() {
            assert(users2[i] == users[i]);
        }
    }
    assert(users2[users.len() as int].name@ == name@);
}

/// Law: fetching an id that no row carries yields 404 with the fixed
/// `Not found` body. Under sequential ids every taken id lies between one
/// and the row count, so an id outside that range was never inserted.
pub proof fn lemma_get_missing(users: Seq<User>, id: int)
    requires
        ids_sequential(users),
        forall|i: int| 0 <= i < users.len() ==> users[i].id != id,
    ensures
        get_tr(users, id) == (404int, error_body_seq(not_found_msg())),
{
    if 1 <= id <= users.len() {
        assert(users[id - 1].id == id);
    }
}

/// Law: a creation whose name is nothing but white space (the empty name
/// included) yields 400, persists no row, and leaves a later listing
/// unchanged.
pub proof fn lemma_whitespace_create_rejected(users: Seq<User>, name: String)
    requires
        all_whitespace(name@),
    ensures
        create_tr(users, name@) == (400int, error_body_seq(empty_name_msg())),
        create_model(users, name) == users,
        list_tr(create_model(users, name)) == list_tr(users),
{
}

/// Law: creating two users in turn stores them in that order under strictly
/// increasing ids, and the listing keeps that order.
pub proof fn lemma_two_creates_ordered(users: Seq<User>, first: String, second: String)
    requires
        ids_sequential(users),
        !all_whitespace(first@),
        !all_whitespace(second@),
        users.len() + 2 <= i32::MAX,
    ensures
        ({
            let after = create_model(create_model(users, first), second);
            &&& after.len() == users.len() + 2
            &&& after[users.len() as int].name@ == first@
            &&& after[users.len() as int + 1].name@ == second@
            &&& after[users.len() as int].id < after[users.len() as int + 1].id
            &&& ids_sequential(after)
        }),
{
    let mid = create_model(users, first);
    let after = create_model(mid, second);
    assert forall|i: int| 0 <= i < after.len() implies after[i].id == i + 1 by {
        if i < users.len() {
            assert(mid[i] == users[i]);
            assert(after[i] == mid[i]);
        } else if i < mid.len() {
            assert(after[i] == mid[i]);
        }
    }
}

/// Law: reads are idempotent: with no write between them, two fetches of the
/// same id yield identical status and content.
pub proof fn lemma_get_idempotent(
    users: Seq<User>,
    id: int,
    r1: (int, Seq<char>),
    r2: (int, Seq<char>),
)
    requires
        r1 == get_tr(users, id),
        r2 == get_tr(users, id),
    ensures
        r1 == r2,
{
}

} // verus!
