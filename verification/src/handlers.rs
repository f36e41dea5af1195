use vstd::prelude::*;
use vstd::string::StringExecFns;

use crate::models::{NewUser, User};
use crate::repositories::{activated, RepoError, UserRepository};
use crate::table::{contains_id, inserted_view, next_id, next_id_fits, renamed_view, UsersTable};

verus! {

/// The uniform JSON error payload: `status` is always the word `error`,
/// `reason` carries the message.
pub struct ErrorBody {
    pub status: String,
    pub reason: String,
}

/// What a response carries: the listed rows, a single row, an error payload,
/// or nothing (the delete endpoint answers with an empty body).
pub enum ResponseBody {
    Users(Vec<User>),
    Single(User),
    Error(ErrorBody),
    Empty,
}

/// An HTTP response as the handlers decide it: a status code and a body.
pub struct HttpResponse {
    pub status: u16,
    pub body: ResponseBody,
}

/// `resp` is an error response with the given status code and reason.
pub open spec fn is_error_response(resp: HttpResponse, status: int, reason: Seq<char>) -> bool {
    resp.status == status && (resp.body matches ResponseBody::Error(b) && b.status@ == "error"@
        && b.reason@ == reason)
}

/// An error response with the given status code and reason.
fn error_response(status: u16, reason: String) -> (resp: HttpResponse)
    ensures
        is_error_response(resp, status as int, reason@),
{
    HttpResponse {
        status: status,
        body: ResponseBody::Error(
            ErrorBody { status: String::from_str("error"), reason: reason },
        ),
    }
}

/// The service's one error policy, the same for every endpoint: a not-found
/// error answers 404 with the fixed not-found reason, any other storage
/// error answers 500 with the backend's message.
pub open spec fn maps_error(e: RepoError, resp: HttpResponse) -> bool {
    match e {
        RepoError::NotFound => is_error_response(resp, 404, "Resource was not found."@),
        RepoError::Storage(m) => is_error_response(resp, 500, m@),
    }
}

/// The error policy, executed: see `maps_error`.
fn error_to_response(e: RepoError) -> (resp: HttpResponse)
    ensures
        maps_error(e, resp),
{
    match e {
        RepoError::NotFound => error_response(
            404,
            String::from_str("Resource was not found."),
        ),
        RepoError::Storage(m) => error_response(500, m),
    }
}

/// Maps a list result as the list endpoint does: success to 200 with the
/// rows, errors per the service's one error policy.
pub fn list_response(r: Result<Vec<User>, RepoError>) -> (resp: HttpResponse)
    ensures
        (match r {
            Ok(users) => resp.status == 200 && (resp.body matches ResponseBody::Users(v) && v@
                == users@),
            Err(e) => maps_error(e, resp),
        }),
{
    match r {
        Ok(users) => HttpResponse { status: 200, body: ResponseBody::Users(users) },
        Err(e) => error_to_response(e),
    }
}

/// Maps a single-row result as the get, create and update endpoints do:
/// success to 200 with the row, errors per the service's one error policy.
pub fn single_response(r: Result<User, RepoError>) -> (resp: HttpResponse)
    ensures
        (match r {
            Ok(u) => resp.status == 200 && (resp.body matches ResponseBody::Single(u2) && u2@
                == u@),
            Err(e) => maps_error(e, resp),
        }),
{
    match r {
        Ok(u) => HttpResponse { status: 200, body: ResponseBody::Single(u) },
        Err(e) => error_to_response(e),
    }
}

/// Maps a delete result as the delete endpoint does: success to 204 with an
/// empty body, errors per the service's one error policy.
pub fn delete_response(r: Result<usize, RepoError>) -> (resp: HttpResponse)
    ensures
        (match r {
            Ok(n) => resp.status == 204 && resp.body is Empty,
            Err(e) => maps_error(e, resp),
        }),
{
    match r {
        Ok(_) => HttpResponse { status: 204, body: ResponseBody::Empty },
        Err(e) => error_to_response(e),
    }
}

/// Lists every user: 200 with the rows in descending id order.
pub fn get_users(table: &UsersTable) -> (resp: HttpResponse)
    requires
        table.wf(),
    ensures
        resp.status == 200,
        resp.body matches ResponseBody::Users(v) && v@.map_values(|u: User| u@) == table@,
        resp.body matches ResponseBody::Users(v) ==> forall|i: int, j: int|
            0 <= i < j < v@.len() ==> v@[i]@.id > v@[j]@.id,
{
    list_response(UserRepository::get_all(table))
}

/// Fetches one user by id: 200 with the row, or 404 with the not-found body
/// when no row carries the id.
pub fn get_user(table: &UsersTable, id: i32) -> (resp: HttpResponse)
    ensures
        contains_id(table@, id as int) ==> resp.status == 200 && (resp.body matches
            ResponseBody::Single(u) && exists|k: int|
            0 <= k < table@.len() && table@[k].id == id as int && u@ == table@[k]),
        !contains_id(table@, id as int) ==> is_error_response(
            resp,
            404,
            "Resource was not found."@,
        ),
{
    single_response(UserRepository::get_by_id(table, id))
}

/// Creates a user: 200 with the stored row, whose `is_active` is 1 whatever
/// the payload carried.
pub fn create_user(table: &mut UsersTable, new_user: NewUser, created_at: String) -> (resp:
    HttpResponse)
    requires
        old(table).wf(),
        next_id_fits(old(table)@),
    ensures
        final(table).wf(),
        resp.status == 200,
        resp.body matches ResponseBody::Single(u) && u@ == inserted_view(
            old(table)@,
            activated(new_user@),
            created_at@,
        ) && u@.is_active == Some(1i16) && u@.id == next_id(old(table)@) && final(table)@ == seq![
            u@,
        ] + old(table)@,
{
    single_response(UserRepository::create(table, new_user, created_at))
}

/// Updates a user's `name` and `last_name`: 200 with the re-read row, or 404
/// with the not-found body when no row matches (the table is then
/// unchanged).
pub fn update_user(table: &mut UsersTable, user: User) -> (resp: HttpResponse)
    requires
        old(table).wf(),
    ensures
        final(table).wf(),
        contains_id(old(table)@, user@.id) ==> resp.status == 200 && (resp.body matches
            ResponseBody::Single(u) && exists|k: int|
            0 <= k < old(table)@.len() && old(table)@[k].id == user@.id && u@ == renamed_view(
                old(table)@[k],
                user@.name,
                user@.last_name,
            ) && final(table)@ == old(table)@.update(k, u@)),
        !contains_id(old(table)@, user@.id) ==> is_error_response(
            resp,
            404,
            "Resource was not found."@,
        ) && final(table)@ == old(table)@,
{
    let ghost uv = user@;
    let r = UserRepository::update(table, user);
    proof {
        if r is Ok {
            let k = choose|k: int|
                0 <= k < old(table)@.len() && old(table)@[k].id == uv.id && r->Ok_0@
                    == renamed_view(old(table)@[k], uv.name, uv.last_name) && table@
                    == old(table)@.update(k, r->Ok_0@);
            assert(contains_id(old(table)@, uv.id));
        }
    }
    single_response(r)
}

/// Deletes a user by id: 204 with an empty body whether or not a row
/// matched; afterwards no row carries `id`.
pub fn delete_user(table: &mut UsersTable, id: i32) -> (resp: HttpResponse)
    requires
        old(table).wf(),
    ensures
        final(table).wf(),
        resp.status == 204,
        resp.body is Empty,
        !contains_id(final(table)@, id as int),
        contains_id(old(table)@, id as int) ==> exists|k: int|
            0 <= k < old(table)@.len() && old(table)@[k].id == id as int && final(table)@
                == old(table)@.remove(k),
        !contains_id(old(table)@, id as int) ==> final(table)@ == old(table)@,
{
    delete_response(UserRepository::delete(table, id))
}

/// The fallback body for a request that matches no route.
pub fn not_found() -> (b: ErrorBody)
    ensures
        b.status@ == "error"@,
        b.reason@ == "Resource was not found."@,
{
    ErrorBody {
        status: String::from_str("error"),
        reason: String::from_str("Resource was not found."),
    }
}

/// The fallback body for a request that lacks credentials.
pub fn unauthorized() -> (b: ErrorBody)
    ensures
        b.status@ == "error"@,
        b.reason@ == "Unauthorized."@,
{
    ErrorBody { status: String::from_str("error"), reason: String::from_str("Unauthorized.") }
}

/// The fallback body for a request whose payload cannot be read.
pub fn unprocessable_entity() -> (b: ErrorBody)
    ensures
        b.status@ == "error"@,
        b.reason@ == "Unprocessable entity."@,
{
    ErrorBody {
        status: String::from_str("error"),
        reason: String::from_str("Unprocessable entity."),
    }
}

} // verus!
