use users_service::handlers::{
    create_user, delete_response, delete_user, get_user, get_users, list_response, not_found,
    single_response, unauthorized, unprocessable_entity, update_user, HttpResponse, ResponseBody,
};
use users_service::models::{NewUser, User};
use users_service::repositories::{RepoError, UserRepository};
use users_service::table::UsersTable;

fn payload(name: &str, last_name: &str, is_active: i16) -> NewUser {
    NewUser { name: name.to_string(), last_name: last_name.to_string(), is_active }
}

fn ts() -> String {
    "2024-05-01 12:00:00".to_string()
}

#[test]
fn create_forces_is_active() {
    let mut table = UsersTable::new();
    let created = UserRepository::create(&mut table, payload("Ada", "Lovelace", 0), ts()).unwrap();
    assert_eq!(created.is_active, Some(1));
    assert_eq!(created.id, 1);
    assert_eq!(created.name, "Ada");
    assert_eq!(created.last_name, "Lovelace");
    assert_eq!(created.created_at, ts());

    let stored = UserRepository::get_by_id(&table, created.id).unwrap();
    assert_eq!(stored.is_active, Some(1));
}

#[test]
fn create_assigns_increasing_ids() {
    let mut table = UsersTable::new();
    let a = UserRepository::create(&mut table, payload("Ada", "Lovelace", 1), ts()).unwrap();
    let b = UserRepository::create(&mut table, payload("Alan", "Turing", 1), ts()).unwrap();
    let c = UserRepository::create(&mut table, payload("Grace", "Hopper", 1), ts()).unwrap();
    assert_eq!(a.id, 1);
    assert_eq!(b.id, 2);
    assert_eq!(c.id, 3);
}

#[test]
fn get_all_descending_order() {
    let mut table = UsersTable::new();
    UserRepository::create(&mut table, payload("Ada", "Lovelace", 1), ts()).unwrap();
    UserRepository::create(&mut table, payload("Alan", "Turing", 1), ts()).unwrap();
    UserRepository::create(&mut table, payload("Grace", "Hopper", 1), ts()).unwrap();

    let users = UserRepository::get_all(&table).unwrap();
    let ids: Vec<i32> = users.iter().map(|u| u.id).collect();
    assert_eq!(ids, vec![3, 2, 1]);
    assert_eq!(users[0].name, "Grace");
    assert_eq!(users[2].name, "Ada");
}

#[test]
fn get_by_id_returns_created_record() {
    let mut table = UsersTable::new();
    UserRepository::create(&mut table, payload("Ada", "Lovelace", 1), ts()).unwrap();
    let created = UserRepository::create(&mut table, payload("Alan", "Turing", 0), ts()).unwrap();

    let fetched = UserRepository::get_by_id(&table, created.id).unwrap();
    assert_eq!(fetched.id, created.id);
    assert_eq!(fetched.name, created.name);
    assert_eq!(fetched.last_name, created.last_name);
    assert_eq!(fetched.created_at, created.created_at);
    assert_eq!(fetched.is_active, created.is_active);
}

#[test]
fn get_by_id_missing_is_not_found() {
    let table = UsersTable::new();
    let err = UserRepository::get_by_id(&table, 42).unwrap_err();
    assert!(matches!(err, RepoError::NotFound));
}

#[test]
fn update_changes_only_names() {
    let mut table = UsersTable::new();
    let created = UserRepository::create(&mut table, payload("Ada", "Lovelace", 1), ts()).unwrap();

    // The update payload deliberately carries a different timestamp and flag:
    // neither may reach the row.
    let request = User {
        id: created.id,
        name: "Augusta".to_string(),
        last_name: "King".to_string(),
        created_at: "1815-12-10 00:00:00".to_string(),
        is_active: Some(0),
    };
    let updated = UserRepository::update(&mut table, request).unwrap();
    assert_eq!(updated.id, created.id);
    assert_eq!(updated.name, "Augusta");
    assert_eq!(updated.last_name, "King");
    assert_eq!(updated.created_at, created.created_at);
    assert_eq!(updated.is_active, created.is_active);

    let stored = UserRepository::get_by_id(&table, created.id).unwrap();
    assert_eq!(stored.name, "Augusta");
    assert_eq!(stored.created_at, created.created_at);
    assert_eq!(stored.is_active, created.is_active);
}

#[test]
fn update_missing_is_not_found() {
    let mut table = UsersTable::new();
    let request = User {
        id: 7,
        name: "Nobody".to_string(),
        last_name: "Nowhere".to_string(),
        created_at: String::new(),
        is_active: None,
    };
    let err = UserRepository::update(&mut table, request).unwrap_err();
    assert!(matches!(err, RepoError::NotFound));
    assert_eq!(table.len(), 0);
}

#[test]
fn delete_then_get_is_not_found() {
    let mut table = UsersTable::new();
    let created = UserRepository::create(&mut table, payload("Ada", "Lovelace", 1), ts()).unwrap();
    let affected = UserRepository::delete(&mut table, created.id).unwrap();
    assert_eq!(affected, 1);

    let err = UserRepository::get_by_id(&table, created.id).unwrap_err();
    assert!(matches!(err, RepoError::NotFound));
}

#[test]
fn delete_missing_returns_zero() {
    let mut table = UsersTable::new();
    let affected = UserRepository::delete(&mut table, 999).unwrap();
    assert_eq!(affected, 0);
}

#[test]
fn delete_keeps_other_rows_in_order() {
    let mut table = UsersTable::new();
    UserRepository::create(&mut table, payload("Ada", "Lovelace", 1), ts()).unwrap();
    let middle = UserRepository::create(&mut table, payload("Alan", "Turing", 1), ts()).unwrap();
    UserRepository::create(&mut table, payload("Grace", "Hopper", 1), ts()).unwrap();

    assert_eq!(UserRepository::delete(&mut table, middle.id).unwrap(), 1);
    let ids: Vec<i32> = UserRepository::get_all(&table).unwrap().iter().map(|u| u.id).collect();
    assert_eq!(ids, vec![3, 1]);
}

fn expect_error(resp: &HttpResponse, status: u16, reason: &str) {
    assert_eq!(resp.status, status);
    match &resp.body {
        ResponseBody::Error(b) => {
            assert_eq!(b.status, "error");
            assert_eq!(b.reason, reason);
        }
        _ => panic!("expected an error body"),
    }
}

#[test]
fn create_user_scenario() {
    // POST {"name":"Ada","last_name":"Lovelace","is_active":0}
    let mut table = UsersTable::new();
    let resp = create_user(&mut table, payload("Ada", "Lovelace", 0), ts());
    assert_eq!(resp.status, 200);
    match resp.body {
        ResponseBody::Single(u) => {
            assert_eq!(u.is_active, Some(1));
            assert_eq!(u.id, 1);
            assert_eq!(u.created_at, ts());
            assert!(!u.created_at.is_empty());
        }
        _ => panic!("expected a single user body"),
    }
}

#[test]
fn get_absent_user_scenario() {
    // GET /users/999999 on a table without that id answers the not-found
    // response: every endpoint maps a not-found error to 404.
    let table = UsersTable::new();
    let resp = get_user(&table, 999999);
    expect_error(&resp, 404, "Resource was not found.");
}

#[test]
fn get_user_present_responds_200() {
    let mut table = UsersTable::new();
    let created = UserRepository::create(&mut table, payload("Ada", "Lovelace", 1), ts()).unwrap();
    let resp = get_user(&table, created.id);
    assert_eq!(resp.status, 200);
    match resp.body {
        ResponseBody::Single(u) => assert_eq!(u.name, "Ada"),
        _ => panic!("expected a single user body"),
    }
}

#[test]
fn get_users_lists_all_rows() {
    let mut table = UsersTable::new();
    UserRepository::create(&mut table, payload("Ada", "Lovelace", 1), ts()).unwrap();
    UserRepository::create(&mut table, payload("Alan", "Turing", 1), ts()).unwrap();
    let resp = get_users(&table);
    assert_eq!(resp.status, 200);
    match resp.body {
        ResponseBody::Users(v) => {
            assert_eq!(v.len(), 2);
            assert_eq!(v[0].id, 2);
            assert_eq!(v[1].id, 1);
        }
        _ => panic!("expected a list body"),
    }
}

#[test]
fn update_user_missing_responds_404() {
    let mut table = UsersTable::new();
    let request = User {
        id: 5,
        name: "Ada".to_string(),
        last_name: "Lovelace".to_string(),
        created_at: String::new(),
        is_active: None,
    };
    let resp = update_user(&mut table, request);
    expect_error(&resp, 404, "Resource was not found.");
}

#[test]
fn update_user_present_responds_200() {
    let mut table = UsersTable::new();
    let created = UserRepository::create(&mut table, payload("Ada", "Lovelace", 1), ts()).unwrap();
    let request = User {
        id: created.id,
        name: "Augusta".to_string(),
        last_name: "King".to_string(),
        created_at: String::new(),
        is_active: None,
    };
    let resp = update_user(&mut table, request);
    assert_eq!(resp.status, 200);
    match resp.body {
        ResponseBody::Single(u) => {
            assert_eq!(u.name, "Augusta");
            assert_eq!(u.is_active, Some(1));
            assert_eq!(u.created_at, ts());
        }
        _ => panic!("expected a single user body"),
    }
}

#[test]
fn delete_user_responds_204_empty() {
    let mut table = UsersTable::new();
    let created = UserRepository::create(&mut table, payload("Ada", "Lovelace", 1), ts()).unwrap();
    let resp = delete_user(&mut table, created.id);
    assert_eq!(resp.status, 204);
    assert!(matches!(resp.body, ResponseBody::Empty));
    assert_eq!(table.len(), 0);

    // deleting an absent id still answers 204
    let resp = delete_user(&mut table, created.id);
    assert_eq!(resp.status, 204);
    assert!(matches!(resp.body, ResponseBody::Empty));
}

#[test]
fn list_response_maps_not_found_to_404() {
    let resp = list_response(Err(RepoError::NotFound));
    expect_error(&resp, 404, "Resource was not found.");
}

#[test]
fn list_response_maps_storage_error_to_500() {
    let resp = list_response(Err(RepoError::Storage("disk failure".to_string())));
    expect_error(&resp, 500, "disk failure");
}

#[test]
fn single_response_follows_error_policy() {
    let resp = single_response(Err(RepoError::NotFound));
    expect_error(&resp, 404, "Resource was not found.");
    let resp = single_response(Err(RepoError::Storage("locked".to_string())));
    expect_error(&resp, 500, "locked");
}

#[test]
fn delete_response_follows_error_policy() {
    let resp = delete_response(Err(RepoError::NotFound));
    expect_error(&resp, 404, "Resource was not found.");
    let resp = delete_response(Err(RepoError::Storage("locked".to_string())));
    expect_error(&resp, 500, "locked");
}

#[test]
fn fallback_bodies() {
    let b = not_found();
    assert_eq!(b.status, "error");
    assert_eq!(b.reason, "Resource was not found.");

    let b = unauthorized();
    assert_eq!(b.status, "error");
    assert_eq!(b.reason, "Unauthorized.");

    let b = unprocessable_entity();
    assert_eq!(b.status, "error");
    assert_eq!(b.reason, "Unprocessable entity.");
}
