use user_service::controller;
use user_service::controller::AppState;
use user_service::error::{AppError, DbRepoError};
use user_service::fixture::create_user;
use user_service::repo::{UserRepo, UserStore};
use user_service::user::UserName;

fn named(name: &str, age: i32) -> UserName {
    UserName { name: name.to_string(), age }
}

#[test]
fn test_index_success() {
    let mut app = AppState::new();
    for i in 0..5 {
        let r = controller::add(&mut app, named(&format!("user{}", i), 20 + i));
        assert!(r.is_ok());
    }
    let users = controller::index(&app).expect("index must succeed on the store");
    assert_eq!(users.len(), 5);
}

#[test]
fn test_index_fail() {
    let app = AppState::with_repo(UserRepo::failing("error!"));
    let err = controller::index(&app).expect_err("index must fail on the failing double");
    assert_eq!(err.code, 500);
    assert_eq!(err.message, "error!");
}

#[test]
fn create_fer_returns_user_with_id() {
    let mut app = AppState::new();
    let user = controller::add(&mut app, named("fer", 31)).expect("create must succeed");
    assert_eq!(user.id, 1);
    assert_eq!(user.name, "fer");
    assert_eq!(user.age, 31);
}

#[test]
fn create_age_over_32_rejected() {
    let mut app = AppState::new();
    let err = controller::add(&mut app, named("x", 33)).expect_err("age 33 must be rejected");
    assert_eq!(err.code, 400);
    assert_eq!(err.message, "age must be less than 32");
    // the repository was never reached: nothing was stored
    let users = controller::index(&app).expect("index must succeed");
    assert!(users.is_empty());
}

#[test]
fn create_age_32_allowed() {
    let mut app = AppState::new();
    let user = controller::add(&mut app, named("edge", 32)).expect("age 32 must be accepted");
    assert_eq!(user.age, 32);
}

#[test]
fn create_assigns_unique_ids() {
    let mut app = AppState::new();
    let a = controller::add(&mut app, named("a", 1)).expect("create must succeed");
    let b = controller::add(&mut app, named("b", 2)).expect("create must succeed");
    let c = controller::add(&mut app, named("a", 1)).expect("create must succeed");
    assert_ne!(a.id, b.id);
    assert_ne!(a.id, c.id);
    assert_ne!(b.id, c.id);
}

#[test]
fn update_missing_id_is_not_found() {
    let mut app = AppState::new();
    let err = controller::update(&mut app, 7, named("x", 1)).expect_err("id 7 does not exist");
    assert_eq!(err.code, 404);
    assert_eq!(err.message, "not found");
}

#[test]
fn update_existing_overwrites_fields_and_keeps_id() {
    let mut app = AppState::new();
    let created = controller::add(&mut app, named("fer", 31)).expect("create must succeed");
    let other = controller::add(&mut app, named("ana", 22)).expect("create must succeed");
    let updated = controller::update(&mut app, created.id, named("fernando", 30))
        .expect("update of an existing id must succeed");
    assert_eq!(updated.id, created.id);
    assert_eq!(updated.name, "fernando");
    assert_eq!(updated.age, 30);
    // the other user is untouched
    let users = controller::index(&app).expect("index must succeed");
    let kept = users.iter().find(|u| u.id == other.id).expect("other user still stored");
    assert_eq!(kept.name, "ana");
    assert_eq!(kept.age, 22);
}

#[test]
fn update_has_no_age_bound() {
    // validation is applied on create only: an update may set any age
    let mut app = AppState::new();
    let created = controller::add(&mut app, named("fer", 31)).expect("create must succeed");
    let updated = controller::update(&mut app, created.id, named("fer", 99))
        .expect("update applies no age bound");
    assert_eq!(updated.age, 99);
}

#[test]
fn delete_missing_id_is_not_found() {
    let mut app = AppState::new();
    let err = controller::delete(&mut app, 7).expect_err("id 7 does not exist");
    assert_eq!(err.code, 404);
    assert_eq!(err.message, "not found");
}

#[test]
fn delete_existing_removes_user() {
    let mut app = AppState::new();
    let a = controller::add(&mut app, named("a", 1)).expect("create must succeed");
    let b = controller::add(&mut app, named("b", 2)).expect("create must succeed");
    controller::delete(&mut app, a.id).expect("delete of an existing id must succeed");
    let users = controller::index(&app).expect("index must succeed");
    assert!(users.iter().all(|u| u.id != a.id));
    assert!(users.iter().any(|u| u.id == b.id));
    // a second delete of the same id fails rather than silently succeeding
    let err = controller::delete(&mut app, a.id).expect_err("id was already removed");
    assert_eq!(err.code, 404);
}

#[test]
fn find_all_returns_exactly_the_stored_users() {
    let mut app = AppState::new();
    let mut expected: Vec<(i32, String, i32)> = Vec::new();
    for (name, age) in [("a", 1), ("b", 2), ("c", 3)] {
        let u = controller::add(&mut app, named(name, age)).expect("create must succeed");
        expected.push((u.id, u.name, u.age));
    }
    let removed = expected.remove(1);
    controller::delete(&mut app, removed.0).expect("delete must succeed");

    let mut got: Vec<(i32, String, i32)> = controller::index(&app)
        .expect("index must succeed")
        .into_iter()
        .map(|u| (u.id, u.name, u.age))
        .collect();
    // order-insensitive comparison
    got.sort();
    expected.sort();
    assert_eq!(got, expected);
}

#[test]
fn failing_double_rejects_writes_too() {
    let mut app = AppState::with_repo(UserRepo::failing("db down"));
    let err = controller::add(&mut app, named("fer", 31)).expect_err("double must fail");
    assert_eq!(err.code, 500);
    assert_eq!(err.message, "db down");
    let err = controller::update(&mut app, 1, named("fer", 31)).expect_err("double must fail");
    assert_eq!(err.code, 500);
    let err = controller::delete(&mut app, 1).expect_err("double must fail");
    assert_eq!(err.code, 500);
}

#[test]
fn fixture_creates_fer_aged_31() {
    let mut store = UserStore::new();
    let user = create_user(&mut store).expect("fixture create must succeed");
    assert_eq!(user.name, "fer");
    assert_eq!(user.age, 31);
    let stored = store.find_all();
    assert_eq!(stored.len(), 1);
    assert_eq!(stored[0].id, user.id);
}

#[test]
fn db_errors_map_to_status_and_message() {
    let not_found = AppError::from_db(DbRepoError::NotFound);
    assert_eq!(not_found.code, 404);
    assert_eq!(not_found.message, "not found");
    let database = AppError::from_db(DbRepoError::Database("boom".to_string()));
    assert_eq!(database.code, 500);
    assert_eq!(database.message, "boom");
    let direct = AppError::new(418, "teapot");
    assert_eq!(direct.code, 418);
    assert_eq!(direct.message, "teapot");
}
