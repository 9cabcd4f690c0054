use mediavault_auth::credentials::{hash_password, verify_password};
use mediavault_auth::error::AppError;
use mediavault_auth::jwt::decode_token_at;
use mediavault_auth::middleware::AuthenticatedUser;
use mediavault_auth::service::{login_at, me, register_at, validate_registration, LoginRequest, RegisterRequest};
use mediavault_auth::user_repository::{User, UserIndex};

const SECRET: &str = "test-secret-key-for-testing-purposes-only";

fn create_test_repo() -> UserIndex {
    UserIndex::new()
}

#[test]
fn test_create_user() {
    let mut repo = create_test_repo();
    let user = User::new("testuser".to_string(), "hash".to_string(), false);

    let created = repo.create(user.clone()).unwrap();
    assert_eq!(created.username, "testuser");

    let found = repo.find_by_username("testuser");
    assert!(found.is_some());
    assert_eq!(found.unwrap().id, created.id);
}

#[test]
fn test_duplicate_username() {
    let mut repo = create_test_repo();
    let user1 = User::new("testuser".to_string(), "hash1".to_string(), false);
    let user2 = User::new("testuser".to_string(), "hash2".to_string(), false);

    repo.create(user1).unwrap();
    let result = repo.create(user2);

    assert!(matches!(result, Err(AppError::Conflict(_))));
}

#[test]
fn test_case_insensitive_username() {
    let mut repo = create_test_repo();
    let user = User::new("TestUser".to_string(), "hash".to_string(), false);
    repo.create(user).unwrap();

    assert!(repo.find_by_username("testuser").is_some());
    assert!(repo.find_by_username("TESTUSER").is_some());
}

#[test]
fn folded_duplicate_is_a_conflict_and_store_keeps_one() {
    let mut repo = create_test_repo();
    repo.create(User::new_with(1, "Alice".to_string(), "h1".to_string(), false, 10)).unwrap();
    let second = repo.create(User::new_with(2, "alice".to_string(), "h2".to_string(), false, 11));
    assert!(matches!(second, Err(AppError::Conflict(_))));
    assert_eq!(repo.count(), 1);
    assert_eq!(repo.find_by_username("ALICE").unwrap().username, "Alice");
}

#[test]
fn duplicate_id_is_a_conflict() {
    let mut repo = create_test_repo();
    repo.create(User::new_with(1, "a_one".to_string(), "h".to_string(), false, 0)).unwrap();
    assert!(matches!(
        repo.create(User::new_with(1, "a_two".to_string(), "h".to_string(), false, 0)),
        Err(AppError::Conflict(_))
    ));
}

#[test]
fn update_delete_and_lookup() {
    let mut repo = create_test_repo();
    repo.create(User::new_with(1, "one".to_string(), "h".to_string(), false, 0)).unwrap();
    repo.create(User::new_with(2, "two".to_string(), "h".to_string(), false, 0)).unwrap();
    let mut u = repo.find_by_id(2).unwrap();
    u.last_login = Some(99);
    repo.update(u).unwrap();
    assert_eq!(repo.find_by_id(2).unwrap().last_login, Some(99));
    assert!(matches!(
        repo.update(User::new_with(3, "three".to_string(), "h".to_string(), false, 0)),
        Err(AppError::NotFound(_))
    ));
    assert!(matches!(
        repo.update(User::new_with(2, "ONE".to_string(), "h".to_string(), false, 0)),
        Err(AppError::Conflict(_))
    ));
    assert!(repo.delete(1));
    assert!(!repo.delete(1));
    assert!(repo.find_by_id(1).is_none());
    assert_eq!(repo.count(), 1);
    let all = repo.list_all();
    assert_eq!(all.len(), 1);
    assert_eq!(all[0].id, 2);
}

#[test]
fn records_round_trip_and_corrupt_records_are_refused() {
    let mut repo = create_test_repo();
    repo.create(User::new_with(1, "one".to_string(), "h".to_string(), true, 0)).unwrap();
    repo.create(User::new_with(2, "two".to_string(), "h".to_string(), false, 0)).unwrap();
    let again = UserIndex::from_records(repo.list_all()).unwrap();
    let ids: Vec<u128> = again.list_all().iter().map(|u| u.id).collect();
    assert_eq!(ids, vec![1, 2]);
    let dup = vec![
        User::new_with(1, "Same".to_string(), "h".to_string(), true, 0),
        User::new_with(2, "sAME".to_string(), "h".to_string(), false, 0),
    ];
    assert!(matches!(UserIndex::from_records(dup), Err(AppError::Internal(_))));
    assert_eq!(UserIndex::from_records(Vec::new()).unwrap().count(), 0);
}

#[test]
fn public_view_drops_credential() {
    let u = User::new_with(5, "pub".to_string(), "secret-hash".to_string(), true, 123);
    let p = u.to_public();
    assert_eq!((p.id, p.username.as_str(), p.is_admin, p.created_at), (5, "pub", true, 123));
}

#[test]
fn hash_then_verify() {
    let h = hash_password("correct horse").unwrap();
    assert!(h.starts_with("$argon2"));
    assert_ne!(h, "correct horse");
    assert!(verify_password("correct horse", &h).unwrap());
    assert!(!verify_password("wrong horse", &h).unwrap());
}

#[test]
fn two_hashes_of_one_password_differ_and_both_verify() {
    let a = hash_password("same-password").unwrap();
    let b = hash_password("same-password").unwrap();
    assert_ne!(a, b);
    assert!(verify_password("same-password", &a).unwrap());
    assert!(verify_password("same-password", &b).unwrap());
}

#[test]
fn empty_password_and_malformed_hash_are_internal_errors() {
    assert!(matches!(hash_password(""), Err(AppError::Internal(_))));
    assert!(matches!(verify_password("anything", "not a phc string"), Err(AppError::Internal(_))));
}

#[test]
fn registration_shape_is_checked() {
    let ok = RegisterRequest { username: "user_1".to_string(), password: "12345678".to_string() };
    assert!(validate_registration(&ok).is_ok());
    for (u, p) in [("ab", "12345678"), (&"x".repeat(33)[..], "12345678"), ("bad-name", "12345678"), ("good", "short")] {
        let req = RegisterRequest { username: u.to_string(), password: p.to_string() };
        assert!(matches!(validate_registration(&req), Err(AppError::Validation(_))));
    }
    let long = RegisterRequest { username: "good".to_string(), password: "p".repeat(129) };
    assert!(matches!(validate_registration(&long), Err(AppError::Validation(_))));
}

#[test]
fn first_account_is_admin_second_is_not() {
    let mut repo = create_test_repo();
    let now = 1_700_000_000;
    let a = RegisterRequest { username: "first".to_string(), password: "password1".to_string() };
    let b = RegisterRequest { username: "second".to_string(), password: "password2".to_string() };
    let ra = register_at(&mut repo, SECRET, 7, &a, 1, now).unwrap();
    let rb = register_at(&mut repo, SECRET, 7, &b, 2, now).unwrap();
    assert!(ra.user.is_admin);
    assert!(!rb.user.is_admin);
    assert!(decode_token_at(SECRET, &ra.token.access_token, now).unwrap().is_admin);
    assert_eq!(repo.count(), 2);
}

#[test]
fn registering_a_folded_duplicate_conflicts() {
    let mut repo = create_test_repo();
    let a = RegisterRequest { username: "Alice".to_string(), password: "password1".to_string() };
    let b = RegisterRequest { username: "alice".to_string(), password: "password2".to_string() };
    register_at(&mut repo, SECRET, 7, &a, 1, 0).unwrap();
    assert!(matches!(register_at(&mut repo, SECRET, 7, &b, 2, 0), Err(AppError::Conflict(_))));
    assert_eq!(repo.count(), 1);
}

#[test]
fn login_succeeds_and_records_time() {
    let mut repo = create_test_repo();
    let req = RegisterRequest { username: "Mallory".to_string(), password: "password9".to_string() };
    register_at(&mut repo, SECRET, 7, &req, 8, 100).unwrap();
    let login = LoginRequest { username: "mallory".to_string(), password: "password9".to_string() };
    let resp = login_at(&mut repo, SECRET, 7, &login, 500).unwrap();
    assert_eq!(resp.user.id, 8);
    assert_eq!(resp.user.username, "Mallory");
    assert_eq!(repo.find_by_id(8).unwrap().last_login, Some(500));
    let c = decode_token_at(SECRET, &resp.token.access_token, 500).unwrap();
    assert_eq!(c.sub, 8);
    let caller = AuthenticatedUser { id: 8, username: "Mallory".to_string(), is_admin: true };
    assert_eq!(me(&repo, &caller).unwrap().created_at, 100);
    let stranger = AuthenticatedUser { id: 9, username: "x".to_string(), is_admin: false };
    assert!(matches!(me(&repo, &stranger), Err(AppError::NotFound(_))));
}

#[test]
fn wrong_password_and_unknown_user_fail_identically() {
    let mut repo = create_test_repo();
    let req = RegisterRequest { username: "oscar".to_string(), password: "password9".to_string() };
    register_at(&mut repo, SECRET, 7, &req, 8, 100).unwrap();
    let wrong = LoginRequest { username: "oscar".to_string(), password: "password0".to_string() };
    let unknown = LoginRequest { username: "nobody".to_string(), password: "password9".to_string() };
    let e1 = login_at(&mut repo, SECRET, 7, &wrong, 200).unwrap_err();
    let e2 = login_at(&mut repo, SECRET, 7, &unknown, 200).unwrap_err();
    match (&e1, &e2) {
        (AppError::Unauthorized(m1), AppError::Unauthorized(m2)) => {
            assert_eq!(m1, m2);
            assert_eq!(m1, "Invalid username or password");
        }
        _ => panic!("expected Unauthorized"),
    }
    assert_eq!(e1.error_code(), e2.error_code());
    assert_eq!(repo.find_by_id(8).unwrap().last_login, None);
}
