use pcupback::auth::{authenticate_at, AuthRequest};
use pcupback::records::{DBUser, DBUserSession};
use pcupback::reset::reset_session_at;
use pcupback::store::Store;
use pcupback::validate::{session_is_valid_at, validate_session};
use pcupback::{
    authenticate, delete_account, sync, AppInfo, AuthError, DBErrorKind, DeleteAccountError,
    HashErrorKind, InvalidPasswordKind, ResetSessionError, SyncError, UserData, UserDebug, UtcTime,
    SESSION_TIMEOUT,
};

fn req(username: &str, password: &str) -> AuthRequest {
    AuthRequest { username: username.to_string(), password: password.to_string() }
}

fn at(secs: i64) -> UtcTime {
    UtcTime { secs, nanos: 0 }
}

fn no_data() -> Option<UserData> {
    None
}

#[test]
fn not_enough_chars() {
    let mut db = Store::new();
    let r = authenticate(&mut db, &AuthRequest { username: "fresh-user".to_string(), password: "123".to_string() });
    assert!(matches!(r.unwrap_err(), AuthError::InvalidPassword(InvalidPasswordKind::TooFewChars)));
}

#[test]
fn too_many_chars() {
    let mut db = Store::new();
    let r = authenticate(&mut db, &req("fresh-user", &"1".repeat(65)));
    assert!(matches!(r.unwrap_err(), AuthError::InvalidPassword(InvalidPasswordKind::TooManyChars)));
}

#[test]
fn password_length_bounds() {
    let mut db = Store::new();
    let seven = authenticate(&mut db, &req("p7", &"1".repeat(7)));
    assert_eq!(seven, Err(AuthError::InvalidPassword(InvalidPasswordKind::TooFewChars)));
    let sixty_five = authenticate(&mut db, &req("p65", &"1".repeat(65)));
    assert_eq!(sixty_five, Err(AuthError::InvalidPassword(InvalidPasswordKind::TooManyChars)));
    assert!(authenticate(&mut db, &req("p8", &"1".repeat(8))).is_ok());
    assert!(authenticate(&mut db, &req("p64", &"1".repeat(64))).is_ok());
    // refused passwords created nobody
    assert!(db.find_user_by_name("p7").is_none());
    assert!(db.find_user_by_name("p65").is_none());
    assert_eq!(db.max_user_id(), 2);
}

#[test]
fn password_length_counts_bytes() {
    let mut db = Store::new();
    // four characters, eight bytes
    assert!(authenticate(&mut db, &req("multibyte", "éééé")).is_ok());
}

#[test]
fn login() {
    let mut db = Store::new();
    let request = AuthRequest::random_valid();
    let session1 = authenticate(&mut db, &request).unwrap();
    let session2 = authenticate(&mut db, &request).unwrap();
    assert_eq!(session1, session2);
}

#[test]
fn empty_username() {
    let mut db = Store::new();
    assert_eq!(authenticate(&mut db, &req("   ", "12345678")), Err(AuthError::EmptyUsername));
    assert_eq!(db.max_user_id(), 0);
}

#[test]
fn username_is_trimmed() {
    let mut db = Store::new();
    let s1 = authenticate(&mut db, &req("  bob \t", "12345678")).unwrap();
    assert_eq!(db.find_user_by_name("bob").unwrap().id, s1.user_id);
    let s2 = authenticate(&mut db, &req("bob", "12345678")).unwrap();
    assert_eq!(s1, s2);
}

#[test]
fn wrong_password() {
    let mut db = Store::new();
    authenticate(&mut db, &req("alice", "12345678")).unwrap();
    assert_eq!(authenticate(&mut db, &req("alice", "87654321")), Err(AuthError::WrongPassword));
}

#[test]
fn unparsable_stored_hash() {
    let mut db = Store::new();
    db.insert_user(DBUser::new_raw(1, "raw", "xd")).unwrap();
    let r = authenticate(&mut db, &req("raw", "12345678"));
    assert!(matches!(r, Err(AuthError::HashError(HashErrorKind::ParseError(_)))));
}

#[test]
fn verifier_fault_is_internal() {
    let mut db = Store::new();
    // parses, but its memory cost is below what Argon2 accepts
    db.insert_user(DBUser::new_raw(1, "odd", "$argon2id$v=19$m=1,t=1,p=1$c29tZXNhbHQ$aGFzaGhhc2hoYXNo")).unwrap();
    let r = authenticate(&mut db, &req("odd", "12345678"));
    assert!(matches!(r, Err(AuthError::InternalError(_))));
}

#[test]
fn registration_with_a_token_in_use_replaces_that_session() {
    let mut db = Store::new();
    let first = authenticate_at(&mut db, &req("one", "12345678"), at(100), "tok".to_string()).unwrap();
    assert_eq!(first.id, "tok");
    let second = authenticate_at(&mut db, &req("two", "12345678"), at(100), "tok".to_string()).unwrap();
    assert_eq!(second.id, "tok");
    assert_eq!(db.find_session_by_id("tok").unwrap().user_id, second.user_id);
    assert!(db.find_session_by_user(first.user_id).is_none());
}

#[test]
fn user_ids_follow_the_largest() {
    let mut db = Store::new();
    db.insert_user(DBUser::new_raw(41, "old", "xd")).unwrap();
    let s = authenticate_at(&mut db, &req("new", "12345678"), at(100), "t".to_string()).unwrap();
    assert_eq!(s.user_id, 42);
}

#[test]
fn user_ids_exhausted() {
    let mut db = Store::new();
    db.insert_user(DBUser::new_raw(u32::MAX, "last", "xd")).unwrap();
    let r = authenticate_at(&mut db, &req("new", "12345678"), at(100), "t".to_string());
    assert!(matches!(r, Err(AuthError::DBError(DBErrorKind::OtherError(_)))));
}

#[test]
fn login_within_window_keeps_session() {
    let mut db = Store::new();
    let s1 = authenticate_at(&mut db, &req("w", "12345678"), at(1_000_000), "a".to_string()).unwrap();
    let s2 = authenticate_at(&mut db, &req("w", "12345678"), at(1_000_000 + SESSION_TIMEOUT), "b".to_string())
        .unwrap();
    assert_eq!(s1, s2);
}

#[test]
fn expired_login_rotates() {
    let mut db = Store::new();
    let t0 = 1_000_000;
    let s1 = authenticate_at(&mut db, &req("e", "12345678"), at(t0), "a".to_string()).unwrap();
    let later = UtcTime { secs: t0 + SESSION_TIMEOUT, nanos: 1 };
    let s2 = authenticate_at(&mut db, &req("e", "12345678"), later, "b".to_string()).unwrap();
    assert_eq!(s2.id, "b");
    assert_ne!(s1.id, s2.id);
    assert!(!session_is_valid_at(&db, &s1.id, later));
    assert!(session_is_valid_at(&db, &s2.id, later));
}

#[test]
fn expired_reset_rotates() {
    let mut db = Store::new();
    let t0 = 1_000_000;
    let s1 = authenticate_at(&mut db, &req("e", "12345678"), at(t0), "a".to_string()).unwrap();
    let later = at(t0 + SESSION_TIMEOUT + 5);
    assert!(!session_is_valid_at(&db, "a", later));
    let s2 = reset_session_at(&mut db, &s1.id, later, "b".to_string()).unwrap();
    assert_ne!(s1.id, s2.id);
    assert!(!session_is_valid_at(&db, "a", later));
    assert!(session_is_valid_at(&db, "b", later));
}

#[test]
fn reset_session() {
    let mut db = Store::new();
    let orig_session = authenticate(&mut db, &req("ppkxddddd", "12345678")).unwrap();
    let new_session = pcupback::reset_session(&mut db, &orig_session.id).unwrap();
    assert_ne!(orig_session.id, new_session.id);
    // orig session was invalidated.
    sync(&mut db, &orig_session.id, no_data()).unwrap_err();
    sync(&mut db, &new_session.id, no_data()).unwrap();
    assert!(!validate_session(&db, &orig_session.id));
    assert!(validate_session(&db, &new_session.id));
}

#[test]
fn reset_unknown_session() {
    let mut db = Store::new();
    assert_eq!(pcupback::reset_session(&mut db, "nope"), Err(ResetSessionError::InvalidSession));
}

#[test]
fn reset_with_a_token_in_use() {
    let mut db = Store::new();
    let one = authenticate_at(&mut db, &req("one", "12345678"), at(100), "a".to_string()).unwrap();
    let two = authenticate_at(&mut db, &req("two", "12345678"), at(100), "b".to_string()).unwrap();
    let r = reset_session_at(&mut db, "a", at(100), "b".to_string()).unwrap();
    assert_eq!(r.user_id, one.user_id);
    assert!(!session_is_valid_at(&db, "a", at(100)));
    assert_eq!(db.find_session_by_id("b").unwrap().user_id, one.user_id);
    assert!(db.find_session_by_user(two.user_id).is_none());
}

#[test]
fn validate_unknown_and_far_future() {
    let mut db = Store::new();
    assert!(!validate_session(&db, "nope"));
    db.insert_user(DBUser::new_raw(1, "u", "xd")).unwrap();
    db.upsert_session(DBUserSession { user_id: 1, id: "far".to_string(), last_set: i64::MAX }).unwrap();
    assert!(session_is_valid_at(&db, "far", at(i64::MAX)));
    assert!(session_is_valid_at(&db, "far", at(i64::MAX - SESSION_TIMEOUT)));
}

#[test]
fn reset_right_after_issue_is_valid() {
    let mut db = Store::new();
    let s1 = authenticate_at(&mut db, &req("v", "12345678"), UtcTime { secs: 500, nanos: 999_999_999 }, "a".to_string())
        .unwrap();
    assert!(session_is_valid_at(&db, &s1.id, UtcTime { secs: 500, nanos: 999_999_999 }));
    let s2 = reset_session_at(&mut db, "a", at(501), "b".to_string()).unwrap();
    assert!(session_is_valid_at(&db, &s2.id, at(501 + SESSION_TIMEOUT)));
    assert!(!session_is_valid_at(&db, &s2.id, UtcTime { secs: 501 + SESSION_TIMEOUT, nanos: 1 }));
}

#[test]
fn create_and_delete() {
    let mut db = Store::new();
    let session = authenticate(&mut db, &req("xddddd", "12345678")).unwrap();
    delete_account(&mut db, &session.id).unwrap();
    // should fail since user doesnt exist anymore, so session doesnt exist anymore.
    assert_eq!(sync(&mut db, &session.id, no_data()), Err(SyncError::InvalidSession));
    assert!(!validate_session(&db, &session.id));
    assert!(db.find_user_by_name("xddddd").is_none());
}

#[test]
fn delete_unknown_session() {
    let mut db = Store::new();
    assert_eq!(delete_account(&mut db, "nope"), Err(DeleteAccountError::InvalidSession));
}

#[test]
fn dry_sync() {
    let mut db = Store::new();
    let session = authenticate(&mut db, &AuthRequest::random_valid()).unwrap();
    let resp = sync(&mut db, &session.id, no_data()).unwrap();
    assert_eq!(resp.data.app_usage.len(), 0);
    assert_eq!(resp.failed, 0);
}

fn my_data() -> UserData {
    UserData { app_usage: vec![AppInfo::new("io1", 2, 0), AppInfo::new("io2", 10, 10)], debug: vec![] }
}

#[test]
fn sync_store() {
    let mut db = Store::new();
    let session = authenticate(&mut db, &AuthRequest::random_valid()).unwrap();
    let stored = sync(&mut db, &session.id, Some(my_data())).unwrap();
    assert_eq!(my_data(), stored.data);
}

#[test]
fn sync_multi_client() {
    let mut db = Store::new();
    let session = authenticate(&mut db, &AuthRequest::random_valid()).unwrap();
    // this client has some data to store
    let first_client_sync = sync(&mut db, &session.id, Some(my_data())).unwrap();
    // this client has no data
    let another_client_data = sync(&mut db, &session.id, no_data()).unwrap();
    assert_eq!(&my_data(), &first_client_sync.data);
    assert_eq!(first_client_sync, another_client_data);
}

#[test]
fn sync_twice_does_not_duplicate() {
    let mut db = Store::new();
    let session = authenticate(&mut db, &AuthRequest::random_valid()).unwrap();
    let data = || UserData {
        app_usage: vec![AppInfo::new("a", 5, 0)],
        debug: vec![UserDebug { stored: "d1".to_string() }],
    };
    let first = sync(&mut db, &session.id, Some(data())).unwrap();
    let second = sync(&mut db, &session.id, Some(data())).unwrap();
    assert_eq!(first, second);
    assert_eq!(second.data, data());
}

#[test]
fn sync_identity_ignores_usage() {
    let mut db = Store::new();
    let session = authenticate(&mut db, &AuthRequest::random_valid()).unwrap();
    sync(&mut db, &session.id, Some(UserData { app_usage: vec![AppInfo::new("a", 5, 60)], debug: vec![] })).unwrap();
    let r = sync(
        &mut db,
        &session.id,
        Some(UserData { app_usage: vec![AppInfo::new("a", 9, 60), AppInfo::new("a", 9, 30)], debug: vec![] }),
    )
    .unwrap();
    assert_eq!(r.data.app_usage, vec![AppInfo::new("a", 5, 60), AppInfo::new("a", 9, 30)]);
}

#[test]
fn sync_keeps_users_apart() {
    let mut db = Store::new();
    let s1 = authenticate(&mut db, &req("one", "12345678")).unwrap();
    let s2 = authenticate(&mut db, &req("two", "12345678")).unwrap();
    sync(&mut db, &s1.id, Some(my_data())).unwrap();
    let r = sync(&mut db, &s2.id, no_data()).unwrap();
    assert_eq!(r.data, UserData { app_usage: vec![], debug: vec![] });
}

#[test]
fn scenario_register_login_reset_sync() {
    let mut db = Store::new();
    let s1 = authenticate(&mut db, &req("u1", "12345678")).unwrap();
    let again = authenticate(&mut db, &req("u1", "12345678")).unwrap();
    assert_eq!(again.id, s1.id);
    let s2 = pcupback::reset_session(&mut db, &s1.id).unwrap();
    assert_ne!(s2.id, s1.id);
    assert_eq!(sync(&mut db, &s1.id, no_data()), Err(SyncError::InvalidSession));
    let r = sync(&mut db, &s2.id, Some(UserData { app_usage: vec![AppInfo::new("a", 5, 0)], debug: vec![] }))
        .unwrap();
    assert_eq!(r.data, UserData { app_usage: vec![AppInfo::new("a", 5, 0)], debug: vec![] });
    assert_eq!(r.failed, 0);
}
