use pcupback::records::{DBAppInfo, DBUser, DBUserSession};
use pcupback::store::Store;
use pcupback::time::{CHRONO_MAX_SECS, CHRONO_MIN_SECS};
use pcupback::{AppInfo, UtcTime, SESSION_TIMEOUT};

fn now() -> UtcTime {
    let n = chrono::Utc::now();
    UtcTime { secs: n.timestamp(), nanos: n.timestamp_subsec_nanos() }
}

#[test]
fn store_session() {
    let mut db = Store::new();
    // no such user_id 1
    assert!(db.upsert_session(DBUserSession::generate(1)).is_err());
    db.insert_user(DBUser::new_raw(1, "1", "1")).unwrap();
    // user_id 1 now exists:
    assert!(db.upsert_session(DBUserSession::generate(1)).is_ok());
}

#[test]
fn user_creation() {
    DBUser::new(1, "test", "12345678").unwrap();
}

#[test]
fn store_user() {
    let mut db = Store::new();
    db.insert_user(DBUser::new(1, "test", "12345678").unwrap()).unwrap();
}

#[test]
fn fetch_session_by_session_id() {
    let mut db = Store::new();
    let user = DBUser::new_raw(1, "123", "123");
    let user_id = user.id;
    db.insert_user(user).unwrap();

    let stored = DBUserSession::generate(user_id);
    db.upsert_session(stored.duplicate()).unwrap();
    let fetched = db.find_session_by_id(&stored.id).unwrap();

    assert_eq!(&stored, fetched);
}

#[test]
fn fetch_user_by_id() {
    let mut db = Store::new();
    let stored = DBUser::new(1, "test", "12345678").unwrap();
    db.insert_user(stored.duplicate()).unwrap();
    let fetched = db.find_user_by_id(1).unwrap();

    assert_eq!(&stored, fetched);
}

#[test]
fn fetch_user_by_name() {
    let mut db = Store::new();
    let stored = DBUser::new(1, "test", "12345678").unwrap();
    db.insert_user(stored.duplicate()).unwrap();
    let fetched = db.find_user_by_name("test").unwrap();

    assert_eq!(&stored, fetched);

    let not_exists = db.find_user_by_name("testdd");
    assert!(not_exists.is_none());
}

#[test]
fn db_appinfo_eq() {
    let a = DBAppInfo::new_raw(1, "ddd", 2, 0);
    let b = DBAppInfo::new_raw(1, "d", 2, 0);
    let a_same = DBAppInfo::new_raw(1, "ddd", 2, 0);

    assert_eq!(a, a);
    assert_eq!(a, a_same);
    assert_ne!(a, b);
    assert_ne!(b, a_same);
}

#[test]
fn store_app_usage() {
    let mut db = Store::new();
    db.insert_user(DBUser::new_raw(1, "test", "pp")).unwrap();
    db.insert_app_info(DBAppInfo::new_raw(1, "xdd", 12, 0)).unwrap();
}

#[test]
fn fetch_user_data() {
    let mut db = Store::new();
    db.insert_user(DBUser::new_raw(1, "test", "pp")).unwrap();

    let app_info = DBAppInfo::new_raw(1, "xddapp", 1, 0);
    db.insert_app_info(app_info.duplicate()).unwrap();

    let data = db.user_data(1);
    assert_eq!(data.app_usage.len(), 1);
    assert_eq!(data.app_usage[0].name, app_info.app_name);
    assert_eq!(data.app_usage[0].usage, app_info.app_usage);
}

#[test]
fn generate_store_session() {
    let mut db = Store::new();
    // no such user id `1`
    pcupback::util::generate_store_session(&mut db, 1, now(), "t1".to_string()).unwrap_err();

    // generate the user, now ok.
    db.insert_user(DBUser::new_raw(1, "ppk1", "12")).unwrap();
    pcupback::util::generate_store_session(&mut db, 1, now(), "t1".to_string()).unwrap();
}

#[test]
fn session_timeout() {
    let at = |d: chrono::DateTime<chrono::Utc>| UtcTime { secs: d.timestamp(), nanos: d.timestamp_subsec_nanos() };
    let timeout = chrono::TimeDelta::seconds(SESSION_TIMEOUT);
    // not timeout
    assert!(!pcupback::time::session_timeout(at(chrono::Utc::now())));
    assert!(!pcupback::time::session_timeout(at(
        chrono::Utc::now() - timeout + chrono::TimeDelta::seconds(1)
    )));
    // yes timeout
    assert!(pcupback::time::session_timeout(at(chrono::Utc::now() - timeout)));
    assert!(pcupback::time::session_timeout(at(
        chrono::Utc::now() - timeout - chrono::TimeDelta::seconds(1)
    )));
}

#[test]
fn users_expect_fail() {
    let mut db = Store::new();
    // duplicate username
    db.insert_user(DBUser::new_raw(1, "xdd", "xdd")).unwrap();
    db.insert_user(DBUser::new_raw(2, "xdd", "xdd")).unwrap_err();
    // duplicate user id
    db.insert_user(DBUser::new_raw(1, "123", "xdd")).unwrap_err();
}

#[test]
fn users_expect_success() {
    let mut db = Store::new();
    db.insert_user(DBUser::new_raw(1, "hi1", "xd")).unwrap();
}

#[test]
fn fail_user_session() {
    let mut db = Store::new();
    let no_such_user_id = db.upsert_session(DBUserSession { user_id: 1, id: "xd".to_string(), last_set: 1 });
    assert!(no_such_user_id.is_err());
}

#[test]
fn success_user_session() {
    let mut db = Store::new();
    let user_id = 1;
    db.insert_user(DBUser::new_raw(user_id, "test", "xd")).unwrap();
    db.upsert_session(DBUserSession { user_id, id: "test".to_string(), last_set: 0 }).unwrap();
}

#[test]
fn app_info_expect_fail() {
    let mut db = Store::new();
    db.insert_app_info(DBAppInfo::new_raw(1, "xdd", 0, 1)).unwrap_err();
}

#[test]
fn app_info_expect_success() {
    let mut db = Store::new();
    db.insert_user(DBUser::new_raw(1, "test", "xd")).unwrap();
    db.insert_app_info(DBAppInfo::new_raw(1, "xdd", 0, 1)).unwrap();
}

#[test]
fn sessions_expect_fail() {
    let mut db = Store::new();
    let session = DBUserSession { user_id: 1, id: "xd".to_string(), last_set: 1 };
    db.upsert_session(session).unwrap_err();
}

#[test]
fn sessions_expect_success() {
    let mut db = Store::new();
    db.insert_user(DBUser::new_raw(1, "test", "xd")).unwrap();
    db.upsert_session(DBUserSession { user_id: 1, id: "test".to_string(), last_set: 0 }).unwrap();
}

#[test]
fn upsert_replaces_a_session_holding_the_token() {
    let mut db = Store::new();
    db.insert_user(DBUser::new_raw(1, "a", "xd")).unwrap();
    db.insert_user(DBUser::new_raw(2, "b", "xd")).unwrap();
    db.upsert_session(DBUserSession { user_id: 1, id: "tok".to_string(), last_set: 0 }).unwrap();
    db.upsert_session(DBUserSession { user_id: 2, id: "tok".to_string(), last_set: 0 }).unwrap();
    assert_eq!(db.find_session_by_id("tok").unwrap().user_id, 2);
    assert!(db.find_session_by_user(1).is_none());
}

#[test]
fn upsert_keeps_the_token_of_the_users_own_session() {
    let mut db = Store::new();
    db.insert_user(DBUser::new_raw(1, "a", "xd")).unwrap();
    db.upsert_session(DBUserSession { user_id: 1, id: "tok".to_string(), last_set: 0 }).unwrap();
    db.upsert_session(DBUserSession { user_id: 1, id: "tok".to_string(), last_set: 9 }).unwrap();
    assert_eq!(db.find_session_by_user(1).unwrap().last_set, 9);
}

#[test]
fn upsert_replaces_the_users_session() {
    let mut db = Store::new();
    db.insert_user(DBUser::new_raw(1, "a", "xd")).unwrap();
    db.upsert_session(DBUserSession { user_id: 1, id: "first".to_string(), last_set: 0 }).unwrap();
    db.upsert_session(DBUserSession { user_id: 1, id: "second".to_string(), last_set: 5 }).unwrap();
    assert!(db.find_session_by_id("first").is_none());
    assert_eq!(db.find_session_by_user(1).unwrap().id, "second");
}

#[test]
fn max_user_id_of_empty_and_filled_store() {
    let mut db = Store::new();
    assert_eq!(db.max_user_id(), 0);
    db.insert_user(DBUser::new_raw(7, "a", "xd")).unwrap();
    db.insert_user(DBUser::new_raw(3, "b", "xd")).unwrap();
    assert_eq!(db.max_user_id(), 7);
}

#[test]
fn remove_user_cascades() {
    let mut db = Store::new();
    db.insert_user(DBUser::new_raw(1, "a", "xd")).unwrap();
    db.insert_user(DBUser::new_raw(2, "b", "xd")).unwrap();
    db.upsert_session(DBUserSession { user_id: 1, id: "s1".to_string(), last_set: 0 }).unwrap();
    db.upsert_session(DBUserSession { user_id: 2, id: "s2".to_string(), last_set: 0 }).unwrap();
    db.insert_app_info(DBAppInfo::new_raw(1, "x", 1, 2)).unwrap();
    db.insert_app_info(DBAppInfo::new_raw(2, "y", 1, 2)).unwrap();
    db.remove_user(1);
    assert!(db.find_user_by_id(1).is_none());
    assert!(db.find_session_by_id("s1").is_none());
    assert!(db.find_session_by_id("s2").is_some());
    assert_eq!(db.user_data(1).app_usage.len(), 0);
    assert_eq!(db.user_data(2).app_usage, vec![AppInfo::new("y", 1, 2)]);
}

#[test]
fn hash_is_not_the_password() {
    let user = DBUser::new(1, "test", "12345678").unwrap();
    assert_ne!(user.password_hash, "12345678");
    assert!(user.password_hash.starts_with("$argon2id$"));
}

#[test]
fn last_set_datetime_of_representable_and_not() {
    let s = DBUserSession { user_id: 1, id: "x".to_string(), last_set: 1431648000 };
    assert_eq!(s.last_set_datetime(), Some(UtcTime { secs: 1431648000, nanos: 0 }));
    let far = DBUserSession { user_id: 1, id: "x".to_string(), last_set: i64::MAX };
    assert_eq!(far.last_set_datetime(), None);
}

#[test]
fn timed_out_exactly_at_the_boundary() {
    let then = UtcTime { secs: 1000, nanos: 0 };
    assert!(!pcupback::time::timed_out(then, UtcTime { secs: 1000 + SESSION_TIMEOUT, nanos: 0 }));
    assert!(pcupback::time::timed_out(then, UtcTime { secs: 1000 + SESSION_TIMEOUT, nanos: 1 }));
    assert!(!pcupback::time::timed_out(then, UtcTime { secs: 1000, nanos: 0 }));
}

#[test]
fn index_greets() {
    assert_eq!(pcupback::index(), "Hello, World!");
}

#[test]
fn chrono_range_bounds() {
    let at = |secs: i64| DBUserSession { user_id: 1, id: "x".to_string(), last_set: secs }.last_set_datetime();
    assert!(at(CHRONO_MAX_SECS).is_some());
    assert!(at(CHRONO_MAX_SECS + 1).is_none());
    assert!(at(CHRONO_MIN_SECS).is_some());
    assert!(at(CHRONO_MIN_SECS - 1).is_none());
    assert_eq!(chrono::DateTime::<chrono::Utc>::MAX_UTC.timestamp(), CHRONO_MAX_SECS);
    assert_eq!(chrono::DateTime::<chrono::Utc>::MIN_UTC.timestamp(), CHRONO_MIN_SECS);
}

#[test]
fn generated_session_is_fresh() {
    let before = chrono::Utc::now().timestamp();
    let a = DBUserSession::generate(3);
    let b = DBUserSession::generate(3);
    let after = chrono::Utc::now().timestamp();
    assert_eq!(a.user_id, 3);
    assert_eq!(a.id.chars().count(), 36);
    assert_ne!(a.id, b.id);
    assert!(before <= a.last_set && a.last_set <= after);
}
