use vstd::prelude::*;

use crate::auth::{HashErrorKind, UserSession};
use crate::sync::{AppEntry, AppInfo, UserDebug};
use crate::auth::byte_len;
use crate::hasher::{argon2_hash, argon2_verdict, phc_parses};
use crate::time::{chrono_can_represent, representable, utc_now, UtcTime};

verus! {

/// A stored user.
#[derive(Debug, PartialEq, Eq)]
pub struct DBUser {
    pub id: u32,
    pub username: String,
    pub password_hash: String,
}

/// The value of a stored user.
pub struct UserRow {
    pub id: u32,
    pub username: Seq<char>,
    pub password_hash: Seq<char>,
}

impl View for DBUser {
    type V = UserRow;

    open spec fn view(&self) -> UserRow {
        UserRow { id: self.id, username: self.username@, password_hash: self.password_hash@ }
    }
}

impl DBUser {
    /// A user whose password is hashed with a fresh random salt.
    pub fn new(id: u32, username: &str, password: &str) -> (r: Result<Self, HashErrorKind>)
        ensures
            r is Ok ==> r->Ok_0.id == id && r->Ok_0.username@ == username@,
            r is Ok ==> phc_parses(r->Ok_0.password_hash@),
            r is Ok ==> argon2_verdict(r->Ok_0.password_hash@, password@) == Some(true),
            r is Err ==> r->Err_0 is CreateError,
            byte_len(password@) <= u32::MAX ==> r is Ok,
    {
        match argon2_hash(password) {
            Ok(password_hash) => Ok(DBUser { id, username: username.to_owned(), password_hash }),
            Err(msg) => Err(HashErrorKind::CreateError(msg)),
        }
    }

    /// A user whose stored hash is given as it is.
    pub fn new_raw(id: u32, username: &str, password: &str) -> (r: Self)
        ensures
            r@ == (UserRow { id, username: username@, password_hash: password@ }),
    {
        DBUser { id, username: username.to_owned(), password_hash: password.to_owned() }
    }
}

/// A stored session: its owner, its token, and when it was last issued, in
/// whole seconds since the Unix epoch.
#[derive(Debug, PartialEq, Eq)]
pub struct DBUserSession {
    pub user_id: u32,
    pub id: String,
    pub last_set: i64,
}

/// The value of a stored session.
pub struct SessionRow {
    pub user_id: u32,
    pub id: Seq<char>,
    pub last_set: i64,
}

impl View for DBUserSession {
    type V = SessionRow;

    open spec fn view(&self) -> SessionRow {
        SessionRow { user_id: self.user_id, id: self.id@, last_set: self.last_set }
    }
}

/// The value of a session that may be absent.
pub open spec fn session_row(s: Option<DBUserSession>) -> Option<SessionRow> {
    match s {
        Some(x) => Some(x@),
        None => None,
    }
}

/// Relies on uuid's `Uuid::new_v4`, rendered by its `Display` impl in the
/// hyphenated form, which is 36 characters long.
#[verifier::external_body]
pub(crate) fn fresh_uuid() -> (r: String)
    ensures
        r@.len() == 36,
{
    uuid::Uuid::new_v4().to_string()
}

impl DBUserSession {
    /// A session for `user_id` with a random token, issued now.
    pub fn generate(user_id: u32) -> (r: Self)
        ensures
            r.user_id == user_id,
            r.id@.len() == 36,
            chrono_can_represent(r.last_set as int),
    {
        let now = utc_now();
        DBUserSession { user_id, id: fresh_uuid(), last_set: now.secs }
    }

    /// The instant the session was last issued, where chrono can represent it.
    pub fn last_set_datetime(&self) -> (r: Option<UtcTime>)
        ensures
            r == last_set_instant(self.last_set),
    {
        if representable(self.last_set) {
            Some(UtcTime { secs: self.last_set, nanos: 0 })
        } else {
            None
        }
    }
}

/// The instant a session issued at `secs` stands for, where chrono can
/// represent it.
pub open spec fn last_set_instant(secs: i64) -> Option<UtcTime> {
    if chrono_can_represent(secs as int) {
        Some(UtcTime { secs, nanos: 0 })
    } else {
        None
    }
}

impl From<DBUserSession> for UserSession {
    fn from(value: DBUserSession) -> (r: UserSession)
        ensures
            r.user_id == value.user_id && r.id@ == value.id@,
    {
        UserSession { user_id: value.user_id, id: value.id }
    }
}

impl vstd::std_specs::convert::FromSpecImpl<DBUserSession> for UserSession {
    open spec fn obeys_from_spec() -> bool {
        true
    }

    open spec fn from_spec(v: DBUserSession) -> UserSession {
        UserSession { user_id: v.user_id, id: v.id }
    }
}

/// A stored app usage record.
#[derive(Debug, PartialEq, Eq)]
pub struct DBAppInfo {
    pub user_id: u32,
    pub app_name: String,
    pub app_usage: u32,
    pub app_limit: u32,
}

/// The value of a stored app usage record.
pub struct AppRow {
    pub user_id: u32,
    pub name: Seq<char>,
    pub usage: u32,
    pub limit: u32,
}

impl AppRow {
    /// The record as the client sees it.
    pub open spec fn entry(self) -> AppEntry {
        AppEntry { name: self.name, usage: self.usage, limit: self.limit }
    }

    /// The record stands for the same app as `a`: same name and limit,
    /// whatever the usage.
    pub open spec fn same_app(self, a: AppEntry) -> bool {
        self.name == a.name && self.limit == a.limit
    }
}

impl View for DBAppInfo {
    type V = AppRow;

    open spec fn view(&self) -> AppRow {
        AppRow { user_id: self.user_id, name: self.app_name@, usage: self.app_usage, limit: self.app_limit }
    }
}

impl DBAppInfo {
    pub fn new_raw(user_id: u32, app_name: &str, app_usage: u32, app_limit: u32) -> (r: Self)
        ensures
            r@ == (AppRow { user_id, name: app_name@, usage: app_usage, limit: app_limit }),
    {
        DBAppInfo { user_id, app_name: app_name.to_owned(), app_usage, app_limit }
    }

    /// The stored form of `app_info`, owned by `user_id`.
    pub fn with_app_info(user_id: u32, app_info: AppInfo) -> (r: Self)
        ensures
            r@ == (AppRow { user_id, name: app_info.name@, usage: app_info.usage, limit: app_info.limit }),
    {
        DBAppInfo { user_id, app_name: app_info.name, app_usage: app_info.usage, app_limit: app_info.limit }
    }

    /// Whether this record stands for the same app as `other`.
    pub fn is_same_app(&self, other: &AppInfo) -> (r: bool)
        ensures
            r == self@.same_app(other@),
    {
        self.app_name == other.name && self.app_limit == other.limit
    }

    /// A copy of the record.
    pub fn duplicate(&self) -> (r: Self)
        ensures
            r@ == self@,
    {
        DBAppInfo { user_id: self.user_id, app_name: self.app_name.clone(), app_usage: self.app_usage, app_limit: self.app_limit }
    }
}

/// A stored debug record.
#[derive(Debug, PartialEq, Eq)]
pub struct DBUserDebug {
    pub user_id: u32,
    pub stored: String,
}

/// The value of a stored debug record.
pub struct DebugRow {
    pub user_id: u32,
    pub stored: Seq<char>,
}

impl View for DBUserDebug {
    type V = DebugRow;

    open spec fn view(&self) -> DebugRow {
        DebugRow { user_id: self.user_id, stored: self.stored@ }
    }
}

impl DBUserDebug {
    /// Whether this record holds the same text as `other`.
    pub fn is_same_debug(&self, other: &UserDebug) -> (r: bool)
        ensures
            r == (self.stored@ == other.stored@),
    {
        self.stored == other.stored
    }

    /// A copy of the record.
    pub fn duplicate(&self) -> (r: Self)
        ensures
            r@ == self@,
    {
        DBUserDebug { user_id: self.user_id, stored: self.stored.clone() }
    }
}

impl DBUser {
    /// A copy of the record.
    pub fn duplicate(&self) -> (r: Self)
        ensures
            r@ == self@,
    {
        DBUser { id: self.id, username: self.username.clone(), password_hash: self.password_hash.clone() }
    }
}

impl DBUserSession {
    /// A copy of the record.
    pub fn duplicate(&self) -> (r: Self)
        ensures
            r@ == self@,
    {
        DBUserSession { user_id: self.user_id, id: self.id.clone(), last_set: self.last_set }
    }
}

impl From<DBAppInfo> for AppInfo {
    fn from(value: DBAppInfo) -> (r: AppInfo)
        ensures
            r@ == value@.entry(),
    {
        AppInfo { name: value.app_name, usage: value.app_usage, limit: value.app_limit }
    }
}

impl vstd::std_specs::convert::FromSpecImpl<DBAppInfo> for AppInfo {
    open spec fn obeys_from_spec() -> bool {
        true
    }

    open spec fn from_spec(v: DBAppInfo) -> AppInfo {
        AppInfo { name: v.app_name, usage: v.app_usage, limit: v.app_limit }
    }
}

impl From<DBUserDebug> for UserDebug {
    fn from(value: DBUserDebug) -> (r: UserDebug)
        ensures
            r@ == value.stored@,
    {
        UserDebug { stored: value.stored }
    }
}

impl vstd::std_specs::convert::FromSpecImpl<DBUserDebug> for UserDebug {
    open spec fn obeys_from_spec() -> bool {
        true
    }

    open spec fn from_spec(v: DBUserDebug) -> UserDebug {
        UserDebug { stored: v.stored }
    }
}

} // verus!
