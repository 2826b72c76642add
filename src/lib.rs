//! Accounts, time-bounded sessions and per-user usage reconciliation over an
//! in-memory relational store whose constraints are stated and proved.

pub mod auth;
pub mod db;
pub mod delete;
pub mod hasher;
pub mod laws;
pub mod records;
pub mod reset;
pub mod store;
pub mod sync;
pub mod time;
pub mod util;
pub mod validate;

pub use auth::{authenticate, AuthError, AuthRequest, HashErrorKind, InvalidPasswordKind, UserSession};
pub use db::DBErrorKind;
pub use delete::{delete_account, DeleteAccountError};
pub use records::{DBAppInfo, DBUser, DBUserDebug, DBUserSession};
pub use reset::{reset_session, ResetSessionError};
pub use store::Store;
pub use sync::{sync, AppInfo, SyncError, SyncSummary, UserData, UserDebug};
pub use time::{UtcTime, SESSION_TIMEOUT};

use vstd::prelude::*;

verus! {

/// The greeting served at the root path.
pub fn index() -> (r: &'static str)
    ensures
        r@ == "Hello, World!"@,
{
    "Hello, World!"
}

} // verus!
