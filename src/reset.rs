use vstd::prelude::*;

use crate::auth::UserSession;
use crate::db::DBErrorKind;
use crate::records::fresh_uuid;
use crate::store::{Store, StoreView};
use crate::time::{utc_now, UtcTime};
use crate::util::{can_issue, generate_store_session, issued};

verus! {

/// Why a session could not be reset.
#[derive(Debug, PartialEq, Eq)]
pub enum ResetSessionError {
    InvalidSession,
    DBError(DBErrorKind),
}

/// The outcome of resetting the session `session_id` at `now`, `token`
/// being the new session's token.
pub open spec fn reset_outcome(
    pre: StoreView,
    post: StoreView,
    session_id: Seq<char>,
    now: UtcTime,
    token: Seq<char>,
    r: Result<UserSession, ResetSessionError>,
) -> bool {
    match pre.session_with_id(session_id) {
        None => post == pre && r == Err::<UserSession, ResetSessionError>(ResetSessionError::InvalidSession),
        Some(s) => if can_issue(pre, s.user_id) {
            &&& post == pre.with_session(issued(s.user_id, token, now))
            &&& r is Ok && r->Ok_0.user_id == s.user_id && r->Ok_0.id@ == token
        } else {
            post == pre && r is Err && r->Err_0 is DBError && r->Err_0->DBError_0 is InsertError
        },
    }
}

/// Replaces the session `session_id` by a new one for the same user,
/// whether or not it has expired, at `now` and with `token`.
pub fn reset_session_at(store: &mut Store, session_id: &str, now: UtcTime, token: String) -> (r: Result<
    UserSession,
    ResetSessionError,
>)
    requires
        old(store)@.wf(),
    ensures
        final(store)@.wf(),
        reset_outcome(old(store)@, final(store)@, session_id@, now, token@, r),
{
    let user_id = match store.find_session_by_id(session_id) {
        Some(session) => session.user_id,
        None => return Err(ResetSessionError::InvalidSession),
    };
    match generate_store_session(store, user_id, now, token) {
        Ok(session) => Ok(session),
        Err(err) => Err(ResetSessionError::DBError(err)),
    }
}

/// Replaces the session `session_id` by a new one for the same user,
/// reading the clock and drawing a random token.
pub fn reset_session(store: &mut Store, session_id: &str) -> (r: Result<UserSession, ResetSessionError>)
    requires
        old(store)@.wf(),
    ensures
        final(store)@.wf(),
        exists|now: UtcTime, token: Seq<char>| reset_outcome(old(store)@, final(store)@, session_id@, now, token, r),
{
    let now = utc_now();
    let token = fresh_uuid();
    reset_session_at(store, session_id, now, token)
}

} // verus!
