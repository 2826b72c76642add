use vstd::prelude::*;

use crate::auth::UserSession;
use crate::db::DBErrorKind;
use crate::records::{session_row, DBUserSession, SessionRow};
use crate::store::{Store, StoreView};
use crate::time::{later_than_timeout, timed_out, UtcTime};

verus! {

/// A session issued at `last_set` is still valid at `now`: no more than the
/// timeout has passed since then.
pub open spec fn live_at(last_set: i64, now: UtcTime) -> bool {
    !later_than_timeout(UtcTime { secs: last_set, nanos: 0 }, now)
}

/// The session row issued for `user_id` with `token` at `now`.
pub open spec fn issued(user_id: u32, token: Seq<char>, now: UtcTime) -> SessionRow {
    SessionRow { user_id, id: token, last_set: now.secs }
}

/// Issuing a session for `user_id` succeeds: the user exists.
pub open spec fn can_issue(pre: StoreView, user_id: u32) -> bool {
    pre.has_user(user_id)
}

/// `found` is present and still valid at `now`.
pub open spec fn still_live(found: Option<SessionRow>, now: UtcTime) -> bool {
    found is Some && live_at(found->Some_0.last_set, now)
}

/// The session that validate-or-refresh hands out: `found` while it is
/// valid, else a newly issued one; `None` when issuing fails.
pub open spec fn refreshed_session(
    pre: StoreView,
    found: Option<SessionRow>,
    user_id: u32,
    now: UtcTime,
    token: Seq<char>,
) -> Option<SessionRow> {
    if still_live(found, now) {
        found
    } else if can_issue(pre, user_id) {
        Some(issued(user_id, token, now))
    } else {
        None
    }
}

/// The store after validate-or-refresh.
pub open spec fn refreshed_store(
    pre: StoreView,
    found: Option<SessionRow>,
    user_id: u32,
    now: UtcTime,
    token: Seq<char>,
) -> StoreView {
    if !still_live(found, now) && can_issue(pre, user_id) {
        pre.with_session(issued(user_id, token, now))
    } else {
        pre
    }
}

/// Issues a session for `user_id` with `token` at `now`, replacing the
/// user's previous session and any session holding `token`, and hands it
/// out.
pub fn generate_store_session(store: &mut Store, user_id: u32, now: UtcTime, token: String) -> (r: Result<
    UserSession,
    DBErrorKind,
>)
    requires
        old(store)@.wf(),
    ensures
        final(store)@.wf(),
        r is Ok <==> can_issue(old(store)@, user_id),
        r is Ok ==> r->Ok_0.user_id == user_id && r->Ok_0.id@ == token@,
        r is Ok ==> final(store)@ == old(store)@.with_session(issued(user_id, token@, now)),
        r is Err ==> final(store)@ == old(store)@ && r->Err_0 is InsertError,
{
    let reply = UserSession { user_id, id: token.clone() };
    let session = DBUserSession { user_id, id: token, last_set: now.secs };
    match store.upsert_session(session) {
        Ok(()) => Ok(reply),
        Err(err) => Err(err),
    }
}

/// Hands out `session` if it is still valid at `now`; otherwise issues and
/// stores a new session for `new_id` with `token`.
pub fn validate_session(
    store: &mut Store,
    session: Option<DBUserSession>,
    new_id: u32,
    now: UtcTime,
    token: String,
) -> (r: Result<UserSession, DBErrorKind>)
    requires
        old(store)@.wf(),
    ensures
        final(store)@.wf(),
        final(store)@ == refreshed_store(old(store)@, session_row(session), new_id, now, token@),
        r is Ok <==> refreshed_session(old(store)@, session_row(session), new_id, now, token@) is Some,
        r is Ok ==> ({
            let s = refreshed_session(old(store)@, session_row(session), new_id, now, token@)->Some_0;
            r->Ok_0.user_id == s.user_id && r->Ok_0.id@ == s.id
        }),
        r is Err ==> r->Err_0 is InsertError,
{
    if let Some(session) = session {
        if !timed_out(UtcTime { secs: session.last_set, nanos: 0 }, now) {
            return Ok(UserSession { user_id: session.user_id, id: session.id });
        }
    }
    generate_store_session(store, new_id, now, token)
}

} // verus!
