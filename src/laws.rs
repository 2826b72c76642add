use vstd::prelude::*;

use crate::auth::{authenticated, trimmed, AuthError, UserSession};
use crate::delete::{deletion_outcome, DeleteAccountError};
use crate::hasher::{argon2_verdict, phc_parses};
use crate::records::{AppRow, DebugRow, SessionRow, UserRow};
use crate::reset::{reset_outcome, ResetSessionError};
use crate::store::{
    lemma_max_id_bound, lemma_session_at, lemma_user_at, lemma_with_session, lemma_with_user_wf, lemma_without_owner,
    StoreView,
};
use crate::sync::{new_app_rows, new_debug_rows, sync_outcome, AppEntry, SyncError, SyncSummary, UserDataView};
use crate::time::{later_than_timeout, UtcTime};
use crate::util::{issued, live_at, still_live};
use crate::validate::session_valid_at;

verus! {

/// The stored session of `user_id` is still valid at `now`.
pub open spec fn session_live_for(v: StoreView, user_id: u32, now: UtcTime) -> bool {
    v.session_of(user_id) matches Some(s) && live_at(s.last_set, now)
}

/// After a successful authentication, the user named by the request is
/// stored with a hash that the password verifies against, and the session
/// handed out is that user's stored session.
proof fn lemma_after_success(
    pre: StoreView,
    mid: StoreView,
    username: Seq<char>,
    password: Seq<char>,
    now: UtcTime,
    token: Seq<char>,
    r: Result<UserSession, AuthError>,
)
    requires
        pre.wf(),
        mid.wf(),
        authenticated(pre, mid, username, password, now, token, r),
        r is Ok,
    ensures
        mid.user_named(trimmed(username)) matches Some(u) && u.id == r->Ok_0.user_id
            && phc_parses(u.password_hash) && argon2_verdict(u.password_hash, password) == Some(true),
        mid.session_of(r->Ok_0.user_id) matches Some(s) && s.id == r->Ok_0.id@,
{
    let name = trimmed(username);
    match pre.user_named(name) {
        Some(u) => {
            let found = pre.session_of(u.id);
            let k = choose|k: int| 0 <= k < pre.users.len() && pre.users[k].username == name;
            if still_live(found, now) {
                assert(mid == pre);
                let j = choose|j: int| 0 <= j < pre.sessions.len() && pre.sessions[j].user_id == u.id;
                lemma_session_at(pre, j);
            } else {
                let s = issued(u.id, token, now);
                assert(mid == pre.with_session(s));
                lemma_with_session(pre, s);
            }
            assert(mid.users == pre.users);
            lemma_user_at(mid, k);
        },
        None => {
            let id = (pre.max_user_id() + 1) as u32;
            let h = choose|h: Seq<char>|
                phc_parses(h) && argon2_verdict(h, password) == Some(true) && mid == pre.with_user(
                    UserRow { id, username: name, password_hash: h },
                ).with_session(issued(id, token, now));
            let u = UserRow { id, username: name, password_hash: h };
            let with_u = pre.with_user(u);
            let s = issued(id, token, now);
            assert(!pre.has_user(id)) by {
                if pre.has_user(id) {
                    let j = choose|j: int| 0 <= j < pre.users.len() && pre.users[j].id == id;
                    lemma_max_id_bound(pre.users, j);
                }
            }
            lemma_with_user_wf(pre, u);
            assert(with_u.users[pre.users.len() as int] == u);
            lemma_with_session(with_u, s);
            let k = pre.users.len() as int;
            assert(mid.users[k] == u);
            lemma_user_at(mid, k);
        },
    }
}

/// Authenticating twice with the same credentials, the second time while
/// the session handed out the first time is still valid, hands out the same
/// session again and changes nothing.
pub proof fn law_login_idempotent(
    pre: StoreView,
    mid: StoreView,
    post: StoreView,
    username: Seq<char>,
    password: Seq<char>,
    t1: UtcTime,
    t2: UtcTime,
    token1: Seq<char>,
    token2: Seq<char>,
    r1: Result<UserSession, AuthError>,
    r2: Result<UserSession, AuthError>,
)
    requires
        pre.wf(),
        mid.wf(),
        authenticated(pre, mid, username, password, t1, token1, r1),
        r1 is Ok,
        session_live_for(mid, r1->Ok_0.user_id, t2),
        authenticated(mid, post, username, password, t2, token2, r2),
    ensures
        r2 is Ok,
        r2->Ok_0.user_id == r1->Ok_0.user_id,
        r2->Ok_0.id@ == r1->Ok_0.id@,
        post == mid,
{
    lemma_after_success(pre, mid, username, password, t1, token1, r1);
}

/// Once authenticating under a username has succeeded, authenticating again
/// under the same name finds the stored user and adds no user: whatever the
/// password, it is never refused for its length, it is refused as wrong
/// where the stored hash says so, and it succeeds for that user where the
/// stored hash accepts it.
pub proof fn law_known_username_logs_in(
    pre: StoreView,
    mid: StoreView,
    post: StoreView,
    username: Seq<char>,
    again: Seq<char>,
    password: Seq<char>,
    password_again: Seq<char>,
    t1: UtcTime,
    t2: UtcTime,
    token1: Seq<char>,
    token2: Seq<char>,
    r1: Result<UserSession, AuthError>,
    r2: Result<UserSession, AuthError>,
)
    requires
        pre.wf(),
        mid.wf(),
        authenticated(pre, mid, username, password, t1, token1, r1),
        r1 is Ok,
        trimmed(again) == trimmed(username),
        authenticated(mid, post, again, password_again, t2, token2, r2),
    ensures
        mid.user_named(trimmed(username)) matches Some(u) && u.id == r1->Ok_0.user_id,
        post.users == mid.users,
        !(r2 matches Err(AuthError::InvalidPassword(_))),
        ({
            let u = mid.user_named(trimmed(username))->Some_0;
            &&& argon2_verdict(u.password_hash, password_again) == Some(true) ==> r2 is Ok && r2->Ok_0.user_id == u.id
            &&& argon2_verdict(u.password_hash, password_again) == Some(false) ==> r2 == Err::<UserSession, AuthError>(AuthError::WrongPassword)
        }),
{
    lemma_after_success(pre, mid, username, password, t1, token1, r1);
    let u = mid.user_named(trimmed(username))->Some_0;
    let found = mid.session_of(u.id);
    let k = choose|k: int| 0 <= k < mid.users.len() && mid.users[k].username == trimmed(username);
    assert(mid.has_user(u.id));
    if !still_live(found, t2) {
        lemma_with_session(mid, issued(u.id, token2, t2));
    }
}

/// When the stored session of the user a request names expired before
/// `now`, authenticating with the right password at `now` succeeds with a
/// session under another token, valid at `now`; and whatever the password,
/// the expired token is valid at no later time. This holds for any drawn
/// token but the expired one.
pub proof fn law_expired_login_rotates(
    pre: StoreView,
    post: StoreView,
    username: Seq<char>,
    password: Seq<char>,
    now: UtcTime,
    token: Seq<char>,
    r: Result<UserSession, AuthError>,
    user: UserRow,
    expired: SessionRow,
    later: UtcTime,
)
    requires
        pre.wf(),
        trimmed(username).len() > 0,
        pre.user_named(trimmed(username)) == Some(user),
        pre.session_of(user.id) == Some(expired),
        later_than_timeout(UtcTime { secs: expired.last_set, nanos: 0 }, now),
        authenticated(pre, post, username, password, now, token, r),
        later.total_nanos() >= now.total_nanos(),
        token != expired.id,
    ensures
        phc_parses(user.password_hash) && argon2_verdict(user.password_hash, password) == Some(true) ==> r is Ok,
        r is Ok ==> r->Ok_0.user_id == user.id && r->Ok_0.id@ == token && r->Ok_0.id@ != expired.id,
        r is Ok ==> session_valid_at(post, token, now),
        !session_valid_at(post, expired.id, later),
{
    let k = choose|k: int| 0 <= k < pre.sessions.len() && pre.sessions[k].user_id == user.id;
    lemma_session_at(pre, k);
    assert(pre.has_user(user.id));
    lemma_with_session(pre, issued(user.id, token, now));
}

/// Resetting a stored session always succeeds, for the same user, with a
/// session under the drawn token that is valid at `now`; the old token is
/// then stored nowhere and is valid at no time. This holds for any drawn
/// token but the old one.
pub proof fn law_reset_rotates(
    pre: StoreView,
    post: StoreView,
    session_id: Seq<char>,
    now: UtcTime,
    token: Seq<char>,
    r: Result<UserSession, ResetSessionError>,
)
    requires
        pre.wf(),
        pre.session_with_id(session_id) is Some,
        reset_outcome(pre, post, session_id, now, token, r),
        token != session_id,
    ensures
        r is Ok,
        r->Ok_0.user_id == pre.session_with_id(session_id)->Some_0.user_id,
        r->Ok_0.id@ == token,
        r->Ok_0.id@ != session_id,
        session_valid_at(post, token, now),
        post.session_with_id(session_id) is None,
        forall|t: UtcTime| !session_valid_at(post, session_id, t),
{
    let s = pre.session_with_id(session_id)->Some_0;
    let k = choose|k: int| 0 <= k < pre.sessions.len() && pre.sessions[k].id == session_id;
    lemma_session_at(pre, k);
    assert(pre.has_user(s.user_id));
    lemma_with_session(pre, issued(s.user_id, token, now));
}

/// Resetting a session that expired before `now` still succeeds, with a
/// session under another token, valid at `now`, and the expired token is
/// valid at no later time. This holds for any drawn token but the expired
/// one.
pub proof fn law_expired_reset_rotates(
    pre: StoreView,
    post: StoreView,
    session_id: Seq<char>,
    now: UtcTime,
    token: Seq<char>,
    r: Result<UserSession, ResetSessionError>,
    later: UtcTime,
)
    requires
        pre.wf(),
        pre.session_with_id(session_id) matches Some(s) && later_than_timeout(UtcTime { secs: s.last_set, nanos: 0 }, now),
        reset_outcome(pre, post, session_id, now, token, r),
        later.total_nanos() >= now.total_nanos(),
        token != session_id,
    ensures
        r is Ok,
        r->Ok_0.id@ != session_id,
        session_valid_at(post, token, now),
        !session_valid_at(post, session_id, later),
{
    law_reset_rotates(pre, post, session_id, now, token, r);
}

/// After a sync merges the snapshot `apps`, every app of it is known to the
/// user's records.
proof fn lemma_merged_apps_known(pre: StoreView, user_id: u32, apps: Seq<AppEntry>)
    ensures
        forall|i: int| 0 <= i < apps.len() ==> pre.with_apps(new_app_rows(pre, user_id, apps)).app_known(user_id, #[trigger] apps[i]),
    decreases apps.len(),
{
    if apps.len() > 0 {
        let d = apps.drop_last();
        lemma_merged_apps_known(pre, user_id, d);
        let rows_d = new_app_rows(pre, user_id, d);
        let rows = new_app_rows(pre, user_id, apps);
        let a = apps.last();
        let w = pre.with_apps(rows);
        let wd = pre.with_apps(rows_d);
        assert(forall|k: int| 0 <= k < wd.apps.len() ==> w.apps[k] == wd.apps[k]);
        assert forall|i: int| 0 <= i < apps.len() implies w.app_known(user_id, #[trigger] apps[i]) by {
            if i < d.len() {
                assert(apps[i] == d[i]);
                assert(wd.app_known(user_id, d[i]));
                let k = choose|k: int|
                    0 <= k < wd.apps.len() && k < wd.apps.len() && wd.apps[k].user_id == user_id
                        && #[trigger] wd.apps[k].same_app(d[i]);
                assert(w.apps[k] == wd.apps[k]);
            } else if pre.app_known(user_id, a) {
                let k = choose|k: int|
                    0 <= k < pre.apps.len() && k < pre.apps.len() && pre.apps[k].user_id == user_id
                        && #[trigger] pre.apps[k].same_app(a);
                assert(w.apps[k] == pre.apps[k]);
            } else {
                let k = wd.apps.len() as int;
                assert(w.apps[k] == AppRow { user_id, name: a.name, usage: a.usage, limit: a.limit });
                assert(w.apps[k].same_app(a));
            }
        }
    }
}

/// After a sync merges the debug records `debug`, every one of them is
/// known to the user's records.
proof fn lemma_merged_debug_known(pre: StoreView, user_id: u32, debug: Seq<Seq<char>>)
    ensures
        forall|i: int| 0 <= i < debug.len() ==> pre.with_debug(new_debug_rows(pre, user_id, debug)).debug_known(user_id, #[trigger] debug[i]),
    decreases debug.len(),
{
    if debug.len() > 0 {
        let d = debug.drop_last();
        lemma_merged_debug_known(pre, user_id, d);
        let rows_d = new_debug_rows(pre, user_id, d);
        let rows = new_debug_rows(pre, user_id, debug);
        let e = debug.last();
        let w = pre.with_debug(rows);
        let wd = pre.with_debug(rows_d);
        assert(forall|k: int| 0 <= k < wd.debug.len() ==> w.debug[k] == wd.debug[k]);
        assert forall|i: int| 0 <= i < debug.len() implies w.debug_known(user_id, #[trigger] debug[i]) by {
            if i < d.len() {
                assert(debug[i] == d[i]);
                assert(wd.debug_known(user_id, d[i]));
                let k = choose|k: int|
                    0 <= k < wd.debug.len() && k < wd.debug.len() && (#[trigger] wd.debug[k]).user_id == user_id
                        && wd.debug[k].stored == d[i];
                assert(w.debug[k] == wd.debug[k]);
            } else if pre.debug_known(user_id, e) {
                let k = choose|k: int|
                    0 <= k < pre.debug.len() && k < pre.debug.len() && (#[trigger] pre.debug[k]).user_id == user_id
                        && pre.debug[k].stored == e;
                assert(w.debug[k] == pre.debug[k]);
            } else {
                let k = wd.debug.len() as int;
                assert(w.debug[k].stored == e);
            }
        }
    }
}

/// Nothing is added for a snapshot whose apps are all known.
proof fn lemma_known_apps_add_nothing(v: StoreView, user_id: u32, apps: Seq<AppEntry>)
    requires
        forall|i: int| 0 <= i < apps.len() ==> v.app_known(user_id, #[trigger] apps[i]),
    ensures
        new_app_rows(v, user_id, apps) == Seq::<AppRow>::empty(),
    decreases apps.len(),
{
    if apps.len() > 0 {
        let d = apps.drop_last();
        assert forall|i: int| 0 <= i < d.len() implies v.app_known(user_id, #[trigger] d[i]) by {
            assert(d[i] == apps[i]);
        }
        lemma_known_apps_add_nothing(v, user_id, d);
        assert(v.app_known(user_id, apps[apps.len() - 1]));
    }
}

/// Nothing is added for debug records that are all known.
proof fn lemma_known_debug_adds_nothing(v: StoreView, user_id: u32, debug: Seq<Seq<char>>)
    requires
        forall|i: int| 0 <= i < debug.len() ==> v.debug_known(user_id, #[trigger] debug[i]),
    ensures
        new_debug_rows(v, user_id, debug) == Seq::<DebugRow>::empty(),
    decreases debug.len(),
{
    if debug.len() > 0 {
        let d = debug.drop_last();
        assert forall|i: int| 0 <= i < d.len() implies v.debug_known(user_id, #[trigger] d[i]) by {
            assert(d[i] == debug[i]);
        }
        lemma_known_debug_adds_nothing(v, user_id, d);
        assert(v.debug_known(user_id, debug[debug.len() - 1]));
    }
}

/// Syncing a snapshot and then syncing either nothing or the same snapshot
/// again leaves the store as the first sync left it and returns the same
/// data: no stored record is dropped and none is added twice.
pub proof fn law_sync_idempotent(
    pre: StoreView,
    mid: StoreView,
    post: StoreView,
    session_id: Seq<char>,
    data: UserDataView,
    again: Option<UserDataView>,
    r1: Result<SyncSummary, SyncError>,
    r2: Result<SyncSummary, SyncError>,
)
    requires
        pre.wf(),
        sync_outcome(pre, mid, session_id, Some(data), r1),
        r1 is Ok,
        again == None::<UserDataView> || again == Some(data),
        sync_outcome(mid, post, session_id, again, r2),
    ensures
        post == mid,
        r2 is Ok,
        r2->Ok_0.data@ == r1->Ok_0.data@,
{
    let s = pre.session_with_id(session_id)->Some_0;
    let user_id = s.user_id;
    let ra = new_app_rows(pre, user_id, data.app_usage);
    let rd = new_debug_rows(pre, user_id, data.debug);
    assert(mid.sessions == pre.sessions);
    assert(mid.session_with_id(session_id) == pre.session_with_id(session_id));
    if again is Some {
        lemma_merged_apps_known(pre, user_id, data.app_usage);
        lemma_merged_debug_known(pre, user_id, data.debug);
        assert forall|i: int| 0 <= i < data.app_usage.len() implies mid.app_known(user_id, #[trigger] data.app_usage[i]) by {
            assert(pre.with_apps(ra).app_known(user_id, data.app_usage[i]));
        }
        lemma_known_apps_add_nothing(mid, user_id, data.app_usage);
        assert(mid.debug == pre.with_debug(rd).debug);
        assert forall|i: int| 0 <= i < data.debug.len() implies mid.debug_known(user_id, #[trigger] data.debug[i]) by {
            assert(pre.with_debug(rd).debug_known(user_id, data.debug[i]));
        }
        lemma_known_debug_adds_nothing(mid, user_id, data.debug);
        assert(mid.with_apps(Seq::empty()).with_debug(Seq::empty()) =~= mid);
    }
}

/// After deleting the account that owns a session, a sync under that
/// session's token fails with `InvalidSession`, and the token is valid at no
/// time.
pub proof fn law_deletion_invalidates(
    pre: StoreView,
    mid: StoreView,
    post: StoreView,
    session_id: Seq<char>,
    r: Result<(), DeleteAccountError>,
    data: Option<UserDataView>,
    r2: Result<SyncSummary, SyncError>,
    now: UtcTime,
)
    requires
        pre.wf(),
        deletion_outcome(pre, mid, session_id, r),
        r is Ok,
        sync_outcome(mid, post, session_id, data, r2),
    ensures
        r2 == Err::<SyncSummary, SyncError>(SyncError::InvalidSession),
        !session_valid_at(mid, session_id, now),
{
    lemma_without_owner(pre, session_id);
}

} // verus!
