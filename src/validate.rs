use vstd::prelude::*;

use crate::store::{Store, StoreView};
use crate::time::{timed_out, utc_now, UtcTime};
use crate::util::live_at;

verus! {

/// A session with token `session_id` is stored and still valid at `now`.
pub open spec fn session_valid_at(v: StoreView, session_id: Seq<char>, now: UtcTime) -> bool {
    v.session_with_id(session_id) matches Some(s) && live_at(s.last_set, now)
}

/// Whether the session `session_id` exists and is still valid at `now`.
pub fn session_is_valid_at(store: &Store, session_id: &str, now: UtcTime) -> (r: bool)
    requires
        store@.wf(),
    ensures
        r == session_valid_at(store@, session_id@, now),
{
    match store.find_session_by_id(session_id) {
        Some(session) => !timed_out(UtcTime { secs: session.last_set, nanos: 0 }, now),
        None => false,
    }
}

/// Whether the session `session_id` exists and is still valid, by the clock.
pub fn validate_session(store: &Store, session_id: &str) -> (r: bool)
    requires
        store@.wf(),
    ensures
        exists|now: UtcTime| r == session_valid_at(store@, session_id@, now),
{
    let now = utc_now();
    session_is_valid_at(store, session_id, now)
}

} // verus!
