use vstd::prelude::*;

use crate::db::DBErrorKind;
use crate::store::{Store, StoreView};

verus! {

/// Why an account could not be deleted.
#[derive(Debug, PartialEq, Eq)]
pub enum DeleteAccountError {
    InvalidSession,
    DBError(DBErrorKind),
}

/// The outcome of deleting the account that owns the session `session_id`.
pub open spec fn deletion_outcome(
    pre: StoreView,
    post: StoreView,
    session_id: Seq<char>,
    r: Result<(), DeleteAccountError>,
) -> bool {
    match pre.session_with_id(session_id) {
        None => post == pre && r == Err::<(), DeleteAccountError>(DeleteAccountError::InvalidSession),
        Some(s) => post == pre.without_user(s.user_id) && r is Ok,
    }
}

/// Deletes the account that owns the session `session_id`, with its session
/// and usage records.
pub fn delete_account(store: &mut Store, session_id: &str) -> (r: Result<(), DeleteAccountError>)
    requires
        old(store)@.wf(),
    ensures
        final(store)@.wf(),
        deletion_outcome(old(store)@, final(store)@, session_id@, r),
{
    let user_id = match store.find_session_by_id(session_id) {
        Some(session) => session.user_id,
        None => return Err(DeleteAccountError::InvalidSession),
    };
    store.remove_user(user_id);
    Ok(())
}

} // verus!
