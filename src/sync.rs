use vstd::prelude::*;

use crate::db::DBErrorKind;
use crate::records::{AppRow, DBAppInfo, DBUserDebug, DebugRow};
use crate::store::{Store, StoreView};

verus! {

/// Usage of one app as the client reports it: elapsed and allowed seconds.
#[derive(Debug, PartialEq, Eq)]
pub struct AppInfo {
    pub name: String,
    pub usage: u32,
    pub limit: u32,
}

/// The value of an [`AppInfo`].
pub struct AppEntry {
    pub name: Seq<char>,
    pub usage: u32,
    pub limit: u32,
}

impl View for AppInfo {
    type V = AppEntry;

    open spec fn view(&self) -> AppEntry {
        AppEntry { name: self.name@, usage: self.usage, limit: self.limit }
    }
}

impl AppInfo {
    pub fn new(name: &str, usage: u32, limit: u32) -> (r: Self)
        ensures
            r@ == (AppEntry { name: name@, usage, limit }),
    {
        AppInfo { name: name.to_owned(), usage, limit }
    }
}

/// An opaque debug record.
#[derive(Debug, PartialEq, Eq)]
pub struct UserDebug {
    pub stored: String,
}

impl View for UserDebug {
    type V = Seq<char>;

    open spec fn view(&self) -> Seq<char> {
        self.stored@
    }
}

/// A user's usage data: app records and debug records.
#[derive(Debug, PartialEq, Eq)]
pub struct UserData {
    pub app_usage: Vec<AppInfo>,
    pub debug: Vec<UserDebug>,
}

/// The value of a [`UserData`].
pub struct UserDataView {
    pub app_usage: Seq<AppEntry>,
    pub debug: Seq<Seq<char>>,
}

impl View for UserData {
    type V = UserDataView;

    open spec fn view(&self) -> UserDataView {
        UserDataView {
            app_usage: self.app_usage@.map_values(|a: AppInfo| a@),
            debug: self.debug@.map_values(|d: UserDebug| d@),
        }
    }
}

/// The outcome of a sync: the user's stored data after the merge, and how
/// many submitted records could not be stored.
#[derive(Debug, PartialEq, Eq)]
pub struct SyncSummary {
    pub data: UserData,
    pub failed: u32,
}

/// Why a sync failed.
#[derive(Debug, PartialEq, Eq)]
pub enum SyncError {
    InvalidSession,
    DBError(DBErrorKind),
}

/// The value of a snapshot that may be absent.
pub open spec fn snapshot_view(data: Option<UserData>) -> Option<UserDataView> {
    match data {
        Some(d) => Some(d@),
        None => None,
    }
}

/// The rows a sync adds for the submitted `apps`: each one that no record
/// of `user_id` stored before the sync stands for, in submitted order.
pub open spec fn new_app_rows(pre: StoreView, user_id: u32, apps: Seq<AppEntry>) -> Seq<AppRow> {
    apps.filter_map(
        |a: AppEntry|
            if pre.app_known(user_id, a) {
                None
            } else {
                Some(AppRow { user_id, name: a.name, usage: a.usage, limit: a.limit })
            },
    )
}

/// The rows a sync adds for the submitted debug records: each one that no
/// record of `user_id` stored before the sync holds, in submitted order.
pub open spec fn new_debug_rows(pre: StoreView, user_id: u32, debug: Seq<Seq<char>>) -> Seq<DebugRow> {
    debug.filter_map(
        |d: Seq<char>|
            if pre.debug_known(user_id, d) {
                None
            } else {
                Some(DebugRow { user_id, stored: d })
            },
    )
}

/// The store after merging the snapshot `data` of `user_id`.
pub open spec fn synced_store(pre: StoreView, user_id: u32, data: Option<UserDataView>) -> StoreView {
    match data {
        None => pre,
        Some(d) => pre.with_apps(new_app_rows(pre, user_id, d.app_usage)).with_debug(
            new_debug_rows(pre, user_id, d.debug),
        ),
    }
}

/// The outcome of syncing the snapshot `data` under the session `session_id`.
pub open spec fn sync_outcome(
    pre: StoreView,
    post: StoreView,
    session_id: Seq<char>,
    data: Option<UserDataView>,
    r: Result<SyncSummary, SyncError>,
) -> bool {
    match pre.session_with_id(session_id) {
        None => post == pre && r == Err::<SyncSummary, SyncError>(SyncError::InvalidSession),
        Some(s) => {
            &&& post == synced_store(pre, s.user_id, data)
            &&& r is Ok
            &&& r->Ok_0.data@ == post.data_of(s.user_id)
            &&& r->Ok_0.failed == 0
        },
    }
}

/// Merges the client's snapshot into the stored data of the user owning
/// `session_id`, never removing a stored record, and returns the user's
/// complete stored data.
pub fn sync(store: &mut Store, session_id: &str, request_user_data: Option<UserData>) -> (r: Result<
    SyncSummary,
    SyncError,
>)
    requires
        old(store)@.wf(),
    ensures
        final(store)@.wf(),
        sync_outcome(old(store)@, final(store)@, session_id@, snapshot_view(request_user_data), r),
{
    let user_id = match store.find_session_by_id(session_id) {
        Some(session) => session.user_id,
        None => return Err(SyncError::InvalidSession),
    };
    let ghost pre = store@;
    proof {
        let k = choose|k: int| 0 <= k < pre.sessions.len() && pre.sessions[k].id == session_id@;
        assert(pre.has_user(pre.sessions[k].user_id));
    }
    let stored_apps = store.app_count();
    let stored_debug = store.debug_count();
    let mut failed: u32 = 0;
    if let Some(user_data) = request_user_data {
        let ghost apps = user_data@.app_usage;
        let ghost debug = user_data@.debug;
        let mut i: usize = 0;
        while i < user_data.app_usage.len()
            invariant
                pre.wf(),
                pre.has_user(user_id),
                store@.wf(),
                stored_apps == pre.apps.len(),
                stored_debug == pre.debug.len(),
                i <= apps.len(),
                apps == user_data@.app_usage,
                store@ == pre.with_apps(new_app_rows(pre, user_id, apps.take(i as int))),
                failed == 0,
            decreases user_data.app_usage.len() - i,
        {
            let app = &user_data.app_usage[i];
            let ghost mid = store@;
            proof {
                assert(apps.take(i + 1).drop_last() =~= apps.take(i as int));
                assert(apps[i as int] == app@);
                assert forall|k: int| 0 <= k < stored_apps implies mid.apps[k] == pre.apps[k] by {}
                assert(mid.app_known_in(user_id, app@, stored_apps as int) == pre.app_known(user_id, app@)) by {
                    if pre.app_known(user_id, app@) {
                        let k = choose|k: int|
                            0 <= k < pre.apps.len() && k < pre.apps.len() && pre.apps[k].user_id == user_id
                                && #[trigger] pre.apps[k].same_app(app@);
                        assert(mid.apps[k] == pre.apps[k]);
                    }
                }
            }
            if !store.app_known_in(user_id, app, stored_apps) {
                let row = DBAppInfo {
                    user_id,
                    app_name: app.name.clone(),
                    app_usage: app.usage,
                    app_limit: app.limit,
                };
                proof {
                    assert(mid.users == pre.users);
                    assert(mid.has_user(user_id));
                }
                if store.insert_app_info(row).is_err() {
                    failed += 1;
                }
                proof {
                    assert(new_app_rows(pre, user_id, apps.take(i + 1)) =~= new_app_rows(pre, user_id, apps.take(i as int)) + seq![AppRow { user_id, name: app@.name, usage: app@.usage, limit: app@.limit }]);
                    assert(store@.apps =~= pre.apps + new_app_rows(pre, user_id, apps.take(i + 1)));
                }
            } else {
                proof {
                    assert(new_app_rows(pre, user_id, apps.take(i + 1)) =~= new_app_rows(pre, user_id, apps.take(i as int)));
                }
            }
            i += 1;
        }
        proof {
            assert(apps.take(i as int) =~= apps);
        }
        let ghost after_apps = store@;
        let mut j: usize = 0;
        while j < user_data.debug.len()
            invariant
                pre.wf(),
                pre.has_user(user_id),
                store@.wf(),
                stored_debug == pre.debug.len(),
                j <= debug.len(),
                debug == user_data@.debug,
                after_apps == pre.with_apps(new_app_rows(pre, user_id, apps)),
                store@ == after_apps.with_debug(new_debug_rows(pre, user_id, debug.take(j as int))),
                failed == 0,
            decreases user_data.debug.len() - j,
        {
            let entry = &user_data.debug[j];
            let ghost mid = store@;
            proof {
                assert(debug.take(j + 1).drop_last() =~= debug.take(j as int));
                assert(debug[j as int] == entry@);
                assert forall|k: int| 0 <= k < stored_debug implies mid.debug[k] == pre.debug[k] by {}
                assert(mid.debug_known_in(user_id, entry@, stored_debug as int) == pre.debug_known(user_id, entry@)) by {
                    if pre.debug_known(user_id, entry@) {
                        let k = choose|k: int|
                            0 <= k < pre.debug.len() && k < pre.debug.len() && (#[trigger] pre.debug[k]).user_id == user_id
                                && pre.debug[k].stored == entry@;
                        assert(mid.debug[k] == pre.debug[k]);
                    }
                }
            }
            if !store.debug_known_in(user_id, entry, stored_debug) {
                let row = DBUserDebug { user_id, stored: entry.stored.clone() };
                proof {
                    assert(mid.users == pre.users);
                    assert(mid.has_user(user_id));
                }
                if store.insert_debug(row).is_err() {
                    failed += 1;
                }
                proof {
                    assert(new_debug_rows(pre, user_id, debug.take(j + 1)) =~= new_debug_rows(pre, user_id, debug.take(j as int)) + seq![DebugRow { user_id, stored: entry@ }]);
                    assert(store@.debug =~= after_apps.debug + new_debug_rows(pre, user_id, debug.take(j + 1)));
                }
            } else {
                proof {
                    assert(new_debug_rows(pre, user_id, debug.take(j + 1)) =~= new_debug_rows(pre, user_id, debug.take(j as int)));
                }
            }
            j += 1;
        }
        proof {
            assert(debug.take(j as int) =~= debug);
        }
    }
    let data = store.user_data(user_id);
    Ok(SyncSummary { data, failed })
}

} // verus!
