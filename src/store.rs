use vstd::prelude::*;

use crate::db::DBErrorKind;
use crate::records::{AppRow, DBAppInfo, DBUser, DBUserDebug, DBUserSession, DebugRow, SessionRow, UserRow};
use crate::sync::{AppEntry, AppInfo, UserData, UserDataView, UserDebug};

verus! {

/// The value of the whole store: one sequence of rows per table, in the
/// order the rows were inserted.
pub struct StoreView {
    pub users: Seq<UserRow>,
    pub sessions: Seq<SessionRow>,
    pub apps: Seq<AppRow>,
    pub debug: Seq<DebugRow>,
}

impl StoreView {
    /// A user with this id is stored.
    pub open spec fn has_user(self, id: u32) -> bool {
        exists|k: int| 0 <= k < self.users.len() && self.users[k].id == id
    }

    /// The schema's constraints: user ids and usernames are unique, each user
    /// has at most one session, session tokens are unique, and every session
    /// and usage record refers to a stored user.
    pub open spec fn wf(self) -> bool {
        &&& forall|i: int, j: int|
            0 <= i < j < self.users.len() ==> self.users[i].id != self.users[j].id
                && self.users[i].username != self.users[j].username
        &&& forall|i: int, j: int|
            0 <= i < j < self.sessions.len() ==> self.sessions[i].user_id
                != self.sessions[j].user_id && self.sessions[i].id != self.sessions[j].id
        &&& forall|i: int| 0 <= i < self.sessions.len() ==> self.has_user(#[trigger] self.sessions[i].user_id)
        &&& forall|i: int| 0 <= i < self.apps.len() ==> self.has_user(#[trigger] self.apps[i].user_id)
        &&& forall|i: int| 0 <= i < self.debug.len() ==> self.has_user(#[trigger] self.debug[i].user_id)
    }

    /// The user stored under `name`, if any.
    pub open spec fn user_named(self, name: Seq<char>) -> Option<UserRow> {
        if exists|k: int| 0 <= k < self.users.len() && self.users[k].username == name {
            Some(self.users[choose|k: int| 0 <= k < self.users.len() && self.users[k].username == name])
        } else {
            None
        }
    }

    /// The user stored under `id`, if any.
    pub open spec fn user_with_id(self, id: u32) -> Option<UserRow> {
        if self.has_user(id) {
            Some(self.users[choose|k: int| 0 <= k < self.users.len() && self.users[k].id == id])
        } else {
            None
        }
    }

    /// The session whose token is `id`, if any.
    pub open spec fn session_with_id(self, id: Seq<char>) -> Option<SessionRow> {
        if exists|k: int| 0 <= k < self.sessions.len() && self.sessions[k].id == id {
            Some(self.sessions[choose|k: int| 0 <= k < self.sessions.len() && self.sessions[k].id == id])
        } else {
            None
        }
    }

    /// The session of user `user_id`, if any.
    pub open spec fn session_of(self, user_id: u32) -> Option<SessionRow> {
        if exists|k: int| 0 <= k < self.sessions.len() && self.sessions[k].user_id == user_id {
            Some(self.sessions[choose|k: int| 0 <= k < self.sessions.len() && self.sessions[k].user_id == user_id])
        } else {
            None
        }
    }

    /// The app records of `user_id`, in stored order, as the client sees them.
    pub open spec fn apps_of(self, user_id: u32) -> Seq<AppEntry> {
        self.apps.filter_map(|r: AppRow| if r.user_id == user_id { Some(r.entry()) } else { None })
    }

    /// The debug records of `user_id`, in stored order.
    pub open spec fn debug_of(self, user_id: u32) -> Seq<Seq<char>> {
        self.debug.filter_map(|r: DebugRow| if r.user_id == user_id { Some(r.stored) } else { None })
    }

    /// All stored usage data of `user_id`.
    pub open spec fn data_of(self, user_id: u32) -> UserDataView {
        UserDataView { app_usage: self.apps_of(user_id), debug: self.debug_of(user_id) }
    }

    /// Among the first `n` app records, one of `user_id` stands for the same
    /// app as `a`.
    pub open spec fn app_known_in(self, user_id: u32, a: AppEntry, n: int) -> bool {
        exists|k: int| 0 <= k < n && k < self.apps.len() && self.apps[k].user_id == user_id && #[trigger] self.apps[k].same_app(a)
    }

    /// A stored app record of `user_id` stands for the same app as `a`.
    pub open spec fn app_known(self, user_id: u32, a: AppEntry) -> bool {
        self.app_known_in(user_id, a, self.apps.len() as int)
    }

    /// Among the first `n` debug records, one of `user_id` holds `d`.
    pub open spec fn debug_known_in(self, user_id: u32, d: Seq<char>, n: int) -> bool {
        exists|k: int| 0 <= k < n && k < self.debug.len() && (#[trigger] self.debug[k]).user_id == user_id && self.debug[k].stored == d
    }

    /// A stored debug record of `user_id` holds `d`.
    pub open spec fn debug_known(self, user_id: u32, d: Seq<char>) -> bool {
        self.debug_known_in(user_id, d, self.debug.len() as int)
    }

    /// The store with `rows` appended to the app records.
    pub open spec fn with_apps(self, rows: Seq<AppRow>) -> StoreView {
        StoreView { apps: self.apps + rows, ..self }
    }

    /// The store with `rows` appended to the debug records.
    pub open spec fn with_debug(self, rows: Seq<DebugRow>) -> StoreView {
        StoreView { debug: self.debug + rows, ..self }
    }

    /// The store without user `user_id` and without every row that refers to it.
    pub open spec fn without_user(self, user_id: u32) -> StoreView {
        StoreView {
            users: self.users.filter(|u: UserRow| u.id != user_id),
            sessions: self.sessions.filter(|s: SessionRow| s.user_id != user_id),
            apps: self.apps.filter(|r: AppRow| r.user_id != user_id),
            debug: self.debug.filter(|r: DebugRow| r.user_id != user_id),
        }
    }

    /// The largest user id, or 0 when there are no users.
    pub open spec fn max_user_id(self) -> u32 {
        max_id(self.users)
    }

    /// The store with `user` appended.
    pub open spec fn with_user(self, user: UserRow) -> StoreView {
        StoreView { users: self.users.push(user), ..self }
    }

    /// The store with `session` added, replacing every stored session that
    /// conflicts with it: the one of the same user, and the one holding the
    /// same token.
    pub open spec fn with_session(self, session: SessionRow) -> StoreView {
        StoreView { sessions: self.sessions.filter(|r: SessionRow| apart(r, session)).push(session), ..self }
    }
}

/// The stored session `r` conflicts with `session` on neither constraint:
/// another user, another token.
pub open spec fn apart(r: SessionRow, session: SessionRow) -> bool {
    r.user_id != session.user_id && r.id != session.id
}

/// The largest id among `users`, or 0 when there are none.
pub open spec fn max_id(users: Seq<UserRow>) -> u32
    decreases users.len(),
{
    if users.len() == 0 {
        0
    } else {
        let rest = max_id(users.drop_last());
        if users.last().id > rest {
            users.last().id
        } else {
            rest
        }
    }
}

/// Every two rows of `s`, taken in order, are related by `rel`.
pub open spec fn pairwise<A>(s: Seq<A>, rel: spec_fn(A, A) -> bool) -> bool {
    forall|i: int, j: int| 0 <= i < j < s.len() ==> rel(#[trigger] s[i], #[trigger] s[j])
}

/// Keeping some rows of a sequence keeps every pair of them related.
proof fn lemma_filter_pairwise<A>(s: Seq<A>, p: spec_fn(A) -> bool, rel: spec_fn(A, A) -> bool)
    requires
        pairwise(s, rel),
    ensures
        pairwise(s.filter(p), rel),
    decreases s.len(),
{
    reveal(Seq::filter);
    if s.len() > 0 {
        let d = s.drop_last();
        assert(pairwise(d, rel)) by {
            assert forall|i: int, j: int| 0 <= i < j < d.len() implies rel(#[trigger] d[i], #[trigger] d[j]) by {
                assert(d[i] == s[i] && d[j] == s[j]);
            }
        }
        lemma_filter_pairwise(d, p, rel);
        let f = d.filter(p);
        if p(s.last()) {
            let g = s.filter(p);
            assert(g == f.push(s.last()));
            assert forall|i: int, j: int| 0 <= i < j < g.len() implies rel(#[trigger] g[i], #[trigger] g[j]) by {
                if j == f.len() {
                    assert(f.contains(f[i]));
                    d.lemma_filter_contains_rev(p, f[i]);
                    let k = choose|k: int| 0 <= k < d.len() && d[k] == f[i];
                    assert(s[k] == d[k]);
                    assert(rel(s[k], s[s.len() - 1]));
                } else {
                    assert(g[i] == f[i] && g[j] == f[j]);
                }
            }
        }
    }
}

/// A row kept by a filter was in the sequence and passes the filter.
proof fn lemma_filter_member<A>(s: Seq<A>, p: spec_fn(A) -> bool, i: int)
    requires
        0 <= i < s.filter(p).len(),
    ensures
        p(s.filter(p)[i]),
        exists|k: int| 0 <= k < s.len() && s[k] == s.filter(p)[i],
{
    s.lemma_filter_pred(p, i);
    assert(s.filter(p).contains(s.filter(p)[i]));
    s.lemma_filter_contains_rev(p, s.filter(p)[i]);
}

/// No stored id exceeds the largest one.
pub proof fn lemma_max_id_bound(users: Seq<UserRow>, k: int)
    requires
        0 <= k < users.len(),
    ensures
        users[k].id <= max_id(users),
    decreases users.len(),
{
    if k < users.len() - 1 {
        lemma_max_id_bound(users.drop_last(), k);
        assert(users.drop_last()[k] == users[k]);
    }
}

/// The relational store: users, their sessions and their usage records.
pub struct Store {
    users: Vec<DBUser>,
    sessions: Vec<DBUserSession>,
    apps: Vec<DBAppInfo>,
    debug: Vec<DBUserDebug>,
}

impl View for Store {
    type V = StoreView;

    closed spec fn view(&self) -> StoreView {
        StoreView {
            users: self.users@.map_values(|u: DBUser| u@),
            sessions: self.sessions@.map_values(|s: DBUserSession| s@),
            apps: self.apps@.map_values(|a: DBAppInfo| a@),
            debug: self.debug@.map_values(|d: DBUserDebug| d@),
        }
    }
}

impl Store {
    /// An empty store.
    pub fn new() -> (r: Store)
        ensures
            r@.wf(),
            r@.users.len() == 0,
            r@.sessions.len() == 0,
            r@.apps.len() == 0,
            r@.debug.len() == 0,
    {
        Store { users: Vec::new(), sessions: Vec::new(), apps: Vec::new(), debug: Vec::new() }
    }

    /// The stored users, in insertion order.
    pub fn users(&self) -> (r: &Vec<DBUser>)
        ensures
            r@.map_values(|u: DBUser| u@) == self@.users,
    {
        &self.users
    }

    /// The stored sessions.
    pub fn sessions(&self) -> (r: &Vec<DBUserSession>)
        ensures
            r@.map_values(|s: DBUserSession| s@) == self@.sessions,
    {
        &self.sessions
    }

    /// The stored app records, in insertion order.
    pub fn app_records(&self) -> (r: &Vec<DBAppInfo>)
        ensures
            r@.map_values(|a: DBAppInfo| a@) == self@.apps,
    {
        &self.apps
    }

    /// The stored debug records, in insertion order.
    pub fn debug_records(&self) -> (r: &Vec<DBUserDebug>)
        ensures
            r@.map_values(|d: DBUserDebug| d@) == self@.debug,
    {
        &self.debug
    }

    /// Looks a user up by username.
    pub fn find_user_by_name(&self, name: &str) -> (r: Option<&DBUser>)
        requires
            self@.wf(),
        ensures
            r is None ==> self@.user_named(name@) is None,
            r is Some ==> self@.user_named(name@) == Some(r->Some_0@),
    {
        let key = name.to_owned();
        let mut i: usize = 0;
        while i < self.users.len()
            invariant
                i <= self.users@.len(),
                self@.wf(),
                key@ == name@,
                forall|k: int| 0 <= k < i ==> self.users@[k].username@ != name@,
            decreases self.users.len() - i,
        {
            if self.users[i].username == key {
                proof {
                    assert(self@.users[i as int] == self.users@[i as int]@);
                    assert(self@.users[i as int].username == name@);
                    let c = choose|k: int| 0 <= k < self@.users.len() && self@.users[k].username == name@;
                    assert(c == i) by {
                        if c < i {
                            assert(self@.users[c].username != self@.users[i as int].username);
                        } else if c > i {
                            assert(self@.users[i as int].username != self@.users[c].username);
                        }
                    }
                    assert(self@.user_named(name@) == Some(self.users@[i as int]@));
                }
                return Some(&self.users[i]);
            }
            i += 1;
        }
        proof {
            assert forall|k: int| 0 <= k < self@.users.len() implies self@.users[k].username != name@ by {
                assert(self@.users[k] == self.users@[k]@);
            }
        }
        None
    }

    /// Looks a user up by id.
    pub fn find_user_by_id(&self, id: u32) -> (r: Option<&DBUser>)
        requires
            self@.wf(),
        ensures
            r is None ==> self@.user_with_id(id) is None,
            r is Some ==> self@.user_with_id(id) == Some(r->Some_0@),
    {
        let mut i: usize = 0;
        while i < self.users.len()
            invariant
                i <= self.users@.len(),
                self@.wf(),
                forall|k: int| 0 <= k < i ==> self.users@[k].id != id,
            decreases self.users.len() - i,
        {
            if self.users[i].id == id {
                proof {
                    assert(self@.users[i as int] == self.users@[i as int]@);
                    let c = choose|k: int| 0 <= k < self@.users.len() && self@.users[k].id == id;
                    assert(c == i) by {
                        if c < i {
                            assert(self@.users[c].id != self@.users[i as int].id);
                        } else if c > i {
                            assert(self@.users[i as int].id != self@.users[c].id);
                        }
                    }
                }
                return Some(&self.users[i]);
            }
            i += 1;
        }
        proof {
            assert forall|k: int| 0 <= k < self@.users.len() implies self@.users[k].id != id by {
                assert(self@.users[k] == self.users@[k]@);
            }
        }
        None
    }

    /// The largest stored user id, or 0 when there are no users.
    pub fn max_user_id(&self) -> (r: u32)
        ensures
            r == self@.max_user_id(),
    {
        let mut max: u32 = 0;
        let mut i: usize = 0;
        while i < self.users.len()
            invariant
                i <= self.users@.len(),
                max == max_id(self@.users.take(i as int)),
            decreases self.users.len() - i,
        {
            proof {
                assert(self@.users.take(i + 1).drop_last() =~= self@.users.take(i as int));
                assert(self@.users[i as int] == self.users@[i as int]@);
            }
            if self.users[i].id > max {
                max = self.users[i].id;
            }
            i += 1;
        }
        proof {
            assert(self@.users.take(i as int) =~= self@.users);
        }
        max
    }

    /// Inserts a user. Fails when its id or its username is taken.
    pub fn insert_user(&mut self, user: DBUser) -> (r: Result<(), DBErrorKind>)
        requires
            old(self)@.wf(),
        ensures
            final(self)@.wf(),
            r is Ok <==> !old(self)@.has_user(user.id) && old(self)@.user_named(user.username@) is None,
            r is Ok ==> final(self)@ == old(self)@.with_user(user@),
            r is Err ==> final(self)@ == old(self)@ && r->Err_0 is InsertError,
    {
        if self.find_user_by_id(user.id).is_some() {
            return Err(DBErrorKind::InsertError("UNIQUE constraint failed: users.id".to_owned()));
        }
        if self.find_user_by_name(user.username.as_str()).is_some() {
            return Err(DBErrorKind::InsertError("UNIQUE constraint failed: users.username".to_owned()));
        }
        let ghost pre = self@;
        let ghost row = user@;
        self.users.push(user);
        proof {
            assert(self@.users =~= pre.users.push(row));
            assert(self@.sessions =~= pre.sessions);
            assert(self@.apps =~= pre.apps);
            assert(self@.debug =~= pre.debug);
            assert forall|id: u32| pre.has_user(id) implies self@.has_user(id) by {
                let k = choose|k: int| 0 <= k < pre.users.len() && pre.users[k].id == id;
                assert(self@.users[k] == pre.users[k]);
            }
            assert(!pre.has_user(row.id));
            assert(forall|k: int| 0 <= k < pre.users.len() ==> pre.users[k].username != row.username);
        }
        Ok(())
    }

    /// Looks a session up by its token.
    pub fn find_session_by_id(&self, id: &str) -> (r: Option<&DBUserSession>)
        requires
            self@.wf(),
        ensures
            r is None ==> self@.session_with_id(id@) is None,
            r is Some ==> self@.session_with_id(id@) == Some(r->Some_0@),
    {
        let key = id.to_owned();
        let mut i: usize = 0;
        while i < self.sessions.len()
            invariant
                i <= self.sessions@.len(),
                self@.wf(),
                key@ == id@,
                forall|k: int| 0 <= k < i ==> self.sessions@[k].id@ != id@,
            decreases self.sessions.len() - i,
        {
            if self.sessions[i].id == key {
                proof {
                    assert(self@.sessions[i as int] == self.sessions@[i as int]@);
                    let c = choose|k: int| 0 <= k < self@.sessions.len() && self@.sessions[k].id == id@;
                    assert(c == i) by {
                        if c < i {
                            assert(self@.sessions[c].id != self@.sessions[i as int].id);
                        } else if c > i {
                            assert(self@.sessions[i as int].id != self@.sessions[c].id);
                        }
                    }
                }
                return Some(&self.sessions[i]);
            }
            i += 1;
        }
        proof {
            assert forall|k: int| 0 <= k < self@.sessions.len() implies self@.sessions[k].id != id@ by {
                assert(self@.sessions[k] == self.sessions@[k]@);
            }
        }
        None
    }

    /// The position of the session of `user_id`, if it has one.
    fn session_index_of(&self, user_id: u32) -> (r: Option<usize>)
        requires
            self@.wf(),
        ensures
            r is None ==> forall|k: int| 0 <= k < self@.sessions.len() ==> self@.sessions[k].user_id != user_id,
            r is Some ==> r->Some_0 < self@.sessions.len() && self@.sessions[r->Some_0 as int].user_id == user_id,
            r is Some ==> self@.session_of(user_id) == Some(self@.sessions[r->Some_0 as int]),
    {
        let mut i: usize = 0;
        while i < self.sessions.len()
            invariant
                i <= self.sessions@.len(),
                self@.wf(),
                forall|k: int| 0 <= k < i ==> self.sessions@[k].user_id != user_id,
            decreases self.sessions.len() - i,
        {
            if self.sessions[i].user_id == user_id {
                proof {
                    assert(self@.sessions[i as int] == self.sessions@[i as int]@);
                    let c = choose|k: int| 0 <= k < self@.sessions.len() && self@.sessions[k].user_id == user_id;
                    assert(c == i) by {
                        if c < i {
                            assert(self@.sessions[c].user_id != self@.sessions[i as int].user_id);
                        } else if c > i {
                            assert(self@.sessions[i as int].user_id != self@.sessions[c].user_id);
                        }
                    }
                }
                return Some(i);
            }
            i += 1;
        }
        proof {
            assert forall|k: int| 0 <= k < self@.sessions.len() implies self@.sessions[k].user_id != user_id by {
                assert(self@.sessions[k] == self.sessions@[k]@);
            }
        }
        None
    }

    /// Looks the session of a user up.
    pub fn find_session_by_user(&self, user_id: u32) -> (r: Option<&DBUserSession>)
        requires
            self@.wf(),
        ensures
            r is None ==> self@.session_of(user_id) is None,
            r is Some ==> self@.session_of(user_id) == Some(r->Some_0@),
    {
        match self.session_index_of(user_id) {
            Some(i) => {
                proof {
                    assert(self@.sessions[i as int] == self.sessions@[i as int]@);
                }
                Some(&self.sessions[i])
            },
            None => None,
        }
    }

    /// The sessions that do not conflict with `session`.
    fn sessions_apart_from(&self, session: &DBUserSession) -> (r: Vec<DBUserSession>)
        ensures
            r@.map_values(|s: DBUserSession| s@) == self@.sessions.filter(|x: SessionRow| apart(x, session@)),
    {
        let mut kept: Vec<DBUserSession> = Vec::new();
        let mut i: usize = 0;
        while i < self.sessions.len()
            invariant
                i <= self@.sessions.len(),
                kept@.map_values(|s: DBUserSession| s@) == self@.sessions.take(i as int).filter(
                    |x: SessionRow| apart(x, session@),
                ),
            decreases self.sessions.len() - i,
        {
            let ghost before = kept@;
            proof {
                reveal(Seq::filter);
                assert(self@.sessions.take(i + 1).drop_last() =~= self@.sessions.take(i as int));
                assert(self@.sessions[i as int] == self.sessions@[i as int]@);
            }
            if self.sessions[i].user_id != session.user_id && self.sessions[i].id != session.id {
                kept.push(self.sessions[i].duplicate());
                proof {
                    assert(kept@.map_values(|s: DBUserSession| s@) =~= before.map_values(|s: DBUserSession| s@).push(self@.sessions[i as int]));
                }
            }
            i += 1;
        }
        proof {
            assert(self@.sessions.take(i as int) =~= self@.sessions);
        }
        kept
    }

    /// Stores `session`, replacing the session of the same user and any
    /// session holding the same token. Fails when the user does not exist.
    pub fn upsert_session(&mut self, session: DBUserSession) -> (r: Result<(), DBErrorKind>)
        requires
            old(self)@.wf(),
        ensures
            final(self)@.wf(),
            r is Ok <==> old(self)@.has_user(session.user_id),
            r is Ok ==> final(self)@ == old(self)@.with_session(session@),
            r is Err ==> final(self)@ == old(self)@ && r->Err_0 is InsertError,
    {
        if self.find_user_by_id(session.user_id).is_none() {
            return Err(DBErrorKind::InsertError("FOREIGN KEY constraint failed".to_owned()));
        }
        let ghost pre = self@;
        let ghost row = session@;
        let mut sessions = self.sessions_apart_from(&session);
        sessions.push(session);
        self.sessions = sessions;
        proof {
            assert(self@.sessions =~= pre.sessions.filter(|x: SessionRow| apart(x, row)).push(row));
            assert(self@.users =~= pre.users);
            assert(self@.apps =~= pre.apps);
            assert(self@.debug =~= pre.debug);
            assert(self@ == pre.with_session(row));
            lemma_with_session_wf(pre, row);
        }
        Ok(())
    }

    /// Appends an app record. Fails when its user does not exist.
    pub fn insert_app_info(&mut self, row: DBAppInfo) -> (r: Result<(), DBErrorKind>)
        requires
            old(self)@.wf(),
        ensures
            final(self)@.wf(),
            r is Ok <==> old(self)@.has_user(row.user_id),
            r is Ok ==> final(self)@ == old(self)@.with_apps(seq![row@]),
            r is Err ==> final(self)@ == old(self)@ && r->Err_0 is InsertError,
    {
        if self.find_user_by_id(row.user_id).is_none() {
            return Err(DBErrorKind::InsertError("FOREIGN KEY constraint failed".to_owned()));
        }
        let ghost pre = self@;
        let ghost v = row@;
        self.apps.push(row);
        proof {
            assert(self@.apps =~= pre.apps + seq![v]);
            assert(self@.users =~= pre.users);
            assert(self@.sessions =~= pre.sessions);
            assert(self@.debug =~= pre.debug);
        }
        Ok(())
    }

    /// Appends a debug record. Fails when its user does not exist.
    pub fn insert_debug(&mut self, row: DBUserDebug) -> (r: Result<(), DBErrorKind>)
        requires
            old(self)@.wf(),
        ensures
            final(self)@.wf(),
            r is Ok <==> old(self)@.has_user(row.user_id),
            r is Ok ==> final(self)@ == old(self)@.with_debug(seq![row@]),
            r is Err ==> final(self)@ == old(self)@ && r->Err_0 is InsertError,
    {
        if self.find_user_by_id(row.user_id).is_none() {
            return Err(DBErrorKind::InsertError("FOREIGN KEY constraint failed".to_owned()));
        }
        let ghost pre = self@;
        let ghost v = row@;
        self.debug.push(row);
        proof {
            assert(self@.debug =~= pre.debug + seq![v]);
            assert(self@.users =~= pre.users);
            assert(self@.sessions =~= pre.sessions);
            assert(self@.apps =~= pre.apps);
        }
        Ok(())
    }

    /// The number of stored app records.
    pub fn app_count(&self) -> (r: usize)
        ensures
            r == self@.apps.len(),
    {
        self.apps.len()
    }

    /// The number of stored debug records.
    pub fn debug_count(&self) -> (r: usize)
        ensures
            r == self@.debug.len(),
    {
        self.debug.len()
    }

    /// Whether one of the first `n` app records belongs to `user_id` and
    /// stands for the same app as `app`.
    pub fn app_known_in(&self, user_id: u32, app: &AppInfo, n: usize) -> (r: bool)
        requires
            n <= self@.apps.len(),
        ensures
            r == self@.app_known_in(user_id, app@, n as int),
    {
        let mut i: usize = 0;
        while i < n
            invariant
                i <= n <= self@.apps.len(),
                forall|k: int| 0 <= k < i ==> !(self@.apps[k].user_id == user_id && #[trigger] self@.apps[k].same_app(app@)),
            decreases n - i,
        {
            proof {
                assert(self@.apps[i as int] == self.apps@[i as int]@);
            }
            if self.apps[i].user_id == user_id && self.apps[i].is_same_app(app) {
                return true;
            }
            i += 1;
        }
        false
    }

    /// Whether one of the first `n` debug records belongs to `user_id` and
    /// holds the same text as `debug`.
    pub fn debug_known_in(&self, user_id: u32, debug: &UserDebug, n: usize) -> (r: bool)
        requires
            n <= self@.debug.len(),
        ensures
            r == self@.debug_known_in(user_id, debug@, n as int),
    {
        let mut i: usize = 0;
        while i < n
            invariant
                i <= n <= self@.debug.len(),
                forall|k: int| 0 <= k < i ==> !((#[trigger] self@.debug[k]).user_id == user_id && self@.debug[k].stored == debug@),
            decreases n - i,
        {
            proof {
                assert(self@.debug[i as int] == self.debug@[i as int]@);
            }
            if self.debug[i].user_id == user_id && self.debug[i].is_same_debug(debug) {
                return true;
            }
            i += 1;
        }
        false
    }

    /// All stored usage data of `user_id`, in stored order.
    pub fn user_data(&self, user_id: u32) -> (r: UserData)
        ensures
            r@ == self@.data_of(user_id),
    {
        let mut app_usage: Vec<AppInfo> = Vec::new();
        let mut i: usize = 0;
        while i < self.apps.len()
            invariant
                i <= self@.apps.len(),
                app_usage@.map_values(|a: AppInfo| a@) == self@.apps.take(i as int).filter_map(
                    |r: AppRow| if r.user_id == user_id { Some(r.entry()) } else { None },
                ),
            decreases self.apps.len() - i,
        {
            let ghost before = app_usage@;
            proof {
                assert(self@.apps.take(i + 1).drop_last() =~= self@.apps.take(i as int));
                assert(self@.apps[i as int] == self.apps@[i as int]@);
            }
            if self.apps[i].user_id == user_id {
                let a = &self.apps[i];
                app_usage.push(AppInfo { name: a.app_name.clone(), usage: a.app_usage, limit: a.app_limit });
                proof {
                    assert(app_usage@.map_values(|a: AppInfo| a@) =~= before.map_values(|a: AppInfo| a@) + seq![self@.apps[i as int].entry()]);
                }
            }
            i += 1;
        }
        let mut debug: Vec<UserDebug> = Vec::new();
        let mut j: usize = 0;
        while j < self.debug.len()
            invariant
                j <= self@.debug.len(),
                debug@.map_values(|d: UserDebug| d@) == self@.debug.take(j as int).filter_map(
                    |r: DebugRow| if r.user_id == user_id { Some(r.stored) } else { None },
                ),
            decreases self.debug.len() - j,
        {
            let ghost before = debug@;
            proof {
                assert(self@.debug.take(j + 1).drop_last() =~= self@.debug.take(j as int));
                assert(self@.debug[j as int] == self.debug@[j as int]@);
            }
            if self.debug[j].user_id == user_id {
                debug.push(UserDebug { stored: self.debug[j].stored.clone() });
                proof {
                    assert(debug@.map_values(|d: UserDebug| d@) =~= before.map_values(|d: UserDebug| d@) + seq![self@.debug[j as int].stored]);
                }
            }
            j += 1;
        }
        proof {
            assert(self@.apps.take(i as int) =~= self@.apps);
            assert(self@.debug.take(j as int) =~= self@.debug);
        }
        UserData { app_usage, debug }
    }

    fn users_without(&self, user_id: u32) -> (r: Vec<DBUser>)
        ensures
            r@.map_values(|u: DBUser| u@) == self@.users.filter(|u: UserRow| u.id != user_id),
    {
        let mut kept: Vec<DBUser> = Vec::new();
        let mut i: usize = 0;
        while i < self.users.len()
            invariant
                i <= self@.users.len(),
                kept@.map_values(|u: DBUser| u@) == self@.users.take(i as int).filter(|u: UserRow| u.id != user_id),
            decreases self.users.len() - i,
        {
            let ghost before = kept@;
            proof {
                reveal(Seq::filter);
                assert(self@.users.take(i + 1).drop_last() =~= self@.users.take(i as int));
                assert(self@.users[i as int] == self.users@[i as int]@);
            }
            if self.users[i].id != user_id {
                kept.push(self.users[i].duplicate());
                proof {
                    assert(kept@.map_values(|u: DBUser| u@) =~= before.map_values(|u: DBUser| u@).push(self@.users[i as int]));
                }
            }
            i += 1;
        }
        proof {
            assert(self@.users.take(i as int) =~= self@.users);
        }
        kept
    }

    fn sessions_without(&self, user_id: u32) -> (r: Vec<DBUserSession>)
        ensures
            r@.map_values(|s: DBUserSession| s@) == self@.sessions.filter(|s: SessionRow| s.user_id != user_id),
    {
        let mut kept: Vec<DBUserSession> = Vec::new();
        let mut i: usize = 0;
        while i < self.sessions.len()
            invariant
                i <= self@.sessions.len(),
                kept@.map_values(|s: DBUserSession| s@) == self@.sessions.take(i as int).filter(|s: SessionRow| s.user_id != user_id),
            decreases self.sessions.len() - i,
        {
            let ghost before = kept@;
            proof {
                reveal(Seq::filter);
                assert(self@.sessions.take(i + 1).drop_last() =~= self@.sessions.take(i as int));
                assert(self@.sessions[i as int] == self.sessions@[i as int]@);
            }
            if self.sessions[i].user_id != user_id {
                kept.push(self.sessions[i].duplicate());
                proof {
                    assert(kept@.map_values(|s: DBUserSession| s@) =~= before.map_values(|s: DBUserSession| s@).push(self@.sessions[i as int]));
                }
            }
            i += 1;
        }
        proof {
            assert(self@.sessions.take(i as int) =~= self@.sessions);
        }
        kept
    }

    fn apps_without(&self, user_id: u32) -> (r: Vec<DBAppInfo>)
        ensures
            r@.map_values(|a: DBAppInfo| a@) == self@.apps.filter(|a: AppRow| a.user_id != user_id),
    {
        let mut kept: Vec<DBAppInfo> = Vec::new();
        let mut i: usize = 0;
        while i < self.apps.len()
            invariant
                i <= self@.apps.len(),
                kept@.map_values(|a: DBAppInfo| a@) == self@.apps.take(i as int).filter(|a: AppRow| a.user_id != user_id),
            decreases self.apps.len() - i,
        {
            let ghost before = kept@;
            proof {
                reveal(Seq::filter);
                assert(self@.apps.take(i + 1).drop_last() =~= self@.apps.take(i as int));
                assert(self@.apps[i as int] == self.apps@[i as int]@);
            }
            if self.apps[i].user_id != user_id {
                kept.push(self.apps[i].duplicate());
                proof {
                    assert(kept@.map_values(|a: DBAppInfo| a@) =~= before.map_values(|a: DBAppInfo| a@).push(self@.apps[i as int]));
                }
            }
            i += 1;
        }
        proof {
            assert(self@.apps.take(i as int) =~= self@.apps);
        }
        kept
    }

    fn debug_without(&self, user_id: u32) -> (r: Vec<DBUserDebug>)
        ensures
            r@.map_values(|d: DBUserDebug| d@) == self@.debug.filter(|d: DebugRow| d.user_id != user_id),
    {
        let mut kept: Vec<DBUserDebug> = Vec::new();
        let mut i: usize = 0;
        while i < self.debug.len()
            invariant
                i <= self@.debug.len(),
                kept@.map_values(|d: DBUserDebug| d@) == self@.debug.take(i as int).filter(|d: DebugRow| d.user_id != user_id),
            decreases self.debug.len() - i,
        {
            let ghost before = kept@;
            proof {
                reveal(Seq::filter);
                assert(self@.debug.take(i + 1).drop_last() =~= self@.debug.take(i as int));
                assert(self@.debug[i as int] == self.debug@[i as int]@);
            }
            if self.debug[i].user_id != user_id {
                kept.push(self.debug[i].duplicate());
                proof {
                    assert(kept@.map_values(|d: DBUserDebug| d@) =~= before.map_values(|d: DBUserDebug| d@).push(self@.debug[i as int]));
                }
            }
            i += 1;
        }
        proof {
            assert(self@.debug.take(i as int) =~= self@.debug);
        }
        kept
    }

    /// Removes user `user_id` together with its session and usage records.
    pub fn remove_user(&mut self, user_id: u32)
        requires
            old(self)@.wf(),
        ensures
            final(self)@.wf(),
            final(self)@ == old(self)@.without_user(user_id),
    {
        let users = self.users_without(user_id);
        let sessions = self.sessions_without(user_id);
        let apps = self.apps_without(user_id);
        let debug = self.debug_without(user_id);
        let ghost pre = self@;
        self.users = users;
        self.sessions = sessions;
        self.apps = apps;
        self.debug = debug;
        proof {
            lemma_without_user_wf(pre, user_id);
        }
    }
}

/// In a well-formed store, the user at position `k` is the one stored under
/// its name and under its id.
pub proof fn lemma_user_at(v: StoreView, k: int)
    requires
        v.wf(),
        0 <= k < v.users.len(),
    ensures
        v.user_named(v.users[k].username) == Some(v.users[k]),
        v.user_with_id(v.users[k].id) == Some(v.users[k]),
{
    let c = choose|c: int| 0 <= c < v.users.len() && v.users[c].username == v.users[k].username;
    assert(c == k) by {
        if c < k {
            assert(v.users[c].username != v.users[k].username);
        } else if c > k {
            assert(v.users[k].username != v.users[c].username);
        }
    }
    let d = choose|d: int| 0 <= d < v.users.len() && v.users[d].id == v.users[k].id;
    assert(d == k) by {
        if d < k {
            assert(v.users[d].id != v.users[k].id);
        } else if d > k {
            assert(v.users[k].id != v.users[d].id);
        }
    }
}

/// In a well-formed store, the session at position `k` is the one stored
/// under its token and the one of its user.
pub proof fn lemma_session_at(v: StoreView, k: int)
    requires
        v.wf(),
        0 <= k < v.sessions.len(),
    ensures
        v.session_with_id(v.sessions[k].id) == Some(v.sessions[k]),
        v.session_of(v.sessions[k].user_id) == Some(v.sessions[k]),
{
    let c = choose|c: int| 0 <= c < v.sessions.len() && v.sessions[c].id == v.sessions[k].id;
    assert(c == k) by {
        if c < k {
            assert(v.sessions[c].id != v.sessions[k].id);
        } else if c > k {
            assert(v.sessions[k].id != v.sessions[c].id);
        }
    }
    let d = choose|d: int| 0 <= d < v.sessions.len() && v.sessions[d].user_id == v.sessions[k].user_id;
    assert(d == k) by {
        if d < k {
            assert(v.sessions[d].user_id != v.sessions[k].user_id);
        } else if d > k {
            assert(v.sessions[k].user_id != v.sessions[d].user_id);
        }
    }
}

/// Storing a session of a stored user keeps the schema's constraints.
pub proof fn lemma_with_session_wf(v: StoreView, session: SessionRow)
    requires
        v.wf(),
        v.has_user(session.user_id),
    ensures
        v.with_session(session).wf(),
{
    let w = v.with_session(session);
    let p = |x: SessionRow| apart(x, session);
    let f = v.sessions.filter(p);
    let rs = |a: SessionRow, b: SessionRow| a.user_id != b.user_id && a.id != b.id;
    assert(pairwise(v.sessions, rs));
    lemma_filter_pairwise(v.sessions, p, rs);
    assert(w.sessions == f.push(session));
    assert(w.users == v.users && w.apps == v.apps && w.debug == v.debug);
    assert forall|i: int, j: int| 0 <= i < j < w.sessions.len() implies w.sessions[i].user_id
        != w.sessions[j].user_id && w.sessions[i].id != w.sessions[j].id by {
        if j == f.len() {
            lemma_filter_member(v.sessions, p, i);
            assert(w.sessions[i] == f[i]);
        } else {
            assert(w.sessions[i] == f[i] && w.sessions[j] == f[j]);
            assert(rs(f[i], f[j]));
        }
    }
    assert forall|i: int| 0 <= i < w.sessions.len() implies w.has_user(#[trigger] w.sessions[i].user_id) by {
        if i < f.len() {
            lemma_filter_member(v.sessions, p, i);
            let k = choose|k: int| 0 <= k < v.sessions.len() && v.sessions[k] == f[i];
            assert(v.has_user(v.sessions[k].user_id));
            assert(w.sessions[i] == f[i]);
        } else {
            assert(w.sessions[i] == session);
        }
    }
}

/// Once `session` of a stored user is stored, it is the session of that
/// user and the one stored under its token, and the token of the user's
/// previous session, where it differs, is gone.
pub proof fn lemma_with_session(v: StoreView, session: SessionRow)
    requires
        v.wf(),
        v.has_user(session.user_id),
    ensures
        v.with_session(session).wf(),
        v.with_session(session).session_of(session.user_id) == Some(session),
        v.with_session(session).session_with_id(session.id) == Some(session),
        v.with_session(session).users == v.users,
        v.session_of(session.user_id) is Some && v.session_of(session.user_id)->Some_0.id != session.id
            ==> v.with_session(session).session_with_id(v.session_of(session.user_id)->Some_0.id) is None,
{
    lemma_with_session_wf(v, session);
    let w = v.with_session(session);
    let p = |x: SessionRow| apart(x, session);
    let f = v.sessions.filter(p);
    let last = f.len() as int;
    assert(w.sessions[last] == session);
    lemma_session_at(w, last);
    if v.session_of(session.user_id) is Some && v.session_of(session.user_id)->Some_0.id != session.id {
        let c = choose|c: int| 0 <= c < v.sessions.len() && v.sessions[c].user_id == session.user_id;
        lemma_session_at(v, c);
        let prev = v.sessions[c];
        if w.session_with_id(prev.id) is Some {
            let j = choose|j: int| 0 <= j < w.sessions.len() && w.sessions[j].id == prev.id;
            assert(j != last);
            lemma_filter_member(v.sessions, p, j);
            assert(w.sessions[j] == f[j]);
            let k = choose|k: int| 0 <= k < v.sessions.len() && v.sessions[k] == f[j];
            if k < c {
                assert(v.sessions[k].id != v.sessions[c].id);
            } else if k > c {
                assert(v.sessions[c].id != v.sessions[k].id);
            }
        }
    }
}

/// Appending a user whose id and name are both new keeps the schema's
/// constraints.
pub proof fn lemma_with_user_wf(v: StoreView, user: UserRow)
    requires
        v.wf(),
        !v.has_user(user.id),
        v.user_named(user.username) is None,
    ensures
        v.with_user(user).wf(),
{
    let w = v.with_user(user);
    assert forall|id: u32| v.has_user(id) implies w.has_user(id) by {
        let k = choose|k: int| 0 <= k < v.users.len() && v.users[k].id == id;
        assert(w.users[k] == v.users[k]);
    }
    assert forall|i: int, j: int| 0 <= i < j < w.users.len() implies w.users[i].id != w.users[j].id
        && w.users[i].username != w.users[j].username by {
        if j == v.users.len() {
            assert(w.users[i] == v.users[i]);
        } else {
            assert(w.users[i] == v.users[i] && w.users[j] == v.users[j]);
        }
    }
}

/// Removing the owner of a session leaves no session under its token.
pub proof fn lemma_without_owner(v: StoreView, session_id: Seq<char>)
    requires
        v.wf(),
        v.session_with_id(session_id) is Some,
    ensures
        v.without_user(v.session_with_id(session_id)->Some_0.user_id).session_with_id(session_id) is None,
{
    let c = choose|c: int| 0 <= c < v.sessions.len() && v.sessions[c].id == session_id;
    let owner = v.sessions[c].user_id;
    let w = v.without_user(owner);
    let p = |s: SessionRow| s.user_id != owner;
    if w.session_with_id(session_id) is Some {
        let j = choose|j: int| 0 <= j < w.sessions.len() && w.sessions[j].id == session_id;
        lemma_filter_member(v.sessions, p, j);
        let k = choose|k: int| 0 <= k < v.sessions.len() && v.sessions[k] == w.sessions[j];
        if k < c {
            assert(v.sessions[k].id != v.sessions[c].id);
        } else if k > c {
            assert(v.sessions[c].id != v.sessions[k].id);
        }
    }
}

/// A stored user other than `user_id` survives its removal.
proof fn lemma_kept_user(v: StoreView, user_id: u32, id: u32)
    requires
        v.has_user(id),
        id != user_id,
    ensures
        v.without_user(user_id).has_user(id),
{
    let k = choose|k: int| 0 <= k < v.users.len() && v.users[k].id == id;
    let p = |u: UserRow| u.id != user_id;
    v.users.lemma_filter_contains(p, k);
    let f = v.users.filter(p);
    let j = choose|j: int| 0 <= j < f.len() && f[j] == v.users[k];
    assert(v.without_user(user_id).users[j].id == id);
}

/// Removing a user and every row that refers to it keeps the schema's
/// constraints.
proof fn lemma_without_user_wf(v: StoreView, user_id: u32)
    requires
        v.wf(),
    ensures
        v.without_user(user_id).wf(),
{
    let w = v.without_user(user_id);
    let ru = |a: UserRow, b: UserRow| a.id != b.id && a.username != b.username;
    assert(pairwise(v.users, ru));
    lemma_filter_pairwise(v.users, |u: UserRow| u.id != user_id, ru);
    let rs = |a: SessionRow, b: SessionRow| a.user_id != b.user_id && a.id != b.id;
    assert(pairwise(v.sessions, rs));
    lemma_filter_pairwise(v.sessions, |s: SessionRow| s.user_id != user_id, rs);
    assert forall|i: int, j: int| 0 <= i < j < w.users.len() implies w.users[i].id != w.users[j].id
        && w.users[i].username != w.users[j].username by {
        assert(ru(w.users[i], w.users[j]));
    }
    assert forall|i: int, j: int| 0 <= i < j < w.sessions.len() implies w.sessions[i].user_id
        != w.sessions[j].user_id && w.sessions[i].id != w.sessions[j].id by {
        assert(rs(w.sessions[i], w.sessions[j]));
    }
    assert forall|i: int| 0 <= i < w.sessions.len() implies w.has_user(#[trigger] w.sessions[i].user_id) by {
        lemma_filter_member(v.sessions, |s: SessionRow| s.user_id != user_id, i);
        let k = choose|k: int| 0 <= k < v.sessions.len() && v.sessions[k] == w.sessions[i];
        assert(v.has_user(v.sessions[k].user_id));
        lemma_kept_user(v, user_id, w.sessions[i].user_id);
    }
    assert forall|i: int| 0 <= i < w.apps.len() implies w.has_user(#[trigger] w.apps[i].user_id) by {
        lemma_filter_member(v.apps, |a: AppRow| a.user_id != user_id, i);
        let k = choose|k: int| 0 <= k < v.apps.len() && v.apps[k] == w.apps[i];
        assert(v.has_user(v.apps[k].user_id));
        lemma_kept_user(v, user_id, w.apps[i].user_id);
    }
    assert forall|i: int| 0 <= i < w.debug.len() implies w.has_user(#[trigger] w.debug[i].user_id) by {
        lemma_filter_member(v.debug, |d: DebugRow| d.user_id != user_id, i);
        let k = choose|k: int| 0 <= k < v.debug.len() && v.debug[k] == w.debug[i];
        assert(v.has_user(v.debug[k].user_id));
        lemma_kept_user(v, user_id, w.debug[i].user_id);
    }
}

} // verus!
