use vstd::prelude::*;

use crate::db::DBErrorKind;
use crate::hasher::{argon2_check, argon2_verdict, phc_parses, PasswordCheck};
use crate::records::{fresh_uuid, DBUser, SessionRow, UserRow};
use crate::store::{lemma_max_id_bound, Store, StoreView};
use crate::time::{utc_now, UtcTime};
use crate::util::{issued, refreshed_session, refreshed_store, validate_session};
use vstd::utf8::encode_utf8;

verus! {

/// A session as handed to the client: its owner and its token.
#[derive(Debug, PartialEq, Eq)]
pub struct UserSession {
    pub user_id: u32,
    pub id: String,
}

/// Credentials submitted to log in or to register.
#[derive(Debug)]
pub struct AuthRequest {
    pub username: String,
    pub password: String,
}

impl AuthRequest {
    /// A request that registers a fresh account: a random username and an
    /// acceptable password.
    pub fn random_valid() -> (r: Self)
        ensures
            r.password@ == "12345678"@,
    {
        AuthRequest { username: fresh_uuid(), password: "12345678".to_owned() }
    }
}

/// Why a password was refused at registration.
#[derive(Debug, PartialEq, Eq, Structural)]
pub enum InvalidPasswordKind {
    TooFewChars,
    TooManyChars,
}

/// A fault of the password hasher.
#[derive(Debug, PartialEq, Eq)]
pub enum HashErrorKind {
    CreateError(String),
    ParseError(String),
}

/// Why an authentication request failed.
#[derive(Debug, PartialEq, Eq)]
pub enum AuthError {
    EmptyUsername,
    InvalidPassword(InvalidPasswordKind),
    WrongPassword,
    HashError(HashErrorKind),
    DBError(DBErrorKind),
    InternalError(String),
}

/// Fewest bytes a new password may have.
pub const MIN_PASSWORD_LEN: usize = 8;

/// Most bytes a new password may have.
pub const MAX_PASSWORD_LEN: usize = 64;

/// `c` has the Unicode property White_Space.
pub open spec fn is_whitespace(c: char) -> bool {
    let v = c as u32;
    ||| 0x9 <= v <= 0xd
    ||| v == 0x20 || v == 0x85 || v == 0xa0 || v == 0x1680
    ||| 0x2000 <= v <= 0x200a
    ||| v == 0x2028 || v == 0x2029 || v == 0x202f || v == 0x205f || v == 0x3000
}

/// `s` without its leading whitespace.
pub open spec fn trim_start(s: Seq<char>) -> Seq<char>
    decreases s.len(),
{
    if s.len() > 0 && is_whitespace(s[0]) {
        trim_start(s.drop_first())
    } else {
        s
    }
}

/// `s` without its trailing whitespace.
pub open spec fn trim_end(s: Seq<char>) -> Seq<char>
    decreases s.len(),
{
    if s.len() > 0 && is_whitespace(s.last()) {
        trim_end(s.drop_last())
    } else {
        s
    }
}

/// `s` without its leading and trailing whitespace.
pub open spec fn trimmed(s: Seq<char>) -> Seq<char> {
    trim_end(trim_start(s))
}

/// Relies on `str::trim`: `s` without its leading and trailing whitespace.
#[verifier::external_body]
fn trim(s: &str) -> (r: &str)
    ensures
        r@ == trimmed(s@),
{
    s.trim()
}

/// The length of `s` in bytes, encoded as UTF-8.
pub open spec fn byte_len(s: Seq<char>) -> nat {
    encode_utf8(s).len()
}

/// `r` hands out `s`.
pub open spec fn hands_out(r: Result<UserSession, AuthError>, s: SessionRow) -> bool {
    r is Ok && r->Ok_0.user_id == s.user_id && r->Ok_0.id@ == s.id
}

/// The outcome of logging in as the stored `user`.
pub open spec fn login_outcome(
    pre: StoreView,
    post: StoreView,
    user: UserRow,
    password: Seq<char>,
    now: UtcTime,
    token: Seq<char>,
    r: Result<UserSession, AuthError>,
) -> bool {
    let found = pre.session_of(user.id);
    if !phc_parses(user.password_hash) {
        post == pre && r is Err && r->Err_0 is HashError && r->Err_0->HashError_0 is ParseError
    } else if argon2_verdict(user.password_hash, password) == Some(true) {
        &&& post == refreshed_store(pre, found, user.id, now, token)
        &&& refreshed_session(pre, found, user.id, now, token) matches Some(s) ==> hands_out(r, s)
        &&& refreshed_session(pre, found, user.id, now, token) is None ==> r is Err && r->Err_0 is DBError
            && r->Err_0->DBError_0 is InsertError
    } else if argon2_verdict(user.password_hash, password) == Some(false) {
        post == pre && r == Err::<UserSession, AuthError>(AuthError::WrongPassword)
    } else {
        post == pre && r is Err && r->Err_0 is InternalError
    }
}

/// The outcome of registering `name` with `password`.
pub open spec fn registration_outcome(
    pre: StoreView,
    post: StoreView,
    name: Seq<char>,
    password: Seq<char>,
    now: UtcTime,
    token: Seq<char>,
    r: Result<UserSession, AuthError>,
) -> bool {
    let id = (pre.max_user_id() + 1) as u32;
    if byte_len(password) < MIN_PASSWORD_LEN {
        post == pre && r == Err::<UserSession, AuthError>(AuthError::InvalidPassword(InvalidPasswordKind::TooFewChars))
    } else if byte_len(password) > MAX_PASSWORD_LEN {
        post == pre && r == Err::<UserSession, AuthError>(AuthError::InvalidPassword(InvalidPasswordKind::TooManyChars))
    } else if pre.max_user_id() == u32::MAX {
        post == pre && r is Err && r->Err_0 is DBError && r->Err_0->DBError_0 is OtherError
    } else {
        &&& hands_out(r, issued(id, token, now))
        &&& exists|h: Seq<char>|
            phc_parses(h) && argon2_verdict(h, password) == Some(true) && post == pre.with_user(
                UserRow { id, username: name, password_hash: h },
            ).with_session(issued(id, token, now))
    }
}

/// The outcome of authenticating with `username` and `password` at `now`,
/// `token` being the token a new session would get.
pub open spec fn authenticated(
    pre: StoreView,
    post: StoreView,
    username: Seq<char>,
    password: Seq<char>,
    now: UtcTime,
    token: Seq<char>,
    r: Result<UserSession, AuthError>,
) -> bool {
    let name = trimmed(username);
    if name.len() == 0 {
        post == pre && r == Err::<UserSession, AuthError>(AuthError::EmptyUsername)
    } else {
        match pre.user_named(name) {
            Some(user) => login_outcome(pre, post, user, password, now, token, r),
            None => registration_outcome(pre, post, name, password, now, token, r),
        }
    }
}

/// Creates the account `name` with a session, all or nothing.
fn register(store: &mut Store, name: &str, password: &str, now: UtcTime, token: String) -> (r: Result<
    UserSession,
    AuthError,
>)
    requires
        old(store)@.wf(),
        old(store)@.user_named(name@) is None,
    ensures
        final(store)@.wf(),
        registration_outcome(old(store)@, final(store)@, name@, password@, now, token@, r),
{
    let len = password.as_bytes().len();
    if len < MIN_PASSWORD_LEN {
        return Err(AuthError::InvalidPassword(InvalidPasswordKind::TooFewChars));
    }
    if len > MAX_PASSWORD_LEN {
        return Err(AuthError::InvalidPassword(InvalidPasswordKind::TooManyChars));
    }
    let max_id = store.max_user_id();
    if max_id == u32::MAX {
        return Err(AuthError::DBError(DBErrorKind::OtherError("no user id is left".to_owned())));
    }
    let user = match DBUser::new(max_id + 1, name, password) {
        Ok(user) => user,
        Err(err) => return Err(AuthError::HashError(err)),
    };
    let ghost pre = store@;
    let ghost row = user@;
    let id = user.id;
    proof {
        assert(!pre.has_user(id)) by {
            if pre.has_user(id) {
                let k = choose|k: int| 0 <= k < pre.users.len() && pre.users[k].id == id;
                lemma_max_id_bound(pre.users, k);
            }
        }
    }
    if let Err(err) = store.insert_user(user) {
        return Err(AuthError::DBError(err));
    }
    proof {
        assert(store@.has_user(id)) by {
            assert(store@.users[store@.users.len() - 1] == row);
        }
    }
    match crate::util::generate_store_session(store, id, now, token) {
        Ok(session) => {
            proof {
                assert(store@ == pre.with_user(row).with_session(issued(id, token@, now)));
            }
            Ok(session)
        },
        Err(err) => Err(AuthError::DBError(err)),
    }
}

/// Logs in as the user `request` names, or registers that user when there
/// is none, at `now`; `token` is the token a new session gets.
pub fn authenticate_at(store: &mut Store, request: &AuthRequest, now: UtcTime, token: String) -> (r: Result<
    UserSession,
    AuthError,
>)
    requires
        old(store)@.wf(),
    ensures
        final(store)@.wf(),
        authenticated(old(store)@, final(store)@, request.username@, request.password@, now, token@, r),
{
    let name = trim(request.username.as_str());
    if name.is_empty() {
        return Err(AuthError::EmptyUsername);
    }
    let (user_id, check) = match store.find_user_by_name(name) {
        Some(user) => (user.id, argon2_check(user.password_hash.as_str(), request.password.as_str())),
        None => return register(store, name, request.password.as_str(), now, token),
    };
    match check {
        PasswordCheck::Matched => {
            let found = match store.find_session_by_user(user_id) {
                Some(session) => Some(session.duplicate()),
                None => None,
            };
            match validate_session(store, found, user_id, now, token) {
                Ok(session) => Ok(session),
                Err(err) => Err(AuthError::DBError(err)),
            }
        },
        PasswordCheck::Mismatched => Err(AuthError::WrongPassword),
        PasswordCheck::Unparsable(msg) => Err(AuthError::HashError(HashErrorKind::ParseError(msg))),
        PasswordCheck::Failed(msg) => Err(AuthError::InternalError(msg)),
    }
}

/// Logs in as the user `request` names, or registers that user when there
/// is none, reading the clock and drawing a random token for a new session.
pub fn authenticate(store: &mut Store, request: &AuthRequest) -> (r: Result<UserSession, AuthError>)
    requires
        old(store)@.wf(),
    ensures
        final(store)@.wf(),
        exists|now: UtcTime, token: Seq<char>|
            authenticated(old(store)@, final(store)@, request.username@, request.password@, now, token, r),
{
    let now = utc_now();
    let token = fresh_uuid();
    authenticate_at(store, request, now, token)
}

} // verus!
