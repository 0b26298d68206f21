//! The session lifecycle of an account: creation, login, refresh with
//! rotation, and logout. Each operation decides on what the persistence
//! layer found and says what is to be stored and handed out; reading and
//! storing the record is the caller's part.

use crate::clock::Timestamp;
use crate::config::{Config, ConfigView};
use crate::errors::{
    credentials_message, not_found_message, one_field_error, refresh_message, status_of, MyError,
    MyErrorView, StoreError,
};
use crate::jwt::{generated, Tokens};
use crate::jwt_extractor::BearerToken;
use crate::password_hashing::{argon2_accepts, usable};
use crate::policy::{is_policy_char, name_message, name_rule, password_message, password_rule};
use crate::user::{issued, SessionState, User, UserView};
use vstd::prelude::*;

verus! {

/// How a fault of the lookup shows outward.
pub open spec fn lookup_failure(fault: StoreError) -> MyErrorView {
    match fault {
        StoreError::RowNotFound => MyErrorView::NotFound(not_found_message()),
        StoreError::Other => MyErrorView::InternalServerError,
    }
}

/// What creating an account returns. A password that fails its rule is
/// refused first, then a name that fails its rule, each naming its field.
/// Otherwise the record is new, its session is active under the pair that
/// is handed out, and its password hash accepts the password; or an
/// internal failure kept the account from being made.
pub open spec fn registered(
    id: Seq<char>,
    name: Seq<char>,
    password: Seq<char>,
    config: ConfigView,
    now: Timestamp,
    r: Result<(User, Tokens), MyError>,
) -> bool {
    if !password_rule().admits(password) {
        r matches Err(e) && e@ == one_field_error("password"@, password_message())
    } else if !name_rule().admits(name) {
        r matches Err(e) && e@ == one_field_error("name"@, name_message())
    } else {
        match r {
            Ok((user, tokens)) => {
                &&& user@ == (UserView {
                    id: id,
                    name: name,
                    password_hash: user@.password_hash,
                    refresh_token_hash: user@.refresh_token_hash,
                    created_at: now,
                    updated_at: now,
                })
                &&& usable(password, user@.password_hash)
                &&& user@.accepts_password(password)
                &&& user@.accepts_refresh_token(tokens@.refresh_token)
                &&& generated(user@.auth(), config, now, Ok(tokens))
                &&& user@.wf()
            },
            Err(e) => e@ == MyErrorView::InternalServerError,
        }
    }
}

/// What a login returns. An unknown name and a wrong password fail alike.
/// Otherwise a new pair is issued and the record holds the hash of its
/// refresh token.
pub open spec fn logged_in(
    found: Result<Option<User>, StoreError>,
    password: Seq<char>,
    config: ConfigView,
    now: Timestamp,
    r: Result<(User, Tokens), MyError>,
) -> bool {
    match found {
        Err(fault) => r matches Err(e) && e@ == lookup_failure(fault),
        Ok(None) => r matches Err(e) && e@ == MyErrorView::Unauthorized(credentials_message()),
        Ok(Some(user)) => if !user@.accepts_password(password) {
            r matches Err(e) && e@ == MyErrorView::Unauthorized(credentials_message())
        } else {
            match r {
                Ok((after, tokens)) => issued(user@, config, now, after@, Ok(tokens)),
                Err(e) => e@ == MyErrorView::InternalServerError,
            }
        },
    }
}

/// What a refresh returns. The presented token must be the one whose hash
/// the record holds; without an active session no token is. Then a new pair
/// is issued and the record holds the hash of the new refresh token in place
/// of the old.
pub open spec fn refreshed(
    found: Result<User, StoreError>,
    presented: Seq<char>,
    config: ConfigView,
    now: Timestamp,
    r: Result<(User, Tokens), MyError>,
) -> bool {
    match found {
        Err(fault) => r matches Err(e) && e@ == lookup_failure(fault),
        Ok(user) => if !user@.accepts_refresh_token(presented) {
            r matches Err(e) && e@ == MyErrorView::Unauthorized(refresh_message())
        } else {
            match r {
                Ok((after, tokens)) => issued(user@, config, now, after@, Ok(tokens)),
                Err(e) => e@ == MyErrorView::InternalServerError,
            }
        },
    }
}

/// What a logout returns: the record without a session.
pub open spec fn logged_out(
    found: Result<User, StoreError>,
    now: Timestamp,
    r: Result<User, MyError>,
) -> bool {
    match found {
        Err(fault) => r matches Err(e) && e@ == lookup_failure(fault),
        Ok(user) => r matches Ok(after) && after@ == user@.touched(None, now),
    }
}

/// Creates an account at `now` and opens its first session. The record
/// that comes back is to be stored.
pub fn create_at(id: String, name: String, password: String, config: &Config, now: Timestamp) -> (r:
    Result<(User, Tokens), MyError>)
    ensures
        registered(id@, name@, password@, config@, now, r),
{
    let mut user = match User::create_at(id, name, password, now) {
        Ok(user) => user,
        Err(e) => { return Err(e); },
    };
    match user.issue_tokens_at(config, now) {
        Ok(tokens) => Ok((user, tokens)),
        Err(e) => Err(e),
    }
}

/// Creates an account at the time the system clock shows.
pub fn create(id: String, name: String, password: String, config: &Config) -> (r: Result<
    (User, Tokens),
    MyError,
>)
    ensures
        exists|now: Timestamp| registered(id@, name@, password@, config@, now, r),
{
    let now = crate::clock::now();
    create_at(id, name, password, config, now)
}

/// Logs in at `now`, on what the lookup by name found. The record that
/// comes back is to be stored.
pub fn create_session_at(
    found: Result<Option<User>, StoreError>,
    password: String,
    config: &Config,
    now: Timestamp,
) -> (r: Result<(User, Tokens), MyError>)
    ensures
        logged_in(found, password@, config@, now, r),
{
    let mut user = match found {
        Ok(Some(user)) => user,
        Ok(None) => { return Err(MyError::credentials_mismatch()); },
        Err(fault) => { return Err(MyError::from_store(fault)); },
    };
    match user.verify_password(password) {
        Ok(()) => {},
        Err(e) => { return Err(e); },
    }
    match user.issue_tokens_at(config, now) {
        Ok(tokens) => Ok((user, tokens)),
        Err(e) => Err(e),
    }
}

/// Logs in at the time the system clock shows.
pub fn create_session(found: Result<Option<User>, StoreError>, password: String, config: &Config) -> (r:
    Result<(User, Tokens), MyError>)
    ensures
        exists|now: Timestamp| logged_in(found, password@, config@, now, r),
{
    let now = crate::clock::now();
    create_session_at(found, password, config, now)
}

/// Refreshes a session at `now`, on what the lookup by the token's subject
/// found: the caller has resolved the request before, which verified the
/// token's signature and expiry and gave that subject. The record that
/// comes back is to be stored.
pub fn update_session_at(
    found: Result<User, StoreError>,
    token: BearerToken,
    config: &Config,
    now: Timestamp,
) -> (r: Result<(User, Tokens), MyError>)
    ensures
        refreshed(found, token@, config@, now, r),
{
    let mut user = match found {
        Ok(user) => user,
        Err(fault) => { return Err(MyError::from_store(fault)); },
    };
    match user.verify_refresh_token(token.into_string()) {
        Ok(()) => {},
        Err(e) => { return Err(e); },
    }
    match user.issue_tokens_at(config, now) {
        Ok(tokens) => Ok((user, tokens)),
        Err(e) => Err(e),
    }
}

/// Refreshes a session at the time the system clock shows.
pub fn update_session(found: Result<User, StoreError>, token: BearerToken, config: &Config) -> (r:
    Result<(User, Tokens), MyError>)
    ensures
        exists|now: Timestamp| refreshed(found, token@, config@, now, r),
{
    let now = crate::clock::now();
    update_session_at(found, token, config, now)
}

/// Logs out at `now`, on what the lookup found. The record that comes
/// back is to be stored.
pub fn destroy_session_at(found: Result<User, StoreError>, now: Timestamp) -> (r: Result<
    User,
    MyError,
>)
    ensures
        logged_out(found, now, r),
{
    match found {
        Ok(user) => {
            let mut user = user;
            user.revoke_tokens_at(now);
            Ok(user)
        },
        Err(fault) => Err(MyError::from_store(fault)),
    }
}

/// Logs out at the time the system clock shows.
pub fn destroy_session(found: Result<User, StoreError>) -> (r: Result<User, MyError>)
    ensures
        exists|now: Timestamp| logged_out(found, now, r),
{
    let now = crate::clock::now();
    destroy_session_at(found, now)
}

/// No account is created with a password that is shorter than the rule
/// asks or that holds a character outside the allowed set: the request
/// fails as a validation failure that names the field `password`, whatever
/// the name is.
pub proof fn lemma_create_refuses_bad_password(
    id: Seq<char>,
    name: Seq<char>,
    password: Seq<char>,
    config: ConfigView,
    now: Timestamp,
    r: Result<(User, Tokens), MyError>,
    at: int,
)
    requires
        registered(id, name, password, config, now, r),
        password.len() < password_rule().min_len || (0 <= at < password.len() && !is_policy_char(
            password[at],
        )),
    ensures
        r matches Err(e) && e@ == one_field_error("password"@, password_message()) && status_of(
            e@,
        ) == 422,
{
}

/// An account that was created holds a password hash that is neither empty
/// nor the password, its name meets the rule on names, and its session is
/// active.
pub proof fn lemma_created_record(
    id: Seq<char>,
    name: Seq<char>,
    password: Seq<char>,
    config: ConfigView,
    now: Timestamp,
    r: Result<(User, Tokens), MyError>,
)
    requires
        registered(id, name, password, config, now, r),
        r is Ok,
    ensures
        ({
            let user = r->Ok_0.0@;
            &&& user.password_hash.len() > 0
            &&& user.password_hash != password
            &&& name_rule().admits(user.name)
            &&& password_rule().admits(password)
            &&& user.state() == SessionState::ActiveSession
            &&& user.wf()
        }),
{
}

/// A login with the password that an account was created with, on the
/// record as the creation left it, is never refused as unauthorized.
pub proof fn lemma_login_after_create(
    id: Seq<char>,
    name: Seq<char>,
    password: Seq<char>,
    config: ConfigView,
    made_at: Timestamp,
    made: Result<(User, Tokens), MyError>,
    now: Timestamp,
    r: Result<(User, Tokens), MyError>,
)
    requires
        registered(id, name, password, config, made_at, made),
        made is Ok,
        logged_in(Ok(Some(made->Ok_0.0)), password, config, now, r),
    ensures
        r matches Err(e) ==> e@ == MyErrorView::InternalServerError,
        r matches Ok((after, tokens)) ==> after@.accepts_password(password)
            && after@.accepts_refresh_token(tokens@.refresh_token),
{
}

/// A login under an unknown name and a login with a wrong password fail
/// with the same error: the two cannot be told apart.
pub proof fn lemma_login_failures_alike(
    user: User,
    password: Seq<char>,
    other_password: Seq<char>,
    config: ConfigView,
    now: Timestamp,
    unknown: Result<(User, Tokens), MyError>,
    wrong: Result<(User, Tokens), MyError>,
)
    requires
        logged_in(Ok(None), other_password, config, now, unknown),
        logged_in(Ok(Some(user)), password, config, now, wrong),
        !user@.accepts_password(password),
    ensures
        unknown is Err,
        wrong is Err,
        unknown->Err_0@ == wrong->Err_0@,
        status_of(wrong->Err_0@) == 401,
{
}

/// Whatever opens or renews a session leaves the record holding the hash of
/// the refresh token that was just handed out, and of that one only: the
/// session is active, and the rest of the record is as before but for the
/// time of the update, which does not move back.
pub proof fn lemma_issue_rotates(
    before: UserView,
    config: ConfigView,
    now: Timestamp,
    after: UserView,
    tokens: Tokens,
)
    requires
        issued(before, config, now, after, Ok(tokens)),
    ensures
        after.state() == SessionState::ActiveSession,
        after.accepts_refresh_token(tokens@.refresh_token),
        after.id == before.id,
        after.name == before.name,
        after.password_hash == before.password_hash,
        after.created_at == before.created_at,
        before.updated_at.not_after(after.updated_at),
        before.wf() ==> after.wf(),
{
}

/// Rotation: once a refresh token was used, the record holds the hash of
/// its successor. Presenting the used token again is refused as
/// unauthorized, unless the hasher accepts it against the successor's hash.
pub proof fn lemma_refresh_token_is_used_once(
    user: User,
    presented: Seq<char>,
    config: ConfigView,
    now: Timestamp,
    first: Result<(User, Tokens), MyError>,
    later: Timestamp,
    second: Result<(User, Tokens), MyError>,
)
    requires
        refreshed(Ok(user), presented, config, now, first),
        first is Ok,
        refreshed(Ok(first->Ok_0.0), presented, config, later, second),
        !argon2_accepts(presented, first->Ok_0.0@.refresh_token_hash->0),
    ensures
        first->Ok_0.0@.accepts_refresh_token(first->Ok_0.1@.refresh_token),
        second matches Err(e) && e@ == MyErrorView::Unauthorized(refresh_message()) && status_of(
            e@,
        ) == 401,
{
}

/// After a logout no refresh token renews the session, whether or not it
/// has expired: every refresh is refused as unauthorized.
pub proof fn lemma_refresh_after_logout(
    user: User,
    now: Timestamp,
    out: Result<User, MyError>,
    presented: Seq<char>,
    config: ConfigView,
    later: Timestamp,
    r: Result<(User, Tokens), MyError>,
)
    requires
        logged_out(Ok(user), now, out),
        out is Ok,
        refreshed(Ok(out->Ok_0), presented, config, later, r),
    ensures
        out->Ok_0@.state() == SessionState::NoSession,
        user@.wf() ==> out->Ok_0@.wf(),
        r matches Err(e) && e@ == MyErrorView::Unauthorized(refresh_message()) && status_of(e@)
            == 401,
{
}

} // verus!
