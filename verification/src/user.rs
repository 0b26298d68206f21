//! The credential record of one account, and what a request may do to it.

use crate::clock::Timestamp;
use crate::config::{Config, ConfigView};
use crate::errors::{
    credentials_message, one_field_error, refresh_message, MyError, MyErrorView,
};
use crate::jwt::{generate_tokens_at, generated, Auth, AuthView, Tokens};
use crate::password_hashing::{argon2_accepts, hash, usable, verify};
use crate::text::text_view;
use crate::policy::{
    name_message, name_rule, password_message, password_rule, validate_name, validate_password,
};
use vstd::prelude::*;

verus! {

/// The persisted identity of an account and its secret material.
#[derive(Clone, Debug, PartialEq, Eq)]
pub struct User {
    pub id: String,
    pub name: String,
    pub password_hash: String,
    pub refresh_token_hash: Option<String>,
    pub created_at: Timestamp,
    pub updated_at: Timestamp,
}

/// Mathematical model of [`User`].
pub struct UserView {
    pub id: Seq<char>,
    pub name: Seq<char>,
    pub password_hash: Seq<char>,
    pub refresh_token_hash: Option<Seq<char>>,
    pub created_at: Timestamp,
    pub updated_at: Timestamp,
}

impl View for User {
    type V = UserView;

    open spec fn view(&self) -> UserView {
        UserView {
            id: self.id@,
            name: self.name@,
            password_hash: self.password_hash@,
            refresh_token_hash: text_view(self.refresh_token_hash),
            created_at: self.created_at,
            updated_at: self.updated_at,
        }
    }
}

/// The two states of an account's session.
#[derive(Clone, Copy, Debug, PartialEq, Eq, Structural)]
pub enum SessionState {
    /// No refresh token is valid.
    NoSession,
    /// Exactly one refresh token is valid: the one whose hash is stored.
    ActiveSession,
}

impl UserView {
    /// What holds of every record that this library made or changed: the
    /// name meets the rule on names, the password hash is not empty, and the
    /// record was not updated before it was created.
    pub open spec fn wf(self) -> bool {
        &&& name_rule().admits(self.name)
        &&& self.password_hash.len() > 0
        &&& self.created_at.not_after(self.updated_at)
    }

    /// The state of the account's session.
    pub open spec fn state(self) -> SessionState {
        if self.refresh_token_hash is Some {
            SessionState::ActiveSession
        } else {
            SessionState::NoSession
        }
    }

    /// The identity that tokens of this account state.
    pub open spec fn auth(self) -> AuthView {
        AuthView { id: self.id, name: self.name }
    }

    /// The hasher accepts `password` against the stored password hash.
    pub open spec fn accepts_password(self, password: Seq<char>) -> bool {
        argon2_accepts(password, self.password_hash)
    }

    /// A session is active and the hasher accepts `token` against the
    /// stored hash of its refresh token.
    pub open spec fn accepts_refresh_token(self, token: Seq<char>) -> bool {
        self.refresh_token_hash matches Some(stored) && argon2_accepts(token, stored)
    }

    /// The record as a change at `now` leaves it: only the hash of the
    /// refresh token and the time of the last update differ, and that time
    /// never moves back.
    pub open spec fn touched(self, refresh_token_hash: Option<Seq<char>>, now: Timestamp) -> UserView {
        UserView {
            refresh_token_hash: refresh_token_hash,
            updated_at: self.updated_at.later_of(now),
            ..self
        }
    }
}

/// What [`User::create_at`] returns for each input. A password that fails
/// its rule is refused first, then a name that fails its rule. Otherwise the
/// record is new and without a session, and it holds a usable hash that
/// accepts the password; or the hasher failed.
pub open spec fn created(
    id: Seq<char>,
    name: Seq<char>,
    password: Seq<char>,
    now: Timestamp,
    r: Result<User, MyError>,
) -> bool {
    if !password_rule().admits(password) {
        r matches Err(e) && e@ == one_field_error("password"@, password_message())
    } else if !name_rule().admits(name) {
        r matches Err(e) && e@ == one_field_error("name"@, name_message())
    } else {
        match r {
            Ok(user) => {
                &&& user@ == (UserView {
                    id: id,
                    name: name,
                    password_hash: user@.password_hash,
                    refresh_token_hash: None,
                    created_at: now,
                    updated_at: now,
                })
                &&& usable(password, user@.password_hash)
                &&& user@.accepts_password(password)
                &&& user@.wf()
            },
            Err(e) => e@ == MyErrorView::InternalServerError,
        }
    }
}

/// What [`User::issue_tokens_at`] does for each input. On success the pair
/// is the one generated for the account at `now`, and the record holds a
/// hash that accepts the new refresh token, in place of any earlier one. On
/// failure the record is as before.
pub open spec fn issued(
    before: UserView,
    config: ConfigView,
    now: Timestamp,
    after: UserView,
    r: Result<Tokens, MyError>,
) -> bool {
    match r {
        Ok(tokens) => {
            &&& generated(before.auth(), config, now, r)
            &&& after == before.touched(after.refresh_token_hash, now)
            &&& after.refresh_token_hash matches Some(stored) && usable(
                tokens@.refresh_token,
                stored,
            )
            &&& after.accepts_refresh_token(tokens@.refresh_token)
        },
        Err(e) => e@ == MyErrorView::InternalServerError && after == before,
    }
}

impl User {
    pub fn new(
        id: String,
        name: String,
        password_hash: String,
        refresh_token_hash: Option<String>,
        created_at: Timestamp,
        updated_at: Timestamp,
    ) -> (user: User)
        ensures
            user@ == (UserView {
                id: id@,
                name: name@,
                password_hash: password_hash@,
                refresh_token_hash: text_view(refresh_token_hash),
                created_at,
                updated_at,
            }),
    {
        User { id, name, password_hash, refresh_token_hash, created_at, updated_at }
    }

    /// Makes the record of a new account at `now`, without a session.
    pub fn create_at(id: String, name: String, password: String, now: Timestamp) -> (r: Result<
        User,
        MyError,
    >)
        ensures
            created(id@, name@, password@, now, r),
    {
        match validate_password(password.as_str()) {
            Ok(()) => {},
            Err(e) => { return Err(e); },
        }
        match validate_name(name.as_str()) {
            Ok(()) => {},
            Err(e) => { return Err(e); },
        }
        let hashed = hash(password.as_str());
        User::assemble(id, name, hashed, now)
    }

    /// Makes the record of a new account at `now`, given what the hasher
    /// made of the password: with a hash the record holds it and has no
    /// session; without one there is no record.
    pub fn assemble(id: String, name: String, hashed: Option<String>, now: Timestamp) -> (r: Result<
        User,
        MyError,
    >)
        ensures
            match hashed {
                Some(password_hash) => r matches Ok(user) && user@ == (UserView {
                    id: id@,
                    name: name@,
                    password_hash: password_hash@,
                    refresh_token_hash: None,
                    created_at: now,
                    updated_at: now,
                }),
                None => r matches Err(e) && e@ == MyErrorView::InternalServerError,
            },
    {
        match hashed {
            Some(password_hash) => Ok(User::new(id, name, password_hash, None, now, now)),
            None => Err(MyError::InternalServerError),
        }
    }

    /// Makes the record of a new account at the time the system clock shows.
    pub fn create(id: String, name: String, password: String) -> (r: Result<User, MyError>)
        ensures
            exists|now: Timestamp| created(id@, name@, password@, now, r),
    {
        let now = crate::clock::now();
        User::create_at(id, name, password, now)
    }

    /// The state of the account's session.
    pub fn state(&self) -> (s: SessionState)
        ensures
            s == self@.state(),
    {
        if self.refresh_token_hash.is_some() {
            SessionState::ActiveSession
        } else {
            SessionState::NoSession
        }
    }

    /// Puts a pair of tokens in force at `now`, given what the hasher made
    /// of the refresh token: with a hash the record holds it from now on and
    /// the pair is handed out; without one nothing changes.
    pub fn install_tokens(&mut self, tokens: Tokens, hashed: Option<String>, now: Timestamp) -> (r:
        Result<Tokens, MyError>)
        ensures
            match hashed {
                Some(stored) => r == Ok::<Tokens, MyError>(tokens) && final(self)@ == old(
                    self,
                )@.touched(Some(stored@), now),
                None => r matches Err(e) && e@ == MyErrorView::InternalServerError && final(self)@
                    == old(self)@,
            },
    {
        match hashed {
            Some(stored) => {
                self.refresh_token_hash = Some(stored);
                self.updated_at = self.updated_at.later(now);
                Ok(tokens)
            },
            None => Err(MyError::InternalServerError),
        }
    }

    /// Issues a new pair of tokens at `now` and stores the hash of the new
    /// refresh token, never the token. Any earlier refresh token is thereby
    /// out of force.
    pub fn issue_tokens_at(&mut self, config: &Config, now: Timestamp) -> (r: Result<
        Tokens,
        MyError,
    >)
        ensures
            issued(old(self)@, config@, now, final(self)@, r),
            old(self)@.wf() ==> final(self)@.wf(),
    {
        let auth = Auth::new(self.id.clone(), self.name.clone());
        let tokens = match generate_tokens_at(auth, config, now) {
            Ok(tokens) => tokens,
            Err(e) => { return Err(e); },
        };
        let hashed = hash(tokens.refresh_token.as_str());
        self.install_tokens(tokens, hashed, now)
    }

    /// Issues a new pair of tokens at the time the system clock shows.
    pub fn issue_tokens(&mut self, config: &Config) -> (r: Result<Tokens, MyError>)
        ensures
            exists|now: Timestamp| issued(old(self)@, config@, now, final(self)@, r),
            old(self)@.wf() ==> final(self)@.wf(),
    {
        let now = crate::clock::now();
        self.issue_tokens_at(config, now)
    }

    /// Ends the session at `now`: no refresh token is valid any more.
    /// Access tokens that were issued stay valid until they expire.
    pub fn revoke_tokens_at(&mut self, now: Timestamp)
        ensures
            final(self)@ == old(self)@.touched(None, now),
            final(self)@.state() == SessionState::NoSession,
            old(self)@.wf() ==> final(self)@.wf(),
    {
        self.refresh_token_hash = None;
        self.updated_at = self.updated_at.later(now);
    }

    /// Ends the session at the time the system clock shows.
    pub fn revoke_tokens(&mut self)
        ensures
            exists|now: Timestamp| final(self)@ == old(self)@.touched(None, now),
            final(self)@.state() == SessionState::NoSession,
            old(self)@.wf() ==> final(self)@.wf(),
    {
        let now = crate::clock::now();
        self.revoke_tokens_at(now);
    }

    /// Verifies a password that was presented at login.
    pub fn verify_password(&self, password: String) -> (r: Result<(), MyError>)
        ensures
            if self@.accepts_password(password@) {
                r is Ok
            } else {
                r matches Err(e) && e@ == MyErrorView::Unauthorized(credentials_message())
            },
    {
        match verify(password.as_str(), self.password_hash.as_str()) {
            Ok(()) => Ok(()),
            Err(_) => Err(MyError::credentials_mismatch()),
        }
    }

    /// Verifies a refresh token that was presented: a session must be
    /// active, and the token the one whose hash is stored.
    pub fn verify_refresh_token(&self, refresh_token: String) -> (r: Result<(), MyError>)
        ensures
            if self@.accepts_refresh_token(refresh_token@) {
                r is Ok
            } else {
                r matches Err(e) && e@ == MyErrorView::Unauthorized(refresh_message())
            },
    {
        match &self.refresh_token_hash {
            Some(stored) => match verify(refresh_token.as_str(), stored.as_str()) {
                Ok(()) => Ok(()),
                Err(_) => Err(MyError::refresh_mismatch()),
            },
            None => Err(MyError::refresh_mismatch()),
        }
    }
}

/// No change moves a record's times back or touches what identifies the
/// account: after a change at any `now`, the time of the last update is not
/// before the earlier one nor before the creation, and the id, the name, the
/// password hash and the time of creation are as they were.
pub proof fn lemma_touched_keeps_the_record(
    before: UserView,
    refresh_token_hash: Option<Seq<char>>,
    now: Timestamp,
)
    ensures
        ({
            let after = before.touched(refresh_token_hash, now);
            &&& before.updated_at.not_after(after.updated_at)
            &&& now.not_after(after.updated_at)
            &&& after.id == before.id
            &&& after.name == before.name
            &&& after.password_hash == before.password_hash
            &&& after.created_at == before.created_at
            &&& after.refresh_token_hash == refresh_token_hash
            &&& before.wf() ==> after.wf()
        }),
{
}

} // verus!
