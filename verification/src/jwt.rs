//! The token codec: two classes of signed bearer tokens, each under its own
//! secret and with its own lifetime.

use crate::clock::Timestamp;
use crate::config::{Config, ConfigView};
use crate::errors::{MyError, MyErrorView};
use crate::payload::{
    all_plain, integer_at, integer_member, members, new_object, no_members, put_integer, put_text,
    text_at, text_member, Member,
};
use vstd::prelude::*;

verus! {

/// `jsonwebtoken::errors::Error`: why a token was not signed or not
/// accepted. The library does not look into it.
#[verifier::external_type_specification]
#[verifier::external_body]
pub struct ExJwtError(jsonwebtoken::errors::Error);

/// Minutes for which an access token is valid.
pub const ACCESS_EXP_MINUTES: i64 = 30;

/// Weeks for which a refresh token is valid.
pub const REFRESH_EXP_WEEKS: i64 = 2;

/// The two classes of tokens. The class decides the secret, the lifetime and
/// the tag that a token carries.
#[derive(Clone, Copy, Debug, PartialEq, Eq, Structural)]
pub enum TokenClass {
    Access,
    Refresh,
}

impl TokenClass {
    /// The tag that a token of this class carries in its payload.
    pub open spec fn tag(self) -> Seq<char> {
        match self {
            TokenClass::Access => "access"@,
            TokenClass::Refresh => "refresh"@,
        }
    }

    /// Seconds from issue to expiry.
    pub open spec fn lifetime(self) -> int {
        match self {
            TokenClass::Access => ACCESS_EXP_MINUTES * 60,
            TokenClass::Refresh => REFRESH_EXP_WEEKS * 7 * 24 * 60 * 60,
        }
    }

    /// The secret that signs tokens of this class.
    pub open spec fn secret_in(self, config: ConfigView) -> Seq<char> {
        match self {
            TokenClass::Access => config.access_token_secret,
            TokenClass::Refresh => config.refresh_token_secret,
        }
    }

    /// The tag of this class.
    pub fn name(self) -> (tag: &'static str)
        ensures
            tag@ == self.tag(),
    {
        match self {
            TokenClass::Access => "access",
            TokenClass::Refresh => "refresh",
        }
    }

    /// The lifetime of a token of this class, in seconds.
    pub fn ttl_seconds(self) -> (ttl: i64)
        ensures
            ttl == self.lifetime(),
    {
        match self {
            TokenClass::Access => ACCESS_EXP_MINUTES * 60,
            TokenClass::Refresh => REFRESH_EXP_WEEKS * 7 * 24 * 60 * 60,
        }
    }

    /// The secret of this class in `config`.
    pub fn secret<'a>(self, config: &'a Config) -> (secret: &'a str)
        ensures
            secret@ == self.secret_in(config@),
    {
        match self {
            TokenClass::Access => config.access_token_secret.as_str(),
            TokenClass::Refresh => config.refresh_token_secret.as_str(),
        }
    }
}

/// The two tags differ, so a payload carries at most one class.
pub proof fn lemma_tags_differ()
    ensures
        TokenClass::Access.tag() != TokenClass::Refresh.tag(),
{
    reveal_strlit("access");
    reveal_strlit("refresh");
    assert("access"@.len() != "refresh"@.len());
}

/// An authenticated identity.
#[derive(Clone, Debug, PartialEq, Eq)]
pub struct Auth {
    pub id: String,
    pub name: String,
}

/// Mathematical model of [`Auth`].
pub struct AuthView {
    pub id: Seq<char>,
    pub name: Seq<char>,
}

impl View for Auth {
    type V = AuthView;

    open spec fn view(&self) -> AuthView {
        AuthView { id: self.id@, name: self.name@ }
    }
}

impl Auth {
    pub fn new(id: String, name: String) -> (auth: Auth)
        ensures
            auth@ == (AuthView { id: id@, name: name@ }),
    {
        Auth { id, name }
    }
}

/// What a token states: its subject, its expiry in seconds since the epoch,
/// and the identity of the account.
#[derive(Clone, Debug, PartialEq, Eq)]
pub struct Claims {
    pub sub: String,
    pub exp: i64,
    pub id: String,
    pub name: String,
}

/// Mathematical model of [`Claims`].
pub struct ClaimsView {
    pub sub: Seq<char>,
    pub exp: i64,
    pub id: Seq<char>,
    pub name: Seq<char>,
}

impl View for Claims {
    type V = ClaimsView;

    open spec fn view(&self) -> ClaimsView {
        ClaimsView { sub: self.sub@, exp: self.exp, id: self.id@, name: self.name@ }
    }
}

impl Claims {
    pub fn new(sub: String, exp: i64, id: String, name: String) -> (claims: Claims)
        ensures
            claims@ == (ClaimsView { sub: sub@, exp, id: id@, name: name@ }),
    {
        Claims { sub, exp, id, name }
    }
}

/// A pair of tokens, as a client receives it.
#[derive(Clone, Debug, PartialEq, Eq)]
pub struct Tokens {
    pub access_token: String,
    pub refresh_token: String,
}

/// Mathematical model of [`Tokens`].
pub struct TokensView {
    pub access_token: Seq<char>,
    pub refresh_token: Seq<char>,
}

impl View for Tokens {
    type V = TokensView;

    open spec fn view(&self) -> TokensView {
        TokensView { access_token: self.access_token@, refresh_token: self.refresh_token@ }
    }
}

impl Tokens {
    pub fn new(access_token: String, refresh_token: String) -> (tokens: Tokens)
        ensures
            tokens@ == (TokensView {
                access_token: access_token@,
                refresh_token: refresh_token@,
            }),
    {
        Tokens { access_token, refresh_token }
    }
}

/// The one way in which a token fails to verify: a bad signature, a broken
/// structure, an expired or incomplete payload and a token of the other
/// class are not told apart.
#[derive(Clone, Copy, Debug, PartialEq, Eq, Structural)]
pub struct InvalidToken;

/// The payload that states `claims` for a token of class `class`.
pub open spec fn payload_of(class: TokenClass, claims: ClaimsView) -> Map<Seq<char>, Member> {
    no_members().insert("sub"@, Member::Text(claims.sub)).insert(
        "exp"@,
        Member::Integer(claims.exp),
    ).insert("id"@, Member::Text(claims.id)).insert("name"@, Member::Text(claims.name)).insert(
        "class"@,
        Member::Text(class.tag()),
    )
}

/// The claims that a payload states for class `class`: it carries the tag of
/// that class, and each claim with its type. Members beyond these are ignored.
pub open spec fn claims_in(class: TokenClass, payload: Map<Seq<char>, Member>) -> Option<
    ClaimsView,
> {
    match (
        text_at(payload, "class"@),
        text_at(payload, "sub"@),
        integer_at(payload, "exp"@),
        text_at(payload, "id"@),
        text_at(payload, "name"@),
    ) {
        (Some(tag), Some(sub), Some(exp), Some(id), Some(name)) => if tag == class.tag() {
            Some(ClaimsView { sub, exp, id, name })
        } else {
            None
        },
        _ => None,
    }
}

/// The five keys of a payload are pairwise different.
pub proof fn lemma_keys_differ()
    ensures
        "sub"@ != "exp"@,
        "sub"@ != "id"@,
        "sub"@ != "name"@,
        "sub"@ != "class"@,
        "exp"@ != "id"@,
        "exp"@ != "name"@,
        "exp"@ != "class"@,
        "id"@ != "name"@,
        "id"@ != "class"@,
        "name"@ != "class"@,
{
    reveal_strlit("sub");
    reveal_strlit("exp");
    reveal_strlit("id");
    reveal_strlit("name");
    reveal_strlit("class");
    assert("sub"@[0] != "exp"@[0]);
    assert("sub"@.len() != "id"@.len());
    assert("sub"@.len() != "name"@.len());
    assert("sub"@.len() != "class"@.len());
    assert("exp"@.len() != "id"@.len());
    assert("exp"@.len() != "name"@.len());
    assert("exp"@.len() != "class"@.len());
    assert("id"@.len() != "name"@.len());
    assert("id"@.len() != "class"@.len());
    assert("name"@.len() != "class"@.len());
}

/// A payload written for a class states, for that class, the claims it was
/// written from; for the other class it states none.
pub proof fn lemma_payload_round_trip(class: TokenClass, other: TokenClass, claims: ClaimsView)
    ensures
        claims_in(class, payload_of(class, claims)) == Some(claims),
        other != class ==> claims_in(other, payload_of(class, claims)) is None,
        all_plain(payload_of(class, claims)),
{
    lemma_keys_differ();
    lemma_tags_differ();
}

/// The token that signing `payload` under `secret` gives: what
/// `jsonwebtoken::encode` returns for the default header (HS256), `None`
/// where it fails.
pub uninterp spec fn jwt_token(payload: Map<Seq<char>, Member>, secret: Seq<char>) -> Option<
    Seq<char>,
>;

/// The payload that `token` carries, where its structure is sound and its
/// signature is the HS256 signature under `secret`; `None` otherwise. This
/// is what `jsonwebtoken::decode` hands out whenever it accepts the token; it
/// does not depend on the time.
pub uninterp spec fn jwt_payload(token: Seq<char>, secret: Seq<char>) -> Option<
    Map<Seq<char>, Member>,
>;

/// The characters of a token that signing may have failed to give.
pub open spec fn signed_view(r: Result<String, jsonwebtoken::errors::Error>) -> Option<
    Seq<char>,
> {
    match r {
        Ok(token) => Some(token@),
        Err(_) => None,
    }
}

/// `jsonwebtoken::encode` with `Header::default()` and
/// `EncodingKey::from_secret`: the token is a function of the payload's
/// members and the secret, and it carries that payload under that secret.
#[verifier::external_body]
pub(crate) fn jwt_encode(
    payload: &serde_json::Map<String, serde_json::Value>,
    secret: &str,
) -> (r: Result<String, jsonwebtoken::errors::Error>)
    requires
        all_plain(members(*payload)),
    ensures
        signed_view(r) == jwt_token(members(*payload), secret@),
        r matches Ok(token) ==> jwt_payload(token@, secret@) == Some(members(*payload)),
{
    let key = jsonwebtoken::EncodingKey::from_secret(secret.as_bytes());
    jsonwebtoken::encode(&jsonwebtoken::Header::default(), payload, &key)
}

/// `jsonwebtoken::decode` with `DecodingKey::from_secret` and
/// `Validation::default()`, which also requires an expiry that has not
/// passed by the system clock. Whether the token is accepted depends on the
/// time of the call; an accepted token is signed under `secret`, and what
/// comes back is the payload it carries. On a machine whose clock stands
/// before the Unix epoch the call panics.
#[verifier::external_body]
pub(crate) fn jwt_decode(token: &str, secret: &str) -> (r: Result<
    serde_json::Map<String, serde_json::Value>,
    jsonwebtoken::errors::Error,
>)
    ensures
        r matches Ok(payload) ==> jwt_payload(token@, secret@) == Some(members(payload)),
{
    let key = jsonwebtoken::DecodingKey::from_secret(secret.as_bytes());
    let validation = jsonwebtoken::Validation::default();
    match jsonwebtoken::decode::<serde_json::Map<String, serde_json::Value>>(token, &key, &validation) {
        Ok(data) => Ok(data.claims),
        Err(e) => Err(e),
    }
}

/// The claims behind a result of [`read_claims`] and its callers.
pub open spec fn claims_view(r: Result<Claims, InvalidToken>) -> Option<ClaimsView> {
    match r {
        Ok(claims) => Some(claims@),
        Err(_) => None,
    }
}

/// Writes the payload of a token of class `class` that states `claims`.
pub fn claims_payload(class: TokenClass, claims: &Claims) -> (payload: serde_json::Map<
    String,
    serde_json::Value,
>)
    ensures
        members(payload) == payload_of(class, claims@),
{
    let mut payload = new_object();
    put_text(&mut payload, "sub", claims.sub.as_str());
    put_integer(&mut payload, "exp", claims.exp);
    put_text(&mut payload, "id", claims.id.as_str());
    put_text(&mut payload, "name", claims.name.as_str());
    put_text(&mut payload, "class", class.name());
    payload
}

/// Reads the claims that `payload` states for class `class`.
pub fn read_claims(class: TokenClass, payload: &serde_json::Map<String, serde_json::Value>) -> (r:
    Result<Claims, InvalidToken>)
    ensures
        claims_view(r) == claims_in(class, members(*payload)),
{
    let tag = match text_member(payload, "class") {
        Some(tag) => tag,
        None => { return Err(InvalidToken); },
    };
    let sub = match text_member(payload, "sub") {
        Some(sub) => sub,
        None => { return Err(InvalidToken); },
    };
    let exp = match integer_member(payload, "exp") {
        Some(exp) => exp,
        None => { return Err(InvalidToken); },
    };
    let id = match text_member(payload, "id") {
        Some(id) => id,
        None => { return Err(InvalidToken); },
    };
    let name = match text_member(payload, "name") {
        Some(name) => name,
        None => { return Err(InvalidToken); },
    };
    if tag != class.name().to_owned() {
        return Err(InvalidToken);
    }
    Ok(Claims::new(sub, exp, id, name))
}

/// The claims of a token for `auth` that expires at `exp`: the account's id
/// is the subject.
pub open spec fn claims_for(auth: AuthView, exp: i64) -> ClaimsView {
    ClaimsView { sub: auth.id, exp, id: auth.id, name: auth.name }
}

/// When a token of class `class` that is issued at `now` expires: the
/// lifetime of its class later. `None` where that second is beyond `i64`.
pub open spec fn expiry(class: TokenClass, now: Timestamp) -> Option<i64> {
    if now.secs + class.lifetime() <= i64::MAX {
        Some((now.secs + class.lifetime()) as i64)
    } else {
        None
    }
}

/// The token of class `class` that is issued to `auth` at `now`; `None`
/// where none can be issued.
pub open spec fn issued_token(
    class: TokenClass,
    auth: AuthView,
    config: ConfigView,
    now: Timestamp,
) -> Option<Seq<char>> {
    match expiry(class, now) {
        Some(exp) => jwt_token(payload_of(class, claims_for(auth, exp)), class.secret_in(config)),
        None => None,
    }
}

/// `token` is signed under `secret` and states `claims` for class `class`.
pub open spec fn carries(
    class: TokenClass,
    token: Seq<char>,
    secret: Seq<char>,
    claims: ClaimsView,
) -> bool {
    jwt_payload(token, secret) matches Some(payload) && claims_in(class, payload) == Some(claims)
}

/// What [`issue`] returns for each input: the issued token, which carries
/// the claims it was issued for, or an internal failure where none can be
/// issued.
pub open spec fn issue_result(
    class: TokenClass,
    auth: AuthView,
    config: ConfigView,
    now: Timestamp,
    r: Result<String, MyError>,
) -> bool {
    match issued_token(class, auth, config, now) {
        Some(token) => {
            &&& r matches Ok(t)
            &&& t@ == token
            &&& carries(class, token, class.secret_in(config), claims_for(auth, expiry(class, now)->0))
        },
        None => r matches Err(e) && e@ == MyErrorView::InternalServerError,
    }
}

/// Issues a token of class `class` to `auth` at `now`. It expires one
/// lifetime of its class after `now` and is signed with the secret of its
/// class.
pub fn issue(class: TokenClass, auth: &Auth, config: &Config, now: Timestamp) -> (r: Result<
    String,
    MyError,
>)
    ensures
        issue_result(class, auth@, config@, now, r),
{
    let exp = match now.secs.checked_add(class.ttl_seconds()) {
        Some(exp) => exp,
        None => { return Err(MyError::InternalServerError); },
    };
    let claims = Claims::new(auth.id.clone(), exp, auth.id.clone(), auth.name.clone());
    let payload = claims_payload(class, &claims);
    proof {
        lemma_payload_round_trip(class, class, claims@);
    }
    match jwt_encode(&payload, class.secret(config)) {
        Ok(token) => Ok(token),
        Err(_) => Err(MyError::InternalServerError),
    }
}

/// What [`generate_tokens_at`] returns for each input: the pair of the two
/// issued tokens, or an internal failure where one of them cannot be issued.
pub open spec fn generated(
    auth: AuthView,
    config: ConfigView,
    now: Timestamp,
    r: Result<Tokens, MyError>,
) -> bool {
    match (
        issued_token(TokenClass::Access, auth, config, now),
        issued_token(TokenClass::Refresh, auth, config, now),
    ) {
        (Some(access), Some(refresh)) => {
            &&& r matches Ok(tokens)
            &&& tokens@ == (TokensView { access_token: access, refresh_token: refresh })
            &&& carries(
                TokenClass::Access,
                access,
                config.access_token_secret,
                claims_for(auth, expiry(TokenClass::Access, now)->0),
            )
            &&& carries(
                TokenClass::Refresh,
                refresh,
                config.refresh_token_secret,
                claims_for(auth, expiry(TokenClass::Refresh, now)->0),
            )
        },
        _ => r matches Err(e) && e@ == MyErrorView::InternalServerError,
    }
}

/// Issues the pair of tokens for `auth` at `now`: an access token and a
/// refresh token, each of its class.
pub fn generate_tokens_at(auth: Auth, config: &Config, now: Timestamp) -> (r: Result<
    Tokens,
    MyError,
>)
    ensures
        generated(auth@, config@, now, r),
{
    let access_token = match issue(TokenClass::Access, &auth, config, now) {
        Ok(token) => token,
        Err(e) => { return Err(e); },
    };
    let refresh_token = match issue(TokenClass::Refresh, &auth, config, now) {
        Ok(token) => token,
        Err(e) => { return Err(e); },
    };
    Ok(Tokens::new(access_token, refresh_token))
}

/// Issues the pair of tokens for `auth` at the time the system clock shows.
pub fn generate_tokens(auth: Auth, config: &Config) -> (r: Result<Tokens, MyError>)
    ensures
        exists|now: Timestamp| generated(auth@, config@, now, r),
{
    let now = crate::clock::now();
    generate_tokens_at(auth, config, now)
}

/// Decides on what the decoder handed back: the claims of class `class`
/// that the payload states, and a failure where the decoder refused the
/// token or the payload states none for that class.
pub fn accept(
    class: TokenClass,
    decoded: Result<serde_json::Map<String, serde_json::Value>, jsonwebtoken::errors::Error>,
) -> (r: Result<Claims, InvalidToken>)
    ensures
        claims_view(r) == match decoded {
            Ok(payload) => claims_in(class, members(payload)),
            Err(_) => None,
        },
{
    match decoded {
        Ok(payload) => read_claims(class, &payload),
        Err(_) => Err(InvalidToken),
    }
}

/// Verifies `token` as a token of class `class`: its signature under the
/// secret of that class, its expiry against the system clock, and its
/// payload. Claims come back only from a token that carries them for that
/// class. Whether such a token is accepted is the decoder's verdict at the
/// time of the call; [`accept`] says what is returned for each verdict.
pub fn verify_token(class: TokenClass, token: &str, config: &Config) -> (r: Result<
    Claims,
    InvalidToken,
>)
    ensures
        r matches Ok(claims) ==> carries(class, token@, class.secret_in(config@), claims@),
{
    accept(class, jwt_decode(token, class.secret(config)))
}

/// Verifies `token` as an access token.
pub fn decode_access_token(token: &str, config: &Config) -> (r: Result<Claims, InvalidToken>)
    ensures
        r matches Ok(claims) ==> carries(
            TokenClass::Access,
            token@,
            config@.access_token_secret,
            claims@,
        ),
{
    verify_token(TokenClass::Access, token, config)
}

/// Verifies `token` as a refresh token.
pub fn decode_refresh_token(token: &str, config: &Config) -> (r: Result<Claims, InvalidToken>)
    ensures
        r matches Ok(claims) ==> carries(
            TokenClass::Refresh,
            token@,
            config@.refresh_token_secret,
            claims@,
        ),
{
    verify_token(TokenClass::Refresh, token, config)
}

/// A token that was issued verifies, for its own class and under the secret
/// it was signed with, to the claims it was issued for and to no others.
pub proof fn lemma_verify_reproduces_claims(
    class: TokenClass,
    token: Seq<char>,
    secret: Seq<char>,
    issued: ClaimsView,
    verified: ClaimsView,
)
    requires
        carries(class, token, secret, issued),
        carries(class, token, secret, verified),
    ensures
        verified == issued,
        verified.sub == issued.sub,
        verified.id == issued.id,
        verified.name == issued.name,
{
}

/// A token of one class never verifies as a token of the other class under
/// the secret it was signed with; so the two classes stay apart even where
/// their secrets coincide.
pub proof fn lemma_classes_stay_apart(
    class: TokenClass,
    other: TokenClass,
    token: Seq<char>,
    secret: Seq<char>,
    issued: ClaimsView,
    verified: ClaimsView,
)
    requires
        class != other,
        carries(class, token, secret, issued),
    ensures
        !carries(other, token, secret, verified),
{
    lemma_tags_differ();
}

/// Verifying an issued token for its own class gives back the subject and
/// the identity that it was issued to, and the expiry it was issued with.
pub proof fn lemma_issue_then_verify(
    class: TokenClass,
    auth: AuthView,
    config: ConfigView,
    now: Timestamp,
    issued: Result<String, MyError>,
    verified: ClaimsView,
)
    requires
        issue_result(class, auth, config, now, issued),
        issued is Ok,
        carries(class, issued->Ok_0@, class.secret_in(config), verified),
    ensures
        verified.sub == auth.id,
        verified.id == auth.id,
        verified.name == auth.name,
        verified.exp == now.secs + class.lifetime(),
{
    lemma_verify_reproduces_claims(
        class,
        issued->Ok_0@,
        class.secret_in(config),
        claims_for(auth, expiry(class, now)->0),
        verified,
    );
}

/// Where the two secrets of a configuration coincide, an issued token still
/// does not verify for the other class.
pub proof fn lemma_issue_then_verify_as_other(
    class: TokenClass,
    other: TokenClass,
    auth: AuthView,
    config: ConfigView,
    now: Timestamp,
    issued: Result<String, MyError>,
    verified: ClaimsView,
)
    requires
        issue_result(class, auth, config, now, issued),
        issued is Ok,
        other != class,
        config.access_token_secret == config.refresh_token_secret,
    ensures
        !carries(other, issued->Ok_0@, other.secret_in(config), verified),
{
    lemma_classes_stay_apart(
        class,
        other,
        issued->Ok_0@,
        class.secret_in(config),
        claims_for(auth, expiry(class, now)->0),
        verified,
    );
}

} // verus!
