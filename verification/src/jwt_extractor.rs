//! Request authentication: the bearer credential of a request and the
//! identity it resolves to.

use crate::config::Config;
use crate::errors::{status_of, unauthorized_message, MyError, MyErrorView};
use crate::jwt::{
    carries, decode_access_token, decode_refresh_token, Auth, AuthView, Claims, ClaimsView,
    InvalidToken, TokenClass,
};
use vstd::prelude::*;

verus! {

/// What an authorization header must start with: the scheme and one space.
pub open spec fn bearer_prefix() -> Seq<char> {
    "Bearer "@
}

/// The header is the scheme, one space, and a token on the same line.
pub open spec fn is_bearer_header(header: Seq<char>, token: Seq<char>) -> bool {
    header == bearer_prefix() + token && !token.contains('\n')
}

/// The characters of a header that may be missing.
pub open spec fn header_view(authorization: Option<&str>) -> Option<Seq<char>> {
    match authorization {
        Some(header) => Some(header@),
        None => None,
    }
}

/// The token that an authorization header presents: what follows the
/// prefix, where the header has that form. A missing header presents none.
pub open spec fn bearer_token(authorization: Option<Seq<char>>) -> Option<Seq<char>> {
    match authorization {
        Some(header) => {
            let token = header.subrange(7, header.len() as int);
            if header.len() >= 7 && header.subrange(0, 7) == bearer_prefix() && !token.contains(
                '\n',
            ) {
                Some(token)
            } else {
                None
            }
        },
        None => None,
    }
}

/// A header presents `token` exactly when it has the bearer form with that
/// token.
pub proof fn lemma_bearer_token_form(header: Seq<char>, token: Seq<char>)
    ensures
        bearer_token(Some(header)) == Some(token) <==> is_bearer_header(header, token),
{
    reveal_strlit("Bearer ");
    if is_bearer_header(header, token) {
        assert(header.subrange(0, 7) =~= bearer_prefix());
        assert(header.subrange(7, header.len() as int) =~= token);
    }
    if bearer_token(Some(header)) == Some(token) {
        assert(header =~= bearer_prefix() + token);
    }
}

/// The characters of a token that may not have been found.
pub open spec fn found_view(r: Result<String, InvalidToken>) -> Option<Seq<char>> {
    match r {
        Ok(token) => Some(token@),
        Err(_) => None,
    }
}

/// Takes the bearer token out of the value of a request's authorization
/// header.
pub fn extract_bearer_token(authorization: Option<&str>) -> (r: Result<String, InvalidToken>)
    ensures
        found_view(r) == bearer_token(header_view(authorization)),
{
    broadcast use vstd::string::axiom_spec_iter;

    let header = match authorization {
        Some(header) => header,
        None => { return Err(InvalidToken); },
    };
    let len = header.unicode_len();
    if len < 7 {
        return Err(InvalidToken);
    }
    let prefix = "Bearer ";
    proof {
        reveal_strlit("Bearer ");
    }
    let mut sound: bool = true;
    let mut at: usize = 0;
    let chars = header.chars();
    for c in it: chars
        invariant
            it.seq() == header@,
            at == it.index(),
            len == header@.len(),
            len >= 7,
            prefix@ == bearer_prefix(),
            prefix@.len() == 7,
            sound == (forall|i: int|
                0 <= i < at ==> if i < 7 {
                    #[trigger] header@[i] == bearer_prefix()[i]
                } else {
                    header@[i] != '\n'
                }),
    {
        let fits = if at < 7 {
            c == prefix.get_char(at)
        } else {
            c != '\n'
        };
        if !fits {
            sound = false;
        }
        at = at + 1;
    }
    if !sound {
        proof {
            let token = header@.subrange(7, len as int);
            if header@.subrange(0, 7) == bearer_prefix() && !token.contains('\n') {
                assert forall|i: int| 0 <= i < len implies if i < 7 {
                    #[trigger] header@[i] == bearer_prefix()[i]
                } else {
                    header@[i] != '\n'
                } by {
                    if i < 7 {
                        assert(header@.subrange(0, 7)[i] == header@[i]);
                    } else {
                        assert(token[i - 7] == header@[i]);
                    }
                }
            }
        }
        return Err(InvalidToken);
    }
    let token = header.substring_char(7, len);
    proof {
        assert(header@.subrange(0, 7) =~= bearer_prefix());
        assert(!token@.contains('\n')) by {
            if token@.contains('\n') {
                let j = choose|j: int| 0 <= j < token@.len() && token@[j] == '\n';
                assert(header@[j + 7] == '\n');
            }
        }
    }
    Ok(token.to_owned())
}

/// The bearer token of a request, as it was presented.
#[derive(Debug)]
pub struct BearerToken(String);

impl View for BearerToken {
    type V = Seq<char>;

    closed spec fn view(&self) -> Seq<char> {
        self.0@
    }
}

impl BearerToken {
    /// Takes the bearer token of a request from the value of its
    /// authorization header. A missing header and a header of another form
    /// fail alike.
    pub fn from_request(authorization: Option<&str>) -> (r: Result<BearerToken, MyError>)
        ensures
            match bearer_token(header_view(authorization)) {
                Some(token) => r matches Ok(bearer) && bearer@ == token,
                None => r matches Err(e) && e@ == MyErrorView::Unauthorized(
                    unauthorized_message(),
                ),
            },
    {
        match extract_bearer_token(authorization) {
            Ok(token) => Ok(BearerToken(token)),
            Err(_) => Err(MyError::new_unauthorized()),
        }
    }

    /// The token's text.
    pub fn into_string(self) -> (token: String)
        ensures
            token@ == self@,
    {
        self.0
    }
}

impl From<BearerToken> for String {
    fn from(v: BearerToken) -> (token: String) {
        v.0
    }
}

impl vstd::std_specs::convert::FromSpecImpl<BearerToken> for String {
    open spec fn obeys_from_spec() -> bool {
        true
    }

    closed spec fn from_spec(v: BearerToken) -> String {
        v.0
    }
}

/// The claims of a request's access token, after it verified.
#[derive(Debug)]
pub struct AccessTokenDecoded(Claims);

impl View for AccessTokenDecoded {
    type V = ClaimsView;

    closed spec fn view(&self) -> ClaimsView {
        self.0@
    }
}

/// The identity that verified claims state.
pub open spec fn auth_of(claims: ClaimsView) -> AuthView {
    AuthView { id: claims.id, name: claims.name }
}

/// What resolving a request under class `class` returns. Without a bearer
/// token it fails. With one, an identity comes only from claims that the
/// token carries for that class under the secret of that class. Every
/// failure is the same `Unauthorized`.
pub open spec fn resolved(
    class: TokenClass,
    authorization: Option<Seq<char>>,
    secret: Seq<char>,
    r: Result<ClaimsView, MyError>,
) -> bool {
    match r {
        Ok(claims) => bearer_token(authorization) matches Some(token) && carries(
            class,
            token,
            secret,
            claims,
        ),
        Err(e) => e@ == MyErrorView::Unauthorized(unauthorized_message()),
    }
}

impl AccessTokenDecoded {
    /// The claims that verified.
    pub fn claims(&self) -> (claims: &Claims)
        ensures
            claims@ == self@,
    {
        &self.0
    }

    /// Resolves a request to the identity that its access token states.
    pub fn from_request(authorization: Option<&str>, config: &Config) -> (r: Result<
        AccessTokenDecoded,
        MyError,
    >)
        ensures
            resolved(
                TokenClass::Access,
                header_view(authorization),
                config@.access_token_secret,
                match r {
                    Ok(decoded) => Ok(decoded@),
                    Err(e) => Err(e),
                },
            ),
            bearer_token(header_view(authorization)) is None ==> r is Err,
    {
        let token = match extract_bearer_token(authorization) {
            Ok(token) => token,
            Err(_) => { return Err(MyError::new_unauthorized()); },
        };
        match decode_access_token(token.as_str(), config) {
            Ok(claims) => Ok(AccessTokenDecoded(claims)),
            Err(_) => Err(MyError::new_unauthorized()),
        }
    }

    /// The authenticated identity.
    pub fn into_auth(self) -> (auth: Auth)
        ensures
            auth@ == auth_of(self@),
    {
        Auth::new(self.0.id, self.0.name)
    }
}

impl From<AccessTokenDecoded> for Auth {
    fn from(v: AccessTokenDecoded) -> (auth: Auth) {
        Auth { id: v.0.id, name: v.0.name }
    }
}

impl vstd::std_specs::convert::FromSpecImpl<AccessTokenDecoded> for Auth {
    open spec fn obeys_from_spec() -> bool {
        true
    }

    closed spec fn from_spec(v: AccessTokenDecoded) -> Auth {
        Auth { id: v.0.id, name: v.0.name }
    }
}

/// The claims of a request's refresh token, after it verified.
#[derive(Debug)]
pub struct RefreshTokenDecoded(Claims);

impl View for RefreshTokenDecoded {
    type V = ClaimsView;

    closed spec fn view(&self) -> ClaimsView {
        self.0@
    }
}

impl RefreshTokenDecoded {
    /// The claims that verified.
    pub fn claims(&self) -> (claims: &Claims)
        ensures
            claims@ == self@,
    {
        &self.0
    }

    /// Resolves a request to the identity that its refresh token states.
    /// The token itself is what [`BearerToken::from_request`] gives for the
    /// same header.
    pub fn from_request(authorization: Option<&str>, config: &Config) -> (r: Result<
        RefreshTokenDecoded,
        MyError,
    >)
        ensures
            resolved(
                TokenClass::Refresh,
                header_view(authorization),
                config@.refresh_token_secret,
                match r {
                    Ok(decoded) => Ok(decoded@),
                    Err(e) => Err(e),
                },
            ),
            bearer_token(header_view(authorization)) is None ==> r is Err,
    {
        let token = match extract_bearer_token(authorization) {
            Ok(token) => token,
            Err(_) => { return Err(MyError::new_unauthorized()); },
        };
        match decode_refresh_token(token.as_str(), config) {
            Ok(claims) => Ok(RefreshTokenDecoded(claims)),
            Err(_) => Err(MyError::new_unauthorized()),
        }
    }

    /// The authenticated identity.
    pub fn into_auth(self) -> (auth: Auth)
        ensures
            auth@ == auth_of(self@),
    {
        Auth::new(self.0.id, self.0.name)
    }
}

impl From<RefreshTokenDecoded> for Auth {
    fn from(v: RefreshTokenDecoded) -> (auth: Auth) {
        Auth { id: v.0.id, name: v.0.name }
    }
}

impl vstd::std_specs::convert::FromSpecImpl<RefreshTokenDecoded> for Auth {
    open spec fn obeys_from_spec() -> bool {
        true
    }

    closed spec fn from_spec(v: RefreshTokenDecoded) -> Auth {
        Auth { id: v.0.id, name: v.0.name }
    }
}

/// A request without an authorization header, with a header of another
/// form, or with a token that carries no claims for the class asked for,
/// resolves to no identity: it fails as unauthorized, and in each case with
/// the same error.
pub proof fn lemma_unresolved_is_unauthorized(
    class: TokenClass,
    authorization: Option<Seq<char>>,
    secret: Seq<char>,
    r: Result<ClaimsView, MyError>,
)
    requires
        resolved(class, authorization, secret, r),
        bearer_token(authorization) matches Some(token) ==> forall|claims: ClaimsView|
            !carries(class, token, secret, claims),
    ensures
        r matches Err(e) && e@ == MyErrorView::Unauthorized(unauthorized_message()) && status_of(
            e@,
        ) == 401,
{
}

} // verus!
