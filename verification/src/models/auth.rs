//! Registration, login, and the claims that a token carries.

use vstd::prelude::*;
use crate::middlewares::auth::{bearer_value, bearer_value_of};
use crate::repositories::users::{User, UserView};
use crate::trusted::cookie::{cookie_text, write_cookie, SameSite};

verus! {

/// The payload of a token: who the caller is, and from when until when the
/// token says so. Times are seconds since the Unix epoch.
#[derive(Debug, Clone, PartialEq, Eq)]
pub struct TokenClaims {
    /// The caller's public identifier, as text.
    pub sub: String,
    /// When the token was issued.
    pub iat: usize,
    /// From when on the token is no longer valid.
    pub exp: usize,
}

/// Mathematical value of [`TokenClaims`].
pub struct TokenClaimsView {
    pub sub: Seq<char>,
    pub iat: nat,
    pub exp: nat,
}

impl View for TokenClaims {
    type V = TokenClaimsView;

    open spec fn view(&self) -> TokenClaimsView {
        TokenClaimsView { sub: self.sub@, iat: self.iat as nat, exp: self.exp as nat }
    }
}

impl TokenClaimsView {
    /// The claims of a token issued to `sub` at `now` for `lifetime` seconds.
    pub open spec fn issued(sub: Seq<char>, now: nat, lifetime: nat) -> TokenClaimsView {
        TokenClaimsView { sub, iat: now, exp: now + lifetime }
    }
}

impl TokenClaims {
    /// Issues claims for `sub` at the time `now`, valid for `lifetime`
    /// seconds: the expiry is the issue time plus the lifetime. There are no
    /// such claims when the expiry cannot be represented.
    pub fn issue(sub: String, now: u64, lifetime: u64) -> (r: Option<TokenClaims>)
        ensures
            r is Some <==> now + lifetime <= usize::MAX,
            r matches Some(claims) ==> claims@ == TokenClaimsView::issued(
                sub@,
                now as nat,
                lifetime as nat,
            ),
    {
        if now > usize::MAX as u64 || lifetime > usize::MAX as u64 {
            return None;
        }
        let iat: usize = now as usize;
        match iat.checked_add(lifetime as usize) {
            Some(exp) => Some(TokenClaims { sub, iat, exp }),
            None => None,
        }
    }
}

/// What a new user sends to register.
#[derive(Debug, Clone, PartialEq, Eq)]
pub struct RegisterUser {
    pub email: String,
    pub username: String,
    pub password: String,
    pub confirm_password: String,
}

/// What a user sends to log in.
#[derive(Debug, Clone, PartialEq, Eq)]
pub struct LoginUser {
    pub email: String,
    pub password: String,
}

/// The answer to a registration that succeeded.
#[derive(Debug, Clone, PartialEq, Eq)]
pub struct AuthResponse {
    pub message: String,
}

impl AuthResponse {
    pub fn new(message: &str) -> (r: AuthResponse)
        ensures
            r.message@ == message@,
    {
        AuthResponse { message: message.to_owned() }
    }
}

/// The answer to a login that succeeded: the token, and whose it is.
#[derive(Debug, Clone, PartialEq, Eq)]
pub struct LoginResponse {
    pub token: String,
    pub username: String,
    pub created_at: String,
}

/// Mathematical value of a [`LoginResponse`].
pub struct LoginResponseView {
    pub token: Seq<char>,
    pub username: Seq<char>,
    pub created_at: Seq<char>,
}

impl View for LoginResponse {
    type V = LoginResponseView;

    open spec fn view(&self) -> LoginResponseView {
        LoginResponseView {
            token: self.token@,
            username: self.username@,
            created_at: self.created_at@,
        }
    }
}

impl LoginResponseView {
    /// The answer that hands `token` to `user`.
    pub open spec fn of(user: UserView, token: Seq<char>) -> LoginResponseView {
        LoginResponseView {
            token,
            username: user.username,
            created_at: user.created_at.shown(),
        }
    }
}

/// The name of the cookie that carries the token.
pub const ACCESS_COOKIE: &'static str = "accessToken";

/// A header of an answer: its name and its value.
pub type Header = (String, String);

/// Mathematical value of a list of headers.
pub open spec fn headers_view(list: Seq<Header>) -> Seq<(Seq<char>, Seq<char>)> {
    list.map_values(|h: Header| (h.0@, h.1@))
}

/// The age of the cookie, in seconds, for a token that lives `max_age`
/// seconds: the same, as far as the cookie can say it.
pub open spec fn cookie_age(max_age: u64) -> i64 {
    if max_age > i64::MAX {
        i64::MAX
    } else {
        max_age as i64
    }
}

impl LoginResponseView {
    /// The cookie that carries the token: for every path, for as long as
    /// the token lives, kept from scripts, and sent along from other sites
    /// only when the user navigates.
    pub open spec fn cookie(self, max_age: u64) -> Seq<char> {
        cookie_text(ACCESS_COOKIE@, self.token, "/"@, cookie_age(max_age), SameSite::Lax, true)
    }

    /// The headers of the answer to a login: the token as a bearer
    /// credential, the token as a cookie, and the type of the body.
    pub open spec fn headers(self, max_age: u64) -> Seq<(Seq<char>, Seq<char>)> {
        seq![
            ("Authorization"@, bearer_value_of(self.token)),
            ("Set-Cookie"@, self.cookie(max_age)),
            ("Content-Type"@, "application/json"@),
        ]
    }
}

impl LoginResponse {
    /// Writes the cookie that carries the token, for a token that lives
    /// `max_age` seconds.
    pub fn cookie(&self, max_age: u64) -> (r: String)
        ensures
            r@ == self@.cookie(max_age),
    {
        let age: i64 = if max_age > i64::MAX as u64 {
            i64::MAX
        } else {
            max_age as i64
        };
        write_cookie(ACCESS_COOKIE, self.token.as_str(), "/", age, SameSite::Lax, true)
    }

    /// The headers of the answer to a login, for a token that lives
    /// `max_age` seconds.
    pub fn headers(&self, max_age: u64) -> (r: Vec<Header>)
        ensures
            headers_view(r@) == self@.headers(max_age),
    {
        let mut list: Vec<Header> = Vec::new();
        list.push(("Authorization".to_owned(), bearer_value(self.token.as_str())));
        list.push(("Set-Cookie".to_owned(), self.cookie(max_age)));
        list.push(("Content-Type".to_owned(), "application/json".to_owned()));
        assert(headers_view(list@) =~= self@.headers(max_age));
        list
    }

    /// The answer that hands `token` to `user`: the token, the user's name,
    /// and the day and time at which the user registered.
    pub fn new(user: &User, token: &str) -> (r: LoginResponse)
        ensures
            r@ == LoginResponseView::of(user@, token@),
    {
        LoginResponse {
            token: token.to_owned(),
            username: user.username.clone(),
            created_at: user.created_at.show(),
        }
    }
}

} // verus!
