//! Authentication of one request: from the `Authorization` header to a
//! verified caller, or to the refusal that ends the request.

use vstd::prelude::*;
use vstd::string::*;
use crate::context::{decoded, JwtState, TokenError};
use crate::middlewares::{AuthError, AuthErrorView};
use crate::models::auth::{TokenClaims, TokenClaimsView};
use crate::trusted::identifier::{parse_uuid, uuid_parsed};
use crate::trusted::jwt::rs256_opened;

verus! {

/// The verified caller of a request: their public identifier.
#[derive(Debug, Clone, Copy, PartialEq, Eq, Structural)]
pub struct AuthClaims {
    pub pid: u128,
}

impl AuthClaims {
    #[must_use]
    pub fn new(pid: u128) -> (r: AuthClaims)
        ensures
            r.pid == pid,
    {
        AuthClaims { pid }
    }

    #[must_use]
    pub fn pid(&self) -> (r: u128)
        ensures
            r == self.pid,
    {
        self.pid
    }
}

/// A space or a tab: what may stand between the scheme and the token.
pub open spec fn is_blank(c: char) -> bool {
    c == ' ' || c == '\t'
}

/// A character that a header value may show: printable ASCII, or a tab.
pub open spec fn is_visible(c: char) -> bool {
    c == '\t' || (' ' <= c && c <= '~')
}

/// Whether `c` is the lower-case letter `letter` in either case.
pub open spec fn is_letter(c: char, letter: char) -> bool {
    c == letter || c as u32 + 32 == letter as u32
}

/// Whether a header value begins with the scheme `Bearer`, in any mix of
/// upper and lower case, and one space.
pub open spec fn names_bearer(value: Seq<char>) -> bool {
    &&& value.len() > 6
    &&& is_letter(value[0], 'b')
    &&& is_letter(value[1], 'e')
    &&& is_letter(value[2], 'a')
    &&& is_letter(value[3], 'r')
    &&& is_letter(value[4], 'e')
    &&& is_letter(value[5], 'r')
    &&& value[6] == ' '
}

/// The first position at or after `from` that holds no blank; the length of
/// the value if there is none.
pub open spec fn past_blanks(value: Seq<char>, from: int) -> int
    decreases value.len() - from,
{
    if 0 <= from < value.len() && is_blank(value[from]) {
        past_blanks(value, from + 1)
    } else {
        from
    }
}

/// The token that an `Authorization` header value presents: what follows the
/// scheme `Bearer`, a space, and any further blanks. There is none unless
/// the value names that scheme and every character of it is visible.
pub open spec fn bearer_of(value: Seq<char>) -> Option<Seq<char>> {
    if names_bearer(value) && (forall|i: int| 0 <= i < value.len() ==> is_visible(#[trigger] value[i])) {
        Some(value.subrange(past_blanks(value, 7), value.len() as int))
    } else {
        None
    }
}

/// Tells whether the byte is the lower-case ASCII letter `letter` in either
/// case.
fn byte_is_letter(b: u8, letter: u8) -> (r: bool)
    requires
        97 <= letter <= 122,
    ensures
        r == (b == letter || b + 32 == letter),
{
    b == letter || (b <= 127 && b + 32 == letter)
}

/// Extracts the bearer token from the value of an `Authorization` header.
pub fn bearer_token(value: &str) -> (r: Option<&str>)
    ensures
        match r {
            Some(token) => bearer_of(value@) == Some(token@),
            None => bearer_of(value@) is None,
        },
{
    if !value.is_ascii() {
        proof {
            let i = choose|i: int| 0 <= i < value@.len() && !('\0' <= #[trigger] value@[i] <= '\u{7f}');
            assert(!is_visible(value@[i]));
        }
        return None;
    }
    let n = value.unicode_len();
    if n <= 6 {
        return None;
    }
    let mut i: usize = 0;
    while i < n
        invariant
            i <= n,
            n == value@.len(),
            value.is_ascii(),
            forall|j: int| 0 <= j < i ==> is_visible(#[trigger] value@[j]),
        decreases n - i,
    {
        let b = value.get_ascii(i);
        if !(b == 9 || (32 <= b && b <= 126)) {
            assert(!is_visible(value@[i as int]));
            return None;
        }
        i += 1;
    }
    let named = byte_is_letter(value.get_ascii(0), 98) && byte_is_letter(value.get_ascii(1), 101)
        && byte_is_letter(value.get_ascii(2), 97) && byte_is_letter(value.get_ascii(3), 114)
        && byte_is_letter(value.get_ascii(4), 101) && byte_is_letter(value.get_ascii(5), 114)
        && value.get_ascii(6) == 32;
    if !named {
        return None;
    }
    let mut k: usize = 7;
    while k < n && (value.get_ascii(k) == 32 || value.get_ascii(k) == 9)
        invariant
            7 <= k <= n,
            n == value@.len(),
            value.is_ascii(),
            past_blanks(value@, 7) == past_blanks(value@, k as int),
        decreases n - k,
    {
        k += 1;
    }
    Some(value.substring_ascii(k, n))
}

/// How far the authentication of one request has come.
///
/// A request starts `Unauthenticated`. Each step takes it one stage on, or
/// to `Rejected`. `Authenticated` and `Rejected` are final: no step leads
/// out of them, so a refusal is never tried again.
#[derive(Debug, Clone, PartialEq, Eq)]
pub enum AuthState {
    /// Nothing is known of the caller yet.
    Unauthenticated,
    /// The header presented this bearer token.
    TokenExtracted(String),
    /// The token was verified and carried these claims.
    TokenValidated(TokenClaims),
    /// The caller is known: the claims and the identity go on to the handler.
    Authenticated(TokenClaims, AuthClaims),
    /// The request ends here, with this refusal as its answer.
    Rejected(AuthError),
}

/// Mathematical value of an [`AuthState`].
pub enum AuthStateView {
    Unauthenticated,
    TokenExtracted(Seq<char>),
    TokenValidated(TokenClaimsView),
    Authenticated(TokenClaimsView, AuthClaims),
    Rejected(AuthErrorView),
}

impl View for AuthState {
    type V = AuthStateView;

    open spec fn view(&self) -> AuthStateView {
        match self {
            AuthState::Unauthenticated => AuthStateView::Unauthenticated,
            AuthState::TokenExtracted(token) => AuthStateView::TokenExtracted(token@),
            AuthState::TokenValidated(claims) => AuthStateView::TokenValidated(claims@),
            AuthState::Authenticated(claims, caller) => AuthStateView::Authenticated(
                claims@,
                *caller,
            ),
            AuthState::Rejected(e) => AuthStateView::Rejected(e@),
        }
    }
}

impl AuthStateView {
    /// Whether authentication has ended, in success or in refusal.
    pub open spec fn is_final(self) -> bool {
        self is Authenticated || self is Rejected
    }

    /// Whether the request may be handed to the next handler.
    pub open spec fn passes(self) -> bool {
        self is Authenticated
    }
}

/// Mathematical value of a header that may be missing.
pub open spec fn header_view(authorization: Option<&str>) -> Option<Seq<char>> {
    match authorization {
        Some(value) => Some(value@),
        None => None,
    }
}

/// The refusal that answers a token which was not accepted. Only expiry and
/// immaturity are told apart; every other cause is an invalid token.
pub open spec fn refused(e: TokenError) -> AuthErrorView {
    match e {
        TokenError::ExpiredToken => AuthErrorView::ExpiredToken("Token has expired"@),
        TokenError::ImmatureToken => AuthErrorView::ImmatureToken("Token is not valid yet"@),
        _ => AuthErrorView::InvalidToken,
    }
}

/// First stage: from the header to the token it presents.
pub open spec fn extracted(authorization: Option<Seq<char>>) -> AuthStateView {
    match authorization {
        None => AuthStateView::Rejected(AuthErrorView::MissingCredentials),
        Some(value) => match bearer_of(value) {
            Some(token) => AuthStateView::TokenExtracted(token),
            None => AuthStateView::Rejected(AuthErrorView::WrongCredentials),
        },
    }
}

/// Second stage: from the outcome of decoding the token to its claims.
pub open spec fn validated(outcome: Result<TokenClaimsView, TokenError>) -> AuthStateView {
    match outcome {
        Ok(claims) => AuthStateView::TokenValidated(claims),
        Err(e) => AuthStateView::Rejected(refused(e)),
    }
}

/// Third stage: from the claims and the identifier read from their subject
/// to the verified caller.
pub open spec fn identified(claims: TokenClaimsView, pid: Option<u128>) -> AuthStateView {
    match pid {
        Some(pid) => AuthStateView::Authenticated(claims, AuthClaims { pid }),
        None => AuthStateView::Rejected(AuthErrorView::InvalidToken),
    }
}

/// One step of authentication, for a request with the given header, under
/// the verification key `public_pem`, at the time `now`.
pub open spec fn stepped(
    state: AuthStateView,
    authorization: Option<Seq<char>>,
    public_pem: Seq<char>,
    now: u64,
) -> AuthStateView {
    match state {
        AuthStateView::Unauthenticated => extracted(authorization),
        AuthStateView::TokenExtracted(token) => validated(
            decoded(rs256_opened(public_pem, token), now),
        ),
        AuthStateView::TokenValidated(claims) => identified(claims, uuid_parsed(claims.sub)),
        AuthStateView::Authenticated(_, _) => state,
        AuthStateView::Rejected(_) => state,
    }
}

/// The whole of authentication: three steps from `Unauthenticated`.
pub open spec fn authenticated(
    authorization: Option<Seq<char>>,
    public_pem: Seq<char>,
    now: u64,
) -> AuthStateView {
    stepped(
        stepped(
            stepped(AuthStateView::Unauthenticated, authorization, public_pem, now),
            authorization,
            public_pem,
            now,
        ),
        authorization,
        public_pem,
        now,
    )
}

/// Names the refusal that answers a token which was not accepted.
pub fn refuse(e: TokenError) -> (r: AuthError)
    ensures
        r@ == refused(e),
{
    match e {
        TokenError::ExpiredToken => AuthError::ExpiredToken("Token has expired".to_owned()),
        TokenError::ImmatureToken => AuthError::ImmatureToken("Token is not valid yet".to_owned()),
        _ => AuthError::InvalidToken,
    }
}

/// First stage: a missing header is refused as missing credentials, a
/// header that presents no bearer token as wrong credentials.
pub fn extract(authorization: Option<&str>) -> (r: AuthState)
    ensures
        r@ == extracted(header_view(authorization)),
{
    match authorization {
        None => AuthState::Rejected(AuthError::MissingCredentials),
        Some(value) => match bearer_token(value) {
            Some(token) => AuthState::TokenExtracted(token.to_owned()),
            None => AuthState::Rejected(AuthError::WrongCredentials),
        },
    }
}

/// Second stage: takes the outcome of decoding the token.
pub fn validate(outcome: Result<TokenClaims, TokenError>) -> (r: AuthState)
    ensures
        r@ == validated(crate::context::claims_view(outcome)),
{
    match outcome {
        Ok(claims) => AuthState::TokenValidated(claims),
        Err(e) => AuthState::Rejected(refuse(e)),
    }
}

/// Third stage: takes the claims and the identifier that was read from
/// their subject, if one was. A subject that is no identifier makes the
/// token invalid.
pub fn identify(claims: TokenClaims, pid: Option<u128>) -> (r: AuthState)
    ensures
        r@ == identified(claims@, pid),
{
    match pid {
        Some(pid) => AuthState::Authenticated(claims, AuthClaims::new(pid)),
        None => AuthState::Rejected(AuthError::InvalidToken),
    }
}

impl AuthState {
    /// Takes authentication one step on. In a final state nothing changes.
    pub fn step(self, authorization: Option<&str>, keys: &JwtState, now: u64) -> (r: AuthState)
        ensures
            r@ == stepped(self@, header_view(authorization), keys.decoding_key@, now),
    {
        match self {
            AuthState::Unauthenticated => extract(authorization),
            AuthState::TokenExtracted(token) => validate(keys.decode(token.as_str(), now)),
            AuthState::TokenValidated(claims) => {
                let pid = parse_uuid(claims.sub.as_str());
                identify(claims, pid)
            },
            AuthState::Authenticated(claims, caller) => AuthState::Authenticated(claims, caller),
            AuthState::Rejected(e) => AuthState::Rejected(e),
        }
    }

    /// Whether authentication has ended.
    pub fn is_final(&self) -> (r: bool)
        ensures
            r == self@.is_final(),
    {
        match self {
            AuthState::Authenticated(_, _) => true,
            AuthState::Rejected(_) => true,
            _ => false,
        }
    }
}

/// Authenticates one request from the value of its `Authorization` header,
/// if it has one, under the keys of the process, at the time `now`.
///
/// The result is final: either the caller is known and the request may go
/// on, or the refusal is the whole answer and no handler is called.
pub fn authenticate(authorization: Option<&str>, keys: &JwtState, now: u64) -> (r: AuthState)
    ensures
        r@ == authenticated(header_view(authorization), keys.decoding_key@, now),
        r@.is_final(),
{
    let first = AuthState::Unauthenticated.step(authorization, keys, now);
    let second = first.step(authorization, keys, now);
    second.step(authorization, keys, now)
}

/// Final states are fixed: no step leads out of a refusal or a success.
pub proof fn lemma_final_is_fixed(
    state: AuthStateView,
    authorization: Option<Seq<char>>,
    public_pem: Seq<char>,
    now: u64,
)
    requires
        state.is_final(),
    ensures
        stepped(state, authorization, public_pem, now) == state,
{
}

/// Every request reaches a final state in three steps, and it passes on to
/// the handler only with a token that was accepted and a subject that is an
/// identifier.
pub proof fn lemma_authentication_ends(
    authorization: Option<Seq<char>>,
    public_pem: Seq<char>,
    now: u64,
)
    ensures
        authenticated(authorization, public_pem, now).is_final(),
        authenticated(authorization, public_pem, now).passes() <==> {
            &&& authorization matches Some(value)
            &&& bearer_of(value) matches Some(token)
            &&& decoded(rs256_opened(public_pem, token), now) matches Ok(claims)
            &&& uuid_parsed(claims.sub) is Some
        },
{
}

/// A request with an expired token, or with a token signed by another key,
/// never reaches a handler: the first is refused as expired, the second as
/// invalid.
pub proof fn lemma_bad_tokens_are_rejected(
    value: Seq<char>,
    token: Seq<char>,
    public_pem: Seq<char>,
    now: u64,
)
    requires
        bearer_of(value) == Some(token),
    ensures
        (rs256_opened(public_pem, token) matches Ok(claims) && claims.exp matches Some(expiry)
            && expiry <= now) ==> authenticated(Some(value), public_pem, now)
            == AuthStateView::Rejected(AuthErrorView::ExpiredToken("Token has expired"@)),
        rs256_opened(public_pem, token) == Err::<
            crate::trusted::jwt::ClaimSetView,
            crate::trusted::jwt::TokenFault,
        >(crate::trusted::jwt::TokenFault::InvalidSignature) ==> authenticated(
            Some(value),
            public_pem,
            now,
        ) == AuthStateView::Rejected(AuthErrorView::InvalidToken),
{
}

/// The value of an `Authorization` header that presents `token`.
pub open spec fn bearer_value_of(token: Seq<char>) -> Seq<char> {
    "Bearer "@ + token
}

/// Writes the value of an `Authorization` header that presents `token`.
pub fn bearer_value(token: &str) -> (r: String)
    ensures
        r@ == bearer_value_of(token@),
{
    let mut value = "Bearer ".to_owned();
    value.append(token);
    value
}

/// A token that is handed out in a header value is read back from it as it
/// was, if all its characters are visible and it does not begin with a
/// blank.
pub proof fn lemma_bearer_value_reads_back(token: Seq<char>)
    requires
        forall|i: int| 0 <= i < token.len() ==> is_visible(#[trigger] token[i]),
        token.len() > 0 ==> !is_blank(token[0]),
    ensures
        bearer_of(bearer_value_of(token)) == Some(token),
{
    reveal_strlit("Bearer ");
    let value = bearer_value_of(token);
    assert(value.len() == 7 + token.len());
    assert forall|i: int| 0 <= i < value.len() implies is_visible(#[trigger] value[i]) by {
        if i >= 7 {
            assert(value[i] == token[i - 7]);
        }
    }
    assert(names_bearer(value));
    if token.len() > 0 {
        assert(value[7] == token[0]);
    }
    assert(past_blanks(value, 7) == 7);
    assert(value.subrange(7, value.len() as int) =~= token);
}

} // verus!
