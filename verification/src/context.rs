//! The key material of the process, and the token codec that works with it.

use vstd::prelude::*;
use crate::errors::Error;
use crate::models::auth::{TokenClaims, TokenClaimsView};
use crate::trusted::jwt::{
    check_signing_key, check_verifying_key, open_rs256, rs256_opened, rs256_signed, sign_rs256,
    signing_key_fault, verifying_key_fault, ClaimSet, ClaimSetView, TokenFault,
};

verus! {

/// How many seconds a token's issue time may lie ahead of this machine's
/// clock before the token counts as not yet valid.
pub const CLOCK_SKEW_TOLERANCE: u64 = 60;

/// Why a token was not accepted.
#[derive(Debug, Clone, Copy, PartialEq, Eq, Structural)]
pub enum TokenError {
    /// The token's expiry time has come.
    ExpiredToken,
    /// The token's issue time lies in the future, beyond the tolerance.
    ImmatureToken,
    /// The text is not a token, or its payload lacks a claim.
    MalformedToken,
    /// The signature was not made with the key that belongs to ours.
    InvalidSignature,
    /// The token was signed with another algorithm than RS256.
    UnsupportedAlgorithm,
    /// The verification key itself failed.
    Internal(TokenFault),
}

/// The key pair that signs and verifies tokens, as PEM text, and the number
/// of seconds for which a token is valid. Made once, then only read.
#[derive(Debug, Clone, PartialEq, Eq)]
pub struct JwtState {
    pub encoding_key: String,
    pub decoding_key: String,
    pub max_age: u64,
}

/// The refusal that a fault of the token crate amounts to.
pub open spec fn refusal(fault: TokenFault) -> TokenError {
    match fault {
        TokenFault::InvalidToken
        | TokenFault::Base64
        | TokenFault::Json
        | TokenFault::Utf8
        | TokenFault::MissingRequiredClaim => TokenError::MalformedToken,
        TokenFault::InvalidSignature => TokenError::InvalidSignature,
        TokenFault::InvalidAlgorithm | TokenFault::MissingAlgorithm => {
            TokenError::UnsupportedAlgorithm
        },
        _ => TokenError::Internal(fault),
    }
}

/// What becomes at the time `now` of a token whose signature held and whose
/// payload carried `claims`.
///
/// An expiry time that has come refuses the token before anything else is
/// looked at. Then all three claims must be there and fit the machine's
/// word, and the issue time must not lie ahead of `now` by more than
/// [`CLOCK_SKEW_TOLERANCE`].
pub open spec fn admitted(claims: ClaimSetView, now: u64) -> Result<TokenClaimsView, TokenError> {
    if claims.exp is Some && claims.exp->0 <= now {
        Err(TokenError::ExpiredToken)
    } else if claims.sub is None || claims.iat is None || claims.exp is None {
        Err(TokenError::MalformedToken)
    } else if claims.iat->0 > usize::MAX || claims.exp->0 > usize::MAX {
        Err(TokenError::MalformedToken)
    } else if claims.iat->0 > now + CLOCK_SKEW_TOLERANCE {
        Err(TokenError::ImmatureToken)
    } else {
        Ok(
            TokenClaimsView {
                sub: claims.sub->0,
                iat: claims.iat->0 as nat,
                exp: claims.exp->0 as nat,
            },
        )
    }
}

/// What becomes at the time `now` of a token that the token crate opened
/// with the result `opened`.
pub open spec fn decoded(opened: Result<ClaimSetView, TokenFault>, now: u64) -> Result<
    TokenClaimsView,
    TokenError,
> {
    match opened {
        Err(fault) => Err(refusal(fault)),
        Ok(claims) => admitted(claims, now),
    }
}

/// Mathematical value of the result of a decode.
pub open spec fn claims_view(r: Result<TokenClaims, TokenError>) -> Result<
    TokenClaimsView,
    TokenError,
> {
    match r {
        Ok(claims) => Ok(claims@),
        Err(e) => Err(e),
    }
}

/// Mathematical value of the result of an encode.
pub open spec fn token_view(r: Result<String, TokenFault>) -> Result<Seq<char>, TokenFault> {
    match r {
        Ok(token) => Ok(token@),
        Err(fault) => Err(fault),
    }
}

/// Names the refusal that a fault of the token crate amounts to.
pub fn refuse(fault: TokenFault) -> (r: TokenError)
    ensures
        r == refusal(fault),
{
    match fault {
        TokenFault::InvalidToken
        | TokenFault::Base64
        | TokenFault::Json
        | TokenFault::Utf8
        | TokenFault::MissingRequiredClaim => TokenError::MalformedToken,
        TokenFault::InvalidSignature => TokenError::InvalidSignature,
        TokenFault::InvalidAlgorithm | TokenFault::MissingAlgorithm => {
            TokenError::UnsupportedAlgorithm
        },
        _ => TokenError::Internal(fault),
    }
}

/// Decides at the time `now` on the claims of a token whose signature held.
pub fn accept(claims: ClaimSet, now: u64) -> (r: Result<TokenClaims, TokenError>)
    ensures
        claims_view(r) == admitted(claims@, now),
{
    if let Some(exp) = claims.exp {
        if exp <= now {
            return Err(TokenError::ExpiredToken);
        }
    }
    match (claims.sub, claims.iat, claims.exp) {
        (Some(sub), Some(iat), Some(exp)) => {
            if iat > usize::MAX as u64 || exp > usize::MAX as u64 {
                Err(TokenError::MalformedToken)
            } else if now <= u64::MAX - CLOCK_SKEW_TOLERANCE && iat > now + CLOCK_SKEW_TOLERANCE {
                Err(TokenError::ImmatureToken)
            } else {
                Ok(TokenClaims { sub, iat: iat as usize, exp: exp as usize })
            }
        },
        _ => Err(TokenError::MalformedToken),
    }
}

impl JwtState {
    /// Makes the key material of two key texts of which it is known whether
    /// each is refused as a key of its kind, and with which fault. A fault
    /// of the private key counts before one of the public key.
    pub fn checked(
        private_key: &str,
        public_key: &str,
        max_age: u64,
        signing: Option<TokenFault>,
        verifying: Option<TokenFault>,
    ) -> (r: Result<JwtState, Error>)
        ensures
            match r {
                Ok(state) => {
                    &&& signing is None
                    &&& verifying is None
                    &&& state.encoding_key@ == private_key@
                    &&& state.decoding_key@ == public_key@
                    &&& state.max_age == max_age
                },
                Err(e) => {
                    &&& e matches Error::JsonWebToken(fault)
                    &&& if signing is Some {
                        signing == Some(fault)
                    } else {
                        verifying == Some(fault)
                    }
                },
            },
    {
        if let Some(fault) = signing {
            return Err(Error::JsonWebToken(fault));
        }
        if let Some(fault) = verifying {
            return Err(Error::JsonWebToken(fault));
        }
        Ok(
            JwtState {
                encoding_key: private_key.to_owned(),
                decoding_key: public_key.to_owned(),
                max_age,
            },
        )
    }

    /// Takes the two keys as PEM text and the lifetime of a token in seconds.
    /// Fails if either text is refused as an RSA key of its kind; the private
    /// key counts first.
    pub fn new(private_key: &str, public_key: &str, max_age: u64) -> (r: Result<JwtState, Error>)
        ensures
            match r {
                Ok(state) => {
                    &&& signing_key_fault(private_key@) is None
                    &&& verifying_key_fault(public_key@) is None
                    &&& state.encoding_key@ == private_key@
                    &&& state.decoding_key@ == public_key@
                    &&& state.max_age == max_age
                },
                Err(e) => {
                    &&& e matches Error::JsonWebToken(fault)
                    &&& if signing_key_fault(private_key@) is Some {
                        signing_key_fault(private_key@) == Some(fault)
                    } else {
                        verifying_key_fault(public_key@) == Some(fault)
                    }
                },
            },
    {
        let signing = check_signing_key(private_key);
        let verifying = check_verifying_key(public_key);
        JwtState::checked(private_key, public_key, max_age, signing, verifying)
    }

    /// Signs the claims: the result is the RS256 token of the three claims
    /// under the private key, or the fault that signing met.
    pub fn encode(&self, claims: &TokenClaims) -> (r: Result<String, TokenFault>)
        ensures
            token_view(r) == rs256_signed(
                self.encoding_key@,
                claims.sub@,
                claims.iat as u64,
                claims.exp as u64,
            ),
    {
        sign_rs256(
            self.encoding_key.as_str(),
            claims.sub.as_str(),
            claims.iat as u64,
            claims.exp as u64,
        )
    }

    /// Verifies `token` against the public key and decides at the time `now`
    /// whether its claims are accepted. Reads neither clock nor disk.
    pub fn decode(&self, token: &str, now: u64) -> (r: Result<TokenClaims, TokenError>)
        ensures
            claims_view(r) == decoded(rs256_opened(self.decoding_key@, token@), now),
    {
        match open_rs256(self.decoding_key.as_str(), token) {
            Err(fault) => Err(refuse(fault)),
            Ok(claims) => accept(claims, now),
        }
    }
}

impl ClaimSetView {
    /// The payload that carries exactly `claims`.
    pub open spec fn of(claims: TokenClaimsView) -> ClaimSetView {
        ClaimSetView {
            sub: Some(claims.sub),
            iat: Some(claims.iat as u64),
            exp: Some(claims.exp as u64),
        }
    }
}

/// Claims that have not expired come back from a token as they went in:
/// once the signature holds, decoding hands out the very claims of the
/// payload, provided the expiry lies ahead and the issue time does not lie
/// ahead by more than the tolerance.
pub proof fn lemma_unexpired_claims_come_back(claims: TokenClaimsView, now: u64)
    requires
        claims.iat <= usize::MAX,
        claims.exp <= usize::MAX,
        now < claims.exp,
        claims.iat <= now + CLOCK_SKEW_TOLERANCE,
    ensures
        decoded(Ok(ClaimSetView::of(claims)), now) == Ok::<TokenClaimsView, TokenError>(claims),
{
}

/// Claims issued with a lifetime are accepted from the moment of issue until
/// the moment before their expiry.
pub proof fn lemma_issued_claims_last(sub: Seq<char>, issued_at: u64, lifetime: u64, now: u64)
    requires
        issued_at + lifetime <= usize::MAX,
        issued_at <= now < issued_at + lifetime,
    ensures
        decoded(
            Ok(ClaimSetView::of(TokenClaimsView::issued(sub, issued_at as nat, lifetime as nat))),
            now,
        ) == Ok::<TokenClaimsView, TokenError>(
            TokenClaimsView::issued(sub, issued_at as nat, lifetime as nat),
        ),
{
}

/// A token whose signature holds and whose expiry time has come, be it by
/// one second or at this very second, is refused as expired, whatever else
/// its payload holds.
pub proof fn lemma_expired_is_refused(claims: ClaimSetView, expiry: u64, now: u64)
    requires
        claims.exp == Some(expiry),
        expiry <= now,
    ensures
        decoded(Ok(claims), now) == Err::<TokenClaimsView, TokenError>(TokenError::ExpiredToken),
{
}

/// A token whose signature does not hold under the verification key is
/// refused for its signature at every time, whatever its payload holds.
pub proof fn lemma_forged_is_refused(now: u64)
    ensures
        decoded(Err(TokenFault::InvalidSignature), now) == Err::<TokenClaimsView, TokenError>(
            TokenError::InvalidSignature,
        ),
{
}

/// A refusal never depends on the time unless the signature held: a token
/// that could not be opened is refused alike at every moment.
pub proof fn lemma_unopened_is_refused_alike(fault: TokenFault, now: u64, later: u64)
    ensures
        decoded(Err(fault), now) == decoded(Err(fault), later),
        decoded(Err(fault), now) is Err,
{
}

} // verus!
