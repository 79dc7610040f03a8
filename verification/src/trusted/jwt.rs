//! RS256 tokens, signed and opened by the `jsonwebtoken` crate.

use vstd::prelude::*;
use jsonwebtoken::errors::ErrorKind;
use jsonwebtoken::{Algorithm, DecodingKey, EncodingKey, Header, Validation};

verus! {

/// Why signing or opening a token failed, as `jsonwebtoken` names it.
#[derive(Debug, Clone, Copy, PartialEq, Eq, Structural)]
pub enum TokenFault {
    /// The text is not three dot-separated parts.
    InvalidToken,
    /// The signature does not belong to the text under the key.
    InvalidSignature,
    /// The key is not an RSA key that can sign.
    InvalidRsaKey,
    /// Signing with the key failed.
    RsaFailedSigning,
    /// The key is not a PEM document of a known kind.
    InvalidKeyFormat,
    /// The payload lacks a claim that every token must have.
    MissingRequiredClaim,
    /// The header names another algorithm than the key is for.
    InvalidAlgorithm,
    /// No algorithm was allowed.
    MissingAlgorithm,
    /// A part is not base64.
    Base64,
    /// A part is not the JSON it should be.
    Json,
    /// A part is not UTF-8.
    Utf8,
    /// Any other failure.
    Other,
}

/// The claims found in a token's payload, each absent if the payload does not
/// hold it in the expected form.
#[derive(Debug, Clone, PartialEq, Eq)]
pub struct ClaimSet {
    pub sub: Option<String>,
    pub iat: Option<u64>,
    pub exp: Option<u64>,
}

/// Mathematical value of a [`ClaimSet`].
pub struct ClaimSetView {
    pub sub: Option<Seq<char>>,
    pub iat: Option<u64>,
    pub exp: Option<u64>,
}

impl View for ClaimSet {
    type V = ClaimSetView;

    open spec fn view(&self) -> ClaimSetView {
        ClaimSetView {
            sub: match self.sub {
                Some(s) => Some(s@),
                None => None,
            },
            iat: self.iat,
            exp: self.exp,
        }
    }
}

/// The compact RS256 token that `jsonwebtoken::encode` makes of the claims
/// `sub`, `iat` and `exp` under the RSA private key in `private_pem`, or the
/// failure it reports.
pub uninterp spec fn rs256_signed(private_pem: Seq<char>, sub: Seq<char>, iat: u64, exp: u64)
    -> Result<Seq<char>, TokenFault>;

/// The claims that `jsonwebtoken::decode` finds in `token` once its RS256
/// signature has been checked against the RSA public key in `public_pem`, or
/// the failure it reports. The token's age plays no part.
pub uninterp spec fn rs256_opened(public_pem: Seq<char>, token: Seq<char>) -> Result<
    ClaimSetView,
    TokenFault,
>;

/// The failure with which `EncodingKey::from_rsa_pem` refuses `pem`, if it does.
pub uninterp spec fn signing_key_fault(pem: Seq<char>) -> Option<TokenFault>;

/// The failure with which `DecodingKey::from_rsa_pem` refuses `pem`, if it does.
pub uninterp spec fn verifying_key_fault(pem: Seq<char>) -> Option<TokenFault>;

/// The kinds of failure that `jsonwebtoken` tells apart. Nothing is read of
/// a value of it but through [`fault_of`].
#[verifier::external_type_specification]
#[verifier::external_body]
pub struct ExErrorKind(jsonwebtoken::errors::ErrorKind);

/// Names the kind of a `jsonwebtoken` error, as `Error::kind` hands it out,
/// in this library's terms, variant for variant; the kinds that the library
/// does not tell apart become `Other`. It serves the wrappers below, which
/// hand on what it returns. Nothing is claimed of the result.
#[verifier::external_body]
pub(crate) fn fault_of(kind: &ErrorKind) -> TokenFault {
    match kind {
        ErrorKind::InvalidToken => TokenFault::InvalidToken,
        ErrorKind::InvalidSignature => TokenFault::InvalidSignature,
        ErrorKind::InvalidRsaKey(_) => TokenFault::InvalidRsaKey,
        ErrorKind::RsaFailedSigning => TokenFault::RsaFailedSigning,
        ErrorKind::InvalidKeyFormat => TokenFault::InvalidKeyFormat,
        ErrorKind::MissingRequiredClaim(_) => TokenFault::MissingRequiredClaim,
        ErrorKind::InvalidAlgorithm => TokenFault::InvalidAlgorithm,
        ErrorKind::MissingAlgorithm => TokenFault::MissingAlgorithm,
        ErrorKind::Base64(_) => TokenFault::Base64,
        ErrorKind::Json(_) => TokenFault::Json,
        ErrorKind::Utf8(_) => TokenFault::Utf8,
        _ => TokenFault::Other,
    }
}

/// `EncodingKey::from_rsa_pem`: tells whether `pem` is accepted as an RSA
/// private key, and with which failure it is not. The answer depends on the
/// text alone.
#[verifier::external_body]
pub(crate) fn check_signing_key(pem: &str) -> (r: Option<TokenFault>)
    ensures
        r == signing_key_fault(pem@),
{
    EncodingKey::from_rsa_pem(pem.as_bytes()).err().map(|e| fault_of(e.kind()))
}

/// `DecodingKey::from_rsa_pem`: tells whether `pem` is accepted as an RSA
/// public key, and with which failure it is not. The answer depends on the
/// text alone.
#[verifier::external_body]
pub(crate) fn check_verifying_key(pem: &str) -> (r: Option<TokenFault>)
    ensures
        r == verifying_key_fault(pem@),
{
    DecodingKey::from_rsa_pem(pem.as_bytes()).err().map(|e| fault_of(e.kind()))
}

/// `EncodingKey::from_rsa_pem`, then `jsonwebtoken::encode` with the header
/// `Header::new(Algorithm::RS256)`: signs a payload of the three claims
/// `sub`, `iat` and `exp` with the key in `private_pem`. An RS256 signature
/// holds no randomness, so the token depends on the arguments alone. A
/// failure of either call is named by [`fault_of`].
#[verifier::external_body]
pub(crate) fn sign_rs256(private_pem: &str, sub: &str, iat: u64, exp: u64) -> (r: Result<
    String,
    TokenFault,
>)
    ensures
        match r {
            Ok(token) => rs256_signed(private_pem@, sub@, iat, exp) == Ok::<Seq<char>, TokenFault>(
                token@,
            ),
            Err(fault) => rs256_signed(private_pem@, sub@, iat, exp) == Err::<
                Seq<char>,
                TokenFault,
            >(fault),
        },
{
    let key = EncodingKey::from_rsa_pem(private_pem.as_bytes()).map_err(|e| fault_of(e.kind()))?;
    let mut claims = serde_json::Map::new();
    claims.insert("sub".to_owned(), serde_json::Value::from(sub));
    claims.insert("iat".to_owned(), serde_json::Value::from(iat));
    claims.insert("exp".to_owned(), serde_json::Value::from(exp));
    jsonwebtoken::encode(&Header::new(Algorithm::RS256), &claims, &key).map_err(
        |e| fault_of(e.kind()),
    )
}

/// `DecodingKey::from_rsa_pem`, then `jsonwebtoken::decode` under
/// `Validation::new(Algorithm::RS256)` with `validate_exp` switched off:
/// checks the signature of `token` against the key in `public_pem` and
/// hands out the `sub`, `iat` and `exp` claims of the payload, each absent
/// unless it is a string, respectively a number that fits 64 bits. With the
/// expiry check off the call reads no clock, so the result depends on the
/// arguments alone. A failure of either call is named by [`fault_of`].
#[verifier::external_body]
pub(crate) fn open_rs256(public_pem: &str, token: &str) -> (r: Result<ClaimSet, TokenFault>)
    ensures
        match r {
            Ok(claims) => rs256_opened(public_pem@, token@) == Ok::<ClaimSetView, TokenFault>(
                claims@,
            ),
            Err(fault) => rs256_opened(public_pem@, token@) == Err::<ClaimSetView, TokenFault>(
                fault,
            ),
        },
{
    let key = DecodingKey::from_rsa_pem(public_pem.as_bytes()).map_err(|e| fault_of(e.kind()))?;
    let mut rules = Validation::new(Algorithm::RS256);
    rules.validate_exp = false;
    let data = jsonwebtoken::decode::<serde_json::Value>(token, &key, &rules).map_err(
        |e| fault_of(e.kind()),
    )?;
    Ok(ClaimSet {
        sub: data.claims.get("sub").and_then(serde_json::Value::as_str).map(str::to_owned),
        iat: data.claims.get("iat").and_then(serde_json::Value::as_u64),
        exp: data.claims.get("exp").and_then(serde_json::Value::as_u64),
    })
}

} // verus!
