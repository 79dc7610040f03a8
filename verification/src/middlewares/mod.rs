//! What stands between a request and the handlers that need to know the
//! caller.

pub mod auth;

use vstd::prelude::*;
use crate::errors::response::{ErrorReply, FORBIDDEN, INTERNAL_SERVER_ERROR, UNAUTHORIZED};
use crate::trusted::jwt::TokenFault;

verus! {

/// Why a request was not let through to a protected route.
#[derive(Debug, Clone, PartialEq, Eq)]
pub enum AuthError {
    /// The token's expiry time has come; the text says so to the client.
    ExpiredToken(String),
    /// The token is not valid yet; the text says so to the client.
    ImmatureToken(String),
    /// The token was refused for any other reason.
    InvalidToken,
    /// The token crate failed in a way that is the server's own.
    JsonWebToken(TokenFault),
    /// The request carries no `Authorization` header.
    MissingCredentials,
    /// The `Authorization` header is not a bearer credential.
    WrongCredentials,
    /// Any other failure; the text is for the log only.
    Other(String),
}

/// Mathematical value of an [`AuthError`].
pub enum AuthErrorView {
    ExpiredToken(Seq<char>),
    ImmatureToken(Seq<char>),
    InvalidToken,
    JsonWebToken(TokenFault),
    MissingCredentials,
    WrongCredentials,
    Other(Seq<char>),
}

impl View for AuthError {
    type V = AuthErrorView;

    open spec fn view(&self) -> AuthErrorView {
        match self {
            AuthError::ExpiredToken(text) => AuthErrorView::ExpiredToken(text@),
            AuthError::ImmatureToken(text) => AuthErrorView::ImmatureToken(text@),
            AuthError::InvalidToken => AuthErrorView::InvalidToken,
            AuthError::JsonWebToken(fault) => AuthErrorView::JsonWebToken(*fault),
            AuthError::MissingCredentials => AuthErrorView::MissingCredentials,
            AuthError::WrongCredentials => AuthErrorView::WrongCredentials,
            AuthError::Other(text) => AuthErrorView::Other(text@),
        }
    }
}

impl AuthErrorView {
    /// The status code that answers this refusal.
    pub open spec fn status(self) -> u16 {
        match self {
            AuthErrorView::ExpiredToken(_)
            | AuthErrorView::MissingCredentials
            | AuthErrorView::WrongCredentials => UNAUTHORIZED,
            AuthErrorView::ImmatureToken(_) | AuthErrorView::InvalidToken => FORBIDDEN,
            AuthErrorView::JsonWebToken(_) | AuthErrorView::Other(_) => INTERNAL_SERVER_ERROR,
        }
    }

    /// The message that answers this refusal.
    pub open spec fn message(self) -> Seq<char> {
        match self {
            AuthErrorView::ExpiredToken(text) => text,
            AuthErrorView::ImmatureToken(text) => text,
            AuthErrorView::InvalidToken => "Invalid authorisation token"@,
            AuthErrorView::JsonWebToken(_) => "Something went wrong on our end."@,
            AuthErrorView::MissingCredentials => "Missing credentials"@,
            AuthErrorView::WrongCredentials => "Wrong credentials"@,
            AuthErrorView::Other(_) => "Something went wrong on our end"@,
        }
    }
}

impl AuthError {
    /// The answer to a client whose request was refused with this error.
    pub fn response(&self) -> (r: ErrorReply)
        ensures
            r.status == self@.status(),
            r.body.message@ == self@.message(),
    {
        match self {
            AuthError::ExpiredToken(text) => ErrorReply::new(UNAUTHORIZED, text.as_str()),
            AuthError::ImmatureToken(text) => ErrorReply::new(FORBIDDEN, text.as_str()),
            AuthError::InvalidToken => ErrorReply::new(FORBIDDEN, "Invalid authorisation token"),
            AuthError::JsonWebToken(_) => ErrorReply::new(
                INTERNAL_SERVER_ERROR,
                "Something went wrong on our end.",
            ),
            AuthError::MissingCredentials => ErrorReply::new(UNAUTHORIZED, "Missing credentials"),
            AuthError::WrongCredentials => ErrorReply::new(UNAUTHORIZED, "Wrong credentials"),
            AuthError::Other(_) => ErrorReply::new(
                INTERNAL_SERVER_ERROR,
                "Something went wrong on our end",
            ),
        }
    }
}

} // verus!
