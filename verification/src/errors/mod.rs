//! Every failure of the service, and the answer each one gets.

pub mod response;

use vstd::prelude::*;
use crate::errors::response::{ErrorReply, INTERNAL_SERVER_ERROR, UNPROCESSABLE_ENTITY};
use crate::repositories::{ModelError, ModelErrorView};
use crate::trusted::jwt::TokenFault;

verus! {

/// A failure anywhere in the service. The variants that come from starting
/// the process carry the cause as text.
#[derive(Debug, Clone, PartialEq, Eq)]
pub enum Error {
    Axum(String),
    AxumHttp(String),
    ColorEyre(String),
    Config(String),
    Env(String),
    IO(String),
    /// A signing or verification key was refused.
    JsonWebToken(TokenFault),
    /// A failure of an operation on users or tasks.
    Model(ModelError),
    Parse(String),
    Sqlx(String),
    SqlxMigrate(String),
    TryInit(String),
    /// The request body broke field rules; the text says which.
    Validation(String),
}

/// Mathematical value of an [`Error`]: what its answer depends on.
pub enum ErrorView {
    /// A failure of the server itself, whatever its cause.
    Internal,
    Model(ModelErrorView),
    Validation(Seq<char>),
}

impl View for Error {
    type V = ErrorView;

    open spec fn view(&self) -> ErrorView {
        match self {
            Error::Model(e) => ErrorView::Model(e@),
            Error::Validation(text) => ErrorView::Validation(text@),
            _ => ErrorView::Internal,
        }
    }
}

impl ErrorView {
    /// The status code that answers this failure.
    pub open spec fn status(self) -> u16 {
        match self {
            ErrorView::Internal => INTERNAL_SERVER_ERROR,
            ErrorView::Model(e) => e.status(),
            ErrorView::Validation(_) => UNPROCESSABLE_ENTITY,
        }
    }

    /// The message that answers this failure.
    pub open spec fn message(self) -> Seq<char> {
        match self {
            ErrorView::Internal => "Something went wrong on our end."@,
            ErrorView::Model(e) => e.message(),
            ErrorView::Validation(text) => text,
        }
    }
}

impl Error {
    /// The answer to a client whose request failed with this error.
    pub fn response(&self) -> (r: ErrorReply)
        ensures
            r.status == self@.status(),
            r.body.message@ == self@.message(),
    {
        match self {
            Error::Validation(text) => ErrorReply::new(UNPROCESSABLE_ENTITY, text.as_str()),
            Error::Model(e) => e.response(),
            _ => ErrorReply::new(INTERNAL_SERVER_ERROR, "Something went wrong on our end."),
        }
    }
}

} // verus!
