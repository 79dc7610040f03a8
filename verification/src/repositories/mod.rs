//! Users and tasks as the storage layer holds them, and the failures of
//! working with them.

pub mod laws;
pub mod model;
pub mod script;
pub mod store;
pub mod tasks;
pub mod users;

use vstd::prelude::*;
use crate::trusted::jwt::TokenFault;
use crate::errors::response::{
    ErrorReply, CONFLICT, INTERNAL_SERVER_ERROR, NOT_FOUND, UNAUTHORIZED,
};

verus! {

/// What the storage layer reported when a statement failed, reduced to what
/// the rules below read.
#[derive(Debug, Clone, PartialEq, Eq)]
pub struct StorageError {
    /// Name of the constraint that the statement broke, if it broke one.
    pub constraint: Option<String>,
    /// Whether the statement broke a foreign-key constraint.
    pub foreign_key_violation: bool,
    /// The storage layer's own words.
    pub message: String,
}

/// Mathematical value of a [`StorageError`].
pub struct StorageErrorView {
    pub constraint: Option<Seq<char>>,
    pub foreign_key_violation: bool,
    pub message: Seq<char>,
}

impl View for StorageError {
    type V = StorageErrorView;

    open spec fn view(&self) -> StorageErrorView {
        StorageErrorView {
            constraint: match self.constraint {
                Some(name) => Some(name@),
                None => None,
            },
            foreign_key_violation: self.foreign_key_violation,
            message: self.message@,
        }
    }
}

/// Why an operation on users or tasks failed.
#[derive(Debug, Clone, PartialEq, Eq)]
pub enum ModelError {
    /// Hashing a password failed.
    Argon2(String),
    /// A stored password hash could not be read.
    ArgonPasswordHash(String),
    /// The stored data broke a rule that the schema should have kept.
    Database(String),
    /// The email is registered already.
    EmailExists,
    /// No such row, as far as this caller may know.
    EntityNotFound,
    /// Signing a token failed.
    Jwt(TokenFault),
    /// The storage layer failed.
    Sqlx(StorageError),
    /// The caller is not who they claim, or not the owner.
    Unauthorised,
    /// The username is registered already.
    UsernameTaken,
}

/// Mathematical value of a [`ModelError`].
pub enum ModelErrorView {
    Argon2(Seq<char>),
    ArgonPasswordHash(Seq<char>),
    Database(Seq<char>),
    EmailExists,
    EntityNotFound,
    Jwt(TokenFault),
    Sqlx(StorageErrorView),
    Unauthorised,
    UsernameTaken,
}

impl View for ModelError {
    type V = ModelErrorView;

    open spec fn view(&self) -> ModelErrorView {
        match self {
            ModelError::Argon2(m) => ModelErrorView::Argon2(m@),
            ModelError::ArgonPasswordHash(m) => ModelErrorView::ArgonPasswordHash(m@),
            ModelError::Database(m) => ModelErrorView::Database(m@),
            ModelError::EmailExists => ModelErrorView::EmailExists,
            ModelError::EntityNotFound => ModelErrorView::EntityNotFound,
            ModelError::Jwt(fault) => ModelErrorView::Jwt(*fault),
            ModelError::Sqlx(e) => ModelErrorView::Sqlx(e@),
            ModelError::Unauthorised => ModelErrorView::Unauthorised,
            ModelError::UsernameTaken => ModelErrorView::UsernameTaken,
        }
    }
}

impl ModelErrorView {
    /// The status code that answers this failure.
    pub open spec fn status(self) -> u16 {
        match self {
            ModelErrorView::EmailExists | ModelErrorView::UsernameTaken => CONFLICT,
            ModelErrorView::EntityNotFound => NOT_FOUND,
            ModelErrorView::Unauthorised => UNAUTHORIZED,
            _ => INTERNAL_SERVER_ERROR,
        }
    }

    /// The message that answers this failure. Internal failures share one
    /// message, so that nothing of their cause reaches the client.
    pub open spec fn message(self) -> Seq<char> {
        match self {
            ModelErrorView::EmailExists => "Email already registered to an account"@,
            ModelErrorView::EntityNotFound => "Entity not found"@,
            ModelErrorView::UsernameTaken => "Username is already taken, please pick another one"@,
            ModelErrorView::Unauthorised => "Invalid email or password"@,
            _ => "Something went wrong on our end"@,
        }
    }
}

impl ModelError {
    /// The answer to a client whose request failed with this error.
    pub fn response(&self) -> (r: ErrorReply)
        ensures
            r.status == self@.status(),
            r.body.message@ == self@.message(),
    {
        match self {
            ModelError::EmailExists => ErrorReply::new(
                CONFLICT,
                "Email already registered to an account",
            ),
            ModelError::EntityNotFound => ErrorReply::new(NOT_FOUND, "Entity not found"),
            ModelError::UsernameTaken => ErrorReply::new(
                CONFLICT,
                "Username is already taken, please pick another one",
            ),
            ModelError::Unauthorised => ErrorReply::new(UNAUTHORIZED, "Invalid email or password"),
            ModelError::Sqlx(_)
            | ModelError::Argon2(_)
            | ModelError::ArgonPasswordHash(_)
            | ModelError::Database(_)
            | ModelError::Jwt(_) => ErrorReply::new(
                INTERNAL_SERVER_ERROR,
                "Something went wrong on our end",
            ),
        }
    }
}

} // verus!
