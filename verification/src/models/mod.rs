//! The values that requests carry in and answers carry out.

pub mod auth;
pub mod tasks;
pub mod validator;

pub use self::validator::Validator;
