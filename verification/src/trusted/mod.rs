//! Everything this library takes on trust: calls into other crates, each with
//! the contract that is believed of it, not proved.

pub mod clock;
pub mod cookie;
pub mod email;
pub mod identifier;
pub mod json;
pub mod jwt;
pub mod password;
pub mod text;
