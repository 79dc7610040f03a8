//! Verified core of a task-tracking service: who the caller is, what they
//! own, and which answer each failure gets.
//!
//! Nothing here touches the network, the disk or the database. Requests and
//! storage replies arrive as plain values, and decisions leave as plain
//! values: the statement to run next, the answer to send. Where a decision
//! needs the time, it can be handed in; the functions that read the clock
//! themselves say so.

pub mod config;
pub mod context;
pub mod errors;
pub mod middlewares;
pub mod models;
pub mod repositories;
pub mod router;
pub mod text;
pub mod trusted;
