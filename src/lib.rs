//! A command-line client's core for a financial-data-aggregation API: the
//! command model, the startup credential check, and a dispatcher that turns
//! one parsed command into exactly one remote operation and its outcome.

pub mod command;
pub mod session;
pub mod payload;
pub mod dispatch;
pub mod account;
pub mod user;
pub mod laws;
