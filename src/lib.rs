//! An edge gateway's request pipeline: per-request context and trace lines,
//! the error taxonomy, and the proxy protocol that classifies backend replies.

pub mod config;
pub mod cors;
pub mod errors;
pub mod health;
pub mod json;
pub mod middleware;
pub mod pipeline;
pub mod proxy;
pub mod text;
pub mod users;
