//! The verified core of the `pk` task scheduler.

pub mod auth;
pub mod broadcaster;
pub mod client;
pub mod clock;
pub mod comm;
pub mod frontend;
pub mod ids;
pub mod json;
pub mod laws;
pub mod manager;
pub mod models;
pub mod notify;
pub mod progress;
pub mod session;
pub mod statement;
pub mod task_config;
pub mod text;
