//! Verified core of the task-management web server: configuration, token
//! acceptance, error classification and the decisions that the HTTP handlers make.
//!
//! - `config`: the server's settings from its environment, and the port parser.
//! - `ident`: UUIDs as 128-bit values, read and written through the `uuid` crate.
//! - `auth`: bearer tokens, the rules a token must meet, and accepting its subject.
//! - `error`: how failures are classified and answered.
//! - `types`: request and response bodies, and what is handed to the task store.
//! - `handlers`: what each route decides before and after it calls the task store.

pub mod auth;
pub mod config;
pub mod error;
pub mod handlers;
pub mod ident;
pub mod types;
