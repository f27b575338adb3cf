//! Core of an authenticated, in-memory resource service: a store of posts and
//! users keyed by auto-incrementing identifiers, a service layer that stamps
//! timestamps and reports structured failures, a hot-swappable configuration
//! snapshot, a bearer-token authentication gate, and the request pipeline that
//! translates failures into transport status codes.
pub mod auth;
mod clock;
pub mod decimal;
pub mod errors;
pub mod handlers;
pub mod hello;
pub mod laws;
pub mod model;
pub mod password;
pub mod posts;
pub mod response;
pub mod search;
pub mod settings;
pub mod state;
pub mod token;
pub mod users;
