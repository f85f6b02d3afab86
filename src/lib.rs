//! Authentication core of a book catalogue backend: credential store,
//! password hashing, signed session tokens and the request guard.

pub mod error;
pub mod config;
pub mod password;
pub mod store;
pub mod token;
pub mod guard;
pub mod decimal;
pub mod auth;
