//! The core of an authentication service: users are registered under a
//! unique email with a hashed password, and a login yields a signed token.

pub mod config;
pub mod error;
pub mod flow;
pub mod laws;
pub mod model;
pub mod password;
pub mod secret;
pub mod table;
pub mod token;
