//! Username/password authentication without any I/O of its own.
//!
//! The three operations of the service (register an account, log in for a
//! bearer token, resolve a token back to a username) are written as functions
//! from plain values to plain values. Whoever embeds the library talks to the
//! credential store and to the network, and hands the answers in.

mod clock;
pub mod error;
pub mod guarantees;
pub mod password;
pub mod service;
pub mod store;
pub mod token;

pub use crate::error::AuthError;
pub use crate::service::{
    check_credentials, login, login_at, login_status, login_with_clock, me, me_at, me_status,
    me_with_clock, register, register_outcome, register_status, UserRecord,
};
pub use crate::store::StoreFault;
pub use crate::token::Claims;
