//! The account service: sign-up, login, logout and the current user.

pub mod account;
pub mod user;
