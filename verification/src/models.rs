//! The records the service stores and the shapes it answers with.

pub mod image;
pub mod user;
