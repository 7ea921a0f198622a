//! The repositories: what each store is asked, and what is made of its
//! answers.

pub mod exchange;
pub mod image;
pub mod sql;
pub mod user;
