//! Write coordination for an image service whose binary content lives in a
//! blob store and whose descriptive records live in a relational store.
//!
//! The crate holds the decisions only. Every operation is a small state
//! machine: it names the next store command, takes the store's reply and
//! either names another command or finishes. The caller performs the
//! commands, so the same verified sequencing serves any transport.

pub mod aws;
pub mod clock;
pub mod config;
pub mod ident;
pub mod models;
pub mod repositories;
pub mod saga;
pub mod security;
pub mod services;
pub mod stores;
pub mod laws;
