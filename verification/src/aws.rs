//! The blob store as the service uses it.

pub mod s3_client;
