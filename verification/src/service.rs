//! The client.

pub mod fetcher;
