//! A typed client for the schedule service of a university: the addresses of
//! its endpoints, and the records that its answers are read into.
//!
//! The client does no networking of its own. Each call is handed the
//! transport, a function from an address to the text found there or to the
//! failure that stopped it, and each contract says exactly what comes back
//! for every outcome of that one request.

pub mod decimal;
pub mod decode;
pub mod error;
pub mod json;
pub mod naming;
pub mod service;
pub mod text;
pub mod types;
