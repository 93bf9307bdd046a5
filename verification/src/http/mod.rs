//! The translation of requests for the backend and the reading of what
//! comes back.

pub mod client;
pub mod error;
pub mod parsing;
pub mod request;
pub mod response;
