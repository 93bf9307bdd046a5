//! Backend models: their description, the canonical form of a client's
//! model name, and the resolver that maps one to the other.

pub mod resolver;
pub mod types;
pub mod utils;
