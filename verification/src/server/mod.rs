//! What the server decides before a handler is reached: which paths go to
//! the backend as they are, and what answers a request that was turned
//! away.

pub mod rejection;
pub mod routes;
