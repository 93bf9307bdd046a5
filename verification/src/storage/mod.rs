//! What the proxy keeps: its aliases and its blobs.

pub mod blob;
pub mod virtual_models;
