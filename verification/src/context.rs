//! The capability contexts handed to user callbacks.

pub mod context;
pub mod window_context;
