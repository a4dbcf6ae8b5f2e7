//! What the operations on tracked series answer to their callers.

pub mod service;
