//! Tracking of serialized manga across publisher sites: the canonical record,
//! the per-source adapters and the change detection between a stored row and
//! a freshly fetched record.
//!
//! The library computes and decides; it neither asks the network nor the
//! store. A fetch and a run of the update job are therefore given as steps:
//! the library names what is to be asked, and its caller hands back the
//! answer.

pub mod db;
pub mod fetch;
pub mod html;
pub mod job;
pub mod manga;
pub mod parser;
pub mod server;
pub mod text;
pub mod time;
pub mod types;
