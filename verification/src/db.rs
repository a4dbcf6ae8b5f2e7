//! Stored rows and the arithmetic of their listing.

pub mod inquiry;
pub mod model;
