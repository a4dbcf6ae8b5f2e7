//! The jobs run over the stored rows.

pub mod series;
