//! In-memory record and configuration models.

pub mod config;
pub mod csv;
