//! Bulk-loads tabular records into a remote property-graph database.
//!
//! The verified core is the import pipeline: mapping records to graph
//! elements, the per-record outcome discipline of the vertex and edge
//! importers, the bounded-retry state machine for transient connection
//! failures, and the aggregation of outcomes into a final report. The
//! remote round trips themselves (and the file parsing that produces the
//! records) are performed by an unverified driver that feeds their
//! outcomes back into these state machines.

pub mod edge_import;
pub mod models;
pub mod orchestrator;
pub mod report;
pub mod retry;
pub mod vertex_import;
