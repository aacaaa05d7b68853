//! A verified ingestion pipeline for a full-text search index.
//!
//! The library moves line-delimited records from an untrusted text stream
//! into a single serializing index writer: a bounded line queue feeds a pool
//! of parser workers, a bounded document queue feeds the one writer commit
//! manager, and the run ends in exactly one commit or one rollback. The
//! index engine itself is an external collaborator reached through trusted
//! wrappers; everything the pipeline decides — budgets, accounting,
//! backpressure, commit-or-rollback — is verified here.

pub mod config;
pub mod control;
pub mod counters;
pub mod errors;
pub mod ingest;
pub mod model;
