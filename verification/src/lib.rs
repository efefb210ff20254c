//! Reconciliation-and-import engine for a project's tracked repositories.
//!
//! One invocation applies a signed payload to a relational store: it updates
//! project attributes, removes repositories no longer tracked, and for each
//! newly tracked repository imports its open non-pull-request issues fetched
//! from a remote code-hosting API.  The decision logic is the verified state
//! machine of [`engine`]; the surrounding process performs the I/O it
//! requests and feeds the outcome of each action back as an event.  [`laws`]
//! proves what whole runs of the machine can and cannot do.

pub mod engine;
pub mod laws;
pub mod query;
pub mod repo_url;
pub mod types;
