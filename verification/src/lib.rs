//! Turns webhooks into agent tasks, and agent tasks into Kubernetes jobs.
pub mod config;
pub mod headers;
pub mod ingest;
pub mod job;
pub mod json;
pub mod laws;
pub mod orchestrator;
pub mod text;
pub mod webhook;
pub mod wire;
