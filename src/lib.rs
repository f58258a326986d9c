//! Orchestration core for a job-search service: query building, result
//! projection, bounded detail expansion and batched searches, each stated
//! and proved against a mathematical model.

pub mod config;
pub mod orchestrate;
pub mod project;
pub mod query;
pub mod status;
pub mod template;
pub mod text;
