//! Admission-controlled print-job submission pipeline.
//!
//! The crate verifies the core of a job-submission service: the entity layer
//! with its validation and row-mapping rules, a fixed-capacity admission controller,
//! the storage layer's typed result mapping, and the per-request orchestration
//! state machine that ties an external lookup's outcome to persistence and to
//! the final response. HTTP wiring, the database driver and the lookup client
//! live outside the library and hand it plain values.

pub mod admission;
pub mod model;
pub mod orchestrator;
pub mod storage;
