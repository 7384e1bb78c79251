//! Orchestration logic of a document de-identification pipeline: input
//! validation, workspace layout, staging and relocation plans, the engine's
//! command line, the progress schedule and the job state machine.

pub mod paths;
pub mod pdf;
pub mod policy;
pub mod fileops;
pub mod workspace;
pub mod transfer;
pub mod engine;
pub mod progress;
pub mod pipeline;
