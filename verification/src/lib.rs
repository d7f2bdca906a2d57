//! Backend-agnostic orchestration for zero-knowledge proof benchmarks.
//!
//! For a guest program and a sequence of inputs, a benchmark session builds
//! the guest, sets the proving backend up, and then, for each input in turn,
//! loads, proves, compresses if asked, verifies and measures, and at the end
//! writes one report row for every input that went through.
//!
//! The decisions of a session are two state machines, [`pipeline`] for one
//! input and [`orchestrator`] for the whole session: each names the action to
//! do next and takes in what came of it. Every transition is a spec function
//! over the machine's view, and what holds of whole runs and sessions is
//! proved from those functions in [`pipeline_laws`] and
//! [`orchestrator_laws`]. The effects are behind the traits of [`driver`],
//! whose functions run the machines to their end.

pub mod backend;
pub mod clock;
pub mod config;
pub mod decimal;
pub mod driver;
pub mod error;
pub mod guest;
pub mod input;
pub mod metrics;
pub mod naming;
pub mod orchestrator;
pub mod orchestrator_laws;
pub mod pipeline;
pub mod pipeline_laws;
pub mod report;
