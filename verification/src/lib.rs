//! Orchestration core of a differential compiler test harness.
//!
//! Source snippets are fed through two toolchains — a trusted reference
//! compiler and a candidate compiler under development — and the observable
//! behaviour of the two compiled programs is compared to decide pass or fail.
//! This crate holds the verified core: the test-case model, the five-stage
//! pipeline state machine with its timeout and failure policy, the verdict
//! rules, the command construction, and the result store with its
//! allocate-then-fill protocol. Process spawning, timers, and presentation
//! are left to the surrounding application.

pub mod command;
pub mod model;
pub mod orchestrator;
pub mod pipeline;
pub mod store;
pub mod verdict;
