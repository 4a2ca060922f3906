//! A sequential step runner.
//!
//! An ordered list of named, fallible steps is executed one at a time. A
//! progress record tells observers which step is in progress, a failure is
//! reported together with the name of its step, and a run either stops at the
//! first failure or goes on and collects them all.
//!
//! - [`step`]: the progress record, and running a single step.
//! - [`registry`]: the ordered list of steps of one run.
//! - [`runner`]: running a registry, the report of a run, and its
//!   mathematical statement.
//! - [`laws`]: what holds of every run.
//! - [`keys`]: the labels of the provisioning steps.

pub mod keys;
pub mod laws;
pub mod registry;
pub mod runner;
pub mod step;
