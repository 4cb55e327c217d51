//! Admission-control decision logic for workload priority classes.
//!
//! A policy configuration names either the priority classes a workload may
//! request (`allowed_priority_classes`) or the ones it may not
//! (`denied_priority_classes`). The library validates such a configuration
//! and evaluates a single workload's requested priority class against it,
//! producing an accept/reject verdict with a human-readable reason.
//!
//! The surrounding host is expected to deserialize the configuration, extract
//! the workload descriptor from the admission payload, and deliver the
//! verdict; none of that plumbing lives here.

pub mod decision;
pub mod settings;
pub mod string_set;
