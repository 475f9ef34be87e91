//! Core of a joke-fetching UI: a small fetch coordinator that tracks one
//! in-flight request flag and the outcome of the most recent completed
//! fetch, plus the pure rules that turn that state into a render decision.

pub mod coordinator;
pub mod render;
