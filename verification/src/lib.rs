//! Fallback-ordered window configuration.
//!
//! A [`builder::WindowBuilder`] accumulates desired window attributes and an
//! ordered list of candidate context-hint sets, then resolves them into a
//! [`search::BuildPlan`]: one attempt per candidate, each attempt applying the
//! common hints first and the candidate's hints after them. A
//! [`search::BuildSession`] drives the attempts in order against a windowing
//! handle owned by the caller, stopping at the first success.

pub mod builder;
pub mod hints;
pub mod search;
