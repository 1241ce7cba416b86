//! Contact-score pipeline for referral tracking.
//!
//! Selects eligible persons from a membership directory snapshot, reduces
//! each person's event timeline to the events that matter for scoring, walks
//! up to seven days from the most recent referral event, and aggregates one
//! scored record per successfully processed person under a bounded-admission
//! coordinator.

pub mod coordinator;
pub mod persons;
pub mod pipeline;
pub mod runcode;
pub mod scoring;
pub mod transport;
