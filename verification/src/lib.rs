//! A milestone escrow between a client, a freelancer and an arbiter.
//!
//! The client funds a job split into milestones; the freelancer marks each
//! milestone delivered; the client releases its funds in part or in full,
//! or the freelancer claims them once the auto-release window has passed;
//! either party may freeze a milestone in a dispute that the arbiter
//! settles by paying the freelancer or refunding the client.
pub mod types;
pub mod escrow;
pub mod admin;
pub mod rules;
pub mod lifecycle;
pub mod approval;
pub mod dispute;
pub mod report;
pub mod invariants;
pub mod laws;
pub mod outcomes;

