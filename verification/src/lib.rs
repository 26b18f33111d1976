//! Command-line controller for an MPRIS media player.
//!
//! The crate decodes loosely typed property payloads received over the
//! session bus into a strongly typed domain model, renders results as
//! human-readable lines or JSON records, and drives the bounded-wait
//! protocol that reconciles transport commands with asynchronous
//! property-change notifications.

pub mod decode;
pub mod domain;
pub mod render;
pub mod report;
pub mod session;
