//! The publish/subscribe engine.
//!
//! [`topic`] holds the topic itself and its handles, [`registry`] the lists
//! of subscribers and the fan-out, [`retained`] the retained value with its
//! cached encoding. [`queue`], [`token`] and [`sharing`] hold the calls into
//! the crates the engine builds on. [`model`] is the mathematical view of a
//! topic, over which [`laws`] states what holds of every topic.

pub mod codec;
pub mod laws;
pub mod model;
pub mod queue;
pub mod registry;
pub mod retained;
pub mod sharing;
pub mod token;
pub mod topic;
