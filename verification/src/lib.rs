//! Conversation orchestration for a live chat avatar.
//!
//! The crate holds the decisions of the avatar's control loop: the bounded
//! conversation history, the payload sent to the language model, the split of
//! a reply into emotion-tagged segments, the expression changes of the avatar
//! and the step function that sequences one turn. Everything that waits on
//! the outside world (network, audio device, timers) is left to the caller,
//! which feeds events in and carries actions out.

pub mod config;
pub mod error;
pub mod history;
pub mod model;
pub mod service;
pub mod text;
