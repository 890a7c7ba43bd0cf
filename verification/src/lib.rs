//! Secure-input detection and overlay positioning for the Keynest assistant.
//!
//! The crate holds the decision logic of the assistant's floating overlay:
//! which focus changes count as landing on a password field, where on screen
//! the overlay goes, and what the overlay's visibility is after each trigger.
//! Everything here works on plain values; talking to the operating system and
//! to the window manager is left to the host application.

pub mod geometry;
pub mod event;
pub mod classifier;
pub mod resolver;
pub mod placement;
pub mod machine;
pub mod source;
pub mod triggers;
pub mod bridge;
pub mod assistant;
