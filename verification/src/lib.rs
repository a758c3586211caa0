//! Core logic for a host process that observes global keyboard events and
//! drives a minimal UI surface from dedicated worker threads.
//!
//! The crate models the three components as explicit state machines on plain
//! values: the per-registration hotkey listener with its message loop, the
//! process-wide one-shot key-release hook, and the deferred handle used to
//! dispatch commands into a UI object owned by another thread.  The blocking
//! OS calls themselves (hotkey registration, message retrieval, hook
//! installation, command posting) are a capability of the surrounding host
//! layer: it performs them and feeds their outcomes into these functions as
//! events, so every decision taken on those outcomes is verified here.

pub mod bridge;
pub mod hook;
pub mod hotkey;
pub mod modifiers;
pub mod surface;
