//! A verified core for a windowed, event-driven application.
//!
//! The crate coordinates two halves of an interactive program: a platform
//! backend that drives callbacks on its own schedule, and user code that
//! polls for discrete events.  It provides the event channel between them,
//! the event-loop state machines with their exactly-once quit semantics,
//! and the window registry with its counted-handle close protocol.

pub mod channel;
pub mod context;
pub mod dynamic;
pub mod event_loop;
pub mod input;
pub mod window;
