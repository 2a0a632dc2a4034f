//! Handles to objects that a foreign runtime owns and may destroy at any
//! time, and the brackets through which that runtime's events reach the
//! handlers of a compositor.
//!
//! A foreign object is wrapped once, when it is discovered, in a strong
//! handle that owns a liveliness token. Weak handles may be kept for good:
//! each use upgrades the handle, which fails once the object is gone and
//! which never hands out a second strong handle while one is out. Events
//! are dispatched between a lock and an unlock of the compositor and of the
//! resources of the event, so that a handler that reaches for a locked
//! resource through a weak handle is found out.
//!
//! Addresses of foreign objects are kept as numbers and never followed
//! here: what is done through them is left to the caller.
pub mod compositor;
pub mod flags;
pub mod handle;
pub mod interest;
pub mod keyboard;
pub mod liveliness;
pub mod manager;
pub mod pointer;
pub mod render;
pub mod seat;
pub mod types;
pub mod utils;
pub mod xdg_shell_v6_events;
