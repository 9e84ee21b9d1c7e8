//! A recorder for global keyboard and mouse input sessions.
//!
//! A session is started under a task name, normalized input events
//! accumulate in a capture buffer, and stopping the session renders
//! the buffer as a comma-separated tabular record.

pub mod buffer;
pub mod clock;
pub mod controller;
pub mod event;
pub mod export;
pub mod render;
