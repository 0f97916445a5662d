//! Core of a terminal dashboard that supervises a small set of child
//! processes: bounded log buffers with oldest-first eviction, per-slot
//! liveness bookkeeping, the dispatcher from menu commands to supervisor
//! operations, and the key-driven state transitions of the control loop.
//!
//! Process spawning, stream reading, terminal handling and configuration
//! persistence live outside this crate; they feed plain values (lines read,
//! spawn and kill outcomes, key presses) into the verified state machines
//! defined here.

pub mod command;
pub mod dispatch;
pub mod log_buffer;
pub mod menu;
pub mod supervisor;
pub mod text;
pub mod ui;
