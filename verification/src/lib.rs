//! Coordination core for a shell-sorting machine controller.
//!
//! The machine is driven by three long-running device actors — a hardware
//! controller monitor, a directory of ESPHome network cameras, and a directory
//! of locally attached USB cameras.  Each actor exclusively owns one hardware
//! surface, serializes every operation against it, and publishes its latest
//! known state as a status snapshot.  Web handlers talk to the actors through
//! typed request values and a broadcast event bus; they never touch hardware
//! directly.
//!
//! This crate holds the verified core of that design: the message taxonomy,
//! the per-actor state machines (detection, selection, streaming, capture
//! planning, brightness, health checks, configuration changes, lifecycle),
//! and the data model for shell-case records.  The asynchronous plumbing —
//! channels, HTTP, camera backends — lives outside and feeds the core plain
//! values.

pub mod camera_manager;
pub mod config;
pub mod controller_monitor;
pub mod error;
pub mod laws;
pub mod protocol;
pub mod shell_data;
pub mod text;
pub mod usb_camera_controller;
pub mod web_server;

pub use error::SorterError;
