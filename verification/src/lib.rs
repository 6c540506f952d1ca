//! A serial connection that can be shared: the session on the physical
//! port, the virtual port pairs of the null-modem driver, the coordinator
//! that brings the two together, and the privileged helper that runs the
//! driver's commands where rights are missing.
//!
//! The library decides and the caller acts. Whatever touches the system,
//! a process, a socket, a port or the clock, is named as an action and
//! answered with an event; the rules in between are verified.

pub mod admin_service;
pub mod com0com_manager;
pub mod commands;
pub mod command_run;
pub mod decimal;
pub mod driver_task;
pub mod error;
pub mod hub4com_manager;
pub mod ipc;
pub mod listing;
pub mod port_sharing_manager;
pub mod scripting;
pub mod serial_manager;
pub mod text;
