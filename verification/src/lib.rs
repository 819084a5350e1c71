//! Printer discovery and print-job control through the host's spooler scripting
//! shell: this crate decides which command to run for each operation and what to
//! make of the outcome, and proves that those decisions follow the stated rules.
//! Running the command and touching the file system are left to the caller.

pub mod api;
pub mod commands;
pub mod error;
pub mod executor;
pub mod helper;
pub mod invocation;
pub mod models;
pub mod text;
pub mod windows;
