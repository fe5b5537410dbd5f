//! Verified core of an A/B-bank firmware updater.
//!
//! The library holds the logic of the updater: bank identities and their
//! device mapping, mount-table parsing and rendering, the configuration
//! copy plan, boot-loader variable parsing, download progress accounting,
//! and the command state machine.  I/O (mounting, processes, network,
//! files, the message socket) lives outside the library and hands plain
//! values in and out.

pub mod bank;
pub mod config;
pub mod errors;
pub mod manager;
pub mod mount_table;
pub mod pipeline;
pub mod progress;
pub mod state_machine;
pub mod status;
pub mod ubootenv;
