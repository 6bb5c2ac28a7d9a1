//! Decision logic of an automount daemon for removable block devices.
//!
//! The daemon watches the device directory; for every partition node that
//! appears it prepares a mount point and mounts the partition there, and it
//! tears the mount point down again when the node disappears. This crate
//! holds every decision of that pipeline as verified code over plain values.
//! The program around it performs the operations the library asks for and
//! reports back whether each one succeeded.

pub mod action;
pub mod device;
pub mod notifications;
pub mod orchestrator;
pub mod router;
pub mod run;
pub mod session;
pub mod startup;

pub use crate::orchestrator::{process_created, process_removed};
