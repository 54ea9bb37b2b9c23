//! Verified core of a desktop shell that supervises a long-running local
//! backend process: health probing, a bounded-restart watchdog state machine,
//! launch-plan construction, data-category management, and the native menu
//! model. All I/O (process spawning, HTTP probes, filesystem scans, event
//! emission) lives in the surrounding application; this crate holds the
//! decisions and proves them correct.

pub mod cleanup;
pub mod laws;
pub mod launcher;
pub mod menu;
pub mod probe;
pub mod supervisor;
