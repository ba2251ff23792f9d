//! Verified core of a desktop health-monitoring companion.
//!
//! A background scheduler periodically runs an external diagnostic probe,
//! caches the most recent successful snapshot, and lets callers reconfigure
//! the schedule, force an immediate probe, or read the cache. The decision
//! logic of that subsystem lives here with full contracts; the surrounding
//! process plumbing (timers, process spawning, file persistence) drives it
//! from outside through plain values.

pub mod audit;
pub mod health;
pub mod monitoring;
pub mod permissions;
pub mod probe;
pub mod scheduler;
pub mod settings;
pub mod text;
pub mod tray;
