//! Task orchestration and library index for a local photo and video library.
//!
//! [`bootstrap`] sequences the maintenance jobs of the library one at a time,
//! [`library`] holds the snapshot of library entries that readers see,
//! [`controller`] turns scanned pictures into repository records, and
//! [`album`] decides which entries an album shows. [`protocol`] proves how
//! the orchestrator behaves over whole runs of events.
pub mod album;
pub mod bootstrap;
pub mod controller;
pub mod error;
pub mod library;
pub mod model;
pub mod protocol;
pub mod repo;
pub mod scanner;
