//! Point-in-time host resource snapshots: the logic behind a metrics endpoint
//! that reports CPU, memory, swap and GPU utilisation.
//!
//! The library decides what a request answers from counters sampled by its
//! caller: it parses the start-up configuration, renders byte counts in IEC
//! units, gathers GPU readings into a sample or a sampling error, and assembles
//! the snapshot and the status of the response.

pub mod config;
pub mod size;
pub mod snapshot;
