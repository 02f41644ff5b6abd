//! Bulk HTTP(S) HEAD probing: admission control for a bounded number of
//! in-flight probes, rendering of per-URL result lines, and the preflight
//! check of the process's file-descriptor ceiling.
pub mod admission;
pub mod config;
pub mod controller;
pub mod limit;
pub mod outcome;
