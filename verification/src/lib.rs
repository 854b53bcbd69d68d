//! Execution-profiling support for a bytecode interpreter.
//!
//! Each dispatched operation carries a tag; a classification policy decides
//! whether the operation is instrumented, under which stable kind string its
//! samples are collected, and which numeric properties accompany them. Timing
//! samples are accumulated per kind in capped, append-only logs whose rows
//! use a fixed textual format, and whose entry counts survive a restart by
//! recounting the rows already on record.
//!
//! This crate holds the verified core: the classification policy, the row and
//! header formats, the per-kind sample sinks with their cap, the registry
//! that maps kinds to sinks, and the line counting used to resume a log.
//! Timestamps, file handles and process-wide locking stay with the caller,
//! which feeds plain values (kind strings, property lists, elapsed
//! nanoseconds, log contents) in and writes the returned lines out.

pub mod isa;
pub mod numfmt;
pub mod policy;
pub mod registry;
pub mod rowfmt;
pub mod sink;
pub mod timer;
