//! Build-report pipeline for a package-build farm.
//!
//! Workers build a tree of packages and report one outcome per
//! (package, architecture) pair to a collector, which keeps one
//! authoritative record per pair. This crate holds the verified core:
//! the result store's merge semantics, the collector's validation of a
//! submission, the log codec's round trip, the listing filter for the
//! source tree, and the worker's cycle as a state machine.

pub mod codec;
pub mod collector;
pub mod lister;
pub mod package;
pub mod store;
pub mod worker;
