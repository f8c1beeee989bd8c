//! Conformance-test harness core for XML readers.
//!
//! The crate interprets test-suite manifests, resolves every test case to the
//! document it names, drives a streaming XML reader over that document and
//! compares what was observed with what the manifest expects.

pub mod collect;
pub mod harness;
pub mod manifest;
pub mod outcome;
pub mod paths;
pub mod reader;
pub mod release;
pub mod resolver;
pub mod runner;
pub mod text;
