//! Code coverage and profile capture for programs that run without an
//! operating system.
//!
//! The instrumentation runtime that owns the counters stays with the host.
//! This crate holds what has to be decided around it: the format version
//! gate, the bridge that turns the runtime's lists of byte ranges into one
//! ordered byte stream for a sink of the host's choosing, and the steps of
//! the capture, merge and reset operations.

pub mod bridge;
pub mod capture;
pub mod error;
pub mod merge;
pub mod range;
pub mod reset;
pub mod runtime;
pub mod sink;
pub mod stream;
pub mod version;
pub mod workload;

pub use crate::bridge::write_callback;
pub use crate::capture::capture_coverage;
pub use crate::error::{CoverageWriteError, IncompatibleCoverageData};
pub use crate::merge::merge_coverage;
pub use crate::range::ByteRange;
pub use crate::reset::reset_coverage;
pub use crate::runtime::{Action, Gate, RuntimeCall, RuntimeReply, Session};
pub use crate::sink::CoverageWriter;
pub use crate::version::{check_version, INSTR_PROF_RAW_VERSION, VARIANT_MASKS_ALL};
pub use crate::workload::do_stuff;
