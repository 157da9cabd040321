//! The instrumentation runtime as the operations see it: the entry points
//! that the host invokes for them, what it answered, and what is to be done
//! next. The runtime itself stays with the host.

use vstd::prelude::*;
use crate::version::{check_version, version_matches};

verus! {

/// An entry point of the instrumentation runtime.
#[derive(Copy, Clone, Debug, PartialEq, Eq, Structural)]
pub enum RuntimeCall {
    /// Report the format version word.
    GetVersion,
    /// Set every live counter to zero.
    ResetCounters,
    /// Check the blob at hand against the live state.
    CheckCompatibility,
    /// Fold the blob at hand into the live counters.
    MergeFromBuffer,
    /// Stream the current data through the writer bridge.
    WriteData {
        /// Whether the runtime is handed its value-profiling reader, or none.
        value_profiling: bool,
        /// Whether the runtime is to leave the name data out.
        skip_name_data: bool,
    },
}

/// What the runtime answered to a call.
#[derive(Copy, Clone, Debug, PartialEq, Eq, Structural)]
pub enum RuntimeReply {
    /// The format version word.
    Version(u64),
    /// The counters were reset.
    CountersReset,
    /// The status of the compatibility check; 0 for a compatible blob.
    Compatibility(i32),
    /// The status of the merge; 0 once the blob was folded in.
    Merged(i32),
    /// The status of the data write; 0 once every byte reached the sink.
    Written(i32),
}

/// What the host is to do next for an operation.
#[derive(Debug, PartialEq, Eq)]
pub enum Action<T> {
    /// Invoke this entry point and record what it answers.
    Call(RuntimeCall),
    /// The operation is over, with this result.
    Return(T),
    /// The runtime speaks another format version: nothing can be trusted
    /// from here on, and the process is to end.
    VersionMismatch,
}

/// Whether an operation may touch counters and buffers.
#[derive(Copy, Clone, Debug, PartialEq, Eq, Structural)]
pub enum Gate {
    /// The runtime has not reported its version yet.
    Unchecked,
    /// The runtime reported a version other than that of this crate.
    Refused,
    /// The runtime reported the version of this crate.
    Open,
}

/// What the runtime has answered in the course of one operation.
#[derive(Copy, Clone, Debug, PartialEq, Eq, Structural)]
pub struct Session {
    /// The version word, once reported.
    pub version: Option<u64>,
    /// Whether the counters were reset.
    pub counters_reset: bool,
    /// The status of the compatibility check, once made.
    pub compatibility: Option<i32>,
    /// The status of the merge, once made.
    pub merged: Option<i32>,
    /// The status of the data write, once made.
    pub written: Option<i32>,
}

impl Session {
    /// The session of an operation that has not asked the runtime anything yet.
    pub open spec fn fresh() -> Session {
        Session { version: None, counters_reset: false, compatibility: None, merged: None, written: None }
    }

    /// The session after the runtime gave `reply`: the answer takes its place,
    /// over an earlier one of its kind, and the rest stays.
    pub open spec fn after(self, reply: RuntimeReply) -> Session {
        match reply {
            RuntimeReply::Version(word) => Session { version: Some(word), ..self },
            RuntimeReply::CountersReset => Session { counters_reset: true, ..self },
            RuntimeReply::Compatibility(status) => Session { compatibility: Some(status), ..self },
            RuntimeReply::Merged(status) => Session { merged: Some(status), ..self },
            RuntimeReply::Written(status) => Session { written: Some(status), ..self },
        }
    }

    /// Where the version gate stands.
    pub open spec fn gate(self) -> Gate {
        match self.version {
            None => Gate::Unchecked,
            Some(word) => if version_matches(word) {
                Gate::Open
            } else {
                Gate::Refused
            },
        }
    }

    /// Starts the session of an operation.
    pub fn new() -> (session: Session)
        ensures
            session == Session::fresh(),
    {
        Session { version: None, counters_reset: false, compatibility: None, merged: None, written: None }
    }

    /// Records what the runtime answered.
    pub fn record(&mut self, reply: RuntimeReply)
        ensures
            *final(self) == old(self).after(reply),
    {
        match reply {
            RuntimeReply::Version(word) => {
                self.version = Some(word);
            },
            RuntimeReply::CountersReset => {
                self.counters_reset = true;
            },
            RuntimeReply::Compatibility(status) => {
                self.compatibility = Some(status);
            },
            RuntimeReply::Merged(status) => {
                self.merged = Some(status);
            },
            RuntimeReply::Written(status) => {
                self.written = Some(status);
            },
        }
    }

    /// Tests the version gate.
    pub fn check_gate(&self) -> (gate: Gate)
        ensures
            gate == self.gate(),
    {
        match self.version {
            None => Gate::Unchecked,
            Some(word) => if check_version(word) {
                Gate::Open
            } else {
                Gate::Refused
            },
        }
    }
}

} // verus!
