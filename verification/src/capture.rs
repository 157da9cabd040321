//! The capture operation.

use vstd::prelude::*;
use crate::error::CoverageWriteError;
use crate::runtime::{Action, Gate, RuntimeCall, RuntimeReply, Session};
use crate::version::version_matches;

verus! {

/// The next step of a capture, given what the runtime has answered so far:
/// first the version gate; then one data write, with value profiling exactly
/// when the host can allocate; then the result, which is success exactly when
/// the runtime reported status 0.
pub open spec fn capture_action(session: Session, allocation: bool) -> Action<
    Result<(), CoverageWriteError>,
> {
    match session.gate() {
        Gate::Unchecked => Action::Call(RuntimeCall::GetVersion),
        Gate::Refused => Action::VersionMismatch,
        Gate::Open => match session.written {
            None => Action::Call(
                RuntimeCall::WriteData { value_profiling: allocation, skip_name_data: false },
            ),
            Some(status) => Action::Return(
                if status == 0 {
                    Ok(())
                } else {
                    Err(CoverageWriteError)
                },
            ),
        },
    }
}

/// Captures the coverage data for the current program: says what the host is
/// to do next, given what the runtime has answered so far.
///
/// While the runtime writes, it hands its data to the writer bridge, which
/// forwards it to the sink. A capture that fails may have left part of its
/// output in the sink.
pub fn capture_coverage(session: &Session, allocation: bool) -> (action: Action<
    Result<(), CoverageWriteError>,
>)
    ensures
        action == capture_action(*session, allocation),
{
    match session.check_gate() {
        Gate::Unchecked => Action::Call(RuntimeCall::GetVersion),
        Gate::Refused => Action::VersionMismatch,
        Gate::Open => match session.written {
            None => Action::Call(
                RuntimeCall::WriteData { value_profiling: allocation, skip_name_data: false },
            ),
            Some(status) => if status == 0 {
                Action::Return(Ok(()))
            } else {
                Action::Return(Err(CoverageWriteError))
            },
        },
    }
}

/// A capture touches nothing before the version gate is open: until then
/// the one entry point it asks for is the version, and it returns no result;
/// and a runtime of another version ends it at once.
pub proof fn lemma_capture_is_gated(session: Session, allocation: bool)
    ensures
        capture_action(session, allocation) matches Action::Call(call) ==> call
            == RuntimeCall::GetVersion || call == (RuntimeCall::WriteData {
            value_profiling: allocation,
            skip_name_data: false,
        }),
        capture_action(session, allocation) matches Action::Call(call) ==> call
            == RuntimeCall::GetVersion || session.gate() == Gate::Open,
        capture_action(session, allocation) is Return ==> session.gate() == Gate::Open,
        capture_action(session, allocation) is VersionMismatch <==> session.gate() == Gate::Refused,
{
}

/// The course of a capture from a fresh session, each answer recorded as it
/// comes: the version, then the data write, then the result. Without the
/// means to allocate the capture goes the same way, only that the runtime is
/// asked to leave the value-profiling data out.
pub proof fn lemma_capture_run(version: u64, allocation: bool, written: i32)
    ensures
        ({
            let s0 = Session::fresh();
            let s1 = s0.after(RuntimeReply::Version(version));
            let s2 = s1.after(RuntimeReply::Written(written));
            &&& capture_action(s0, allocation) == Action::<Result<(), CoverageWriteError>>::Call(
                RuntimeCall::GetVersion,
            )
            &&& !version_matches(version) ==> capture_action(s1, allocation) == Action::<
                Result<(), CoverageWriteError>,
            >::VersionMismatch
            &&& version_matches(version) ==> capture_action(s1, allocation) == Action::<
                Result<(), CoverageWriteError>,
            >::Call(RuntimeCall::WriteData { value_profiling: allocation, skip_name_data: false })
            &&& version_matches(version) && written == 0 ==> capture_action(s2, allocation)
                == Action::<Result<(), CoverageWriteError>>::Return(Ok(()))
            &&& version_matches(version) && written != 0 ==> capture_action(s2, allocation)
                == Action::<Result<(), CoverageWriteError>>::Return(Err(CoverageWriteError))
        }),
{
}

} // verus!
