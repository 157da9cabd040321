//! The reset operation.

use vstd::prelude::*;
use crate::runtime::{Action, Gate, RuntimeCall, RuntimeReply, Session};
use crate::version::version_matches;

verus! {

/// The next step of a reset, given what the runtime has answered so far:
/// first the version gate, then the reset of the counters, then the end.
pub open spec fn reset_action(session: Session) -> Action<()> {
    match session.gate() {
        Gate::Unchecked => Action::Call(RuntimeCall::GetVersion),
        Gate::Refused => Action::VersionMismatch,
        Gate::Open => if session.counters_reset {
            Action::Return(())
        } else {
            Action::Call(RuntimeCall::ResetCounters)
        },
    }
}

/// Resets all coverage counters in the program to zero: says what the host is
/// to do next, given what the runtime has answered so far.
pub fn reset_coverage(session: &Session) -> (action: Action<()>)
    ensures
        action == reset_action(*session),
{
    match session.check_gate() {
        Gate::Unchecked => Action::Call(RuntimeCall::GetVersion),
        Gate::Refused => Action::VersionMismatch,
        Gate::Open => if session.counters_reset {
            Action::Return(())
        } else {
            Action::Call(RuntimeCall::ResetCounters)
        },
    }
}

/// A reset touches nothing before the version gate is open: until then the
/// one entry point it asks for is the version, and it does not end; and a
/// runtime of another version ends it at once.
pub proof fn lemma_reset_is_gated(session: Session)
    ensures
        reset_action(session) matches Action::Call(call) ==> call == RuntimeCall::GetVersion
            || call == RuntimeCall::ResetCounters,
        reset_action(session) matches Action::Call(call) ==> call == RuntimeCall::GetVersion
            || session.gate() == Gate::Open,
        reset_action(session) is Return ==> session.gate() == Gate::Open,
        reset_action(session) is VersionMismatch <==> session.gate() == Gate::Refused,
{
}

/// The course of a reset from a fresh session, each answer recorded as it
/// comes: the version, then the reset of the counters, then the end.
pub proof fn lemma_reset_run(version: u64)
    ensures
        ({
            let s0 = Session::fresh();
            let s1 = s0.after(RuntimeReply::Version(version));
            let s2 = s1.after(RuntimeReply::CountersReset);
            &&& reset_action(s0) == Action::<()>::Call(RuntimeCall::GetVersion)
            &&& !version_matches(version) ==> reset_action(s1) == Action::<()>::VersionMismatch
            &&& version_matches(version) ==> reset_action(s1) == Action::<()>::Call(
                RuntimeCall::ResetCounters,
            )
            &&& version_matches(version) ==> reset_action(s2) == Action::<()>::Return(())
        }),
{
}

} // verus!
