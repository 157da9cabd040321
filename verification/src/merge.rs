//! The merge operation.

use vstd::prelude::*;
use crate::error::IncompatibleCoverageData;
use crate::runtime::{Action, Gate, RuntimeCall, RuntimeReply, Session};
use crate::version::version_matches;

verus! {

/// The next step of a merge, given what the runtime has answered so far:
/// first the version gate; then the compatibility check; then, for a
/// compatible blob only, the merge itself; then the result, which is success
/// exactly when both reported status 0.
pub open spec fn merge_action(session: Session) -> Action<Result<(), IncompatibleCoverageData>> {
    match session.gate() {
        Gate::Unchecked => Action::Call(RuntimeCall::GetVersion),
        Gate::Refused => Action::VersionMismatch,
        Gate::Open => match (session.compatibility, session.merged) {
            (None, _) => Action::Call(RuntimeCall::CheckCompatibility),
            (Some(compatible), None) => if compatible == 0 {
                Action::Call(RuntimeCall::MergeFromBuffer)
            } else {
                Action::Return(Err(IncompatibleCoverageData))
            },
            (Some(compatible), Some(merged)) => Action::Return(
                if compatible == 0 && merged == 0 {
                    Ok(())
                } else {
                    Err(IncompatibleCoverageData)
                },
            ),
        },
    }
}

/// Merges previously dumped coverage data into the coverage counters: says
/// what the host is to do next, given what the runtime has answered so far.
pub fn merge_coverage(session: &Session) -> (action: Action<Result<(), IncompatibleCoverageData>>)
    ensures
        action == merge_action(*session),
{
    match session.check_gate() {
        Gate::Unchecked => Action::Call(RuntimeCall::GetVersion),
        Gate::Refused => Action::VersionMismatch,
        Gate::Open => match session.compatibility {
            None => Action::Call(RuntimeCall::CheckCompatibility),
            Some(compatible) => if compatible != 0 {
                Action::Return(Err(IncompatibleCoverageData))
            } else {
                match session.merged {
                    None => Action::Call(RuntimeCall::MergeFromBuffer),
                    Some(merged) => if merged == 0 {
                        Action::Return(Ok(()))
                    } else {
                        Action::Return(Err(IncompatibleCoverageData))
                    },
                }
            },
        },
    }
}

/// A merge touches nothing before the version gate is open: until then the
/// one entry point it asks for is the version, and it returns no result; and
/// a runtime of another version ends it at once.
pub proof fn lemma_merge_is_gated(session: Session)
    ensures
        merge_action(session) matches Action::Call(call) ==> call == RuntimeCall::GetVersion
            || call == RuntimeCall::CheckCompatibility || call == RuntimeCall::MergeFromBuffer,
        merge_action(session) matches Action::Call(call) ==> call == RuntimeCall::GetVersion
            || session.gate() == Gate::Open,
        merge_action(session) is Return ==> session.gate() == Gate::Open,
        merge_action(session) is VersionMismatch <==> session.gate() == Gate::Refused,
{
}

/// A blob that the runtime finds incompatible is refused and never merged:
/// past the version gate, and whatever else the session holds, the merge
/// then returns the error without asking for the merge itself.
pub proof fn lemma_incompatible_blob_is_refused(session: Session, status: i32)
    requires
        session.gate() == Gate::Open,
        session.compatibility == Some(status),
        status != 0,
    ensures
        merge_action(session) == Action::<Result<(), IncompatibleCoverageData>>::Return(
            Err(IncompatibleCoverageData),
        ),
{
}

/// The merge itself is asked for only past the version gate and after the
/// compatibility check has reported 0.
pub proof fn lemma_merge_needs_compatibility(session: Session)
    requires
        merge_action(session) == Action::<Result<(), IncompatibleCoverageData>>::Call(
            RuntimeCall::MergeFromBuffer,
        ),
    ensures
        session.gate() == Gate::Open,
        session.compatibility == Some(0i32),
{
}

/// The course of a merge from a fresh session, each answer recorded as it
/// comes: the version, then the compatibility check, then the merge, then
/// the result; cut short by a runtime of another version, or by a blob that
/// is not compatible.
pub proof fn lemma_merge_run(version: u64, compatible: i32, merged: i32)
    ensures
        ({
            let s0 = Session::fresh();
            let s1 = s0.after(RuntimeReply::Version(version));
            let s2 = s1.after(RuntimeReply::Compatibility(compatible));
            let s3 = s2.after(RuntimeReply::Merged(merged));
            &&& merge_action(s0) == Action::<Result<(), IncompatibleCoverageData>>::Call(
                RuntimeCall::GetVersion,
            )
            &&& !version_matches(version) ==> merge_action(s1) == Action::<
                Result<(), IncompatibleCoverageData>,
            >::VersionMismatch
            &&& version_matches(version) ==> merge_action(s1) == Action::<
                Result<(), IncompatibleCoverageData>,
            >::Call(RuntimeCall::CheckCompatibility)
            &&& version_matches(version) && compatible != 0 ==> merge_action(s2) == Action::<
                Result<(), IncompatibleCoverageData>,
            >::Return(Err(IncompatibleCoverageData))
            &&& version_matches(version) && compatible == 0 ==> merge_action(s2) == Action::<
                Result<(), IncompatibleCoverageData>,
            >::Call(RuntimeCall::MergeFromBuffer)
            &&& version_matches(version) && compatible == 0 && merged == 0 ==> merge_action(s3)
                == Action::<Result<(), IncompatibleCoverageData>>::Return(Ok(()))
            &&& version_matches(version) && compatible == 0 && merged != 0 ==> merge_action(s3)
                == Action::<Result<(), IncompatibleCoverageData>>::Return(
                Err(IncompatibleCoverageData),
            )
        }),
{
}

} // verus!
