//! Reference-counted lifecycle guard around the one-time initialization and
//! teardown of the shared logging subsystem.
//!
//! However many front-end instances are alive at once, the subsystem is
//! initialized exactly when the instance counter rises from zero and torn
//! down exactly when it falls back to zero. Acquisition hands back an owned
//! token; releasing consumes it, so a single token cannot be released
//! twice.

use vstd::prelude::*;

use crate::logging::acquire_spec;
use crate::logging::lifecycle_wf;
use crate::logging::release_spec;
use crate::logging::Log;
use crate::logging::LogError;
use crate::logging::LogState;
use crate::logging::LogStateV;

verus! {

/// An owned token witnessing one live acquisition of the shared subsystem.
#[derive(Debug)]
pub struct LifecycleGuard;

impl LifecycleGuard {
    /// Acquire the guard: the instance counter rises by one, the rise from
    /// zero performs the one-time subsystem initialization, and the logger
    /// threshold is set for this front end.
    pub fn acquire(st: &mut LogState, prog_name: &str, threshold: Log) -> (r: Result<
        LifecycleGuard,
        LogError,
    >)
        requires
            old(st).count < u32::MAX,
        ensures
            r is Ok,
            final(st)@ == (LogStateV {
                threshold,
                prog_name: if old(st)@.count == 0 {
                    prog_name@
                } else {
                    old(st)@.prog_name
                },
                ..acquire_spec(old(st)@)
            }),
    {
        match Log::init(st, prog_name, threshold) {
            Ok(()) => Ok(LifecycleGuard),
            Err(e) => Err(e),
        }
    }

    /// Release the guard: the instance counter falls by one, and the fall
    /// to zero performs the subsystem teardown.
    pub fn release(self, st: &mut LogState)
        requires
            old(st).count >= 1,
        ensures
            final(st)@ == release_spec(old(st)@),
    {
        Log::drop(st);
    }
}

/// Two concurrent acquisitions paired with two releases leave the counter
/// at zero and trigger exactly one initialization and one teardown.
pub proof fn lemma_paired_acquire_release(v: LogStateV)
    requires
        v.count == 0,
    ensures
        ({
            let w = release_spec(release_spec(acquire_spec(acquire_spec(v))));
            &&& w.count == 0
            &&& w.inits == v.inits + 1
            &&& w.teardowns == v.teardowns + 1
        }),
{
}

/// Acquisition and release preserve the pairing of inits and teardowns:
/// teardown runs at most once per init, and exactly once for every init
/// whose acquisitions have all been released.
pub proof fn lemma_lifecycle_wf_preserved(v: LogStateV)
    requires
        lifecycle_wf(v),
    ensures
        lifecycle_wf(acquire_spec(v)),
        v.count >= 1 ==> lifecycle_wf(release_spec(v)),
{
}

} // verus!
