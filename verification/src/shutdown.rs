//! How a listener is told to stop.

use std::sync::atomic::AtomicBool;
use std::sync::atomic::Ordering;
use std::sync::Arc;
use vstd::prelude::*;

verus! {

/// Stops the listeners that watch its exit flag, once it is signalled or dropped.
pub struct Shutdown {
    exit_flag: Arc<AtomicBool>,
}

/// Calls `AtomicBool::store` with the relaxed ordering, for which it does not panic: the flag and
/// the value are handed to it as they are. What an atomic holds is not part of its value here, so
/// that a later load gives the value back is left unsaid.
#[verifier::external_body]
fn store_relaxed(flag: &AtomicBool, value: bool) -> (done: ())
    ensures
        call_ensures(AtomicBool::store, (flag, value, Ordering::Relaxed), done),
    opens_invariants none
    no_unwind
{
    flag.store(value, Ordering::Relaxed)
}

impl Drop for Shutdown {
    /// Raises the exit flag.
    fn drop(&mut self)
        ensures
            call_ensures(AtomicBool::store, (&*old(self).flag(), true, Ordering::Relaxed), ()),
            final(self).flag() == old(self).flag(),
        opens_invariants none
        no_unwind
    {
        store_relaxed(&*self.exit_flag, true);
    }
}

impl Shutdown {
    /// The flag that is raised.
    pub closed spec fn flag(self) -> Arc<AtomicBool> {
        self.exit_flag
    }

    /// A shutdown of the listeners that watch this flag.
    pub fn new(exit_flag: Arc<AtomicBool>) -> (shutdown: Shutdown)
        ensures
            shutdown.flag() == exit_flag,
    {
        Shutdown { exit_flag }
    }

    /// Signals shutdown: raises the exit flag and lets go of it.
    pub fn signal(self)
        ensures
            call_ensures(AtomicBool::store, (&*self.flag(), true, Ordering::Relaxed), ()),
    {
        // Letting go raises the flag too, but what `drop` ensures does not reach this contract.
        store_relaxed(&*self.exit_flag, true);
        let _dropped = self;
    }
}

} // verus!
