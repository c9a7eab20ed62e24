//! Keeping the machine awake while a transfer runs: at most one guard is held,
//! acquiring is idempotent, and releasing drops the guard if there is one.
use vstd::prelude::*;

verus! {

/// Whether a guard that keeps the machine awake is held.
pub struct SleepLock {
    pub held: bool,
}

impl SleepLock {
    /// No guard held.
    pub fn new() -> (res: SleepLock)
        ensures
            !res.held,
    {
        SleepLock { held: false }
    }

    /// Records that a guard was started after [`acquire_sleep_lock`] asked
    /// for one.
    pub fn guard_started(&mut self)
        ensures
            final(self).held,
    {
        self.held = true;
    }
}

/// Acquiring starts a guard exactly when none is held.
pub open spec fn acquire_starts_guard(lock: SleepLock) -> bool {
    !lock.held
}

/// The lock after a release: nothing held.
pub open spec fn released(lock: SleepLock) -> SleepLock {
    SleepLock { held: false }
}

/// Whether acquiring must start a guard: only when none is held, so that
/// acquiring again while held does nothing.
pub fn acquire_sleep_lock(lock: &SleepLock) -> (start_guard: bool)
    ensures
        start_guard == acquire_starts_guard(*lock),
{
    !lock.held
}

/// Releases the lock: says whether there was a guard to stop, and leaves none
/// held.
pub fn release_sleep_lock(lock: &mut SleepLock) -> (had_guard: bool)
    ensures
        had_guard == old(lock).held,
        *final(lock) == released(*old(lock)),
{
    let had = lock.held;
    lock.held = false;
    had
}

/// Acquiring is idempotent: while a guard is held (as after
/// `guard_started`), acquiring again starts none; after a release, the next
/// acquire starts one again.
pub proof fn law_sleep_lock_idempotent(lock: SleepLock)
    ensures
        lock.held ==> !acquire_starts_guard(lock),
        acquire_starts_guard(released(lock)),
{
}

} // verus!
