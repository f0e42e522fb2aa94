use std::sync::atomic::{AtomicBool, Ordering};
use vstd::prelude::*;

verus! {

/// Where a thread stands in taking a spin lock.
#[derive(Debug, Clone, Copy, PartialEq, Eq, Structural)]
pub enum LockPhase {
    /// About to try the compare-and-swap that takes the lock.
    Attempt,
    /// Waiting, on relaxed reads, for the flag to clear.
    Wait,
    /// Holding the lock.
    Held,
}

/// The phase that follows `phase` once its step has observed `observed`: in
/// `Attempt`, whether the compare-and-swap won; in `Wait`, whether the flag
/// was still set. A lost attempt waits, and a cleared flag sends the thread
/// back to another attempt.
pub open spec fn lock_transition(phase: LockPhase, observed: bool) -> LockPhase {
    match phase {
        LockPhase::Attempt => if observed {
            LockPhase::Held
        } else {
            LockPhase::Wait
        },
        LockPhase::Wait => if observed {
            LockPhase::Wait
        } else {
            LockPhase::Attempt
        },
        LockPhase::Held => LockPhase::Held,
    }
}

/// A mutual-exclusion lock on one atomic flag, which is `true` exactly while
/// some thread holds the lock. The lock guards whatever its callers agree it
/// guards; it owns no data.
pub struct SpinLock {
    locked: AtomicBool,
}

impl SpinLock {
    /// A lock that nobody holds.
    pub fn new() -> Self {
        Self { locked: AtomicBool::new(false) }
    }

    /// One attempt to take the lock: a compare-and-swap of the flag from
    /// unlocked to locked, with acquire ordering when it succeeds, so that the
    /// writes of the previous holder are visible here. Returns whether the
    /// lock was taken; never waits.
    pub fn try_lock(&self) -> bool {
        self.locked.compare_exchange(false, true, Ordering::Acquire, Ordering::Relaxed).is_ok()
    }

    /// A relaxed read of the flag, for waiting on the lock without
    /// read-modify-write traffic; it orders no other memory access.
    pub fn is_locked(&self) -> bool {
        self.locked.load(Ordering::Relaxed)
    }

    /// The phase after `phase`, given what its step observed.
    pub fn next_phase(phase: LockPhase, observed: bool) -> (r: LockPhase)
        ensures
            r == lock_transition(phase, observed),
    {
        match phase {
            LockPhase::Attempt => if observed {
                LockPhase::Held
            } else {
                LockPhase::Wait
            },
            LockPhase::Wait => if observed {
                LockPhase::Wait
            } else {
                LockPhase::Attempt
            },
            LockPhase::Held => LockPhase::Held,
        }
    }

    /// One step of blocking acquisition. In `Attempt` it makes one
    /// compare-and-swap; in `Wait` one relaxed read, so that waiting issues no
    /// read-modify-write. Repeating it until `Held` takes the lock.
    pub fn lock_step(&self, phase: LockPhase) -> (r: LockPhase)
        ensures
            exists|observed: bool| r == lock_transition(phase, observed),
            r == LockPhase::Held ==> phase != LockPhase::Wait,
    {
        let observed = match phase {
            LockPhase::Attempt => self.try_lock(),
            LockPhase::Wait => self.is_locked(),
            LockPhase::Held => true,
        };
        Self::next_phase(phase, observed)
    }

    /// Releases the lock with release ordering, which pairs with the acquire
    /// of the next holder. Only the thread that holds the lock may call it.
    pub fn unlock(&self) {
        self.locked.store(false, Ordering::Release);
    }
}

} // verus!
