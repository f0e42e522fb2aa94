//! Lock-free synchronisation primitives: a spin lock on one atomic flag, and
//! a versioned cell that packs a value and its version into one atomic word
//! so that a compare-and-swap can tell "unchanged" from "changed and back".

pub mod cell;
pub mod history;
pub mod spinlock;
pub mod versioned;

pub use cell::VersionedAtomicCounter;
pub use spinlock::{LockPhase, SpinLock};
pub use versioned::{CasConflict, VersionedValue};
