//! The cancellation flag.
//!
//! One boolean shared between the context that handles an interrupt and the
//! loop that waits. It starts out saying "keep running"; the only change it
//! can undergo is to be cleared, so once cleared it stays cleared. Every
//! access is sequentially consistent: a reading that follows a completed
//! `cancel` sees it.

use std::sync::atomic::AtomicBool;
use std::sync::atomic::Ordering;
use std::sync::Arc;
use vstd::prelude::*;

verus! {

/// Handle to the flag of one run. Clones share the flag.
#[derive(Clone, Debug)]
pub struct CancellationFlag {
    running: Arc<AtomicBool>,
}

impl CancellationFlag {
    /// A fresh flag that says "keep running".
    pub fn new() -> CancellationFlag {
        CancellationFlag { running: Arc::new(AtomicBool::new(true)) }
    }

    /// Clears the flag. Meant for the interrupt handler; safe to call more
    /// than once.
    pub fn cancel(&self) {
        self.running.store(false, Ordering::SeqCst);
    }

    /// Reads the flag: `true` until some holder has called `cancel`. The
    /// value depends on what other contexts did, so nothing is promised of
    /// it here; the wait takes it as an [`Event::Flag`](crate::wait::Event).
    pub fn is_running(&self) -> bool {
        self.running.load(Ordering::SeqCst)
    }
}

} // verus!
